use vstd::prelude::*;

verus! {

/// Width of the play field: columns run from 0 to `WIDTH`, both on the wall.
pub const WIDTH: u16 = 40;

/// Height of the play field: rows run from 0 to `HEIGHT`, both on the wall.
pub const HEIGHT: u16 = 20;

/// A cell of the grid.
#[derive(Clone, Copy, Debug, PartialEq, Eq, Structural)]
pub struct Point {
    pub x: u16,
    pub y: u16,
}

/// A heading of the snake.
#[derive(Clone, Copy, Debug, PartialEq, Eq, Structural)]
pub enum Direction {
    Up,
    Down,
    Left,
    Right,
}

/// The direction that points the other way.
pub open spec fn opposite_spec(d: Direction) -> Direction {
    match d {
        Direction::Up => Direction::Down,
        Direction::Down => Direction::Up,
        Direction::Left => Direction::Right,
        Direction::Right => Direction::Left,
    }
}

/// The cell one step from `p` towards `d`; a coordinate stays within `u16`
/// (at 0 it does not go lower, at `u16::MAX` it does not go higher).
pub open spec fn step_spec(p: Point, d: Direction) -> Point {
    match d {
        Direction::Up => Point { x: p.x, y: if p.y == 0 { 0 } else { (p.y - 1) as u16 } },
        Direction::Down => Point { x: p.x, y: if p.y == u16::MAX { p.y } else { (p.y + 1) as u16 } },
        Direction::Left => Point { x: if p.x == 0 { 0 } else { (p.x - 1) as u16 }, y: p.y },
        Direction::Right => Point { x: if p.x == u16::MAX { p.x } else { (p.x + 1) as u16 }, y: p.y },
    }
}

/// A cell strictly inside the wall.
pub open spec fn interior(p: Point) -> bool {
    1 <= p.x < WIDTH && 1 <= p.y < HEIGHT
}

/// A cell on the wall ring, or beyond it.
pub open spec fn on_wall(p: Point) -> bool {
    p.x == 0 || p.y == 0 || p.x == WIDTH || p.y == HEIGHT
}

/// Whether some element of `s` is the cell `(x, y)`.
pub open spec fn occupies(s: Seq<Point>, x: u16, y: u16) -> bool {
    exists|i: int| 0 <= i < s.len() && s[i] == (Point { x, y })
}

impl Direction {
    /// The direction that points the other way.
    pub fn opposite(self) -> (r: Direction)
        ensures
            r == opposite_spec(self),
    {
        match self {
            Direction::Up => Direction::Down,
            Direction::Down => Direction::Up,
            Direction::Left => Direction::Right,
            Direction::Right => Direction::Left,
        }
    }
}

impl Point {
    /// The cell one step from `self` towards `d`, saturating at the ends of `u16`.
    pub fn step(self, d: Direction) -> (r: Point)
        ensures
            r == step_spec(self, d),
    {
        match d {
            Direction::Up => Point { x: self.x, y: self.y.saturating_sub(1) },
            Direction::Down => Point { x: self.x, y: self.y.saturating_add(1) },
            Direction::Left => Point { x: self.x.saturating_sub(1), y: self.y },
            Direction::Right => Point { x: self.x.saturating_add(1), y: self.y },
        }
    }

    /// Whether the cell lies on the wall ring.
    pub fn is_wall(self) -> (r: bool)
        ensures
            r == on_wall(self),
    {
        self.x == 0 || self.y == 0 || self.x == WIDTH || self.y == HEIGHT
    }
}

/// Whether some element of `s` is the cell `(x, y)`.
pub fn contains_cell(s: &Vec<Point>, x: u16, y: u16) -> (r: bool)
    ensures
        r == occupies(s@, x, y),
{
    let mut i: usize = 0;
    while i < s.len()
        invariant
            0 <= i <= s@.len(),
            forall|j: int| 0 <= j < i ==> s@[j] != (Point { x, y }),
        decreases s@.len() - i,
    {
        if s[i].x == x && s[i].y == y {
            return true;
        }
        i = i + 1;
    }
    false
}

} // verus!
