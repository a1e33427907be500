use vstd::prelude::*;
use crate::geometry::{HEIGHT, Point, WIDTH, occupies, on_wall};
use crate::game::{Game, GameView};

verus! {

/// What a cell of the frame shows.
#[derive(Clone, Copy, Debug, PartialEq, Eq, Structural)]
pub enum Cell {
    Snake,
    Food,
    Wall,
    Empty,
}

/// What the cell `(x, y)` shows: the snake over food, food over the wall.
pub open spec fn cell_spec(v: GameView, x: u16, y: u16) -> Cell {
    if occupies(v.body, x, y) {
        Cell::Snake
    } else if occupies(v.food, x, y) {
        Cell::Food
    } else if on_wall(Point { x, y }) {
        Cell::Wall
    } else {
        Cell::Empty
    }
}

/// The character drawn for a cell.
pub open spec fn glyph_spec(c: Cell) -> char {
    match c {
        Cell::Snake => 'O',
        Cell::Food => '*',
        Cell::Wall => '#',
        Cell::Empty => ' ',
    }
}

impl Cell {
    /// The character drawn for the cell.
    pub fn glyph(self) -> (r: char)
        ensures
            r == glyph_spec(self),
    {
        match self {
            Cell::Snake => 'O',
            Cell::Food => '*',
            Cell::Wall => '#',
            Cell::Empty => ' ',
        }
    }
}

impl Game {
    /// What the cell `(x, y)` shows.
    pub fn cell_at(&self, x: u16, y: u16) -> (r: Cell)
        ensures
            r == cell_spec(self@, x, y),
    {
        if self.is_snake(x, y) {
            Cell::Snake
        } else if self.is_food(x, y) {
            Cell::Food
        } else if (Point { x, y }).is_wall() {
            Cell::Wall
        } else {
            Cell::Empty
        }
    }

    /// The whole grid as rows of characters, top row first: `HEIGHT + 1`
    /// rows of `WIDTH + 1` cells, wall ring included.
    pub fn frame(&self) -> (rows: Vec<Vec<char>>)
        ensures
            rows@.len() == HEIGHT + 1,
            forall|y: int| 0 <= y <= HEIGHT ==> (#[trigger] rows@[y])@.len() == WIDTH + 1,
            forall|y: int, x: int|
                0 <= y <= HEIGHT && 0 <= x <= WIDTH ==> (#[trigger] rows@[y]@[x]) == glyph_spec(
                    cell_spec(self@, x as u16, y as u16),
                ),
    {
        let mut rows: Vec<Vec<char>> = Vec::new();
        let mut y: u16 = 0;
        while y <= HEIGHT
            invariant
                0 <= y <= HEIGHT + 1,
                rows@.len() == y,
                forall|j: int| 0 <= j < y ==> (#[trigger] rows@[j])@.len() == WIDTH + 1,
                forall|j: int, x: int|
                    0 <= j < y && 0 <= x <= WIDTH ==> (#[trigger] rows@[j]@[x]) == glyph_spec(
                        cell_spec(self@, x as u16, j as u16),
                    ),
            decreases HEIGHT + 1 - y,
        {
            let mut row: Vec<char> = Vec::new();
            let mut x: u16 = 0;
            while x <= WIDTH
                invariant
                    0 <= x <= WIDTH + 1,
                    0 <= y <= HEIGHT,
                    row@.len() == x,
                    forall|i: int| 0 <= i < x ==> (#[trigger] row@[i]) == glyph_spec(
                        cell_spec(self@, i as u16, y),
                    ),
                decreases WIDTH + 1 - x,
            {
                row.push(self.cell_at(x, y).glyph());
                x = x + 1;
            }
            rows.push(row);
            y = y + 1;
        }
        rows
    }
}

} // verus!
