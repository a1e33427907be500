use vstd::prelude::*;
use crate::geometry::{Direction, Point, occupies, opposite_spec, step_spec};

verus! {

/// The body after one step towards `d`: a new head in front, the last segment gone.
pub open spec fn moved(body: Seq<Point>, d: Direction) -> Seq<Point> {
    seq![step_spec(body[0], d)] + body.drop_last()
}

/// The body with its tail cell repeated at the end.
pub open spec fn grown(body: Seq<Point>) -> Seq<Point> {
    body.push(body.last())
}

/// The heading after a request for `requested`: kept when the request reverses it.
pub open spec fn turned(current: Direction, requested: Direction) -> Direction {
    if requested == opposite_spec(current) {
        current
    } else {
        requested
    }
}

/// A snake: its body, head first, and its heading.
pub struct Snake {
    body: Vec<Point>,
    direction: Direction,
}

impl View for Snake {
    type V = (Seq<Point>, Direction);

    closed spec fn view(&self) -> (Seq<Point>, Direction) {
        (self.body@, self.direction)
    }
}

impl Snake {
    /// A snake never loses its last segment.
    pub open spec fn wf(&self) -> bool {
        self@.0.len() >= 1
    }

    /// A snake of one segment at `(start_x, start_y)`, heading right.
    pub fn new(start_x: u16, start_y: u16) -> (s: Snake)
        ensures
            s@.0 == seq![Point { x: start_x, y: start_y }],
            s@.1 == Direction::Right,
            s.wf(),
    {
        let mut body: Vec<Point> = Vec::new();
        body.push(Point { x: start_x, y: start_y });
        Snake { body, direction: Direction::Right }
    }

    /// The segments, head first.
    pub fn body(&self) -> (r: &Vec<Point>)
        ensures
            r@ == self@.0,
    {
        &self.body
    }

    /// The heading.
    pub fn direction(&self) -> (r: Direction)
        ensures
            r == self@.1,
    {
        self.direction
    }

    /// The number of segments.
    pub fn len(&self) -> (r: usize)
        ensures
            r == self@.0.len(),
    {
        self.body.len()
    }

    /// The first segment.
    pub fn head(&self) -> (r: Point)
        requires
            self.wf(),
        ensures
            r == self@.0[0],
    {
        self.body[0]
    }

    /// Whether the head lies on one of the other segments.
    pub fn bites_itself(&self) -> (r: bool)
        requires
            self.wf(),
        ensures
            r == occupies(self@.0.drop_first(), self@.0[0].x, self@.0[0].y),
    {
        let head = self.body[0];
        let mut i: usize = 1;
        while i < self.body.len()
            invariant
                1 <= i <= self@.0.len(),
                head == self@.0[0],
                forall|j: int| 1 <= j < i ==> self@.0[j] != head,
            decreases self@.0.len() - i,
        {
            if self.body[i] == head {
                assert(self@.0.drop_first()[i - 1] == head);
                return true;
            }
            i = i + 1;
        }
        proof {
            assert forall|j: int| 0 <= j < self@.0.drop_first().len() implies self@.0.drop_first()[j]
                != (Point { x: head.x, y: head.y }) by {
                assert(self@.0.drop_first()[j] == self@.0[j + 1]);
            }
        }
        false
    }

    /// Moves one cell along the heading: the new head goes in front and the
    /// last segment is dropped, so the length stays as it was.
    pub fn move_forward(&mut self)
        requires
            old(self).wf(),
        ensures
            final(self).wf(),
            final(self)@.0 == moved(old(self)@.0, old(self)@.1),
            final(self)@.0.len() == old(self)@.0.len(),
            final(self)@.0[0] == step_spec(old(self)@.0[0], old(self)@.1),
            final(self)@.1 == old(self)@.1,
    {
        let head = self.body[0];
        let new_head = head.step(self.direction);
        self.body.insert(0, new_head);
        self.body.pop();
        assert(self.body@ =~= moved(old(self)@.0, old(self)@.1));
    }

    /// Repeats the tail cell at the end, so that the next move carries it on
    /// as a real segment.
    pub fn grow(&mut self)
        requires
            old(self).wf(),
        ensures
            final(self).wf(),
            final(self)@.0 == grown(old(self)@.0),
            final(self)@.0.len() == old(self)@.0.len() + 1,
            final(self)@.1 == old(self)@.1,
    {
        let tail = self.body[self.body.len() - 1];
        self.body.push(tail);
    }

    /// Takes `new_direction` as the heading unless it is the opposite of the
    /// current one, in which case nothing changes.
    pub fn change_direction(&mut self, new_direction: Direction)
        ensures
            final(self)@.1 == turned(old(self)@.1, new_direction),
            final(self)@.0 == old(self)@.0,
            (final(self)@ == old(self)@) <==> (new_direction == opposite_spec(old(self)@.1)
                || new_direction == old(self)@.1),
    {
        if new_direction != self.direction.opposite() {
            self.direction = new_direction;
        }
    }
}

/// Growing and then moving leaves the snake one segment longer than before it grew.
pub proof fn lemma_grow_then_move(body: Seq<Point>, d: Direction)
    requires
        body.len() >= 1,
    ensures
        moved(grown(body), d).len() == body.len() + 1,
        moved(grown(body), d)[0] == step_spec(body[0], d),
        moved(grown(body), d).drop_first() == body,
{
    assert(moved(grown(body), d).drop_first() =~= body);
}

} // verus!
