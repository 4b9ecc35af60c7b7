use vstd::prelude::*;

use crate::point::Point;

verus! {

/// The direction in which the snake's head moves on the next tick.
#[derive(Clone, Copy, PartialEq, Eq, Structural, Debug)]
pub enum Direction {
    Up,
    Down,
    Left,
    Right,
}

/// The snake: the cells it occupies, head first, and its current heading.
#[derive(Clone, Debug)]
pub struct Snake {
    pub body: Vec<Point>,
    pub direction: Direction,
}

impl Snake {
    /// A snake always has a head.
    pub open spec fn wf(self) -> bool {
        self.body@.len() >= 1
    }

    /// The head is the first segment.
    pub open spec fn head(self) -> Point
        recommends
            self.wf(),
    {
        self.body@[0]
    }

    /// The cell at the integer midpoint of a `width` by `height` field.
    pub open spec fn centre(width: u16, height: u16) -> Point {
        Point { x: width / 2, y: height / 2 }
    }

    /// The segments after one move in direction `heading`: the new head goes
    /// in front, and the last segment leaves unless the snake grew.
    pub open spec fn advanced_body(body: Seq<Point>, heading: Direction, grew: bool) -> Seq<Point>
        recommends
            body.len() >= 1,
    {
        let kept = if grew {
            body
        } else {
            body.drop_last()
        };
        seq![body[0].stepped(heading)] + kept
    }

    /// Whether the head of `body` lies on one of the other segments.
    pub open spec fn collides(body: Seq<Point>) -> bool {
        exists|i: int| 1 <= i < body.len() && #[trigger] body[i] == body[0]
    }

    /// A snake of one segment at the centre of the field, heading right.
    pub fn new(width: u16, height: u16) -> (snake: Snake)
        ensures
            snake.body@ == seq![Self::centre(width, height)],
            snake.direction == Direction::Right,
            snake.wf(),
    {
        let start = Point { x: width / 2, y: height / 2 };
        let mut body: Vec<Point> = Vec::new();
        body.push(start);
        assert(body@ =~= seq![start]);
        Snake { body, direction: Direction::Right }
    }

    pub fn get_head(&self) -> (head: &Point)
        requires
            self.wf(),
        ensures
            *head == self.head(),
    {
        &self.body[0]
    }

    /// Whether some segment of the snake lies on `cell`.
    pub fn occupies(&self, cell: Point) -> (found: bool)
        ensures
            found == self.body@.contains(cell),
    {
        let mut i: usize = 0;
        while i < self.body.len()
            invariant
                i <= self.body@.len(),
                forall|j: int| 0 <= j < i ==> self.body@[j] != cell,
            decreases self.body@.len() - i,
        {
            if self.body[i] == cell {
                return true;
            }
            i += 1;
        }
        false
    }

    /// Moves the snake one cell in direction `heading`. With `grew` the tail
    /// stays where it is and the snake is one segment longer; without it the
    /// tail follows and the length stays the same. The snake's own heading
    /// is left as it was.
    pub fn advance(&mut self, heading: Direction, grew: bool)
        requires
            old(self).wf(),
            old(self).head().can_step(heading),
        ensures
            final(self).body@ == Self::advanced_body(old(self).body@, heading, grew),
            final(self).direction == old(self).direction,
            final(self).wf(),
            final(self).head() == old(self).head().stepped(heading),
            !grew ==> final(self).body@.len() == old(self).body@.len(),
            grew ==> final(self).body@.len() == old(self).body@.len() + 1,
    {
        let head = self.body[0];
        let next = head.neighbour(heading);
        if !grew {
            self.body.pop();
        }
        self.body.insert(0, next);
        assert(self.body@ =~= Self::advanced_body(old(self).body@, heading, grew));
    }

    /// Whether the head has run into the rest of the body.
    pub fn self_collision(&self) -> (hit: bool)
        requires
            self.wf(),
        ensures
            hit == Self::collides(self.body@),
    {
        let head = self.body[0];
        let mut i: usize = 1;
        while i < self.body.len()
            invariant
                1 <= i <= self.body@.len(),
                head == self.body@[0],
                forall|j: int| 1 <= j < i ==> self.body@[j] != head,
            decreases self.body@.len() - i,
        {
            if self.body[i] == head {
                return true;
            }
            i += 1;
        }
        false
    }
}

/// A move whose target cell is a segment that is still in place afterwards
/// is a self-collision. Every segment but the head qualifies when the snake
/// grows; when it does not, the last segment moves away in the same tick and
/// is left out.
pub proof fn lemma_moving_onto_body_collides(
    body: Seq<Point>,
    heading: Direction,
    grew: bool,
    i: int,
)
    requires
        1 <= i < body.len(),
        grew || i < body.len() - 1,
        body[i] == body[0].stepped(heading),
    ensures
        Snake::collides(Snake::advanced_body(body, heading, grew)),
{
    let after = Snake::advanced_body(body, heading, grew);
    assert(after[i + 1] == after[0]);
}

/// A body in which no cell occurs twice does not collide with itself.
pub proof fn lemma_distinct_body_is_safe(body: Seq<Point>)
    requires
        body.no_duplicates(),
    ensures
        !Snake::collides(body),
{
}

/// Turning straight back is allowed, and it runs the head into the second
/// segment: the move is a self-collision as soon as that segment is still in
/// place afterwards, which it is for a growing snake and for any snake of
/// three or more segments.
pub proof fn lemma_reversal_collides(body: Seq<Point>, heading: Direction, grew: bool)
    requires
        body.len() >= 2,
        grew || body.len() >= 3,
        body[1] == body[0].stepped(heading),
    ensures
        Snake::collides(Snake::advanced_body(body, heading, grew)),
{
    lemma_moving_onto_body_collides(body, heading, grew, 1);
}

} // verus!
