use vstd::prelude::*;

use crate::snake::Direction;

verus! {

/// One cell of the terminal grid. `x` counts columns from the left edge and
/// `y` counts rows from the top edge, both starting at zero.
#[derive(Clone, Copy, PartialEq, Eq, Structural, Debug)]
pub struct Point {
    pub x: u16,
    pub y: u16,
}

impl Point {
    pub fn new(x: u16, y: u16) -> (p: Point)
        ensures
            p == (Point { x, y }),
    {
        Point { x, y }
    }

    /// Whether the neighbouring cell in direction `heading` still has
    /// coordinates that fit the coordinate type.
    pub open spec fn can_step(self, heading: Direction) -> bool {
        match heading {
            Direction::Up => self.y > 0,
            Direction::Down => self.y < u16::MAX,
            Direction::Left => self.x > 0,
            Direction::Right => self.x < u16::MAX,
        }
    }

    /// The neighbouring cell in direction `heading`. Rows grow downwards, so
    /// `Up` lowers `y`. Only meaningful where `can_step` holds.
    pub open spec fn stepped(self, heading: Direction) -> Point
        recommends
            self.can_step(heading),
    {
        match heading {
            Direction::Up => Point { x: self.x, y: (self.y - 1) as u16 },
            Direction::Down => Point { x: self.x, y: (self.y + 1) as u16 },
            Direction::Left => Point { x: (self.x - 1) as u16, y: self.y },
            Direction::Right => Point { x: (self.x + 1) as u16, y: self.y },
        }
    }

    /// The neighbouring cell in direction `heading`, for a cell that has one.
    pub fn neighbour(self, heading: Direction) -> (next: Point)
        requires
            self.can_step(heading),
        ensures
            next == self.stepped(heading),
    {
        match heading {
            Direction::Up => Point { x: self.x, y: self.y - 1 },
            Direction::Down => Point { x: self.x, y: self.y + 1 },
            Direction::Left => Point { x: self.x - 1, y: self.y },
            Direction::Right => Point { x: self.x + 1, y: self.y },
        }
    }

    /// Moves one cell in direction `heading`, without wrapping around: the
    /// result is `None` exactly when the neighbour's coordinates would leave
    /// the coordinate type.
    pub fn step(self, heading: Direction) -> (next: Option<Point>)
        ensures
            self.can_step(heading) ==> next == Some(self.stepped(heading)),
            !self.can_step(heading) ==> next.is_none(),
    {
        let fits = match heading {
            Direction::Up => self.y > 0,
            Direction::Down => self.y < u16::MAX,
            Direction::Left => self.x > 0,
            Direction::Right => self.x < u16::MAX,
        };
        if fits {
            Some(self.neighbour(heading))
        } else {
            None
        }
    }
}

} // verus!
