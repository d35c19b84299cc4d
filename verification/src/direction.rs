use vstd::prelude::*;

verus! {

/// One of the four ways the snake can travel. Rows grow downwards, so `Up`
/// lowers the row.
#[derive(Clone, Copy, Debug, PartialEq, Eq, Structural)]
pub enum Direction {
    Up,
    Down,
    Left,
    Right,
}

impl Direction {
    /// The direction that would turn the head straight back into the neck.
    pub open spec fn spec_opposite(self) -> Direction {
        match self {
            Direction::Up => Direction::Down,
            Direction::Down => Direction::Up,
            Direction::Left => Direction::Right,
            Direction::Right => Direction::Left,
        }
    }

    /// Change of column made by one step.
    pub open spec fn dx(self) -> int {
        match self {
            Direction::Left => -1,
            Direction::Right => 1,
            _ => 0,
        }
    }

    /// Change of row made by one step.
    pub open spec fn dy(self) -> int {
        match self {
            Direction::Up => -1,
            Direction::Down => 1,
            _ => 0,
        }
    }

    /// The direction travelled after `request` has been considered: the
    /// request, unless it is the exact reverse of `self`.
    pub open spec fn spec_turn(self, request: Direction) -> Direction {
        if request == self.spec_opposite() {
            self
        } else {
            request
        }
    }

    /// The direction asked for by the keys that went down in one frame. When
    /// several did, the first of up, right, left, down wins.
    pub open spec fn spec_from_keys(up: bool, right: bool, left: bool, down: bool) -> Option<
        Direction,
    > {
        if up {
            Some(Direction::Up)
        } else if right {
            Some(Direction::Right)
        } else if left {
            Some(Direction::Left)
        } else if down {
            Some(Direction::Down)
        } else {
            None
        }
    }

    /// The direction that would turn the head straight back into the neck.
    #[verifier::when_used_as_spec(spec_opposite)]
    pub fn opposite(self) -> (r: Direction)
        ensures
            r == self.spec_opposite(),
            r != self,
            r.spec_opposite() == self,
    {
        match self {
            Direction::Up => Direction::Down,
            Direction::Down => Direction::Up,
            Direction::Left => Direction::Right,
            Direction::Right => Direction::Left,
        }
    }

    /// The column and row change of one step, as a pair.
    pub fn offset(self) -> (r: (i32, i32))
        ensures
            r.0 == self.dx(),
            r.1 == self.dy(),
    {
        match self {
            Direction::Up => (0, -1),
            Direction::Down => (0, 1),
            Direction::Left => (-1, 0),
            Direction::Right => (1, 0),
        }
    }

    /// The direction travelled after `request` has been considered: the
    /// request, unless it is the exact reverse of `self`.
    #[verifier::when_used_as_spec(spec_turn)]
    pub fn turn(self, request: Direction) -> (r: Direction)
        ensures
            r == self.spec_turn(request),
    {
        if request == self.opposite() {
            self
        } else {
            request
        }
    }

    /// The direction asked for by the keys that went down in one frame.
    #[verifier::when_used_as_spec(spec_from_keys)]
    pub fn from_keys(up: bool, right: bool, left: bool, down: bool) -> (r: Option<Direction>)
        ensures
            r == Self::spec_from_keys(up, right, left, down),
    {
        if up {
            Some(Direction::Up)
        } else if right {
            Some(Direction::Right)
        } else if left {
            Some(Direction::Left)
        } else if down {
            Some(Direction::Down)
        } else {
            None
        }
    }
}

} // verus!
