use vstd::prelude::*;

verus! {

/// Which side of the robot (or of a track turn) something is on.
#[derive(Debug, Clone, Copy, PartialEq, Eq, Structural)]
pub enum Side {
    Left,
    Right,
}

impl Side {
    /// `1` for the left side, `-1` for the right side.
    pub open spec fn sign_spec(self) -> int {
        match self {
            Side::Left => 1,
            Side::Right => -1,
        }
    }

    pub fn sign(&self) -> (r: i64)
        ensures
            r as int == self.sign_spec(),
    {
        match self {
            Side::Left => 1,
            Side::Right => -1,
        }
    }
}

} // verus!
