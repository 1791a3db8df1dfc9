//! The direction a card moved through a door.

use vstd::prelude::*;

verus! {

/// Whether a card entered or left through a door.
#[derive(PartialEq, Eq, Structural, Clone, Copy, Debug)]
pub enum Direction {
    In,
    Out,
    Unknown,
}

impl Direction {
    /// The direction a wire byte stands for; bytes other than 1 and 2 carry
    /// no direction.
    pub open spec fn spec_from_byte(b: u8) -> Direction {
        if b == 1 {
            Direction::In
        } else if b == 2 {
            Direction::Out
        } else {
            Direction::Unknown
        }
    }

    pub fn from_byte(b: u8) -> (r: Direction)
        ensures
            r == Direction::spec_from_byte(b),
    {
        if b == 1 {
            Direction::In
        } else if b == 2 {
            Direction::Out
        } else {
            Direction::Unknown
        }
    }
}

} // verus!
