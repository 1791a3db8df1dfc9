//! How a door is held: its control mode and open delay.

use vstd::prelude::*;
use crate::messages::get_door_control_state::GetDoorControlStateResponse;
use crate::messages::set_door_control_state::SetDoorControlStateResponse;

verus! {

/// A door's control mode as the protocol numbers it: 1 normally open, 2
/// normally closed, 3 controlled.
#[derive(PartialEq, Eq, Structural, Clone, Copy, Debug)]
pub enum DoorControlMode {
    NormallyOpen,
    NormallyClosed,
    Controlled,
    Unknown,
}

impl DoorControlMode {
    pub open spec fn spec_from_byte(b: u8) -> DoorControlMode {
        if b == 1 {
            DoorControlMode::NormallyOpen
        } else if b == 2 {
            DoorControlMode::NormallyClosed
        } else if b == 3 {
            DoorControlMode::Controlled
        } else {
            DoorControlMode::Unknown
        }
    }

    pub fn from_byte(b: u8) -> (r: DoorControlMode)
        ensures
            r == DoorControlMode::spec_from_byte(b),
    {
        if b == 1 {
            DoorControlMode::NormallyOpen
        } else if b == 2 {
            DoorControlMode::NormallyClosed
        } else if b == 3 {
            DoorControlMode::Controlled
        } else {
            DoorControlMode::Unknown
        }
    }

    /// The wire byte of a mode; `Unknown` never travels on the wire and maps
    /// to the first byte outside the mode range.
    pub open spec fn spec_byte(self) -> u8 {
        match self {
            DoorControlMode::NormallyOpen => 1,
            DoorControlMode::NormallyClosed => 2,
            DoorControlMode::Controlled => 3,
            DoorControlMode::Unknown => 4,
        }
    }

    pub fn as_byte(self) -> (r: u8)
        ensures
            r == self.spec_byte(),
    {
        match self {
            DoorControlMode::NormallyOpen => 1,
            DoorControlMode::NormallyClosed => 2,
            DoorControlMode::Controlled => 3,
            DoorControlMode::Unknown => 4,
        }
    }
}

/// A door's control mode together with its open delay in seconds.
#[derive(PartialEq, Eq, Structural, Clone, Copy, Debug)]
pub struct DoorControl {
    pub mode: DoorControlMode,
    pub delay: u8,
}

impl GetDoorControlStateResponse {
    /// The door-control record this response reports.
    pub fn to_door_control(&self) -> (r: DoorControl)
        ensures
            r.mode == DoorControlMode::spec_from_byte(self.control_state),
            r.delay == self.delay,
    {
        DoorControl { mode: DoorControlMode::from_byte(self.control_state), delay: self.delay }
    }
}

impl SetDoorControlStateResponse {
    /// The door-control record this response echoes back.
    pub fn to_door_control(&self) -> (r: DoorControl)
        ensures
            r.mode == DoorControlMode::spec_from_byte(self.control_state),
            r.delay == self.delay,
    {
        DoorControl { mode: DoorControlMode::from_byte(self.control_state), delay: self.delay }
    }
}

} // verus!
