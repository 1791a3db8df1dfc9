//! Events: what happened at a door, when, and why.

use vstd::prelude::*;
use crate::calendar::Timestamp;
use crate::error::UhppoteError;
use crate::messages::get_event::GetEventResponse;
use crate::types::direction::Direction;

verus! {

/// The broad kind of a recorded event. Bytes outside the catalog count as no
/// event, as does byte zero.
#[derive(PartialEq, Eq, Structural, Clone, Copy, Debug)]
pub enum EventType {
    NoEvent,
    Swipe,
    Door,
    Alarm,
    Overwritten,
}

impl EventType {
    /// The event kind a wire byte stands for.
    pub open spec fn spec_from_byte(b: u8) -> EventType {
        if b == 1 {
            EventType::Swipe
        } else if b == 2 {
            EventType::Door
        } else if b == 3 {
            EventType::Alarm
        } else if b == 255 {
            EventType::Overwritten
        } else {
            EventType::NoEvent
        }
    }

    pub fn from_byte(b: u8) -> (r: EventType)
        ensures
            r == EventType::spec_from_byte(b),
    {
        if b == 1 {
            EventType::Swipe
        } else if b == 2 {
            EventType::Door
        } else if b == 3 {
            EventType::Alarm
        } else if b == 255 {
            EventType::Overwritten
        } else {
            EventType::NoEvent
        }
    }
}

/// Why an event was recorded. Bytes outside the catalog count as no reason,
/// as does byte zero.
#[derive(PartialEq, Eq, Structural, Clone, Copy, Debug)]
pub enum EventReason {
    NoReason,
    Swipe,
    Denied,
    NoAccessRights,
    IncorrectPassword,
    AntiPassback,
    MoreCards,
    FirstCardOpen,
    DoorIsNormallyClosed,
    Interlock,
    NotInAllowedTimePeriod,
    InvalidTimeZone,
    AccessDenied,
    PushButtonOk,
    DoorOpen,
    DoorClosed,
    DoorOpenedSupervisorPassword,
    ControllerPowerOn,
    ControllerReset,
    PushbuttonInvalidDoorLocked,
    PushbuttonInvalidDoorOffline,
    PushbuttonInvalidDoorInterlock,
    PushbuttonInvalidDoorThreat,
    DoorOpenTooLong,
    ForcedOpen,
    Fire,
    ForcedClosed,
    TheftPrevention,
    TwentyFourSevenZone,
    Emergency,
    RemoteOpenDoor,
    RemoteOpenDoorUsbReader,
}

impl EventReason {
    /// The reason a wire byte stands for.
    pub open spec fn spec_from_byte(b: u8) -> EventReason {
        if b == 1 {
            EventReason::Swipe
        } else if b == 5 {
            EventReason::Denied
        } else if b == 6 {
            EventReason::NoAccessRights
        } else if b == 7 {
            EventReason::IncorrectPassword
        } else if b == 8 {
            EventReason::AntiPassback
        } else if b == 9 {
            EventReason::MoreCards
        } else if b == 10 {
            EventReason::FirstCardOpen
        } else if b == 11 {
            EventReason::DoorIsNormallyClosed
        } else if b == 12 {
            EventReason::Interlock
        } else if b == 13 {
            EventReason::NotInAllowedTimePeriod
        } else if b == 15 {
            EventReason::InvalidTimeZone
        } else if b == 18 {
            EventReason::AccessDenied
        } else if b == 20 {
            EventReason::PushButtonOk
        } else if b == 23 {
            EventReason::DoorOpen
        } else if b == 24 {
            EventReason::DoorClosed
        } else if b == 25 {
            EventReason::DoorOpenedSupervisorPassword
        } else if b == 28 {
            EventReason::ControllerPowerOn
        } else if b == 29 {
            EventReason::ControllerReset
        } else if b == 31 {
            EventReason::PushbuttonInvalidDoorLocked
        } else if b == 32 {
            EventReason::PushbuttonInvalidDoorOffline
        } else if b == 33 {
            EventReason::PushbuttonInvalidDoorInterlock
        } else if b == 34 {
            EventReason::PushbuttonInvalidDoorThreat
        } else if b == 37 {
            EventReason::DoorOpenTooLong
        } else if b == 38 {
            EventReason::ForcedOpen
        } else if b == 39 {
            EventReason::Fire
        } else if b == 40 {
            EventReason::ForcedClosed
        } else if b == 41 {
            EventReason::TheftPrevention
        } else if b == 42 {
            EventReason::TwentyFourSevenZone
        } else if b == 43 {
            EventReason::Emergency
        } else if b == 44 {
            EventReason::RemoteOpenDoor
        } else if b == 45 {
            EventReason::RemoteOpenDoorUsbReader
        } else {
            EventReason::NoReason
        }
    }

    pub fn from_byte(b: u8) -> (r: EventReason)
        ensures
            r == EventReason::spec_from_byte(b),
    {
        if b == 1 {
            EventReason::Swipe
        } else if b == 5 {
            EventReason::Denied
        } else if b == 6 {
            EventReason::NoAccessRights
        } else if b == 7 {
            EventReason::IncorrectPassword
        } else if b == 8 {
            EventReason::AntiPassback
        } else if b == 9 {
            EventReason::MoreCards
        } else if b == 10 {
            EventReason::FirstCardOpen
        } else if b == 11 {
            EventReason::DoorIsNormallyClosed
        } else if b == 12 {
            EventReason::Interlock
        } else if b == 13 {
            EventReason::NotInAllowedTimePeriod
        } else if b == 15 {
            EventReason::InvalidTimeZone
        } else if b == 18 {
            EventReason::AccessDenied
        } else if b == 20 {
            EventReason::PushButtonOk
        } else if b == 23 {
            EventReason::DoorOpen
        } else if b == 24 {
            EventReason::DoorClosed
        } else if b == 25 {
            EventReason::DoorOpenedSupervisorPassword
        } else if b == 28 {
            EventReason::ControllerPowerOn
        } else if b == 29 {
            EventReason::ControllerReset
        } else if b == 31 {
            EventReason::PushbuttonInvalidDoorLocked
        } else if b == 32 {
            EventReason::PushbuttonInvalidDoorOffline
        } else if b == 33 {
            EventReason::PushbuttonInvalidDoorInterlock
        } else if b == 34 {
            EventReason::PushbuttonInvalidDoorThreat
        } else if b == 37 {
            EventReason::DoorOpenTooLong
        } else if b == 38 {
            EventReason::ForcedOpen
        } else if b == 39 {
            EventReason::Fire
        } else if b == 40 {
            EventReason::ForcedClosed
        } else if b == 41 {
            EventReason::TheftPrevention
        } else if b == 42 {
            EventReason::TwentyFourSevenZone
        } else if b == 43 {
            EventReason::Emergency
        } else if b == 44 {
            EventReason::RemoteOpenDoor
        } else if b == 45 {
            EventReason::RemoteOpenDoorUsbReader
        } else {
            EventReason::NoReason
        }
    }
}

/// An event a controller recorded: who moved through which door, when, and
/// with what outcome.
#[derive(PartialEq, Eq, Structural, Clone, Copy, Debug)]
pub struct Event {
    pub timestamp: Timestamp,
    pub index: u32,
    pub event_type: EventType,
    pub granted: bool,
    pub door: u8,
    pub direction: Direction,
    pub card_number: u32,
    pub reason: EventReason,
}

impl GetEventResponse {
    /// The event record this response reports, its wire bytes mapped to their
    /// domain values; fails when the timestamp field is no real timestamp.
    pub fn to_event(&self) -> (r: Result<Event, UhppoteError>)
        ensures
            r is Ok <==> self.timestamp.spec_to_timestamp() is Ok,
            self.timestamp.spec_to_timestamp() matches Ok(ts) ==> r == Ok::<Event, UhppoteError>(
                Event {
                    timestamp: ts,
                    index: self.index,
                    event_type: EventType::spec_from_byte(self.type_),
                    granted: self.granted,
                    door: self.door,
                    direction: Direction::spec_from_byte(self.direction),
                    card_number: self.card_number,
                    reason: EventReason::spec_from_byte(self.reason),
                },
            ),
            self.timestamp.spec_to_timestamp() matches Err(e) ==> r == Err::<Event, UhppoteError>(
                e,
            ),
    {
        let timestamp = match self.timestamp.to_timestamp() {
            Ok(ts) => ts,
            Err(e) => {
                return Err(e);
            },
        };
        Ok(Event {
            timestamp,
            index: self.index,
            event_type: EventType::from_byte(self.type_),
            granted: self.granted,
            door: self.door,
            direction: Direction::from_byte(self.direction),
            card_number: self.card_number,
            reason: EventReason::from_byte(self.reason),
        })
    }
}

} // verus!
