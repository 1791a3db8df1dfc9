//! A controller's status record, and the unsolicited pushes built from it.

use vstd::prelude::*;
use crate::calendar::{Date, Time};
use crate::error::UhppoteError;
use crate::messages::get_status::GetStatusResponse;
use crate::types::direction::Direction;
use crate::types::event::{Event, EventReason, EventType};

verus! {

/// A controller's status: its clock, per-door state, relay and input
/// bitmaps, and its last recorded event if it has one.
#[derive(Clone, Debug)]
pub struct Status {
    pub device_id: u32,
    pub system_time: Time,
    pub system_date: Date,
    pub doors: Vec<bool>,
    pub buttons: Vec<bool>,
    pub relay_state: u8,
    pub input_state: u8,
    pub system_error: u8,
    pub special_info: u8,
    pub sequence_number: u32,
    pub last_event: Option<Event>,
}

impl GetStatusResponse {
    /// The event record carried inside a status frame (meaningful when the
    /// event index is non-zero and the timestamp converts).
    pub open spec fn spec_event(self) -> Event {
        Event {
            timestamp: self.timestamp.spec_timestamp(),
            index: self.event_index,
            event_type: EventType::spec_from_byte(self.event_type),
            granted: self.granted,
            door: self.door,
            direction: Direction::spec_from_byte(self.direction),
            card_number: self.card_number,
            reason: EventReason::spec_from_byte(self.reason),
        }
    }

    /// Whether this response converts to a status record: its clock fields
    /// must be real, and, when an event is present, the event's timestamp
    /// too.
    pub open spec fn status_convertible(self) -> bool {
        &&& (self.event_index == 0 || self.timestamp.spec_to_timestamp() is Ok)
        &&& self.system_time.spec_to_time() is Ok
        &&& self.system_date.spec_to_date() is Ok
    }

    /// The error the conversion reports: the event timestamp is judged
    /// first, then the system time, then the system date.
    pub open spec fn spec_status_error(self) -> UhppoteError
        recommends
            !self.status_convertible(),
    {
        if self.event_index != 0 && self.timestamp.spec_to_timestamp() is Err {
            self.timestamp.spec_to_timestamp()->Err_0
        } else if self.system_time.spec_to_time() is Err {
            self.system_time.spec_to_time()->Err_0
        } else {
            self.system_date.spec_to_date()->Err_0
        }
    }
}

/// The status record `st` is the faithful reading of the response `resp`:
/// every field carried over, the clock converted, and the last event present
/// exactly when the response's event index is non-zero.
pub open spec fn status_of_response(st: Status, resp: GetStatusResponse) -> bool {
    &&& st.device_id == resp.device_id
    &&& Ok::<Time, UhppoteError>(st.system_time) == resp.system_time.spec_to_time()
    &&& Ok::<Date, UhppoteError>(st.system_date) == resp.system_date.spec_to_date()
    &&& st.doors@ == seq![resp.door1_state, resp.door2_state, resp.door3_state, resp.door4_state]
    &&& st.buttons@ == seq![
        resp.door1_button,
        resp.door2_button,
        resp.door3_button,
        resp.door4_button,
    ]
    &&& st.relay_state == resp.relay_state
    &&& st.input_state == resp.input_state
    &&& st.system_error == resp.system_error
    &&& st.special_info == resp.special_info
    &&& st.sequence_number == resp.sequence_id
    &&& (resp.event_index == 0 ==> st.last_event is None)
    &&& (resp.event_index != 0 ==> st.last_event == Some(resp.spec_event()))
}

impl GetStatusResponse {
    /// The status record this response reports. A zero event index means the
    /// controller has no last event; any other value carries one, whose
    /// timestamp must then be real.
    pub fn to_status(&self) -> (r: Result<Status, UhppoteError>)
        ensures
            r is Ok <==> self.status_convertible(),
            r matches Ok(st) ==> status_of_response(st, *self),
            r is Err ==> r == Err::<Status, UhppoteError>(self.spec_status_error()),
    {
        let last_event = if self.event_index == 0 {
            None
        } else {
            let timestamp = match self.timestamp.to_timestamp() {
                Ok(ts) => ts,
                Err(e) => {
                    return Err(e);
                },
            };
            Some(
                Event {
                    timestamp,
                    index: self.event_index,
                    event_type: EventType::from_byte(self.event_type),
                    granted: self.granted,
                    door: self.door,
                    direction: Direction::from_byte(self.direction),
                    card_number: self.card_number,
                    reason: EventReason::from_byte(self.reason),
                },
            )
        };
        let system_time = match self.system_time.to_time() {
            Ok(t) => t,
            Err(e) => {
                return Err(e);
            },
        };
        let system_date = match self.system_date.to_date() {
            Ok(d) => d,
            Err(e) => {
                return Err(e);
            },
        };
        let mut doors: Vec<bool> = Vec::new();
        doors.push(self.door1_state);
        doors.push(self.door2_state);
        doors.push(self.door3_state);
        doors.push(self.door4_state);
        let mut buttons: Vec<bool> = Vec::new();
        buttons.push(self.door1_button);
        buttons.push(self.door2_button);
        buttons.push(self.door3_button);
        buttons.push(self.door4_button);
        proof {
            assert(doors@ =~= seq![
                self.door1_state,
                self.door2_state,
                self.door3_state,
                self.door4_state,
            ]);
            assert(buttons@ =~= seq![
                self.door1_button,
                self.door2_button,
                self.door3_button,
                self.door4_button,
            ]);
        }
        Ok(
            Status {
                device_id: self.device_id,
                system_time,
                system_date,
                doors,
                buttons,
                relay_state: self.relay_state,
                input_state: self.input_state,
                system_error: self.system_error,
                special_info: self.special_info,
                sequence_number: self.sequence_id,
                last_event,
            },
        )
    }
}

} // verus!
