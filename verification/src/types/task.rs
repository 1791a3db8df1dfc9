//! Scheduled tasks a controller runs by itself.

use vstd::prelude::*;
use crate::calendar::{Date, Time};
use crate::error::UhppoteError;
use crate::messages::add_task::AddTaskRequest;
use crate::wire::{DateBCD, TimeWithoutSecondsBCD};

verus! {

/// What a scheduled task does. The protocol numbers the kinds 1 to 13.
#[derive(PartialEq, Eq, Structural, Clone, Copy, Debug)]
pub enum TaskID {
    ControlDoor,
    UnlockDoor,
    LockDoor,
    DisableTimeProfile,
    EnableTimeProfile,
    EnableCardNoPassword,
    EnableCardWithInPassword,
    EnableCardWithPassword,
    EnableMoreCards,
    DisableMoreCards,
    TriggerOnce,
    DisablePushButton,
    EnablePushButton,
}

impl TaskID {
    /// The wire byte of a task kind, 1 through 13.
    pub open spec fn spec_byte(self) -> u8 {
        match self {
            TaskID::ControlDoor => 1,
            TaskID::UnlockDoor => 2,
            TaskID::LockDoor => 3,
            TaskID::DisableTimeProfile => 4,
            TaskID::EnableTimeProfile => 5,
            TaskID::EnableCardNoPassword => 6,
            TaskID::EnableCardWithInPassword => 7,
            TaskID::EnableCardWithPassword => 8,
            TaskID::EnableMoreCards => 9,
            TaskID::DisableMoreCards => 10,
            TaskID::TriggerOnce => 11,
            TaskID::DisablePushButton => 12,
            TaskID::EnablePushButton => 13,
        }
    }

    pub fn as_byte(self) -> (r: u8)
        ensures
            r == self.spec_byte(),
            1 <= r <= 13,
    {
        match self {
            TaskID::ControlDoor => 1,
            TaskID::UnlockDoor => 2,
            TaskID::LockDoor => 3,
            TaskID::DisableTimeProfile => 4,
            TaskID::EnableTimeProfile => 5,
            TaskID::EnableCardNoPassword => 6,
            TaskID::EnableCardWithInPassword => 7,
            TaskID::EnableCardWithPassword => 8,
            TaskID::EnableMoreCards => 9,
            TaskID::DisableMoreCards => 10,
            TaskID::TriggerOnce => 11,
            TaskID::DisablePushButton => 12,
            TaskID::EnablePushButton => 13,
        }
    }

    /// The task kind a wire byte stands for; bytes outside 1 to 13 fall back
    /// to door control.
    pub open spec fn spec_from_byte(b: u8) -> TaskID {
        if b == 2 {
            TaskID::UnlockDoor
        } else if b == 3 {
            TaskID::LockDoor
        } else if b == 4 {
            TaskID::DisableTimeProfile
        } else if b == 5 {
            TaskID::EnableTimeProfile
        } else if b == 6 {
            TaskID::EnableCardNoPassword
        } else if b == 7 {
            TaskID::EnableCardWithInPassword
        } else if b == 8 {
            TaskID::EnableCardWithPassword
        } else if b == 9 {
            TaskID::EnableMoreCards
        } else if b == 10 {
            TaskID::DisableMoreCards
        } else if b == 11 {
            TaskID::TriggerOnce
        } else if b == 12 {
            TaskID::DisablePushButton
        } else if b == 13 {
            TaskID::EnablePushButton
        } else {
            TaskID::ControlDoor
        }
    }

    pub fn from_byte(b: u8) -> (r: TaskID)
        ensures
            r == TaskID::spec_from_byte(b),
    {
        if b == 2 {
            TaskID::UnlockDoor
        } else if b == 3 {
            TaskID::LockDoor
        } else if b == 4 {
            TaskID::DisableTimeProfile
        } else if b == 5 {
            TaskID::EnableTimeProfile
        } else if b == 6 {
            TaskID::EnableCardNoPassword
        } else if b == 7 {
            TaskID::EnableCardWithInPassword
        } else if b == 8 {
            TaskID::EnableCardWithPassword
        } else if b == 9 {
            TaskID::EnableMoreCards
        } else if b == 10 {
            TaskID::DisableMoreCards
        } else if b == 11 {
            TaskID::TriggerOnce
        } else if b == 12 {
            TaskID::DisablePushButton
        } else if b == 13 {
            TaskID::EnablePushButton
        } else {
            TaskID::ControlDoor
        }
    }
}

/// A scheduled task: what to do, at which door, on which weekdays within a
/// date range, and at what time of day.
#[derive(PartialEq, Eq, Structural, Clone, Copy, Debug)]
pub struct Task {
    pub task: TaskID,
    pub door: u8,
    pub from: Date,
    pub to: Date,
    pub monday: bool,
    pub tuesday: bool,
    pub wednesday: bool,
    pub thursday: bool,
    pub friday: bool,
    pub saturday: bool,
    pub sunday: bool,
    pub at: Time,
    pub more_cards: u8,
}

impl AddTaskRequest {
    /// Build the request that stores a scheduled task on a controller; fails when a
    /// range date cannot travel as four BCD digits or the time of day is no
    /// real wall-clock time. The task kind is within 1 to 13 by construction.
    pub fn for_task(device_id: u32, task: &Task) -> (r: Result<AddTaskRequest, UhppoteError>)
        ensures
            r is Ok <==> task.from.fits_bcd() && task.to.fits_bcd() && task.at.hour < 24
                && task.at.minute < 60,
            r matches Ok(q) ==> q.device_id == device_id && q.from == DateBCD::spec_of_ymd(
                task.from.year as int,
                task.from.month as int,
                task.from.day as int,
            ) && q.to == DateBCD::spec_of_ymd(
                task.to.year as int,
                task.to.month as int,
                task.to.day as int,
            ) && q.monday == task.monday && q.tuesday == task.tuesday && q.wednesday
                == task.wednesday && q.thursday == task.thursday && q.friday == task.friday
                && q.saturday == task.saturday && q.sunday == task.sunday && q.at
                == TimeWithoutSecondsBCD::spec_of_hm(task.at.hour as int, task.at.minute as int)
                && q.door == task.door && q.task == task.task.spec_byte() && q.more_cards
                == task.more_cards,
            !(task.from.fits_bcd() && task.to.fits_bcd()) ==> r == Err::<
                AddTaskRequest,
                UhppoteError,
            >(UhppoteError::InvalidDate),
            task.from.fits_bcd() && task.to.fits_bcd() && !(task.at.hour < 24 && task.at.minute
                < 60) ==> r == Err::<AddTaskRequest, UhppoteError>(UhppoteError::InvalidTime),
    {
        let from = match task.from.to_bcd() {
            Ok(d) => d,
            Err(e) => {
                return Err(e);
            },
        };
        let to = match task.to.to_bcd() {
            Ok(d) => d,
            Err(e) => {
                return Err(e);
            },
        };
        let at = match task.at.to_hm_bcd() {
            Ok(t) => t,
            Err(e) => {
                return Err(e);
            },
        };
        Ok(
            AddTaskRequest::new(
                device_id,
                from,
                to,
                task.monday,
                task.tuesday,
                task.wednesday,
                task.thursday,
                task.friday,
                task.saturday,
                task.sunday,
                at,
                task.door,
                task.task.as_byte(),
                task.more_cards,
            ),
        )
    }
}

} // verus!
