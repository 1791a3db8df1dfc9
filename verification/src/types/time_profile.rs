//! Time profiles: when a permission is active, as a date range, weekday
//! flags, and up to three daily segments.

use vstd::prelude::*;
use crate::calendar::{Date, Time};
use crate::error::UhppoteError;
use crate::messages::get_time_profile::GetTimeProfileResponse;
use crate::messages::set_time_profile::SetTimeProfileRequest;
use crate::wire::{DateBCD, TimeWithoutSecondsBCD};

verus! {

/// One daily interval within a time profile; an unused slot has both ends at
/// midnight.
#[derive(PartialEq, Eq, Structural, Clone, Copy, Debug)]
pub struct TimeProfileSegment {
    pub start: Time,
    pub end: Time,
}

/// A time profile: its identifier, an optional linked profile, the date
/// range and weekdays it is active, and three daily segments.
#[derive(Clone, Debug)]
pub struct TimeProfile {
    pub id: u8,
    pub linked_profile_id: u8,
    pub from: Date,
    pub to: Date,
    pub monday: bool,
    pub tuesday: bool,
    pub wednesday: bool,
    pub thursday: bool,
    pub friday: bool,
    pub saturday: bool,
    pub sunday: bool,
    pub segments: Vec<TimeProfileSegment>,
}

impl TimeProfile {
    /// A profile holds exactly three segment slots.
    pub open spec fn wf(self) -> bool {
        self.segments@.len() == 3
    }
}

impl GetTimeProfileResponse {
    /// The time-profile record this response reports; fails when a segment
    /// time is no wall-clock time or a range date is no real date. Segment
    /// times are judged first, then the date range.
    pub fn to_time_profile(&self) -> (r: Result<TimeProfile, UhppoteError>)
        ensures
            r is Ok <==> self.segment1_start.spec_to_time() is Ok
                && self.segment1_end.spec_to_time() is Ok && self.segment2_start.spec_to_time() is Ok
                && self.segment2_end.spec_to_time() is Ok && self.segment3_start.spec_to_time() is Ok
                && self.segment3_end.spec_to_time() is Ok && self.from.spec_to_date() is Ok
                && self.to.spec_to_date() is Ok,
            r matches Ok(p) ==> p.id == self.profile_id && p.linked_profile_id
                == self.linked_profile_id && Ok::<Date, UhppoteError>(p.from) == self.from.spec_to_date() && Ok::<Date, UhppoteError>(p.to)
                == self.to.spec_to_date() && p.monday == self.monday && p.tuesday == self.tuesday
                && p.wednesday == self.wednesday && p.thursday == self.thursday && p.friday
                == self.friday && p.saturday == self.saturday && p.sunday == self.sunday
                && p.segments@.len() == 3 && Ok::<Time, UhppoteError>(p.segments@[0].start)
                == self.segment1_start.spec_to_time() && Ok::<Time, UhppoteError>(p.segments@[0].end)
                == self.segment1_end.spec_to_time() && Ok::<Time, UhppoteError>(p.segments@[1].start)
                == self.segment2_start.spec_to_time() && Ok::<Time, UhppoteError>(p.segments@[1].end)
                == self.segment2_end.spec_to_time() && Ok::<Time, UhppoteError>(p.segments@[2].start)
                == self.segment3_start.spec_to_time() && Ok::<Time, UhppoteError>(p.segments@[2].end)
                == self.segment3_end.spec_to_time(),
            r is Err ==> (r == Err::<TimeProfile, UhppoteError>(UhppoteError::InvalidBcd) || r
                == Err::<TimeProfile, UhppoteError>(UhppoteError::InvalidTime) || r == Err::<
                TimeProfile,
                UhppoteError,
            >(UhppoteError::InvalidDate)),
    {
        let s1s = match self.segment1_start.to_time() {
            Ok(t) => t,
            Err(e) => {
                return Err(e);
            },
        };
        let s1e = match self.segment1_end.to_time() {
            Ok(t) => t,
            Err(e) => {
                return Err(e);
            },
        };
        let s2s = match self.segment2_start.to_time() {
            Ok(t) => t,
            Err(e) => {
                return Err(e);
            },
        };
        let s2e = match self.segment2_end.to_time() {
            Ok(t) => t,
            Err(e) => {
                return Err(e);
            },
        };
        let s3s = match self.segment3_start.to_time() {
            Ok(t) => t,
            Err(e) => {
                return Err(e);
            },
        };
        let s3e = match self.segment3_end.to_time() {
            Ok(t) => t,
            Err(e) => {
                return Err(e);
            },
        };
        let from = match self.from.to_date() {
            Ok(d) => d,
            Err(e) => {
                return Err(e);
            },
        };
        let to = match self.to.to_date() {
            Ok(d) => d,
            Err(e) => {
                return Err(e);
            },
        };
        let mut segments: Vec<TimeProfileSegment> = Vec::new();
        segments.push(TimeProfileSegment { start: s1s, end: s1e });
        segments.push(TimeProfileSegment { start: s2s, end: s2e });
        segments.push(TimeProfileSegment { start: s3s, end: s3e });
        Ok(
            TimeProfile {
                id: self.profile_id,
                linked_profile_id: self.linked_profile_id,
                from,
                to,
                monday: self.monday,
                tuesday: self.tuesday,
                wednesday: self.wednesday,
                thursday: self.thursday,
                friday: self.friday,
                saturday: self.saturday,
                sunday: self.sunday,
                segments,
            },
        )
    }
}

impl SetTimeProfileRequest {
    /// Build the request that stores this profile on a controller.
    /// Identifiers 0 and 1 are reserved and refused; a range date that cannot
    /// travel as BCD or a segment time that is no wall-clock time also fails.
    pub fn for_profile(device_id: u32, profile: &TimeProfile) -> (r: Result<
        SetTimeProfileRequest,
        UhppoteError,
    >)
        requires
            profile.wf(),
        ensures
            r is Ok <==> profile.id > 1 && profile.from.fits_bcd() && profile.to.fits_bcd()
                && (forall|i: int|
                0 <= i < 3 ==> (#[trigger] profile.segments@[i]).start.hour < 24
                    && profile.segments@[i].start.minute < 60 && profile.segments@[i].end.hour < 24
                    && profile.segments@[i].end.minute < 60),
            r matches Ok(q) ==> q.device_id == device_id && q.profile_id == profile.id && q.from
                == DateBCD::spec_of_ymd(
                profile.from.year as int,
                profile.from.month as int,
                profile.from.day as int,
            ) && q.to == DateBCD::spec_of_ymd(
                profile.to.year as int,
                profile.to.month as int,
                profile.to.day as int,
            ) && q.monday == profile.monday && q.tuesday == profile.tuesday && q.wednesday
                == profile.wednesday && q.thursday == profile.thursday && q.friday
                == profile.friday && q.saturday == profile.saturday && q.sunday == profile.sunday
                && q.segment1_start == TimeWithoutSecondsBCD::spec_of_hm(
                profile.segments@[0].start.hour as int,
                profile.segments@[0].start.minute as int,
            ) && q.segment1_end == TimeWithoutSecondsBCD::spec_of_hm(
                profile.segments@[0].end.hour as int,
                profile.segments@[0].end.minute as int,
            ) && q.segment2_start == TimeWithoutSecondsBCD::spec_of_hm(
                profile.segments@[1].start.hour as int,
                profile.segments@[1].start.minute as int,
            ) && q.segment2_end == TimeWithoutSecondsBCD::spec_of_hm(
                profile.segments@[1].end.hour as int,
                profile.segments@[1].end.minute as int,
            ) && q.segment3_start == TimeWithoutSecondsBCD::spec_of_hm(
                profile.segments@[2].start.hour as int,
                profile.segments@[2].start.minute as int,
            ) && q.segment3_end == TimeWithoutSecondsBCD::spec_of_hm(
                profile.segments@[2].end.hour as int,
                profile.segments@[2].end.minute as int,
            ) && q.linked_profile_id == profile.linked_profile_id,
            profile.id <= 1 ==> r == Err::<SetTimeProfileRequest, UhppoteError>(
                UhppoteError::InvalidProfileId,
            ),
    {
        if profile.id <= 1 {
            return Err(UhppoteError::InvalidProfileId);
        }
        let from = match profile.from.to_bcd() {
            Ok(d) => d,
            Err(e) => {
                return Err(e);
            },
        };
        let to = match profile.to.to_bcd() {
            Ok(d) => d,
            Err(e) => {
                return Err(e);
            },
        };
        let s1s = match profile.segments[0].start.to_hm_bcd() {
            Ok(t) => t,
            Err(e) => {
                return Err(e);
            },
        };
        let s1e = match profile.segments[0].end.to_hm_bcd() {
            Ok(t) => t,
            Err(e) => {
                return Err(e);
            },
        };
        let s2s = match profile.segments[1].start.to_hm_bcd() {
            Ok(t) => t,
            Err(e) => {
                return Err(e);
            },
        };
        let s2e = match profile.segments[1].end.to_hm_bcd() {
            Ok(t) => t,
            Err(e) => {
                return Err(e);
            },
        };
        let s3s = match profile.segments[2].start.to_hm_bcd() {
            Ok(t) => t,
            Err(e) => {
                return Err(e);
            },
        };
        let s3e = match profile.segments[2].end.to_hm_bcd() {
            Ok(t) => t,
            Err(e) => {
                return Err(e);
            },
        };
        Ok(
            SetTimeProfileRequest::new(
                device_id,
                profile.id,
                from,
                to,
                profile.monday,
                profile.tuesday,
                profile.wednesday,
                profile.thursday,
                profile.friday,
                profile.saturday,
                profile.sunday,
                s1s,
                s1e,
                s2s,
                s2e,
                s3s,
                s3e,
                profile.linked_profile_id,
            ),
        )
    }
}

} // verus!
