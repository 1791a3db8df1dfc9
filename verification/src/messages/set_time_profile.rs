//! SetTimeProfile: store or update a time profile: its active date range,
//! weekday flags, and three daily segments.

use vstd::prelude::*;
use crate::error::UhppoteError;
use crate::frame::{
    begin_frame,
    bool_byte,
    finish_frame,
    lemma_u32_le_round_trip,
    parse_prefix,
    push_bool,
    push_u8,
    read_bool,
    read_u8,
    u32_le_bytes,
    u32_of_bytes,
    zeros,
};
use crate::opcode::HEADER;
use crate::wire::{DateBCD, TimeWithoutSecondsBCD};

verus! {

/// The opcode byte of SetTimeProfile frames.
pub const OPCODE: u8 = 0x88;

/// Store a time profile under its identifier.
#[derive(Clone, Copy, Debug)]
pub struct SetTimeProfileRequest {
    pub device_id: u32,
    pub profile_id: u8,
    pub from: DateBCD,
    pub to: DateBCD,
    pub monday: bool,
    pub tuesday: bool,
    pub wednesday: bool,
    pub thursday: bool,
    pub friday: bool,
    pub saturday: bool,
    pub sunday: bool,
    pub segment1_start: TimeWithoutSecondsBCD,
    pub segment1_end: TimeWithoutSecondsBCD,
    pub segment2_start: TimeWithoutSecondsBCD,
    pub segment2_end: TimeWithoutSecondsBCD,
    pub segment3_start: TimeWithoutSecondsBCD,
    pub segment3_end: TimeWithoutSecondsBCD,
    pub linked_profile_id: u8,
}

impl SetTimeProfileRequest {
    /// The 64-byte frame this value serialises to: header, opcode, the
    /// reserved gap, the controller identifier, the payload fields in
    /// order, and zero padding.
    pub open spec fn spec_to_bytes(self) -> Seq<u8> {
        seq![HEADER, OPCODE, 0u8, 0u8]
            + u32_le_bytes(self.device_id)
            + seq![self.profile_id]
            + self.from.spec_bytes()
            + self.to.spec_bytes()
            + seq![bool_byte(self.monday)]
            + seq![bool_byte(self.tuesday)]
            + seq![bool_byte(self.wednesday)]
            + seq![bool_byte(self.thursday)]
            + seq![bool_byte(self.friday)]
            + seq![bool_byte(self.saturday)]
            + seq![bool_byte(self.sunday)]
            + self.segment1_start.spec_bytes()
            + self.segment1_end.spec_bytes()
            + self.segment2_start.spec_bytes()
            + self.segment2_end.spec_bytes()
            + self.segment3_start.spec_bytes()
            + self.segment3_end.spec_bytes()
            + seq![self.linked_profile_id]
            + zeros(27)
    }

    /// The value a 64-byte frame of this opcode decodes to.
    pub open spec fn spec_from_bytes(b: Seq<u8>) -> Option<SetTimeProfileRequest> {
        if b.len() == 64 && b[1] == OPCODE {
            Some(SetTimeProfileRequest {
                device_id: u32_of_bytes(b[4], b[5], b[6], b[7]),
                profile_id: b[8],
                from: DateBCD::spec_at(b, 9),
                to: DateBCD::spec_at(b, 13),
                monday: b[17] != 0,
                tuesday: b[18] != 0,
                wednesday: b[19] != 0,
                thursday: b[20] != 0,
                friday: b[21] != 0,
                saturday: b[22] != 0,
                sunday: b[23] != 0,
                segment1_start: TimeWithoutSecondsBCD::spec_at(b, 24),
                segment1_end: TimeWithoutSecondsBCD::spec_at(b, 26),
                segment2_start: TimeWithoutSecondsBCD::spec_at(b, 28),
                segment2_end: TimeWithoutSecondsBCD::spec_at(b, 30),
                segment3_start: TimeWithoutSecondsBCD::spec_at(b, 32),
                segment3_end: TimeWithoutSecondsBCD::spec_at(b, 34),
                linked_profile_id: b[36],
            })
        } else {
            None
        }
    }

    pub fn new(device_id: u32, profile_id: u8, from: DateBCD, to: DateBCD, monday: bool, tuesday: bool, wednesday: bool, thursday: bool, friday: bool, saturday: bool, sunday: bool, segment1_start: TimeWithoutSecondsBCD, segment1_end: TimeWithoutSecondsBCD, segment2_start: TimeWithoutSecondsBCD, segment2_end: TimeWithoutSecondsBCD, segment3_start: TimeWithoutSecondsBCD, segment3_end: TimeWithoutSecondsBCD, linked_profile_id: u8) -> (r: SetTimeProfileRequest)
        ensures
            r.device_id == device_id,
            r.profile_id == profile_id,
            r.from == from,
            r.to == to,
            r.monday == monday,
            r.tuesday == tuesday,
            r.wednesday == wednesday,
            r.thursday == thursday,
            r.friday == friday,
            r.saturday == saturday,
            r.sunday == sunday,
            r.segment1_start == segment1_start,
            r.segment1_end == segment1_end,
            r.segment2_start == segment2_start,
            r.segment2_end == segment2_end,
            r.segment3_start == segment3_start,
            r.segment3_end == segment3_end,
            r.linked_profile_id == linked_profile_id,
    {
        SetTimeProfileRequest { device_id, profile_id, from, to, monday, tuesday, wednesday, thursday, friday, saturday, sunday, segment1_start, segment1_end, segment2_start, segment2_end, segment3_start, segment3_end, linked_profile_id }
    }

    /// Serialise to the fixed 64-byte frame: the header byte first, the
    /// opcode in byte 1, and unused trailing bytes zero.
    pub fn to_bytes(&self) -> (r: Vec<u8>)
        ensures
            r@ == self.spec_to_bytes(),
            r@.len() == 64,
            r@[0] == HEADER,
            r@[1] == OPCODE,
    {
        let mut buf = begin_frame(HEADER, OPCODE, self.device_id);
        push_u8(&mut buf, self.profile_id);
        self.from.push_onto(&mut buf);
        self.to.push_onto(&mut buf);
        push_bool(&mut buf, self.monday);
        push_bool(&mut buf, self.tuesday);
        push_bool(&mut buf, self.wednesday);
        push_bool(&mut buf, self.thursday);
        push_bool(&mut buf, self.friday);
        push_bool(&mut buf, self.saturday);
        push_bool(&mut buf, self.sunday);
        self.segment1_start.push_onto(&mut buf);
        self.segment1_end.push_onto(&mut buf);
        self.segment2_start.push_onto(&mut buf);
        self.segment2_end.push_onto(&mut buf);
        self.segment3_start.push_onto(&mut buf);
        self.segment3_end.push_onto(&mut buf);
        push_u8(&mut buf, self.linked_profile_id);
        finish_frame(&mut buf);
        proof {
            assert(buf@ == self.spec_to_bytes());
        }
        buf
    }

    /// Decode a received frame; fails when the length is not 64 or the
    /// opcode is not this message's.
    pub fn from_bytes(bytes: &[u8]) -> (r: Result<SetTimeProfileRequest, UhppoteError>)
        ensures
            r is Ok <==> bytes@.len() == 64 && bytes@[1] == OPCODE,
            r matches Ok(v) ==> SetTimeProfileRequest::spec_from_bytes(bytes@) == Some(v),
            bytes@.len() != 64 ==> r == Err::<SetTimeProfileRequest, UhppoteError>(UhppoteError::FrameLength),
            bytes@.len() == 64 && bytes@[1] != OPCODE ==> r == Err::<SetTimeProfileRequest, UhppoteError>(
                UhppoteError::UnexpectedOpcode,
            ),
    {
        let (_header, device_id) = match parse_prefix(OPCODE, bytes) {
            Ok(p) => p,
            Err(e) => {
                return Err(e);
            },
        };
        let profile_id = read_u8(bytes, 8);
        let from = DateBCD::read_at(bytes, 9);
        let to = DateBCD::read_at(bytes, 13);
        let monday = read_bool(bytes, 17);
        let tuesday = read_bool(bytes, 18);
        let wednesday = read_bool(bytes, 19);
        let thursday = read_bool(bytes, 20);
        let friday = read_bool(bytes, 21);
        let saturday = read_bool(bytes, 22);
        let sunday = read_bool(bytes, 23);
        let segment1_start = TimeWithoutSecondsBCD::read_at(bytes, 24);
        let segment1_end = TimeWithoutSecondsBCD::read_at(bytes, 26);
        let segment2_start = TimeWithoutSecondsBCD::read_at(bytes, 28);
        let segment2_end = TimeWithoutSecondsBCD::read_at(bytes, 30);
        let segment3_start = TimeWithoutSecondsBCD::read_at(bytes, 32);
        let segment3_end = TimeWithoutSecondsBCD::read_at(bytes, 34);
        let linked_profile_id = read_u8(bytes, 36);
        Ok(SetTimeProfileRequest { device_id, profile_id, from, to, monday, tuesday, wednesday, thursday, friday, saturday, sunday, segment1_start, segment1_end, segment2_start, segment2_end, segment3_start, segment3_end, linked_profile_id })
    }

    /// Decoding inverts encoding, and the decoded value serialises back to
    /// the identical frame.
    pub proof fn lemma_round_trip(v: SetTimeProfileRequest)
        ensures
            SetTimeProfileRequest::spec_from_bytes(v.spec_to_bytes()) == Some(v),
            SetTimeProfileRequest::spec_from_bytes(v.spec_to_bytes()) matches Some(w) ==> w.spec_to_bytes()
                == v.spec_to_bytes(),
    {
        let b = v.spec_to_bytes();
        lemma_u32_le_round_trip(v.device_id);
        assert(b.len() == 64);
        assert(b[1] == OPCODE);
        assert(u32_of_bytes(b[4], b[5], b[6], b[7]) == v.device_id);
        assert(b[8] == v.profile_id);
        assert(DateBCD::spec_at(b, 9) == v.from);
        assert(DateBCD::spec_at(b, 13) == v.to);
        assert((b[17] != 0) == v.monday);
        assert((b[18] != 0) == v.tuesday);
        assert((b[19] != 0) == v.wednesday);
        assert((b[20] != 0) == v.thursday);
        assert((b[21] != 0) == v.friday);
        assert((b[22] != 0) == v.saturday);
        assert((b[23] != 0) == v.sunday);
        assert(TimeWithoutSecondsBCD::spec_at(b, 24) == v.segment1_start);
        assert(TimeWithoutSecondsBCD::spec_at(b, 26) == v.segment1_end);
        assert(TimeWithoutSecondsBCD::spec_at(b, 28) == v.segment2_start);
        assert(TimeWithoutSecondsBCD::spec_at(b, 30) == v.segment2_end);
        assert(TimeWithoutSecondsBCD::spec_at(b, 32) == v.segment3_start);
        assert(TimeWithoutSecondsBCD::spec_at(b, 34) == v.segment3_end);
        assert(b[36] == v.linked_profile_id);
        assert(SetTimeProfileRequest::spec_from_bytes(b) == Some(v));
    }
}

/// The controller's answer: whether the profile was stored.
#[derive(Clone, Copy, Debug)]
pub struct SetTimeProfileResponse {
    pub header: u8,
    pub message_type: u8,
    pub device_id: u32,
    pub success: bool,
}

impl SetTimeProfileResponse {
    /// A decoded frame of this kind carries its own opcode in byte 1.
    pub open spec fn wf(self) -> bool {
        self.message_type == OPCODE
    }

    /// The 64-byte frame this value serialises to: header, opcode, the
    /// reserved gap, the controller identifier, the payload fields in
    /// order, and zero padding.
    pub open spec fn spec_to_bytes(self) -> Seq<u8> {
        seq![self.header, self.message_type, 0u8, 0u8]
            + u32_le_bytes(self.device_id)
            + seq![bool_byte(self.success)]
            + zeros(55)
    }

    /// The value a 64-byte frame of this opcode decodes to.
    pub open spec fn spec_from_bytes(b: Seq<u8>) -> Option<SetTimeProfileResponse> {
        if b.len() == 64 && b[1] == OPCODE {
            Some(SetTimeProfileResponse {
                header: b[0],
                message_type: b[1],
                device_id: u32_of_bytes(b[4], b[5], b[6], b[7]),
                success: b[8] != 0,
            })
        } else {
            None
        }
    }

    /// Decode a received frame; fails when the length is not 64 or the
    /// opcode is not this message's.
    pub fn from_bytes(bytes: &[u8]) -> (r: Result<SetTimeProfileResponse, UhppoteError>)
        ensures
            r is Ok <==> bytes@.len() == 64 && bytes@[1] == OPCODE,
            r matches Ok(v) ==> SetTimeProfileResponse::spec_from_bytes(bytes@) == Some(v),
            bytes@.len() != 64 ==> r == Err::<SetTimeProfileResponse, UhppoteError>(UhppoteError::FrameLength),
            bytes@.len() == 64 && bytes@[1] != OPCODE ==> r == Err::<SetTimeProfileResponse, UhppoteError>(
                UhppoteError::UnexpectedOpcode,
            ),
    {
        let (header, device_id) = match parse_prefix(OPCODE, bytes) {
            Ok(p) => p,
            Err(e) => {
                return Err(e);
            },
        };
        let success = read_bool(bytes, 8);
        Ok(SetTimeProfileResponse { header, message_type: OPCODE, device_id, success })
    }

    /// Decoding inverts encoding, and the decoded value serialises back to
    /// the identical frame.
    pub proof fn lemma_round_trip(v: SetTimeProfileResponse)
        requires
            v.wf(),
        ensures
            SetTimeProfileResponse::spec_from_bytes(v.spec_to_bytes()) == Some(v),
            SetTimeProfileResponse::spec_from_bytes(v.spec_to_bytes()) matches Some(w) ==> w.spec_to_bytes()
                == v.spec_to_bytes(),
    {
        let b = v.spec_to_bytes();
        lemma_u32_le_round_trip(v.device_id);
        assert(b.len() == 64);
        assert(b[0] == v.header);
        assert(b[1] == OPCODE);
        assert(u32_of_bytes(b[4], b[5], b[6], b[7]) == v.device_id);
        assert((b[8] != 0) == v.success);
        assert(SetTimeProfileResponse::spec_from_bytes(b) == Some(v));
    }
}

} // verus!
