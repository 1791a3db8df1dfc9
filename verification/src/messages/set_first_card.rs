//! SetFirstCard: configure a door's first-card window: the time span and
//! weekdays during which the first presented card switches the door's
//! control mode.

use vstd::prelude::*;
use crate::error::UhppoteError;
use crate::frame::{
    begin_frame,
    bool_byte,
    finish_frame,
    lemma_u32_le_round_trip,
    parse_prefix,
    push_bool,
    push_u8,
    read_bool,
    read_u8,
    u32_le_bytes,
    u32_of_bytes,
    zeros,
};
use crate::opcode::HEADER;
use crate::wire::{TimeWithoutSecondsBCD};

verus! {

/// The opcode byte of SetFirstCard frames.
pub const OPCODE: u8 = 0xaa;

/// Configure the first-card window for a door.
#[derive(Clone, Copy, Debug)]
pub struct SetFirstCardRequest {
    pub device_id: u32,
    pub door: u8,
    pub start: TimeWithoutSecondsBCD,
    pub start_door_control: u8,
    pub end: TimeWithoutSecondsBCD,
    pub end_door_control: u8,
    pub monday: bool,
    pub tuesday: bool,
    pub wednesday: bool,
    pub thursday: bool,
    pub friday: bool,
    pub saturday: bool,
    pub sunday: bool,
}

impl SetFirstCardRequest {
    /// The 64-byte frame this value serialises to: header, opcode, the
    /// reserved gap, the controller identifier, the payload fields in
    /// order, and zero padding.
    pub open spec fn spec_to_bytes(self) -> Seq<u8> {
        seq![HEADER, OPCODE, 0u8, 0u8]
            + u32_le_bytes(self.device_id)
            + seq![self.door]
            + self.start.spec_bytes()
            + seq![self.start_door_control]
            + self.end.spec_bytes()
            + seq![self.end_door_control]
            + seq![bool_byte(self.monday)]
            + seq![bool_byte(self.tuesday)]
            + seq![bool_byte(self.wednesday)]
            + seq![bool_byte(self.thursday)]
            + seq![bool_byte(self.friday)]
            + seq![bool_byte(self.saturday)]
            + seq![bool_byte(self.sunday)]
            + zeros(42)
    }

    /// The value a 64-byte frame of this opcode decodes to.
    pub open spec fn spec_from_bytes(b: Seq<u8>) -> Option<SetFirstCardRequest> {
        if b.len() == 64 && b[1] == OPCODE {
            Some(SetFirstCardRequest {
                device_id: u32_of_bytes(b[4], b[5], b[6], b[7]),
                door: b[8],
                start: TimeWithoutSecondsBCD::spec_at(b, 9),
                start_door_control: b[11],
                end: TimeWithoutSecondsBCD::spec_at(b, 12),
                end_door_control: b[14],
                monday: b[15] != 0,
                tuesday: b[16] != 0,
                wednesday: b[17] != 0,
                thursday: b[18] != 0,
                friday: b[19] != 0,
                saturday: b[20] != 0,
                sunday: b[21] != 0,
            })
        } else {
            None
        }
    }

    pub fn new(device_id: u32, door: u8, start: TimeWithoutSecondsBCD, start_door_control: u8, end: TimeWithoutSecondsBCD, end_door_control: u8, monday: bool, tuesday: bool, wednesday: bool, thursday: bool, friday: bool, saturday: bool, sunday: bool) -> (r: SetFirstCardRequest)
        ensures
            r.device_id == device_id,
            r.door == door,
            r.start == start,
            r.start_door_control == start_door_control,
            r.end == end,
            r.end_door_control == end_door_control,
            r.monday == monday,
            r.tuesday == tuesday,
            r.wednesday == wednesday,
            r.thursday == thursday,
            r.friday == friday,
            r.saturday == saturday,
            r.sunday == sunday,
    {
        SetFirstCardRequest { device_id, door, start, start_door_control, end, end_door_control, monday, tuesday, wednesday, thursday, friday, saturday, sunday }
    }

    /// Serialise to the fixed 64-byte frame: the header byte first, the
    /// opcode in byte 1, and unused trailing bytes zero.
    pub fn to_bytes(&self) -> (r: Vec<u8>)
        ensures
            r@ == self.spec_to_bytes(),
            r@.len() == 64,
            r@[0] == HEADER,
            r@[1] == OPCODE,
    {
        let mut buf = begin_frame(HEADER, OPCODE, self.device_id);
        push_u8(&mut buf, self.door);
        self.start.push_onto(&mut buf);
        push_u8(&mut buf, self.start_door_control);
        self.end.push_onto(&mut buf);
        push_u8(&mut buf, self.end_door_control);
        push_bool(&mut buf, self.monday);
        push_bool(&mut buf, self.tuesday);
        push_bool(&mut buf, self.wednesday);
        push_bool(&mut buf, self.thursday);
        push_bool(&mut buf, self.friday);
        push_bool(&mut buf, self.saturday);
        push_bool(&mut buf, self.sunday);
        finish_frame(&mut buf);
        proof {
            assert(buf@ == self.spec_to_bytes());
        }
        buf
    }

    /// Decode a received frame; fails when the length is not 64 or the
    /// opcode is not this message's.
    pub fn from_bytes(bytes: &[u8]) -> (r: Result<SetFirstCardRequest, UhppoteError>)
        ensures
            r is Ok <==> bytes@.len() == 64 && bytes@[1] == OPCODE,
            r matches Ok(v) ==> SetFirstCardRequest::spec_from_bytes(bytes@) == Some(v),
            bytes@.len() != 64 ==> r == Err::<SetFirstCardRequest, UhppoteError>(UhppoteError::FrameLength),
            bytes@.len() == 64 && bytes@[1] != OPCODE ==> r == Err::<SetFirstCardRequest, UhppoteError>(
                UhppoteError::UnexpectedOpcode,
            ),
    {
        let (_header, device_id) = match parse_prefix(OPCODE, bytes) {
            Ok(p) => p,
            Err(e) => {
                return Err(e);
            },
        };
        let door = read_u8(bytes, 8);
        let start = TimeWithoutSecondsBCD::read_at(bytes, 9);
        let start_door_control = read_u8(bytes, 11);
        let end = TimeWithoutSecondsBCD::read_at(bytes, 12);
        let end_door_control = read_u8(bytes, 14);
        let monday = read_bool(bytes, 15);
        let tuesday = read_bool(bytes, 16);
        let wednesday = read_bool(bytes, 17);
        let thursday = read_bool(bytes, 18);
        let friday = read_bool(bytes, 19);
        let saturday = read_bool(bytes, 20);
        let sunday = read_bool(bytes, 21);
        Ok(SetFirstCardRequest { device_id, door, start, start_door_control, end, end_door_control, monday, tuesday, wednesday, thursday, friday, saturday, sunday })
    }

    /// Decoding inverts encoding, and the decoded value serialises back to
    /// the identical frame.
    pub proof fn lemma_round_trip(v: SetFirstCardRequest)
        ensures
            SetFirstCardRequest::spec_from_bytes(v.spec_to_bytes()) == Some(v),
            SetFirstCardRequest::spec_from_bytes(v.spec_to_bytes()) matches Some(w) ==> w.spec_to_bytes()
                == v.spec_to_bytes(),
    {
        let b = v.spec_to_bytes();
        lemma_u32_le_round_trip(v.device_id);
        assert(b.len() == 64);
        assert(b[1] == OPCODE);
        assert(u32_of_bytes(b[4], b[5], b[6], b[7]) == v.device_id);
        assert(b[8] == v.door);
        assert(TimeWithoutSecondsBCD::spec_at(b, 9) == v.start);
        assert(b[11] == v.start_door_control);
        assert(TimeWithoutSecondsBCD::spec_at(b, 12) == v.end);
        assert(b[14] == v.end_door_control);
        assert((b[15] != 0) == v.monday);
        assert((b[16] != 0) == v.tuesday);
        assert((b[17] != 0) == v.wednesday);
        assert((b[18] != 0) == v.thursday);
        assert((b[19] != 0) == v.friday);
        assert((b[20] != 0) == v.saturday);
        assert((b[21] != 0) == v.sunday);
        assert(SetFirstCardRequest::spec_from_bytes(b) == Some(v));
    }
}

/// The controller's answer: whether the window was configured.
#[derive(Clone, Copy, Debug)]
pub struct SetFirstCardResponse {
    pub header: u8,
    pub message_type: u8,
    pub device_id: u32,
    pub success: bool,
}

impl SetFirstCardResponse {
    /// A decoded frame of this kind carries its own opcode in byte 1.
    pub open spec fn wf(self) -> bool {
        self.message_type == OPCODE
    }

    /// The 64-byte frame this value serialises to: header, opcode, the
    /// reserved gap, the controller identifier, the payload fields in
    /// order, and zero padding.
    pub open spec fn spec_to_bytes(self) -> Seq<u8> {
        seq![self.header, self.message_type, 0u8, 0u8]
            + u32_le_bytes(self.device_id)
            + seq![bool_byte(self.success)]
            + zeros(55)
    }

    /// The value a 64-byte frame of this opcode decodes to.
    pub open spec fn spec_from_bytes(b: Seq<u8>) -> Option<SetFirstCardResponse> {
        if b.len() == 64 && b[1] == OPCODE {
            Some(SetFirstCardResponse {
                header: b[0],
                message_type: b[1],
                device_id: u32_of_bytes(b[4], b[5], b[6], b[7]),
                success: b[8] != 0,
            })
        } else {
            None
        }
    }

    /// Decode a received frame; fails when the length is not 64 or the
    /// opcode is not this message's.
    pub fn from_bytes(bytes: &[u8]) -> (r: Result<SetFirstCardResponse, UhppoteError>)
        ensures
            r is Ok <==> bytes@.len() == 64 && bytes@[1] == OPCODE,
            r matches Ok(v) ==> SetFirstCardResponse::spec_from_bytes(bytes@) == Some(v),
            bytes@.len() != 64 ==> r == Err::<SetFirstCardResponse, UhppoteError>(UhppoteError::FrameLength),
            bytes@.len() == 64 && bytes@[1] != OPCODE ==> r == Err::<SetFirstCardResponse, UhppoteError>(
                UhppoteError::UnexpectedOpcode,
            ),
    {
        let (header, device_id) = match parse_prefix(OPCODE, bytes) {
            Ok(p) => p,
            Err(e) => {
                return Err(e);
            },
        };
        let success = read_bool(bytes, 8);
        Ok(SetFirstCardResponse { header, message_type: OPCODE, device_id, success })
    }

    /// Decoding inverts encoding, and the decoded value serialises back to
    /// the identical frame.
    pub proof fn lemma_round_trip(v: SetFirstCardResponse)
        requires
            v.wf(),
        ensures
            SetFirstCardResponse::spec_from_bytes(v.spec_to_bytes()) == Some(v),
            SetFirstCardResponse::spec_from_bytes(v.spec_to_bytes()) matches Some(w) ==> w.spec_to_bytes()
                == v.spec_to_bytes(),
    {
        let b = v.spec_to_bytes();
        lemma_u32_le_round_trip(v.device_id);
        assert(b.len() == 64);
        assert(b[0] == v.header);
        assert(b[1] == OPCODE);
        assert(u32_of_bytes(b[4], b[5], b[6], b[7]) == v.device_id);
        assert((b[8] != 0) == v.success);
        assert(SetFirstCardResponse::spec_from_bytes(b) == Some(v));
    }
}

} // verus!
