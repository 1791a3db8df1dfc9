//! Status: the controller's current state, also the layout of the
//! unsolicited frames a controller pushes to its configured listener.

use vstd::prelude::*;
use crate::error::UhppoteError;
use crate::frame::{
    begin_frame,
    bool_byte,
    finish_frame,
    lemma_u32_le_round_trip,
    parse_prefix,
    push_bool,
    push_u32,
    push_u8,
    read_bool,
    read_u32,
    read_u8,
    u32_le_bytes,
    u32_of_bytes,
    zeros,
};
use crate::opcode::HEADER;
use crate::wire::{DateShortBCD, DateTime, TimeWithSecondsBCD};

verus! {

/// The opcode byte of Status frames.
pub const OPCODE: u8 = 0x20;

/// Ask the controller for its current status.
#[derive(Clone, Copy, Debug)]
pub struct GetStatusRequest {
    pub device_id: u32,
}

impl GetStatusRequest {
    /// The 64-byte frame this value serialises to: header, opcode, the
    /// reserved gap, the controller identifier, the payload fields in
    /// order, and zero padding.
    pub open spec fn spec_to_bytes(self) -> Seq<u8> {
        seq![HEADER, OPCODE, 0u8, 0u8]
            + u32_le_bytes(self.device_id)
            + zeros(56)
    }

    /// The value a 64-byte frame of this opcode decodes to.
    pub open spec fn spec_from_bytes(b: Seq<u8>) -> Option<GetStatusRequest> {
        if b.len() == 64 && b[1] == OPCODE {
            Some(GetStatusRequest {
                device_id: u32_of_bytes(b[4], b[5], b[6], b[7]),
            })
        } else {
            None
        }
    }

    pub fn new(device_id: u32) -> (r: GetStatusRequest)
        ensures
            r.device_id == device_id,
    {
        GetStatusRequest { device_id }
    }

    /// Serialise to the fixed 64-byte frame: the header byte first, the
    /// opcode in byte 1, and unused trailing bytes zero.
    pub fn to_bytes(&self) -> (r: Vec<u8>)
        ensures
            r@ == self.spec_to_bytes(),
            r@.len() == 64,
            r@[0] == HEADER,
            r@[1] == OPCODE,
    {
        let mut buf = begin_frame(HEADER, OPCODE, self.device_id);
        finish_frame(&mut buf);
        proof {
            assert(buf@ == self.spec_to_bytes());
        }
        buf
    }

    /// Decode a received frame; fails when the length is not 64 or the
    /// opcode is not this message's.
    pub fn from_bytes(bytes: &[u8]) -> (r: Result<GetStatusRequest, UhppoteError>)
        ensures
            r is Ok <==> bytes@.len() == 64 && bytes@[1] == OPCODE,
            r matches Ok(v) ==> GetStatusRequest::spec_from_bytes(bytes@) == Some(v),
            bytes@.len() != 64 ==> r == Err::<GetStatusRequest, UhppoteError>(UhppoteError::FrameLength),
            bytes@.len() == 64 && bytes@[1] != OPCODE ==> r == Err::<GetStatusRequest, UhppoteError>(
                UhppoteError::UnexpectedOpcode,
            ),
    {
        let (_header, device_id) = match parse_prefix(OPCODE, bytes) {
            Ok(p) => p,
            Err(e) => {
                return Err(e);
            },
        };
        Ok(GetStatusRequest { device_id })
    }

    /// Decoding inverts encoding, and the decoded value serialises back to
    /// the identical frame.
    pub proof fn lemma_round_trip(v: GetStatusRequest)
        ensures
            GetStatusRequest::spec_from_bytes(v.spec_to_bytes()) == Some(v),
            GetStatusRequest::spec_from_bytes(v.spec_to_bytes()) matches Some(w) ==> w.spec_to_bytes()
                == v.spec_to_bytes(),
    {
        let b = v.spec_to_bytes();
        lemma_u32_le_round_trip(v.device_id);
        assert(b.len() == 64);
        assert(b[1] == OPCODE);
        assert(u32_of_bytes(b[4], b[5], b[6], b[7]) == v.device_id);
        assert(GetStatusRequest::spec_from_bytes(b) == Some(v));
    }
}

/// The controller's status: its last event, per-door state, relay and input bitmaps, and its clock.
#[derive(Clone, Copy, Debug)]
pub struct GetStatusResponse {
    pub header: u8,
    pub message_type: u8,
    pub device_id: u32,
    pub event_index: u32,
    pub event_type: u8,
    pub granted: bool,
    pub door: u8,
    pub direction: u8,
    pub card_number: u32,
    pub timestamp: DateTime,
    pub reason: u8,
    pub door1_state: bool,
    pub door2_state: bool,
    pub door3_state: bool,
    pub door4_state: bool,
    pub door1_button: bool,
    pub door2_button: bool,
    pub door3_button: bool,
    pub door4_button: bool,
    pub system_error: u8,
    pub system_time: TimeWithSecondsBCD,
    pub sequence_id: u32,
    pub reserved: u32,
    pub special_info: u8,
    pub relay_state: u8,
    pub input_state: u8,
    pub system_date: DateShortBCD,
}

impl GetStatusResponse {
    /// A decoded frame of this kind carries its own opcode in byte 1.
    pub open spec fn wf(self) -> bool {
        self.message_type == OPCODE
    }

    /// The 64-byte frame this value serialises to: header, opcode, the
    /// reserved gap, the controller identifier, the payload fields in
    /// order, and zero padding.
    pub open spec fn spec_to_bytes(self) -> Seq<u8> {
        seq![self.header, self.message_type, 0u8, 0u8]
            + u32_le_bytes(self.device_id)
            + u32_le_bytes(self.event_index)
            + seq![self.event_type]
            + seq![bool_byte(self.granted)]
            + seq![self.door]
            + seq![self.direction]
            + u32_le_bytes(self.card_number)
            + self.timestamp.spec_bytes()
            + seq![self.reason]
            + seq![bool_byte(self.door1_state)]
            + seq![bool_byte(self.door2_state)]
            + seq![bool_byte(self.door3_state)]
            + seq![bool_byte(self.door4_state)]
            + seq![bool_byte(self.door1_button)]
            + seq![bool_byte(self.door2_button)]
            + seq![bool_byte(self.door3_button)]
            + seq![bool_byte(self.door4_button)]
            + seq![self.system_error]
            + self.system_time.spec_bytes()
            + u32_le_bytes(self.sequence_id)
            + u32_le_bytes(self.reserved)
            + seq![self.special_info]
            + seq![self.relay_state]
            + seq![self.input_state]
            + self.system_date.spec_bytes()
            + zeros(10)
    }

    /// The value a 64-byte frame of this opcode decodes to.
    pub open spec fn spec_from_bytes(b: Seq<u8>) -> Option<GetStatusResponse> {
        if b.len() == 64 && b[1] == OPCODE {
            Some(GetStatusResponse {
                header: b[0],
                message_type: b[1],
                device_id: u32_of_bytes(b[4], b[5], b[6], b[7]),
                event_index: u32_of_bytes(b[8], b[9], b[10], b[11]),
                event_type: b[12],
                granted: b[13] != 0,
                door: b[14],
                direction: b[15],
                card_number: u32_of_bytes(b[16], b[17], b[18], b[19]),
                timestamp: DateTime::spec_at(b, 20),
                reason: b[27],
                door1_state: b[28] != 0,
                door2_state: b[29] != 0,
                door3_state: b[30] != 0,
                door4_state: b[31] != 0,
                door1_button: b[32] != 0,
                door2_button: b[33] != 0,
                door3_button: b[34] != 0,
                door4_button: b[35] != 0,
                system_error: b[36],
                system_time: TimeWithSecondsBCD::spec_at(b, 37),
                sequence_id: u32_of_bytes(b[40], b[41], b[42], b[43]),
                reserved: u32_of_bytes(b[44], b[45], b[46], b[47]),
                special_info: b[48],
                relay_state: b[49],
                input_state: b[50],
                system_date: DateShortBCD::spec_at(b, 51),
            })
        } else {
            None
        }
    }

    pub fn new(
        device_id: u32,
        event_index: u32,
        event_type: u8,
        granted: bool,
        door: u8,
        direction: u8,
        card_number: u32,
        timestamp: DateTime,
        reason: u8,
        door1_state: bool,
        door2_state: bool,
        door3_state: bool,
        door4_state: bool,
        door1_button: bool,
        door2_button: bool,
        door3_button: bool,
        door4_button: bool,
        system_error: u8,
        system_time: TimeWithSecondsBCD,
        sequence_id: u32,
        special_info: u8,
        relay_state: u8,
        input_state: u8,
        system_date: DateShortBCD,
    ) -> (r: GetStatusResponse)
        ensures
            r == (GetStatusResponse {
                header: HEADER,
                message_type: OPCODE,
                device_id,
                event_index,
                event_type,
                granted,
                door,
                direction,
                card_number,
                timestamp,
                reason,
                door1_state,
                door2_state,
                door3_state,
                door4_state,
                door1_button,
                door2_button,
                door3_button,
                door4_button,
                system_error,
                system_time,
                sequence_id,
                reserved: 0u32,
                special_info,
                relay_state,
                input_state,
                system_date,
            }),
            r.wf(),
    {
        GetStatusResponse {
            header: HEADER,
            message_type: OPCODE,
            device_id,
            event_index,
            event_type,
            granted,
            door,
            direction,
            card_number,
            timestamp,
            reason,
            door1_state,
            door2_state,
            door3_state,
            door4_state,
            door1_button,
            door2_button,
            door3_button,
            door4_button,
            system_error,
            system_time,
            sequence_id,
            reserved: 0,
            special_info,
            relay_state,
            input_state,
            system_date,
        }
    }

    /// Serialise to the fixed 64-byte frame: the header byte first, the
    /// opcode in byte 1, and unused trailing bytes zero.
    pub fn to_bytes(&self) -> (r: Vec<u8>)
        ensures
            r@ == self.spec_to_bytes(),
            r@.len() == 64,
            r@[0] == self.header,
            r@[1] == self.message_type,
    {
        let mut buf = begin_frame(self.header, self.message_type, self.device_id);
        push_u32(&mut buf, self.event_index);
        push_u8(&mut buf, self.event_type);
        push_bool(&mut buf, self.granted);
        push_u8(&mut buf, self.door);
        push_u8(&mut buf, self.direction);
        push_u32(&mut buf, self.card_number);
        self.timestamp.push_onto(&mut buf);
        push_u8(&mut buf, self.reason);
        push_bool(&mut buf, self.door1_state);
        push_bool(&mut buf, self.door2_state);
        push_bool(&mut buf, self.door3_state);
        push_bool(&mut buf, self.door4_state);
        push_bool(&mut buf, self.door1_button);
        push_bool(&mut buf, self.door2_button);
        push_bool(&mut buf, self.door3_button);
        push_bool(&mut buf, self.door4_button);
        push_u8(&mut buf, self.system_error);
        self.system_time.push_onto(&mut buf);
        push_u32(&mut buf, self.sequence_id);
        push_u32(&mut buf, self.reserved);
        push_u8(&mut buf, self.special_info);
        push_u8(&mut buf, self.relay_state);
        push_u8(&mut buf, self.input_state);
        self.system_date.push_onto(&mut buf);
        finish_frame(&mut buf);
        proof {
            assert(buf@ == self.spec_to_bytes());
        }
        buf
    }

    /// Decode a received frame; fails when the length is not 64 or the
    /// opcode is not this message's.
    pub fn from_bytes(bytes: &[u8]) -> (r: Result<GetStatusResponse, UhppoteError>)
        ensures
            r is Ok <==> bytes@.len() == 64 && bytes@[1] == OPCODE,
            r matches Ok(v) ==> GetStatusResponse::spec_from_bytes(bytes@) == Some(v),
            bytes@.len() != 64 ==> r == Err::<GetStatusResponse, UhppoteError>(UhppoteError::FrameLength),
            bytes@.len() == 64 && bytes@[1] != OPCODE ==> r == Err::<GetStatusResponse, UhppoteError>(
                UhppoteError::UnexpectedOpcode,
            ),
    {
        let (header, device_id) = match parse_prefix(OPCODE, bytes) {
            Ok(p) => p,
            Err(e) => {
                return Err(e);
            },
        };
        let event_index = read_u32(bytes, 8);
        let event_type = read_u8(bytes, 12);
        let granted = read_bool(bytes, 13);
        let door = read_u8(bytes, 14);
        let direction = read_u8(bytes, 15);
        let card_number = read_u32(bytes, 16);
        let timestamp = DateTime::read_at(bytes, 20);
        let reason = read_u8(bytes, 27);
        let door1_state = read_bool(bytes, 28);
        let door2_state = read_bool(bytes, 29);
        let door3_state = read_bool(bytes, 30);
        let door4_state = read_bool(bytes, 31);
        let door1_button = read_bool(bytes, 32);
        let door2_button = read_bool(bytes, 33);
        let door3_button = read_bool(bytes, 34);
        let door4_button = read_bool(bytes, 35);
        let system_error = read_u8(bytes, 36);
        let system_time = TimeWithSecondsBCD::read_at(bytes, 37);
        let sequence_id = read_u32(bytes, 40);
        let reserved = read_u32(bytes, 44);
        let special_info = read_u8(bytes, 48);
        let relay_state = read_u8(bytes, 49);
        let input_state = read_u8(bytes, 50);
        let system_date = DateShortBCD::read_at(bytes, 51);
        Ok(GetStatusResponse { header, message_type: OPCODE, device_id, event_index, event_type, granted, door, direction, card_number, timestamp, reason, door1_state, door2_state, door3_state, door4_state, door1_button, door2_button, door3_button, door4_button, system_error, system_time, sequence_id, reserved, special_info, relay_state, input_state, system_date })
    }

    /// Decoding inverts encoding, and the decoded value serialises back to
    /// the identical frame.
    #[verifier::rlimit(100)]
    #[verifier::spinoff_prover]
    pub proof fn lemma_round_trip(v: GetStatusResponse)
        requires
            v.wf(),
        ensures
            GetStatusResponse::spec_from_bytes(v.spec_to_bytes()) == Some(v),
            GetStatusResponse::spec_from_bytes(v.spec_to_bytes()) matches Some(w) ==> w.spec_to_bytes()
                == v.spec_to_bytes(),
    {
        let b = v.spec_to_bytes();
        lemma_u32_le_round_trip(v.device_id);
        lemma_u32_le_round_trip(v.event_index);
        lemma_u32_le_round_trip(v.card_number);
        lemma_u32_le_round_trip(v.sequence_id);
        lemma_u32_le_round_trip(v.reserved);
        assert(b.len() == 64);
        assert(b[0] == v.header);
        assert(b[1] == OPCODE);
        assert(u32_of_bytes(b[4], b[5], b[6], b[7]) == v.device_id);
        assert(u32_of_bytes(b[8], b[9], b[10], b[11]) == v.event_index);
        assert(b[12] == v.event_type);
        assert((b[13] != 0) == v.granted);
        assert(b[14] == v.door);
        assert(b[15] == v.direction);
        assert(u32_of_bytes(b[16], b[17], b[18], b[19]) == v.card_number);
        assert(DateTime::spec_at(b, 20) == v.timestamp);
        assert(b[27] == v.reason);
        assert((b[28] != 0) == v.door1_state);
        assert((b[29] != 0) == v.door2_state);
        assert((b[30] != 0) == v.door3_state);
        assert((b[31] != 0) == v.door4_state);
        assert((b[32] != 0) == v.door1_button);
        assert((b[33] != 0) == v.door2_button);
        assert((b[34] != 0) == v.door3_button);
        assert((b[35] != 0) == v.door4_button);
        assert(b[36] == v.system_error);
        assert(TimeWithSecondsBCD::spec_at(b, 37) == v.system_time);
        assert(u32_of_bytes(b[40], b[41], b[42], b[43]) == v.sequence_id);
        assert(u32_of_bytes(b[44], b[45], b[46], b[47]) == v.reserved);
        assert(b[48] == v.special_info);
        assert(b[49] == v.relay_state);
        assert(b[50] == v.input_state);
        assert(DateShortBCD::spec_at(b, 51) == v.system_date);
        assert(GetStatusResponse::spec_from_bytes(b) == Some(v));
    }
}

} // verus!
