//! GetEvent: read the stored event at an index.

use vstd::prelude::*;
use crate::error::UhppoteError;
use crate::frame::{
    begin_frame,
    bool_byte,
    finish_frame,
    lemma_u32_le_round_trip,
    parse_prefix,
    push_bool,
    push_u32,
    push_u8,
    read_bool,
    read_u32,
    read_u8,
    u32_le_bytes,
    u32_of_bytes,
    zeros,
};
use crate::opcode::HEADER;
use crate::wire::{DateTime};

verus! {

/// The opcode byte of GetEvent frames.
pub const OPCODE: u8 = 0xb0;

/// Ask the controller for the event stored at this index.
#[derive(Clone, Copy, Debug)]
pub struct GetEventRequest {
    pub device_id: u32,
    pub index: u32,
}

impl GetEventRequest {
    /// The 64-byte frame this value serialises to: header, opcode, the
    /// reserved gap, the controller identifier, the payload fields in
    /// order, and zero padding.
    pub open spec fn spec_to_bytes(self) -> Seq<u8> {
        seq![HEADER, OPCODE, 0u8, 0u8]
            + u32_le_bytes(self.device_id)
            + u32_le_bytes(self.index)
            + zeros(52)
    }

    /// The value a 64-byte frame of this opcode decodes to.
    pub open spec fn spec_from_bytes(b: Seq<u8>) -> Option<GetEventRequest> {
        if b.len() == 64 && b[1] == OPCODE {
            Some(GetEventRequest {
                device_id: u32_of_bytes(b[4], b[5], b[6], b[7]),
                index: u32_of_bytes(b[8], b[9], b[10], b[11]),
            })
        } else {
            None
        }
    }

    pub fn new(device_id: u32, index: u32) -> (r: GetEventRequest)
        ensures
            r.device_id == device_id,
            r.index == index,
    {
        GetEventRequest { device_id, index }
    }

    /// Serialise to the fixed 64-byte frame: the header byte first, the
    /// opcode in byte 1, and unused trailing bytes zero.
    pub fn to_bytes(&self) -> (r: Vec<u8>)
        ensures
            r@ == self.spec_to_bytes(),
            r@.len() == 64,
            r@[0] == HEADER,
            r@[1] == OPCODE,
    {
        let mut buf = begin_frame(HEADER, OPCODE, self.device_id);
        push_u32(&mut buf, self.index);
        finish_frame(&mut buf);
        proof {
            assert(buf@ == self.spec_to_bytes());
        }
        buf
    }

    /// Decode a received frame; fails when the length is not 64 or the
    /// opcode is not this message's.
    pub fn from_bytes(bytes: &[u8]) -> (r: Result<GetEventRequest, UhppoteError>)
        ensures
            r is Ok <==> bytes@.len() == 64 && bytes@[1] == OPCODE,
            r matches Ok(v) ==> GetEventRequest::spec_from_bytes(bytes@) == Some(v),
            bytes@.len() != 64 ==> r == Err::<GetEventRequest, UhppoteError>(UhppoteError::FrameLength),
            bytes@.len() == 64 && bytes@[1] != OPCODE ==> r == Err::<GetEventRequest, UhppoteError>(
                UhppoteError::UnexpectedOpcode,
            ),
    {
        let (_header, device_id) = match parse_prefix(OPCODE, bytes) {
            Ok(p) => p,
            Err(e) => {
                return Err(e);
            },
        };
        let index = read_u32(bytes, 8);
        Ok(GetEventRequest { device_id, index })
    }

    /// Decoding inverts encoding, and the decoded value serialises back to
    /// the identical frame.
    pub proof fn lemma_round_trip(v: GetEventRequest)
        ensures
            GetEventRequest::spec_from_bytes(v.spec_to_bytes()) == Some(v),
            GetEventRequest::spec_from_bytes(v.spec_to_bytes()) matches Some(w) ==> w.spec_to_bytes()
                == v.spec_to_bytes(),
    {
        let b = v.spec_to_bytes();
        lemma_u32_le_round_trip(v.device_id);
        lemma_u32_le_round_trip(v.index);
        assert(b.len() == 64);
        assert(b[1] == OPCODE);
        assert(u32_of_bytes(b[4], b[5], b[6], b[7]) == v.device_id);
        assert(u32_of_bytes(b[8], b[9], b[10], b[11]) == v.index);
        assert(GetEventRequest::spec_from_bytes(b) == Some(v));
    }
}

/// The controller's answer: the stored event record.
#[derive(Clone, Copy, Debug)]
pub struct GetEventResponse {
    pub header: u8,
    pub message_type: u8,
    pub device_id: u32,
    pub index: u32,
    pub type_: u8,
    pub granted: bool,
    pub door: u8,
    pub direction: u8,
    pub card_number: u32,
    pub timestamp: DateTime,
    pub reason: u8,
}

impl GetEventResponse {
    /// A decoded frame of this kind carries its own opcode in byte 1.
    pub open spec fn wf(self) -> bool {
        self.message_type == OPCODE
    }

    /// The 64-byte frame this value serialises to: header, opcode, the
    /// reserved gap, the controller identifier, the payload fields in
    /// order, and zero padding.
    pub open spec fn spec_to_bytes(self) -> Seq<u8> {
        seq![self.header, self.message_type, 0u8, 0u8]
            + u32_le_bytes(self.device_id)
            + u32_le_bytes(self.index)
            + seq![self.type_]
            + seq![bool_byte(self.granted)]
            + seq![self.door]
            + seq![self.direction]
            + u32_le_bytes(self.card_number)
            + self.timestamp.spec_bytes()
            + seq![self.reason]
            + zeros(36)
    }

    /// The value a 64-byte frame of this opcode decodes to.
    pub open spec fn spec_from_bytes(b: Seq<u8>) -> Option<GetEventResponse> {
        if b.len() == 64 && b[1] == OPCODE {
            Some(GetEventResponse {
                header: b[0],
                message_type: b[1],
                device_id: u32_of_bytes(b[4], b[5], b[6], b[7]),
                index: u32_of_bytes(b[8], b[9], b[10], b[11]),
                type_: b[12],
                granted: b[13] != 0,
                door: b[14],
                direction: b[15],
                card_number: u32_of_bytes(b[16], b[17], b[18], b[19]),
                timestamp: DateTime::spec_at(b, 20),
                reason: b[27],
            })
        } else {
            None
        }
    }

    /// Decode a received frame; fails when the length is not 64 or the
    /// opcode is not this message's.
    pub fn from_bytes(bytes: &[u8]) -> (r: Result<GetEventResponse, UhppoteError>)
        ensures
            r is Ok <==> bytes@.len() == 64 && bytes@[1] == OPCODE,
            r matches Ok(v) ==> GetEventResponse::spec_from_bytes(bytes@) == Some(v),
            bytes@.len() != 64 ==> r == Err::<GetEventResponse, UhppoteError>(UhppoteError::FrameLength),
            bytes@.len() == 64 && bytes@[1] != OPCODE ==> r == Err::<GetEventResponse, UhppoteError>(
                UhppoteError::UnexpectedOpcode,
            ),
    {
        let (header, device_id) = match parse_prefix(OPCODE, bytes) {
            Ok(p) => p,
            Err(e) => {
                return Err(e);
            },
        };
        let index = read_u32(bytes, 8);
        let type_ = read_u8(bytes, 12);
        let granted = read_bool(bytes, 13);
        let door = read_u8(bytes, 14);
        let direction = read_u8(bytes, 15);
        let card_number = read_u32(bytes, 16);
        let timestamp = DateTime::read_at(bytes, 20);
        let reason = read_u8(bytes, 27);
        Ok(GetEventResponse { header, message_type: OPCODE, device_id, index, type_, granted, door, direction, card_number, timestamp, reason })
    }

    /// Decoding inverts encoding, and the decoded value serialises back to
    /// the identical frame.
    pub proof fn lemma_round_trip(v: GetEventResponse)
        requires
            v.wf(),
        ensures
            GetEventResponse::spec_from_bytes(v.spec_to_bytes()) == Some(v),
            GetEventResponse::spec_from_bytes(v.spec_to_bytes()) matches Some(w) ==> w.spec_to_bytes()
                == v.spec_to_bytes(),
    {
        let b = v.spec_to_bytes();
        lemma_u32_le_round_trip(v.device_id);
        lemma_u32_le_round_trip(v.index);
        lemma_u32_le_round_trip(v.card_number);
        assert(b.len() == 64);
        assert(b[0] == v.header);
        assert(b[1] == OPCODE);
        assert(u32_of_bytes(b[4], b[5], b[6], b[7]) == v.device_id);
        assert(u32_of_bytes(b[8], b[9], b[10], b[11]) == v.index);
        assert(b[12] == v.type_);
        assert((b[13] != 0) == v.granted);
        assert(b[14] == v.door);
        assert(b[15] == v.direction);
        assert(u32_of_bytes(b[16], b[17], b[18], b[19]) == v.card_number);
        assert(DateTime::spec_at(b, 20) == v.timestamp);
        assert(b[27] == v.reason);
        assert(GetEventResponse::spec_from_bytes(b) == Some(v));
    }
}

} // verus!
