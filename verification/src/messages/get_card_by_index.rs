//! GetCardByIndex: look a card up by its storage index.

use vstd::prelude::*;
use crate::error::UhppoteError;
use crate::frame::{
    begin_frame,
    finish_frame,
    lemma_u32_le_round_trip,
    parse_prefix,
    push_u32,
    push_u8,
    read_u32,
    read_u8,
    u32_le_bytes,
    u32_of_bytes,
    zeros,
};
use crate::opcode::HEADER;
use crate::wire::{DateBCD};

verus! {

/// The opcode byte of GetCardByIndex frames.
pub const OPCODE: u8 = 0x5c;

/// Ask the controller for the card stored at this index.
#[derive(Clone, Copy, Debug)]
pub struct GetCardByIndexRequest {
    pub device_id: u32,
    pub index: u32,
}

impl GetCardByIndexRequest {
    /// The 64-byte frame this value serialises to: header, opcode, the
    /// reserved gap, the controller identifier, the payload fields in
    /// order, and zero padding.
    pub open spec fn spec_to_bytes(self) -> Seq<u8> {
        seq![HEADER, OPCODE, 0u8, 0u8]
            + u32_le_bytes(self.device_id)
            + u32_le_bytes(self.index)
            + zeros(52)
    }

    /// The value a 64-byte frame of this opcode decodes to.
    pub open spec fn spec_from_bytes(b: Seq<u8>) -> Option<GetCardByIndexRequest> {
        if b.len() == 64 && b[1] == OPCODE {
            Some(GetCardByIndexRequest {
                device_id: u32_of_bytes(b[4], b[5], b[6], b[7]),
                index: u32_of_bytes(b[8], b[9], b[10], b[11]),
            })
        } else {
            None
        }
    }

    pub fn new(device_id: u32, index: u32) -> (r: GetCardByIndexRequest)
        ensures
            r.device_id == device_id,
            r.index == index,
    {
        GetCardByIndexRequest { device_id, index }
    }

    /// Serialise to the fixed 64-byte frame: the header byte first, the
    /// opcode in byte 1, and unused trailing bytes zero.
    pub fn to_bytes(&self) -> (r: Vec<u8>)
        ensures
            r@ == self.spec_to_bytes(),
            r@.len() == 64,
            r@[0] == HEADER,
            r@[1] == OPCODE,
    {
        let mut buf = begin_frame(HEADER, OPCODE, self.device_id);
        push_u32(&mut buf, self.index);
        finish_frame(&mut buf);
        proof {
            assert(buf@ == self.spec_to_bytes());
        }
        buf
    }

    /// Decode a received frame; fails when the length is not 64 or the
    /// opcode is not this message's.
    pub fn from_bytes(bytes: &[u8]) -> (r: Result<GetCardByIndexRequest, UhppoteError>)
        ensures
            r is Ok <==> bytes@.len() == 64 && bytes@[1] == OPCODE,
            r matches Ok(v) ==> GetCardByIndexRequest::spec_from_bytes(bytes@) == Some(v),
            bytes@.len() != 64 ==> r == Err::<GetCardByIndexRequest, UhppoteError>(UhppoteError::FrameLength),
            bytes@.len() == 64 && bytes@[1] != OPCODE ==> r == Err::<GetCardByIndexRequest, UhppoteError>(
                UhppoteError::UnexpectedOpcode,
            ),
    {
        let (_header, device_id) = match parse_prefix(OPCODE, bytes) {
            Ok(p) => p,
            Err(e) => {
                return Err(e);
            },
        };
        let index = read_u32(bytes, 8);
        Ok(GetCardByIndexRequest { device_id, index })
    }

    /// Decoding inverts encoding, and the decoded value serialises back to
    /// the identical frame.
    pub proof fn lemma_round_trip(v: GetCardByIndexRequest)
        ensures
            GetCardByIndexRequest::spec_from_bytes(v.spec_to_bytes()) == Some(v),
            GetCardByIndexRequest::spec_from_bytes(v.spec_to_bytes()) matches Some(w) ==> w.spec_to_bytes()
                == v.spec_to_bytes(),
    {
        let b = v.spec_to_bytes();
        lemma_u32_le_round_trip(v.device_id);
        lemma_u32_le_round_trip(v.index);
        assert(b.len() == 64);
        assert(b[1] == OPCODE);
        assert(u32_of_bytes(b[4], b[5], b[6], b[7]) == v.device_id);
        assert(u32_of_bytes(b[8], b[9], b[10], b[11]) == v.index);
        assert(GetCardByIndexRequest::spec_from_bytes(b) == Some(v));
    }
}

/// The controller's answer: the card record, zeroed when the index is empty.
#[derive(Clone, Copy, Debug)]
pub struct GetCardByIndexResponse {
    pub header: u8,
    pub message_type: u8,
    pub device_id: u32,
    pub card_number: u32,
    pub from: DateBCD,
    pub to: DateBCD,
    pub door_1: u8,
    pub door_2: u8,
    pub door_3: u8,
    pub door_4: u8,
}

impl GetCardByIndexResponse {
    /// A decoded frame of this kind carries its own opcode in byte 1.
    pub open spec fn wf(self) -> bool {
        self.message_type == OPCODE
    }

    /// The 64-byte frame this value serialises to: header, opcode, the
    /// reserved gap, the controller identifier, the payload fields in
    /// order, and zero padding.
    pub open spec fn spec_to_bytes(self) -> Seq<u8> {
        seq![self.header, self.message_type, 0u8, 0u8]
            + u32_le_bytes(self.device_id)
            + u32_le_bytes(self.card_number)
            + self.from.spec_bytes()
            + self.to.spec_bytes()
            + seq![self.door_1]
            + seq![self.door_2]
            + seq![self.door_3]
            + seq![self.door_4]
            + zeros(40)
    }

    /// The value a 64-byte frame of this opcode decodes to.
    pub open spec fn spec_from_bytes(b: Seq<u8>) -> Option<GetCardByIndexResponse> {
        if b.len() == 64 && b[1] == OPCODE {
            Some(GetCardByIndexResponse {
                header: b[0],
                message_type: b[1],
                device_id: u32_of_bytes(b[4], b[5], b[6], b[7]),
                card_number: u32_of_bytes(b[8], b[9], b[10], b[11]),
                from: DateBCD::spec_at(b, 12),
                to: DateBCD::spec_at(b, 16),
                door_1: b[20],
                door_2: b[21],
                door_3: b[22],
                door_4: b[23],
            })
        } else {
            None
        }
    }

    /// Decode a received frame; fails when the length is not 64 or the
    /// opcode is not this message's.
    pub fn from_bytes(bytes: &[u8]) -> (r: Result<GetCardByIndexResponse, UhppoteError>)
        ensures
            r is Ok <==> bytes@.len() == 64 && bytes@[1] == OPCODE,
            r matches Ok(v) ==> GetCardByIndexResponse::spec_from_bytes(bytes@) == Some(v),
            bytes@.len() != 64 ==> r == Err::<GetCardByIndexResponse, UhppoteError>(UhppoteError::FrameLength),
            bytes@.len() == 64 && bytes@[1] != OPCODE ==> r == Err::<GetCardByIndexResponse, UhppoteError>(
                UhppoteError::UnexpectedOpcode,
            ),
    {
        let (header, device_id) = match parse_prefix(OPCODE, bytes) {
            Ok(p) => p,
            Err(e) => {
                return Err(e);
            },
        };
        let card_number = read_u32(bytes, 8);
        let from = DateBCD::read_at(bytes, 12);
        let to = DateBCD::read_at(bytes, 16);
        let door_1 = read_u8(bytes, 20);
        let door_2 = read_u8(bytes, 21);
        let door_3 = read_u8(bytes, 22);
        let door_4 = read_u8(bytes, 23);
        Ok(GetCardByIndexResponse { header, message_type: OPCODE, device_id, card_number, from, to, door_1, door_2, door_3, door_4 })
    }

    /// Decoding inverts encoding, and the decoded value serialises back to
    /// the identical frame.
    pub proof fn lemma_round_trip(v: GetCardByIndexResponse)
        requires
            v.wf(),
        ensures
            GetCardByIndexResponse::spec_from_bytes(v.spec_to_bytes()) == Some(v),
            GetCardByIndexResponse::spec_from_bytes(v.spec_to_bytes()) matches Some(w) ==> w.spec_to_bytes()
                == v.spec_to_bytes(),
    {
        let b = v.spec_to_bytes();
        lemma_u32_le_round_trip(v.device_id);
        lemma_u32_le_round_trip(v.card_number);
        assert(b.len() == 64);
        assert(b[0] == v.header);
        assert(b[1] == OPCODE);
        assert(u32_of_bytes(b[4], b[5], b[6], b[7]) == v.device_id);
        assert(u32_of_bytes(b[8], b[9], b[10], b[11]) == v.card_number);
        assert(DateBCD::spec_at(b, 12) == v.from);
        assert(DateBCD::spec_at(b, 16) == v.to);
        assert(b[20] == v.door_1);
        assert(b[21] == v.door_2);
        assert(b[22] == v.door_3);
        assert(b[23] == v.door_4);
        assert(GetCardByIndexResponse::spec_from_bytes(b) == Some(v));
    }
}

} // verus!
