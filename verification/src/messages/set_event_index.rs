//! SetEventIndex: move the controller's event read pointer. Destructive:
//! the request must carry the magic word.

use vstd::prelude::*;
use crate::error::UhppoteError;
use crate::frame::{
    begin_frame,
    bool_byte,
    finish_frame,
    lemma_u32_le_round_trip,
    parse_prefix,
    push_bool,
    push_u32,
    read_bool,
    read_u32,
    u32_le_bytes,
    u32_of_bytes,
    zeros,
};
use crate::opcode::{HEADER, MAGIC_WORD};

verus! {

/// The opcode byte of SetEventIndex frames.
pub const OPCODE: u8 = 0xb2;

/// Set the event read pointer; ignored unless the magic word is present.
#[derive(Clone, Copy, Debug)]
pub struct SetEventIndexRequest {
    pub device_id: u32,
    pub index: u32,
    pub magic_word: u32,
}

impl SetEventIndexRequest {
    /// The 64-byte frame this value serialises to: header, opcode, the
    /// reserved gap, the controller identifier, the payload fields in
    /// order, and zero padding.
    pub open spec fn spec_to_bytes(self) -> Seq<u8> {
        seq![HEADER, OPCODE, 0u8, 0u8]
            + u32_le_bytes(self.device_id)
            + u32_le_bytes(self.index)
            + u32_le_bytes(self.magic_word)
            + zeros(48)
    }

    /// The value a 64-byte frame of this opcode decodes to.
    pub open spec fn spec_from_bytes(b: Seq<u8>) -> Option<SetEventIndexRequest> {
        if b.len() == 64 && b[1] == OPCODE {
            Some(SetEventIndexRequest {
                device_id: u32_of_bytes(b[4], b[5], b[6], b[7]),
                index: u32_of_bytes(b[8], b[9], b[10], b[11]),
                magic_word: u32_of_bytes(b[12], b[13], b[14], b[15]),
            })
        } else {
            None
        }
    }

    pub fn new(device_id: u32, index: u32, magic_word: u32) -> (r: SetEventIndexRequest)
        ensures
            r.device_id == device_id,
            r.index == index,
            r.magic_word == magic_word,
    {
        SetEventIndexRequest { device_id, index, magic_word }
    }

    /// Serialise to the fixed 64-byte frame: the header byte first, the
    /// opcode in byte 1, and unused trailing bytes zero.
    pub fn to_bytes(&self) -> (r: Vec<u8>)
        ensures
            r@ == self.spec_to_bytes(),
            r@.len() == 64,
            r@[0] == HEADER,
            r@[1] == OPCODE,
    {
        let mut buf = begin_frame(HEADER, OPCODE, self.device_id);
        push_u32(&mut buf, self.index);
        push_u32(&mut buf, self.magic_word);
        finish_frame(&mut buf);
        proof {
            assert(buf@ == self.spec_to_bytes());
        }
        buf
    }

    /// Decode a received frame; fails when the length is not 64 or the
    /// opcode is not this message's.
    pub fn from_bytes(bytes: &[u8]) -> (r: Result<SetEventIndexRequest, UhppoteError>)
        ensures
            r is Ok <==> bytes@.len() == 64 && bytes@[1] == OPCODE,
            r matches Ok(v) ==> SetEventIndexRequest::spec_from_bytes(bytes@) == Some(v),
            bytes@.len() != 64 ==> r == Err::<SetEventIndexRequest, UhppoteError>(UhppoteError::FrameLength),
            bytes@.len() == 64 && bytes@[1] != OPCODE ==> r == Err::<SetEventIndexRequest, UhppoteError>(
                UhppoteError::UnexpectedOpcode,
            ),
    {
        let (_header, device_id) = match parse_prefix(OPCODE, bytes) {
            Ok(p) => p,
            Err(e) => {
                return Err(e);
            },
        };
        let index = read_u32(bytes, 8);
        let magic_word = read_u32(bytes, 12);
        Ok(SetEventIndexRequest { device_id, index, magic_word })
    }

    /// Decoding inverts encoding, and the decoded value serialises back to
    /// the identical frame.
    pub proof fn lemma_round_trip(v: SetEventIndexRequest)
        ensures
            SetEventIndexRequest::spec_from_bytes(v.spec_to_bytes()) == Some(v),
            SetEventIndexRequest::spec_from_bytes(v.spec_to_bytes()) matches Some(w) ==> w.spec_to_bytes()
                == v.spec_to_bytes(),
    {
        let b = v.spec_to_bytes();
        lemma_u32_le_round_trip(v.device_id);
        lemma_u32_le_round_trip(v.index);
        lemma_u32_le_round_trip(v.magic_word);
        assert(b.len() == 64);
        assert(b[1] == OPCODE);
        assert(u32_of_bytes(b[4], b[5], b[6], b[7]) == v.device_id);
        assert(u32_of_bytes(b[8], b[9], b[10], b[11]) == v.index);
        assert(u32_of_bytes(b[12], b[13], b[14], b[15]) == v.magic_word);
        assert(SetEventIndexRequest::spec_from_bytes(b) == Some(v));
    }
}

/// The controller's answer: whether the pointer was moved.
#[derive(Clone, Copy, Debug)]
pub struct SetEventIndexResponse {
    pub header: u8,
    pub message_type: u8,
    pub device_id: u32,
    pub success: bool,
}

impl SetEventIndexResponse {
    /// A decoded frame of this kind carries its own opcode in byte 1.
    pub open spec fn wf(self) -> bool {
        self.message_type == OPCODE
    }

    /// The 64-byte frame this value serialises to: header, opcode, the
    /// reserved gap, the controller identifier, the payload fields in
    /// order, and zero padding.
    pub open spec fn spec_to_bytes(self) -> Seq<u8> {
        seq![self.header, self.message_type, 0u8, 0u8]
            + u32_le_bytes(self.device_id)
            + seq![bool_byte(self.success)]
            + zeros(55)
    }

    /// The value a 64-byte frame of this opcode decodes to.
    pub open spec fn spec_from_bytes(b: Seq<u8>) -> Option<SetEventIndexResponse> {
        if b.len() == 64 && b[1] == OPCODE {
            Some(SetEventIndexResponse {
                header: b[0],
                message_type: b[1],
                device_id: u32_of_bytes(b[4], b[5], b[6], b[7]),
                success: b[8] != 0,
            })
        } else {
            None
        }
    }

    /// Decode a received frame; fails when the length is not 64 or the
    /// opcode is not this message's.
    pub fn from_bytes(bytes: &[u8]) -> (r: Result<SetEventIndexResponse, UhppoteError>)
        ensures
            r is Ok <==> bytes@.len() == 64 && bytes@[1] == OPCODE,
            r matches Ok(v) ==> SetEventIndexResponse::spec_from_bytes(bytes@) == Some(v),
            bytes@.len() != 64 ==> r == Err::<SetEventIndexResponse, UhppoteError>(UhppoteError::FrameLength),
            bytes@.len() == 64 && bytes@[1] != OPCODE ==> r == Err::<SetEventIndexResponse, UhppoteError>(
                UhppoteError::UnexpectedOpcode,
            ),
    {
        let (header, device_id) = match parse_prefix(OPCODE, bytes) {
            Ok(p) => p,
            Err(e) => {
                return Err(e);
            },
        };
        let success = read_bool(bytes, 8);
        Ok(SetEventIndexResponse { header, message_type: OPCODE, device_id, success })
    }

    /// Decoding inverts encoding, and the decoded value serialises back to
    /// the identical frame.
    pub proof fn lemma_round_trip(v: SetEventIndexResponse)
        requires
            v.wf(),
        ensures
            SetEventIndexResponse::spec_from_bytes(v.spec_to_bytes()) == Some(v),
            SetEventIndexResponse::spec_from_bytes(v.spec_to_bytes()) matches Some(w) ==> w.spec_to_bytes()
                == v.spec_to_bytes(),
    {
        let b = v.spec_to_bytes();
        lemma_u32_le_round_trip(v.device_id);
        assert(b.len() == 64);
        assert(b[0] == v.header);
        assert(b[1] == OPCODE);
        assert(u32_of_bytes(b[4], b[5], b[6], b[7]) == v.device_id);
        assert((b[8] != 0) == v.success);
        assert(SetEventIndexResponse::spec_from_bytes(b) == Some(v));
    }
}


/// Every SetEventIndex frame built with the protocol's magic word carries the four
/// sentinel bytes `55 aa aa 55` in its payload.
pub proof fn lemma_magic_word_bytes(v: SetEventIndexRequest)
    requires
        v.magic_word == MAGIC_WORD,
    ensures
        v.spec_to_bytes()[12] == 0x55,
        v.spec_to_bytes()[13] == 0xaa,
        v.spec_to_bytes()[14] == 0xaa,
        v.spec_to_bytes()[15] == 0x55,
{
}

} // verus!
