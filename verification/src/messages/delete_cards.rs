//! DeleteAllCards: remove every stored card. Destructive: the request must
//! carry the magic word.

use vstd::prelude::*;
use crate::error::UhppoteError;
use crate::frame::{
    begin_frame,
    bool_byte,
    finish_frame,
    lemma_u32_le_round_trip,
    parse_prefix,
    push_bool,
    push_u32,
    read_bool,
    read_u32,
    u32_le_bytes,
    u32_of_bytes,
    zeros,
};
use crate::opcode::{HEADER, MAGIC_WORD};

verus! {

/// The opcode byte of DeleteAllCards frames.
pub const OPCODE: u8 = 0x54;

/// Ask the controller to remove all cards; ignored unless the magic word is present.
#[derive(Clone, Copy, Debug)]
pub struct DeleteCardsRequest {
    pub device_id: u32,
    pub magic_word: u32,
}

impl DeleteCardsRequest {
    /// The 64-byte frame this value serialises to: header, opcode, the
    /// reserved gap, the controller identifier, the payload fields in
    /// order, and zero padding.
    pub open spec fn spec_to_bytes(self) -> Seq<u8> {
        seq![HEADER, OPCODE, 0u8, 0u8]
            + u32_le_bytes(self.device_id)
            + u32_le_bytes(self.magic_word)
            + zeros(52)
    }

    /// The value a 64-byte frame of this opcode decodes to.
    pub open spec fn spec_from_bytes(b: Seq<u8>) -> Option<DeleteCardsRequest> {
        if b.len() == 64 && b[1] == OPCODE {
            Some(DeleteCardsRequest {
                device_id: u32_of_bytes(b[4], b[5], b[6], b[7]),
                magic_word: u32_of_bytes(b[8], b[9], b[10], b[11]),
            })
        } else {
            None
        }
    }

    pub fn new(device_id: u32, magic_word: u32) -> (r: DeleteCardsRequest)
        ensures
            r.device_id == device_id,
            r.magic_word == magic_word,
    {
        DeleteCardsRequest { device_id, magic_word }
    }

    /// Serialise to the fixed 64-byte frame: the header byte first, the
    /// opcode in byte 1, and unused trailing bytes zero.
    pub fn to_bytes(&self) -> (r: Vec<u8>)
        ensures
            r@ == self.spec_to_bytes(),
            r@.len() == 64,
            r@[0] == HEADER,
            r@[1] == OPCODE,
    {
        let mut buf = begin_frame(HEADER, OPCODE, self.device_id);
        push_u32(&mut buf, self.magic_word);
        finish_frame(&mut buf);
        proof {
            assert(buf@ == self.spec_to_bytes());
        }
        buf
    }

    /// Decode a received frame; fails when the length is not 64 or the
    /// opcode is not this message's.
    pub fn from_bytes(bytes: &[u8]) -> (r: Result<DeleteCardsRequest, UhppoteError>)
        ensures
            r is Ok <==> bytes@.len() == 64 && bytes@[1] == OPCODE,
            r matches Ok(v) ==> DeleteCardsRequest::spec_from_bytes(bytes@) == Some(v),
            bytes@.len() != 64 ==> r == Err::<DeleteCardsRequest, UhppoteError>(UhppoteError::FrameLength),
            bytes@.len() == 64 && bytes@[1] != OPCODE ==> r == Err::<DeleteCardsRequest, UhppoteError>(
                UhppoteError::UnexpectedOpcode,
            ),
    {
        let (_header, device_id) = match parse_prefix(OPCODE, bytes) {
            Ok(p) => p,
            Err(e) => {
                return Err(e);
            },
        };
        let magic_word = read_u32(bytes, 8);
        Ok(DeleteCardsRequest { device_id, magic_word })
    }

    /// Decoding inverts encoding, and the decoded value serialises back to
    /// the identical frame.
    pub proof fn lemma_round_trip(v: DeleteCardsRequest)
        ensures
            DeleteCardsRequest::spec_from_bytes(v.spec_to_bytes()) == Some(v),
            DeleteCardsRequest::spec_from_bytes(v.spec_to_bytes()) matches Some(w) ==> w.spec_to_bytes()
                == v.spec_to_bytes(),
    {
        let b = v.spec_to_bytes();
        lemma_u32_le_round_trip(v.device_id);
        lemma_u32_le_round_trip(v.magic_word);
        assert(b.len() == 64);
        assert(b[1] == OPCODE);
        assert(u32_of_bytes(b[4], b[5], b[6], b[7]) == v.device_id);
        assert(u32_of_bytes(b[8], b[9], b[10], b[11]) == v.magic_word);
        assert(DeleteCardsRequest::spec_from_bytes(b) == Some(v));
    }
}

/// The controller's answer: whether the cards were removed.
#[derive(Clone, Copy, Debug)]
pub struct DeleteCardsResponse {
    pub header: u8,
    pub message_type: u8,
    pub device_id: u32,
    pub success: bool,
}

impl DeleteCardsResponse {
    /// A decoded frame of this kind carries its own opcode in byte 1.
    pub open spec fn wf(self) -> bool {
        self.message_type == OPCODE
    }

    /// The 64-byte frame this value serialises to: header, opcode, the
    /// reserved gap, the controller identifier, the payload fields in
    /// order, and zero padding.
    pub open spec fn spec_to_bytes(self) -> Seq<u8> {
        seq![self.header, self.message_type, 0u8, 0u8]
            + u32_le_bytes(self.device_id)
            + seq![bool_byte(self.success)]
            + zeros(55)
    }

    /// The value a 64-byte frame of this opcode decodes to.
    pub open spec fn spec_from_bytes(b: Seq<u8>) -> Option<DeleteCardsResponse> {
        if b.len() == 64 && b[1] == OPCODE {
            Some(DeleteCardsResponse {
                header: b[0],
                message_type: b[1],
                device_id: u32_of_bytes(b[4], b[5], b[6], b[7]),
                success: b[8] != 0,
            })
        } else {
            None
        }
    }

    /// Decode a received frame; fails when the length is not 64 or the
    /// opcode is not this message's.
    pub fn from_bytes(bytes: &[u8]) -> (r: Result<DeleteCardsResponse, UhppoteError>)
        ensures
            r is Ok <==> bytes@.len() == 64 && bytes@[1] == OPCODE,
            r matches Ok(v) ==> DeleteCardsResponse::spec_from_bytes(bytes@) == Some(v),
            bytes@.len() != 64 ==> r == Err::<DeleteCardsResponse, UhppoteError>(UhppoteError::FrameLength),
            bytes@.len() == 64 && bytes@[1] != OPCODE ==> r == Err::<DeleteCardsResponse, UhppoteError>(
                UhppoteError::UnexpectedOpcode,
            ),
    {
        let (header, device_id) = match parse_prefix(OPCODE, bytes) {
            Ok(p) => p,
            Err(e) => {
                return Err(e);
            },
        };
        let success = read_bool(bytes, 8);
        Ok(DeleteCardsResponse { header, message_type: OPCODE, device_id, success })
    }

    /// Decoding inverts encoding, and the decoded value serialises back to
    /// the identical frame.
    pub proof fn lemma_round_trip(v: DeleteCardsResponse)
        requires
            v.wf(),
        ensures
            DeleteCardsResponse::spec_from_bytes(v.spec_to_bytes()) == Some(v),
            DeleteCardsResponse::spec_from_bytes(v.spec_to_bytes()) matches Some(w) ==> w.spec_to_bytes()
                == v.spec_to_bytes(),
    {
        let b = v.spec_to_bytes();
        lemma_u32_le_round_trip(v.device_id);
        assert(b.len() == 64);
        assert(b[0] == v.header);
        assert(b[1] == OPCODE);
        assert(u32_of_bytes(b[4], b[5], b[6], b[7]) == v.device_id);
        assert((b[8] != 0) == v.success);
        assert(DeleteCardsResponse::spec_from_bytes(b) == Some(v));
    }
}


/// Every DeleteAllCards frame built with the protocol's magic word carries the four
/// sentinel bytes `55 aa aa 55` in its payload.
pub proof fn lemma_magic_word_bytes(v: DeleteCardsRequest)
    requires
        v.magic_word == MAGIC_WORD,
    ensures
        v.spec_to_bytes()[8] == 0x55,
        v.spec_to_bytes()[9] == 0xaa,
        v.spec_to_bytes()[10] == 0xaa,
        v.spec_to_bytes()[11] == 0x55,
{
}

} // verus!
