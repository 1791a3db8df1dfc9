//! SetAddress: set the controller's network configuration. Destructive: the
//! request must carry the magic word. The controller sends no reply.

use vstd::prelude::*;
use crate::error::UhppoteError;
use crate::frame::{
    begin_frame,
    finish_frame,
    lemma_u32_le_round_trip,
    parse_prefix,
    push_u32,
    read_u32,
    u32_le_bytes,
    u32_of_bytes,
    zeros,
};
use crate::opcode::{HEADER, MAGIC_WORD};
use crate::wire::{Ipv4};

verus! {

/// The opcode byte of SetAddress frames.
pub const OPCODE: u8 = 0x96;

/// Set the controller's address, subnet mask and gateway; ignored unless the magic word is present.
#[derive(Clone, Copy, Debug)]
pub struct SetAddressRequest {
    pub device_id: u32,
    pub ip_address: Ipv4,
    pub subnet: Ipv4,
    pub gateway: Ipv4,
    pub magic_word: u32,
}

impl SetAddressRequest {
    /// The 64-byte frame this value serialises to: header, opcode, the
    /// reserved gap, the controller identifier, the payload fields in
    /// order, and zero padding.
    pub open spec fn spec_to_bytes(self) -> Seq<u8> {
        seq![HEADER, OPCODE, 0u8, 0u8]
            + u32_le_bytes(self.device_id)
            + self.ip_address.spec_bytes()
            + self.subnet.spec_bytes()
            + self.gateway.spec_bytes()
            + u32_le_bytes(self.magic_word)
            + zeros(40)
    }

    /// The value a 64-byte frame of this opcode decodes to.
    pub open spec fn spec_from_bytes(b: Seq<u8>) -> Option<SetAddressRequest> {
        if b.len() == 64 && b[1] == OPCODE {
            Some(SetAddressRequest {
                device_id: u32_of_bytes(b[4], b[5], b[6], b[7]),
                ip_address: Ipv4::spec_at(b, 8),
                subnet: Ipv4::spec_at(b, 12),
                gateway: Ipv4::spec_at(b, 16),
                magic_word: u32_of_bytes(b[20], b[21], b[22], b[23]),
            })
        } else {
            None
        }
    }

    pub fn new(device_id: u32, ip_address: Ipv4, subnet: Ipv4, gateway: Ipv4, magic_word: u32) -> (r: SetAddressRequest)
        ensures
            r.device_id == device_id,
            r.ip_address == ip_address,
            r.subnet == subnet,
            r.gateway == gateway,
            r.magic_word == magic_word,
    {
        SetAddressRequest { device_id, ip_address, subnet, gateway, magic_word }
    }

    /// Serialise to the fixed 64-byte frame: the header byte first, the
    /// opcode in byte 1, and unused trailing bytes zero.
    pub fn to_bytes(&self) -> (r: Vec<u8>)
        ensures
            r@ == self.spec_to_bytes(),
            r@.len() == 64,
            r@[0] == HEADER,
            r@[1] == OPCODE,
    {
        let mut buf = begin_frame(HEADER, OPCODE, self.device_id);
        self.ip_address.push_onto(&mut buf);
        self.subnet.push_onto(&mut buf);
        self.gateway.push_onto(&mut buf);
        push_u32(&mut buf, self.magic_word);
        finish_frame(&mut buf);
        proof {
            assert(buf@ == self.spec_to_bytes());
        }
        buf
    }

    /// Decode a received frame; fails when the length is not 64 or the
    /// opcode is not this message's.
    pub fn from_bytes(bytes: &[u8]) -> (r: Result<SetAddressRequest, UhppoteError>)
        ensures
            r is Ok <==> bytes@.len() == 64 && bytes@[1] == OPCODE,
            r matches Ok(v) ==> SetAddressRequest::spec_from_bytes(bytes@) == Some(v),
            bytes@.len() != 64 ==> r == Err::<SetAddressRequest, UhppoteError>(UhppoteError::FrameLength),
            bytes@.len() == 64 && bytes@[1] != OPCODE ==> r == Err::<SetAddressRequest, UhppoteError>(
                UhppoteError::UnexpectedOpcode,
            ),
    {
        let (_header, device_id) = match parse_prefix(OPCODE, bytes) {
            Ok(p) => p,
            Err(e) => {
                return Err(e);
            },
        };
        let ip_address = Ipv4::read_at(bytes, 8);
        let subnet = Ipv4::read_at(bytes, 12);
        let gateway = Ipv4::read_at(bytes, 16);
        let magic_word = read_u32(bytes, 20);
        Ok(SetAddressRequest { device_id, ip_address, subnet, gateway, magic_word })
    }

    /// Decoding inverts encoding, and the decoded value serialises back to
    /// the identical frame.
    pub proof fn lemma_round_trip(v: SetAddressRequest)
        ensures
            SetAddressRequest::spec_from_bytes(v.spec_to_bytes()) == Some(v),
            SetAddressRequest::spec_from_bytes(v.spec_to_bytes()) matches Some(w) ==> w.spec_to_bytes()
                == v.spec_to_bytes(),
    {
        let b = v.spec_to_bytes();
        lemma_u32_le_round_trip(v.device_id);
        lemma_u32_le_round_trip(v.magic_word);
        assert(b.len() == 64);
        assert(b[1] == OPCODE);
        assert(u32_of_bytes(b[4], b[5], b[6], b[7]) == v.device_id);
        assert(Ipv4::spec_at(b, 8) == v.ip_address);
        assert(Ipv4::spec_at(b, 12) == v.subnet);
        assert(Ipv4::spec_at(b, 16) == v.gateway);
        assert(u32_of_bytes(b[20], b[21], b[22], b[23]) == v.magic_word);
        assert(SetAddressRequest::spec_from_bytes(b) == Some(v));
    }
}


/// Every SetAddress frame built with the protocol's magic word carries the four
/// sentinel bytes `55 aa aa 55` in its payload.
pub proof fn lemma_magic_word_bytes(v: SetAddressRequest)
    requires
        v.magic_word == MAGIC_WORD,
    ensures
        v.spec_to_bytes()[20] == 0x55,
        v.spec_to_bytes()[21] == 0xaa,
        v.spec_to_bytes()[22] == 0xaa,
        v.spec_to_bytes()[23] == 0x55,
{
}

} // verus!
