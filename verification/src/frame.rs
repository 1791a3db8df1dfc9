//! The fixed 64-byte frame: building, padding, and field access.
//!
//! Every frame is 64 bytes. Byte 0 is the constant header, byte 1 the
//! opcode, bytes 2 and 3 a reserved gap (zero on send, ignored on receive),
//! bytes 4 to 7 the little-endian controller identifier. Payload fields start
//! at byte 8 and unused trailing bytes are zero. Multi-byte integers are
//! little-endian.

use vstd::prelude::*;
use vstd::slice::slice_index_get;
use crate::error::UhppoteError;

verus! {

/// The length of every frame on the wire.
pub const FRAME_LEN: usize = 64;

pub open spec fn zeros(n: nat) -> Seq<u8> {
    Seq::new(n, |i: int| 0u8)
}

/// The byte a boolean field puts on the wire.
pub open spec fn bool_byte(b: bool) -> u8 {
    if b {
        1
    } else {
        0
    }
}

pub open spec fn u16_le_bytes(x: u16) -> Seq<u8> {
    seq![(x % 256) as u8, (x / 256) as u8]
}

pub open spec fn u16_of_bytes(b0: u8, b1: u8) -> u16 {
    (b0 + b1 * 256) as u16
}

pub open spec fn u32_le_bytes(x: u32) -> Seq<u8> {
    seq![
        (x % 256) as u8,
        ((x / 256) % 256) as u8,
        ((x / 65536) % 256) as u8,
        ((x / 16777216) % 256) as u8,
    ]
}

pub open spec fn u32_of_bytes(b0: u8, b1: u8, b2: u8, b3: u8) -> u32 {
    (b0 + b1 * 256 + b2 * 65536 + b3 * 16777216) as u32
}

pub proof fn lemma_u16_le_round_trip(x: u16)
    ensures
        u16_of_bytes(u16_le_bytes(x)[0], u16_le_bytes(x)[1]) == x,
{
    assert(x % 256 + (x / 256) * 256 == x) by (nonlinear_arith);
}

pub proof fn lemma_u32_le_round_trip(x: u32)
    ensures
        u32_of_bytes(
            u32_le_bytes(x)[0],
            u32_le_bytes(x)[1],
            u32_le_bytes(x)[2],
            u32_le_bytes(x)[3],
        ) == x,
{
    let xi = x as int;
    vstd::arithmetic::div_mod::lemma_fundamental_div_mod(xi, 256);
    vstd::arithmetic::div_mod::lemma_fundamental_div_mod(xi / 256, 256);
    vstd::arithmetic::div_mod::lemma_fundamental_div_mod(xi / 65536, 256);
    vstd::arithmetic::div_mod::lemma_div_denominator(xi, 256, 256);
    vstd::arithmetic::div_mod::lemma_div_denominator(xi, 65536, 256);
    assert(xi / 256 / 256 == xi / 65536);
    assert(xi / 65536 / 256 == xi / 16777216);
    assert(xi / 16777216 < 256);
    assert(xi % 256 + ((xi / 256) % 256) * 256 + ((xi / 65536) % 256) * 65536 + (xi / 16777216)
        * 16777216 == xi);
}

/// Push one byte.
pub fn push_u8(buf: &mut Vec<u8>, x: u8)
    ensures
        final(buf)@ == old(buf)@ + seq![x],
{
    buf.push(x);
    proof {
        assert(buf@ =~= old(buf)@ + seq![x]);
    }
}

/// Push a boolean as one byte, one for true and zero for false.
pub fn push_bool(buf: &mut Vec<u8>, b: bool)
    ensures
        final(buf)@ == old(buf)@ + seq![bool_byte(b)],
{
    buf.push(if b {
        1
    } else {
        0
    });
    proof {
        assert(buf@ =~= old(buf)@ + seq![bool_byte(b)]);
    }
}

/// Push a 16-bit integer, least significant byte first.
pub fn push_u16(buf: &mut Vec<u8>, x: u16)
    ensures
        final(buf)@ == old(buf)@ + u16_le_bytes(x),
{
    buf.push((x % 256) as u8);
    buf.push((x / 256) as u8);
    proof {
        assert(buf@ =~= old(buf)@ + u16_le_bytes(x));
    }
}

/// Push a 32-bit integer, least significant byte first.
pub fn push_u32(buf: &mut Vec<u8>, x: u32)
    ensures
        final(buf)@ == old(buf)@ + u32_le_bytes(x),
{
    buf.push((x % 256) as u8);
    buf.push(((x / 256) % 256) as u8);
    buf.push(((x / 65536) % 256) as u8);
    buf.push(((x / 16777216) % 256) as u8);
    proof {
        assert(buf@ =~= old(buf)@ + u32_le_bytes(x));
    }
}

/// Start a frame: header byte, opcode, the reserved gap, and the controller
/// identifier.
pub fn begin_frame(header: u8, opcode: u8, device_id: u32) -> (buf: Vec<u8>)
    ensures
        buf@ == seq![header, opcode, 0u8, 0u8] + u32_le_bytes(device_id),
{
    let mut buf: Vec<u8> = Vec::new();
    buf.push(header);
    buf.push(opcode);
    buf.push(0);
    buf.push(0);
    push_u32(&mut buf, device_id);
    proof {
        assert(buf@ =~= seq![header, opcode, 0u8, 0u8] + u32_le_bytes(device_id));
    }
    buf
}

/// Zero-pad a partly built frame out to its full 64 bytes.
pub fn finish_frame(buf: &mut Vec<u8>)
    requires
        old(buf)@.len() <= 64,
    ensures
        final(buf)@ == old(buf)@ + zeros((64 - old(buf)@.len()) as nat),
        final(buf)@.len() == 64,
{
    while buf.len() < FRAME_LEN
        invariant
            old(buf)@.len() <= buf@.len() <= 64,
            buf@ == old(buf)@ + zeros((buf@.len() - old(buf)@.len()) as nat),
        decreases 64 - buf@.len(),
    {
        buf.push(0);
        proof {
            assert(buf@ =~= old(buf)@ + zeros((buf@.len() - old(buf)@.len()) as nat));
        }
    }
}

/// Read the byte at an offset.
pub fn read_u8(bytes: &[u8], i: usize) -> (r: u8)
    requires
        i < bytes@.len(),
    ensures
        r == bytes@[i as int],
{
    *slice_index_get(bytes, i)
}

/// Read a boolean field: any non-zero byte counts as true.
pub fn read_bool(bytes: &[u8], i: usize) -> (r: bool)
    requires
        i < bytes@.len(),
    ensures
        r == (bytes@[i as int] != 0),
{
    *slice_index_get(bytes, i) != 0
}

/// Read a little-endian 16-bit integer at an offset.
pub fn read_u16(bytes: &[u8], i: usize) -> (r: u16)
    requires
        i + 2 <= bytes@.len(),
    ensures
        r == u16_of_bytes(bytes@[i as int], bytes@[i + 1]),
{
    let n = bytes.len();
    assert(i + 2 <= n);
    let b0 = *slice_index_get(bytes, i);
    let b1 = *slice_index_get(bytes, i + 1);
    b0 as u16 + b1 as u16 * 256
}

/// Read a little-endian 32-bit integer at an offset.
pub fn read_u32(bytes: &[u8], i: usize) -> (r: u32)
    requires
        i + 4 <= bytes@.len(),
    ensures
        r == u32_of_bytes(bytes@[i as int], bytes@[i + 1], bytes@[i + 2], bytes@[i + 3]),
{
    let n = bytes.len();
    assert(i + 4 <= n);
    let b0 = *slice_index_get(bytes, i);
    let b1 = *slice_index_get(bytes, i + 1);
    let b2 = *slice_index_get(bytes, i + 2);
    let b3 = *slice_index_get(bytes, i + 3);
    b0 as u32 + b1 as u32 * 256 + b2 as u32 * 65536 + b3 as u32 * 16777216
}

/// Check a received frame's length and opcode and read out its header byte
/// and controller identifier.
pub fn parse_prefix(opcode: u8, bytes: &[u8]) -> (r: Result<(u8, u32), UhppoteError>)
    ensures
        r is Ok <==> bytes@.len() == 64 && bytes@[1] == opcode,
        r matches Ok(p) ==> p.0 == bytes@[0] && p.1 == u32_of_bytes(
            bytes@[4],
            bytes@[5],
            bytes@[6],
            bytes@[7],
        ),
        bytes@.len() != 64 ==> r == Err::<(u8, u32), UhppoteError>(UhppoteError::FrameLength),
        bytes@.len() == 64 && bytes@[1] != opcode ==> r == Err::<(u8, u32), UhppoteError>(
            UhppoteError::UnexpectedOpcode,
        ),
{
    if bytes.len() != FRAME_LEN {
        return Err(UhppoteError::FrameLength);
    }
    if read_u8(bytes, 1) != opcode {
        return Err(UhppoteError::UnexpectedOpcode);
    }
    let header = read_u8(bytes, 0);
    let device_id = read_u32(bytes, 4);
    Ok((header, device_id))
}

} // verus!
