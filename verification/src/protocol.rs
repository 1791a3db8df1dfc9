//! The decisions behind the exchange patterns: which address an exchange
//! targets, how a controller's yes-or-no answer is read, and what the passive
//! listener does with each datagram. The sockets themselves live with the
//! caller; these functions take and return plain values.

use vstd::prelude::*;
use crate::error::UhppoteError;
use crate::messages::get_status;
use crate::messages::get_status::GetStatusResponse;
use crate::opcode::{MAGIC_WORD, RequestResponseType};
use crate::types::status::{status_of_response, Status};
use crate::wire::Ipv4;
use crate::frame::read_u8;

verus! {

/// Where a request goes: to the controller's own address when one is known,
/// else to the configured broadcast address.
pub fn destination_address(ip_address: Option<Ipv4>, broadcast: Ipv4) -> (r: Ipv4)
    ensures
        ip_address matches Some(ip) ==> r == ip,
        ip_address is None ==> r == broadcast,
{
    match ip_address {
        Some(ip) => ip,
        None => broadcast,
    }
}

/// Read a controller's yes-or-no answer: a zero success byte means the device
/// rejected the operation.
pub fn require_success(success: bool, op: RequestResponseType) -> (r: Result<(), UhppoteError>)
    ensures
        r is Ok <==> success,
        !success ==> r == Err::<(), UhppoteError>(UhppoteError::Rejected(op)),
{
    if success {
        Ok(())
    } else {
        Err(UhppoteError::Rejected(op))
    }
}

/// Read a clear operation's answer: the controller echoes the magic word
/// back when it obeyed.
pub fn require_magic_echo(magic_word: u32) -> (r: Result<(), UhppoteError>)
    ensures
        r is Ok <==> magic_word == MAGIC_WORD,
        magic_word != MAGIC_WORD ==> r == Err::<(), UhppoteError>(UhppoteError::MagicMismatch),
{
    if magic_word == MAGIC_WORD {
        Ok(())
    } else {
        Err(UhppoteError::MagicMismatch)
    }
}

/// What the passive listener does with one received datagram: a status push
/// decodes into a status record; any other opcode ends the listen loop with
/// an error naming the opcode it cannot handle.
pub fn decode_listen_frame(bytes: &[u8]) -> (r: Result<Status, UhppoteError>)
    ensures
        bytes@.len() != 64 ==> r == Err::<Status, UhppoteError>(UhppoteError::FrameLength),
        bytes@.len() == 64 && bytes@[1] != get_status::OPCODE ==> r == Err::<Status, UhppoteError>(
            UhppoteError::CannotListen(bytes@[1]),
        ),
        bytes@.len() == 64 && bytes@[1] == get_status::OPCODE ==> (
        GetStatusResponse::spec_from_bytes(bytes@) matches Some(resp) && (r is Ok
            <==> resp.status_convertible()) && (r matches Ok(st) ==> status_of_response(st, resp))
            && (r is Err ==> r == Err::<Status, UhppoteError>(resp.spec_status_error()))),
{
    if bytes.len() != 64 {
        return Err(UhppoteError::FrameLength);
    }
    let op = read_u8(bytes, 1);
    if op != get_status::OPCODE {
        return Err(UhppoteError::CannotListen(op));
    }
    let resp = match GetStatusResponse::from_bytes(bytes) {
        Ok(resp) => resp,
        Err(e) => {
            // Unreachable: the length and opcode were just checked.
            proof {
                assert(false);
            }
            return Err(e);
        },
    };
    resp.to_status()
}

} // verus!
