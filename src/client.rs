//! The host's side of a request: what to send, and what the answer means.
use byteorder::ByteOrder;
use vstd::prelude::*;

use crate::error::BridgeError;
use crate::frame::{encode_read, encode_write, read_frame, write_frame, MAX_PAYLOAD};
use crate::registers::{
    be_bytes, be_value, response_for, Register, RegisterInputs, Response, STATUS_READY,
};

verus! {

/// Relies on byteorder's `BigEndian::read_u16`: the first two bytes, most
/// significant first; it panics on fewer than two.
#[verifier::external_body]
fn read_be_u16(buf: &[u8]) -> (r: u16)
    requires
        buf@.len() >= 2,
    ensures
        r == be_value(buf@[0], buf@[1]),
{
    byteorder::BigEndian::read_u16(buf)
}

/// The value that a reply of `width` bytes carries, or `Timeout` when the
/// link delivered a different number of bytes than the register's width.
pub open spec fn reply_value(reply: Seq<u8>, width: nat) -> Result<u16, BridgeError> {
    if reply.len() != width {
        Err(BridgeError::Timeout)
    } else if width == 1 {
        Ok(reply[0] as u16)
    } else {
        Ok(be_value(reply[0], reply[1]))
    }
}

/// The request that asks the peer for `register`.
pub fn read_request(register: u8) -> (r: Vec<u8>)
    ensures
        r@ == read_frame(register),
{
    encode_read(register)
}

/// Interprets what the link delivered for a read of `width` bytes. A short
/// read means the window closed before the answer was complete.
pub fn decode_reply(reply: &Vec<u8>, width: usize) -> (r: Result<u16, BridgeError>)
    requires
        width == 1 || width == 2,
    ensures
        r == reply_value(reply@, width as nat),
{
    if reply.len() != width {
        Err(BridgeError::Timeout)
    } else if width == 1 {
        Ok(reply[0] as u16)
    } else {
        Ok(read_be_u16(reply.as_slice()))
    }
}

/// Whether a status value means the peripheral is ready.
pub fn status_is_ready(status: u16) -> (r: bool)
    ensures
        r == (status == STATUS_READY),
{
    status == STATUS_READY
}

/// Interprets the reply to a status read: ready exactly when the two bytes
/// carry the ready token.
pub fn decode_status_reply(reply: &Vec<u8>) -> (r: Result<bool, BridgeError>)
    ensures
        reply@.len() != 2 ==> r == Err::<bool, BridgeError>(BridgeError::Timeout),
        reply@.len() == 2 ==> r == Ok::<bool, BridgeError>(
            be_value(reply@[0], reply@[1]) == STATUS_READY,
        ),
{
    match decode_reply(reply, 2) {
        Ok(v) => Ok(status_is_ready(v)),
        Err(e) => Err(e),
    }
}

/// The request that writes `payload` to `register`, or `PayloadTooLarge`.
pub fn write_request(register: u8, payload: &Vec<u8>) -> (r: Result<Vec<u8>, BridgeError>)
    ensures
        payload@.len() <= MAX_PAYLOAD ==> r is Ok && r->Ok_0@ == write_frame(register, payload@),
        payload@.len() > MAX_PAYLOAD ==> r == Err::<Vec<u8>, BridgeError>(
            BridgeError::PayloadTooLarge,
        ),
{
    encode_write(register, payload)
}

/// The host reads back exactly the value that the peripheral answers: a
/// response decoded at its register's width gives the register's value.
pub proof fn lemma_response_decodes(register: Register, inputs: RegisterInputs)
    ensures
        reply_value(response_for(register, inputs).bytes_spec(), register.width_spec()) == Ok::<
            u16,
            BridgeError,
        >(
            match response_for(register, inputs) {
                Response::Byte(b) => b as u16,
                Response::Word(w) => w,
            },
        ),
{
    match response_for(register, inputs) {
        Response::Byte(b) => {},
        Response::Word(w) => {
            let s = be_bytes(w);
            assert(be_value(s[0], s[1]) == w);
        },
    }
}

/// A status read answered by the peripheral's table reports ready.
pub proof fn lemma_status_read_ready(inputs: RegisterInputs)
    ensures
        reply_value(response_for(Register::StatusToken, inputs).bytes_spec(), 2) == Ok::<
            u16,
            BridgeError,
        >(STATUS_READY),
{
    lemma_response_decodes(Register::StatusToken, inputs);
}

/// Interprets the one status byte that answers a write: success exactly
/// when it is zero; no byte at all is a timeout.
pub fn write_acknowledged(status: &Vec<u8>) -> (r: Result<bool, BridgeError>)
    ensures
        status@.len() == 0 ==> r == Err::<bool, BridgeError>(BridgeError::Timeout),
        status@.len() > 0 ==> r == Ok::<bool, BridgeError>(status@[0] == 0),
{
    if status.len() == 0 {
        Err(BridgeError::Timeout)
    } else {
        Ok(status[0] == 0)
    }
}

} // verus!
