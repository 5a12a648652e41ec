//! Encoding and decoding of request frames.
use vstd::prelude::*;

use crate::error::BridgeError;

verus! {

/// The 7-bit address of the one peripheral on the link.
pub const PEER_ADDRESS: u8 = 0x48;

/// The top bit of the address byte: set for a read, clear for a write.
pub const READ_FLAG: u8 = 0x80;

/// The largest payload that the one-byte length field can announce.
pub const MAX_PAYLOAD: usize = 255;

/// The decoded first two bytes of a request.
#[derive(Clone, Copy, Debug, PartialEq, Eq, Structural)]
pub struct Header {
    pub read: bool,
    pub address: u8,
    pub register: u8,
}

/// The address byte of a request to the peer.
pub open spec fn address_byte(read: bool) -> u8 {
    if read {
        (READ_FLAG | PEER_ADDRESS) as u8
    } else {
        PEER_ADDRESS
    }
}

/// A read request for `register`.
pub open spec fn read_frame(register: u8) -> Seq<u8> {
    seq![address_byte(true), register]
}

/// A write request for `register` carrying `payload` (at most 255 bytes).
pub open spec fn write_frame(register: u8, payload: Seq<u8>) -> Seq<u8> {
    seq![address_byte(false), register, payload.len() as u8] + payload
}

/// What the two header bytes say.
pub open spec fn header_of(b0: u8, b1: u8) -> Header {
    Header { read: b0 >= 0x80, address: (b0 % 0x80) as u8, register: b1 }
}

/// Whether an address byte names the peer, whatever its read bit.
pub open spec fn addresses_peer(b0: u8) -> bool {
    b0 % 0x80 == PEER_ADDRESS
}

proof fn lemma_address_byte_values()
    ensures
        address_byte(true) == 0xC8u8,
        address_byte(false) == 0x48u8,
{
    assert((0x80u8 | 0x48u8) == 0xC8u8) by (bit_vector);
}

/// Builds the read request for `register`.
pub fn encode_read(register: u8) -> (r: Vec<u8>)
    ensures
        r@ == read_frame(register),
{
    proof {
        lemma_address_byte_values();
    }
    let mut r: Vec<u8> = Vec::with_capacity(2);
    r.push(READ_FLAG | PEER_ADDRESS);
    r.push(register);
    proof {
        assert((READ_FLAG | PEER_ADDRESS) == 0xC8u8) by (bit_vector);
        assert(r@ =~= read_frame(register));
    }
    r
}

/// Builds the write request for `register`; a payload longer than the length
/// field can announce is refused and nothing is built.
pub fn encode_write(register: u8, payload: &Vec<u8>) -> (r: Result<Vec<u8>, BridgeError>)
    ensures
        payload@.len() <= MAX_PAYLOAD ==> r is Ok && r->Ok_0@ == write_frame(register, payload@),
        payload@.len() > MAX_PAYLOAD ==> r == Err::<Vec<u8>, BridgeError>(
            BridgeError::PayloadTooLarge,
        ),
{
    if payload.len() > MAX_PAYLOAD {
        return Err(BridgeError::PayloadTooLarge);
    }
    proof {
        lemma_address_byte_values();
    }
    let mut r: Vec<u8> = Vec::with_capacity(payload.len() + 3);
    r.push(PEER_ADDRESS);
    r.push(register);
    r.push(payload.len() as u8);
    let mut i: usize = 0;
    while i < payload.len()
        invariant
            i <= payload@.len(),
            payload@.len() <= MAX_PAYLOAD,
            r@ == seq![address_byte(false), register, payload@.len() as u8] + payload@.subrange(
                0,
                i as int,
            ),
        decreases payload@.len() - i,
    {
        r.push(payload[i]);
        proof {
            assert(payload@.subrange(0, i + 1) =~= payload@.subrange(0, i as int).push(
                payload@[i as int],
            ));
        }
        i = i + 1;
    }
    proof {
        assert(payload@.subrange(0, payload@.len() as int) =~= payload@);
    }
    Ok(r)
}

/// Splits the two header bytes into read bit, address and register.
pub fn decode_header(b0: u8, b1: u8) -> (h: Header)
    ensures
        h == header_of(b0, b1),
{
    let read = (b0 >> 7u8) == 1;
    let address = b0 & 0x7F;
    proof {
        assert(((b0 >> 7u8) == 1) == (b0 >= 0x80)) by (bit_vector);
        assert((b0 & 0x7F) == b0 % 0x80) by (bit_vector);
    }
    Header { read, address, register: b1 }
}

/// Decoding the header of a read request gives back the register, the read
/// bit and the peer's address.
pub proof fn lemma_read_round_trip(register: u8)
    ensures
        header_of(read_frame(register)[0], read_frame(register)[1]) == (Header {
            read: true,
            address: PEER_ADDRESS,
            register,
        }),
{
    lemma_address_byte_values();
}

/// Decoding the header of a write request gives back the register with the
/// read bit clear, and the bytes after the length field are the payload, in
/// order.
pub proof fn lemma_write_round_trip(register: u8, payload: Seq<u8>)
    requires
        payload.len() <= MAX_PAYLOAD,
    ensures
        header_of(write_frame(register, payload)[0], write_frame(register, payload)[1]) == (
        Header { read: false, address: PEER_ADDRESS, register }),
        write_frame(register, payload)[2] as int == payload.len(),
        write_frame(register, payload).subrange(3, write_frame(register, payload).len() as int)
            == payload,
{
    lemma_address_byte_values();
    let f = write_frame(register, payload);
    assert(f.subrange(3, f.len() as int) =~= payload);
}

} // verus!
