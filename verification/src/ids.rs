//! Splitting and joining of the integer identifiers used by SOME/IP.

use crate::{ClientId, SessionId, SomeIpRequestId};
use vstd::prelude::*;

verus! {

/// The high 16 bits of a 32-bit value.
pub open spec fn high_u16(value: u32) -> u16 {
    (value / 0x1_0000) as u16
}

/// The low 16 bits of a 32-bit value.
pub open spec fn low_u16(value: u32) -> u16 {
    (value % 0x1_0000) as u16
}

/// Byte `k` of a 32-bit value, counting from the least significant byte (k = 0).
pub open spec fn byte_of(value: u32, k: nat) -> u8 {
    ((value as nat / pow256(k)) % 0x100) as u8
}

/// 256 to the power `k`, for `k` up to 3.
pub open spec fn pow256(k: nat) -> nat {
    if k == 0 {
        1
    } else if k == 1 {
        0x100
    } else if k == 2 {
        0x1_0000
    } else {
        0x100_0000
    }
}

/// The request id that SOME/IP builds from a client id and a session id.
pub open spec fn request_id_of(client_id: ClientId, session_id: SessionId) -> u32 {
    (client_id as nat * 0x1_0000 + session_id as nat) as u32
}

/// Splits a 32-bit value into its most and least significant 16-bit halves.
pub fn split_u32_to_u16(value: u32) -> (halves: (u16, u16))
    ensures
        halves.0 == high_u16(value),
        halves.1 == low_u16(value),
        halves.0 as nat * 0x1_0000 + halves.1 as nat == value as nat,
{
    let most_significant_bits = (value >> 16) as u16;
    let least_significant_bits = (value & 0xFFFF) as u16;
    assert(most_significant_bits == (value / 0x1_0000) as u16) by (bit_vector)
        requires most_significant_bits == (value >> 16) as u16;
    assert(least_significant_bits == (value % 0x1_0000) as u16) by (bit_vector)
        requires least_significant_bits == (value & 0xFFFF) as u16;
    (most_significant_bits, least_significant_bits)
}

/// Splits a 32-bit value into its four bytes, most significant first.
pub fn split_u32_to_u8(value: u32) -> (bytes: (u8, u8, u8, u8))
    ensures
        bytes.0 == byte_of(value, 3),
        bytes.1 == byte_of(value, 2),
        bytes.2 == byte_of(value, 1),
        bytes.3 == byte_of(value, 0),
{
    let byte1 = (value >> 24) as u8;
    let byte2 = (value >> 16 & 0xFF) as u8;
    let byte3 = (value >> 8 & 0xFF) as u8;
    let byte4 = (value & 0xFF) as u8;
    assert(byte1 == ((value / 0x100_0000) % 0x100) as u8) by (bit_vector)
        requires byte1 == (value >> 24) as u8;
    assert(byte2 == ((value / 0x1_0000) % 0x100) as u8) by (bit_vector)
        requires byte2 == (value >> 16 & 0xFF) as u8;
    assert(byte3 == ((value / 0x100) % 0x100) as u8) by (bit_vector)
        requires byte3 == (value >> 8 & 0xFF) as u8;
    assert(byte4 == ((value / 1) % 0x100) as u8) by (bit_vector)
        requires byte4 == (value & 0xFF) as u8;
    (byte1, byte2, byte3, byte4)
}

/// Builds a SOME/IP request id: the client id in the high half, the session id in the low half.
pub fn create_request_id(client_id: ClientId, session_id: SessionId) -> (request_id: SomeIpRequestId)
    ensures
        request_id == request_id_of(client_id, session_id),
        request_id as nat == client_id as nat * 0x1_0000 + session_id as nat,
{
    let request_id = ((client_id as u32) << 16) | (session_id as u32);
    assert(request_id == client_id as u32 * 0x1_0000u32 + session_id as u32) by (bit_vector)
        requires request_id == ((client_id as u32) << 16) | (session_id as u32);
    request_id
}

/// Splitting a request id gives back the client id and the session id it was built from.
pub proof fn lemma_split_create_request_id(client_id: ClientId, session_id: SessionId)
    ensures
        high_u16(request_id_of(client_id, session_id)) == client_id,
        low_u16(request_id_of(client_id, session_id)) == session_id,
{
    let r = client_id as nat * 0x1_0000 + session_id as nat;
    assert(r < 0x1_0000_0000) by (nonlinear_arith)
        requires r == client_id as nat * 0x1_0000 + session_id as nat, client_id < 0x1_0000, session_id < 0x1_0000;
    assert(r / 0x1_0000 == client_id as nat && r % 0x1_0000 == session_id as nat) by (nonlinear_arith)
        requires r == client_id as nat * 0x1_0000 + session_id as nat, session_id < 0x1_0000;
}

/// Joining the two halves of a split value gives back the value.
pub proof fn lemma_create_split_request_id(value: u32)
    ensures
        request_id_of(high_u16(value), low_u16(value)) == value,
{
    assert(value as nat == (value / 0x1_0000) as nat * 0x1_0000 + (value % 0x1_0000) as nat) by (nonlinear_arith);
}

} // verus!
