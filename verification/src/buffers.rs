//! Deterministic buffer marshalling.
//!
//! Every numeric plaintext crossing the session layer is a fixed 8-byte
//! little-endian block holding an unsigned 64-bit ordering key, and every
//! cipher key is exactly 16 bytes. The functions here are the only place
//! where buffer lengths are interpreted; each states exactly which lengths
//! it accepts and what the resulting value is.

use crate::error::Error;
use vstd::bytes::{
    lemma_auto_spec_u64_to_from_le_bytes, spec_u64_from_le_bytes, spec_u64_to_le_bytes,
    u64_from_le_bytes, u64_to_le_bytes,
};
use vstd::prelude::*;
use vstd::slice::slice_to_vec;

verus! {

/// Read an ordering key out of an 8-byte buffer.
///
/// Accepts exactly the buffers of length 8 and returns the little-endian
/// 64-bit value they hold; any other length is rejected as an invalid
/// plaintext without being read.
pub fn u64_from_buffer(buf: &Vec<u8>) -> (r: Result<u64, Error>)
    ensures
        buf@.len() == 8 ==> r == Ok::<u64, Error>(spec_u64_from_le_bytes(buf@)),
        buf@.len() != 8 ==> r == Err::<u64, Error>(Error::InvalidPlaintextLength),
{
    if buf.len() != 8 {
        return Err(Error::InvalidPlaintextLength);
    }
    Ok(u64_from_le_bytes(buf.as_slice()))
}

/// Serialize an ordering key into the fixed 8-byte little-endian block the
/// engine expects.
pub fn u64_to_buffer(val: u64) -> (r: Vec<u8>)
    ensures
        r@ == spec_u64_to_le_bytes(val),
        r@.len() == 8,
{
    proof {
        lemma_auto_spec_u64_to_from_le_bytes();
    }
    u64_to_le_bytes(val)
}

/// Validate and copy cipher key material.
///
/// Succeeds exactly on 16-byte buffers, returning an owned copy of the
/// bytes; everything else is an invalid key.
pub fn clone_key_from_buffer(buf: &Vec<u8>) -> (r: Result<Vec<u8>, Error>)
    ensures
        buf@.len() == 16 ==> r is Ok && r->Ok_0@ == buf@,
        buf@.len() != 16 ==> r == Err::<Vec<u8>, Error>(Error::InvalidKeyLength),
{
    if buf.len() != 16 {
        return Err(Error::InvalidKeyLength);
    }
    Ok(slice_to_vec(buf.as_slice()))
}

/// Identity pass-through for a caller-supplied 8-byte plaintext block.
///
/// Succeeds exactly on buffers of length 8, returning the same bytes; any
/// other length is an invalid buffer.
pub fn encode_buffer(buffer: &Vec<u8>) -> (r: Result<Vec<u8>, Error>)
    ensures
        buffer@.len() == 8 ==> r is Ok && r->Ok_0@ == buffer@,
        buffer@.len() != 8 ==> r == Err::<Vec<u8>, Error>(Error::InvalidBufferLength),
{
    if buffer.len() != 8 {
        return Err(Error::InvalidBufferLength);
    }
    Ok(slice_to_vec(buffer.as_slice()))
}

} // verus!
