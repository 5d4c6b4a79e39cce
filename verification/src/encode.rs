//! Caller-value encoding: numbers and strings to 8-byte plaintext blocks.
//!
//! A host number (as the bit pattern of a 64-bit float) is mapped through
//! the order-preserving codec and serialized; a host string is put into
//! Unicode canonical composition (NFC) so that canonically-equivalent
//! spellings encode identically, then hashed to a 64-bit exact-match key.

use crate::buffers::u64_to_buffer;
use crate::codec::{encode, encode_spec};
use ore_encoding_rs::siphash;
use unicode_normalization::UnicodeNormalization;
use vstd::bytes::spec_u64_to_le_bytes;
use vstd::prelude::*;

verus! {

/// The Unicode canonical composition (NFC) of a text.
pub uninterp spec fn nfc_of(s: Seq<char>) -> Seq<char>;

/// The 64-bit SipHash digest (fixed key) of a text's UTF-8 bytes.
pub uninterp spec fn siphash_of(s: Seq<char>) -> u64;

/// Relies on `unicode_normalization`'s `nfc`: canonical composition of the
/// characters, a function of the characters alone.
#[verifier::external_body]
fn nfc_normalize(input: &str) -> (r: String)
    ensures
        r@ == nfc_of(input@),
{
    input.nfc().collect()
}

/// Relies on `ore_encoding_rs::siphash`: the 64-bit SipHash digest of the
/// string's UTF-8 bytes under a key fixed in that crate, a function of the
/// characters alone.
#[verifier::external_body]
fn siphash_str(input: &str) -> (r: u64)
    ensures
        r == siphash_of(input@),
{
    siphash(input.as_bytes())
}

/// Encode a host number for order-sensitive operations: apply the codec's
/// forward transform to the float's bit pattern and serialize the ordering
/// key into the engine's 8-byte block.
pub fn encode_num(input_bits: u64) -> (r: Vec<u8>)
    ensures
        r@ == spec_u64_to_le_bytes(encode_spec(input_bits)),
        r@.len() == 8,
{
    u64_to_buffer(encode(input_bits))
}

/// Encode a host string for exact-match operations: normalize to NFC, so
/// canonically-equivalent spellings agree, and serialize the normalized
/// text's hash into the engine's 8-byte block.
pub fn encode_string(input: String) -> (r: Vec<u8>)
    ensures
        r@ == spec_u64_to_le_bytes(siphash_of(nfc_of(input@))),
        r@.len() == 8,
{
    let normalized = nfc_normalize(input.as_str());
    u64_to_buffer(siphash_str(normalized.as_str()))
}

} // verus!
