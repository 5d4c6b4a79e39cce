//! Range-bound encoding for comparison queries.
//!
//! A range query against ORE-encrypted data is expressed as an inclusive
//! interval `{min, max}` of ordering-key space: "all keys satisfying
//! operator OP relative to value V". The interval arithmetic itself is the
//! engine's (`ore_encoding_rs`); this module converts caller values into
//! ordering keys, delegates to the engine's derivation function for the
//! operator, and marshals the resulting pair into two fixed 8-byte blocks.

use crate::buffers::{u64_from_buffer, u64_to_buffer};
use crate::codec::{encode, encode_spec};
use crate::error::Error;
use ore_encoding_rs::{
    encode_between, encode_eq, encode_gt, encode_gte, encode_lt, encode_lte, OrePlaintext,
    OreRange,
};
use vstd::bytes::{spec_u64_from_le_bytes, spec_u64_to_le_bytes};
use vstd::prelude::*;

verus! {

/// A caller-supplied operand for a range query: either a host number (as
/// the bit pattern of a 64-bit float) or a raw 8-byte buffer already
/// holding an ordering key.
pub enum RangeInput {
    /// Bit pattern of a host double (`f64::to_bits`); the codec maps it to
    /// an ordering key.
    Number(u64),
    /// Raw 8-byte little-endian ordering-key buffer, taken as-is.
    Buffer(Vec<u8>),
}

/// Whether a range operand is well-formed: a buffer operand must be
/// exactly 8 bytes; a number operand always is.
pub open spec fn range_input_valid(v: RangeInput) -> bool {
    match v {
        RangeInput::Number(_) => true,
        RangeInput::Buffer(b) => b@.len() == 8,
    }
}

/// The ordering key a well-formed range operand denotes: a number's codec
/// key, or the value stored in the buffer.
pub open spec fn range_key_of(v: RangeInput) -> u64 {
    match v {
        RangeInput::Number(bits) => encode_spec(bits),
        RangeInput::Buffer(b) => spec_u64_from_le_bytes(b@),
    }
}

/// Convert a range operand into the ordering key it denotes.
///
/// Succeeds on every number and on every 8-byte buffer; a buffer of any
/// other length is an invalid plaintext.
pub fn get_range_plaintext_from_value(value: &RangeInput) -> (r: Result<u64, Error>)
    ensures
        range_input_valid(*value) ==> r == Ok::<u64, Error>(range_key_of(*value)),
        !range_input_valid(*value) ==> r == Err::<u64, Error>(Error::InvalidPlaintextLength),
{
    match value {
        RangeInput::Number(bits) => Ok(encode(*bits)),
        RangeInput::Buffer(b) => u64_from_buffer(b),
    }
}

/// An inclusive interval of ordering-key space, marshalled as two fixed
/// 8-byte little-endian plaintext blocks. Immutable once constructed.
pub struct RangeBound {
    /// Lower end of the interval, inclusive.
    pub min: Vec<u8>,
    /// Upper end of the interval, inclusive.
    pub max: Vec<u8>,
}

/// Marshal a pair of ordering keys into the caller-visible `{min, max}`
/// shape: two 8-byte little-endian blocks.
pub fn make_range_object(min: u64, max: u64) -> (r: RangeBound)
    ensures
        r.min@ == spec_u64_to_le_bytes(min),
        r.max@ == spec_u64_to_le_bytes(max),
{
    RangeBound { min: u64_to_buffer(min), max: u64_to_buffer(max) }
}

/// Relies on `ore_encoding_rs::encode_lt` at `u64`: the keys strictly below
/// `value` are the interval from 0 to `value - 1`. The precondition keeps
/// the engine's subtraction in range.
#[verifier::external_body]
fn ore_encode_lt(value: u64) -> (r: (u64, u64))
    requires
        value >= 1,
    ensures
        r.0 == 0,
        r.1 == value - 1,
{
    let OreRange { min, max } = encode_lt(OrePlaintext(value));
    (min.0, max.0)
}

/// Relies on `ore_encoding_rs::encode_lte` at `u64`: the keys at or below
/// `value` are the interval from 0 to `value`.
#[verifier::external_body]
fn ore_encode_lte(value: u64) -> (r: (u64, u64))
    ensures
        r.0 == 0,
        r.1 == value,
{
    let OreRange { min, max } = encode_lte(OrePlaintext(value));
    (min.0, max.0)
}

/// Relies on `ore_encoding_rs::encode_gt` at `u64`: the keys strictly above
/// `value` are the interval from `value + 1` to the largest key. The
/// precondition keeps the engine's addition in range.
#[verifier::external_body]
fn ore_encode_gt(value: u64) -> (r: (u64, u64))
    requires
        value < 0xffff_ffff_ffff_ffff,
    ensures
        r.0 == value + 1,
        r.1 == 0xffff_ffff_ffff_ffff,
{
    let OreRange { min, max } = encode_gt(OrePlaintext(value));
    (min.0, max.0)
}

/// Relies on `ore_encoding_rs::encode_gte` at `u64`: the keys at or above
/// `value` are the interval from `value` to the largest key.
#[verifier::external_body]
fn ore_encode_gte(value: u64) -> (r: (u64, u64))
    ensures
        r.0 == value,
        r.1 == 0xffff_ffff_ffff_ffff,
{
    let OreRange { min, max } = encode_gte(OrePlaintext(value));
    (min.0, max.0)
}

/// Relies on `ore_encoding_rs::encode_eq` at `u64`: the keys equal to
/// `value` are the one-point interval at `value`.
#[verifier::external_body]
fn ore_encode_eq(value: u64) -> (r: (u64, u64))
    ensures
        r.0 == value,
        r.1 == value,
{
    let OreRange { min, max } = encode_eq(OrePlaintext(value));
    (min.0, max.0)
}

/// Relies on `ore_encoding_rs::encode_between` at `u64`: the interval is
/// exactly the pair of keys handed in.
#[verifier::external_body]
fn ore_encode_between(min: u64, max: u64) -> (r: (u64, u64))
    ensures
        r.0 == min,
        r.1 == max,
{
    let OreRange { min, max } = encode_between(OrePlaintext(min), OrePlaintext(max));
    (min.0, max.0)
}

/// Bounds for "strictly less than `value`": `{0, key - 1}`.
///
/// A well-formed operand's key must not be 0 (the interval below the
/// smallest key is empty, and the engine's subtraction would leave the key
/// space); no finite number maps to key 0, so this only constrains buffer
/// operands. Malformed operands are unconstrained: they are rejected
/// before any key is derived.
pub fn encode_range_lt(value: &RangeInput) -> (r: Result<RangeBound, Error>)
    requires
        range_input_valid(*value) ==> range_key_of(*value) != 0,
    ensures
        range_input_valid(*value) ==> r is Ok && r->Ok_0.min@ == spec_u64_to_le_bytes(0)
            && r->Ok_0.max@ == spec_u64_to_le_bytes((range_key_of(*value) - 1) as u64),
        !range_input_valid(*value) ==> r == Err::<RangeBound, Error>(
            Error::InvalidPlaintextLength,
        ),
{
    let key = match get_range_plaintext_from_value(value) {
        Ok(k) => k,
        Err(e) => {
            return Err(e);
        },
    };
    let (min, max) = ore_encode_lt(key);
    Ok(make_range_object(min, max))
}

/// Bounds for "less than or equal to `value`": `{0, key}`.
pub fn encode_range_lte(value: &RangeInput) -> (r: Result<RangeBound, Error>)
    ensures
        range_input_valid(*value) ==> r is Ok && r->Ok_0.min@ == spec_u64_to_le_bytes(0)
            && r->Ok_0.max@ == spec_u64_to_le_bytes(range_key_of(*value)),
        !range_input_valid(*value) ==> r == Err::<RangeBound, Error>(
            Error::InvalidPlaintextLength,
        ),
{
    let key = match get_range_plaintext_from_value(value) {
        Ok(k) => k,
        Err(e) => {
            return Err(e);
        },
    };
    let (min, max) = ore_encode_lte(key);
    Ok(make_range_object(min, max))
}

/// Bounds for "strictly greater than `value`": `{key + 1, u64::MAX}`.
///
/// A well-formed operand's key must not be the largest key (the interval
/// above it is empty, and the engine's addition would leave the key
/// space); no finite number maps to that key, so this only constrains
/// buffer operands. Malformed operands are unconstrained: they are
/// rejected before any key is derived.
pub fn encode_range_gt(value: &RangeInput) -> (r: Result<RangeBound, Error>)
    requires
        range_input_valid(*value) ==> range_key_of(*value) != 0xffff_ffff_ffff_ffff,
    ensures
        range_input_valid(*value) ==> r is Ok && r->Ok_0.min@ == spec_u64_to_le_bytes(
            (range_key_of(*value) + 1) as u64,
        ) && r->Ok_0.max@ == spec_u64_to_le_bytes(0xffff_ffff_ffff_ffff),
        !range_input_valid(*value) ==> r == Err::<RangeBound, Error>(
            Error::InvalidPlaintextLength,
        ),
{
    let key = match get_range_plaintext_from_value(value) {
        Ok(k) => k,
        Err(e) => {
            return Err(e);
        },
    };
    let (min, max) = ore_encode_gt(key);
    Ok(make_range_object(min, max))
}

/// Bounds for "greater than or equal to `value`": `{key, u64::MAX}`.
pub fn encode_range_gte(value: &RangeInput) -> (r: Result<RangeBound, Error>)
    ensures
        range_input_valid(*value) ==> r is Ok && r->Ok_0.min@ == spec_u64_to_le_bytes(
            range_key_of(*value),
        ) && r->Ok_0.max@ == spec_u64_to_le_bytes(0xffff_ffff_ffff_ffff),
        !range_input_valid(*value) ==> r == Err::<RangeBound, Error>(
            Error::InvalidPlaintextLength,
        ),
{
    let key = match get_range_plaintext_from_value(value) {
        Ok(k) => k,
        Err(e) => {
            return Err(e);
        },
    };
    let (min, max) = ore_encode_gte(key);
    Ok(make_range_object(min, max))
}

/// Bounds for "equal to `value`": the one-point interval `{key, key}`.
pub fn encode_range_eq(value: &RangeInput) -> (r: Result<RangeBound, Error>)
    ensures
        range_input_valid(*value) ==> r is Ok && r->Ok_0.min@ == spec_u64_to_le_bytes(
            range_key_of(*value),
        ) && r->Ok_0.max@ == spec_u64_to_le_bytes(range_key_of(*value)),
        !range_input_valid(*value) ==> r == Err::<RangeBound, Error>(
            Error::InvalidPlaintextLength,
        ),
{
    let key = match get_range_plaintext_from_value(value) {
        Ok(k) => k,
        Err(e) => {
            return Err(e);
        },
    };
    let (min, max) = ore_encode_eq(key);
    Ok(make_range_object(min, max))
}

/// Bounds for "between `min` and `max`", inclusive on both ends:
/// `{key(min), key(max)}`. The lower operand is validated first.
pub fn encode_range_between(min: &RangeInput, max: &RangeInput) -> (r: Result<RangeBound, Error>)
    ensures
        range_input_valid(*min) && range_input_valid(*max) ==> r is Ok && r->Ok_0.min@
            == spec_u64_to_le_bytes(range_key_of(*min)) && r->Ok_0.max@ == spec_u64_to_le_bytes(
            range_key_of(*max),
        ),
        !(range_input_valid(*min) && range_input_valid(*max)) ==> r == Err::<RangeBound, Error>(
            Error::InvalidPlaintextLength,
        ),
{
    let lo = match get_range_plaintext_from_value(min) {
        Ok(k) => k,
        Err(e) => {
            return Err(e);
        },
    };
    let hi = match get_range_plaintext_from_value(max) {
        Ok(k) => k,
        Err(e) => {
            return Err(e);
        },
    };
    let (min_key, max_key) = ore_encode_between(lo, hi);
    Ok(make_range_object(min_key, max_key))
}

} // verus!
