//! Order-preserving numeric codec.
//!
//! A finite IEEE-754 double, viewed through `f64::to_bits`, is mapped to an
//! unsigned 64-bit *ordering key* so that unsigned comparison of keys
//! reproduces numeric comparison of the doubles:
//!
//! - a non-negative double (sign bit 0) has only its sign bit flipped, which
//!   lifts all non-negative values above every negative value while keeping
//!   their relative order;
//! - a negative double (sign bit 1) has all of its bits flipped, which both
//!   drops it below the non-negative range and inverts the reversed order
//!   that raw bit patterns of negative doubles exhibit.
//!
//! The transform is pure bit manipulation: no floating-point arithmetic is
//! performed, so it is exact and deterministic. [`lemma_codec_roundtrip`]
//! proves the map is a bijection on all 64-bit patterns, and
//! [`lemma_order_preservation`] proves it preserves the numeric order of
//! finite doubles, stated against an arithmetic model of IEEE-754 values
//! ([`value_scaled`]).

use vstd::arithmetic::mul::{
    lemma_mul_inequality, lemma_mul_is_commutative, lemma_mul_strict_inequality,
};
use vstd::arithmetic::power2::{lemma2_to64, lemma2_to64_rest, lemma_pow2_adds, lemma_pow2_pos, lemma_pow2_strictly_increases, pow2};
use vstd::prelude::*;

verus! {

/// Mask selecting the sign bit of an IEEE-754 double's bit pattern.
pub const SIGN_MASK: u64 = 0x8000_0000_0000_0000;

/// The ordering key that the forward transform assigns to `bits`.
pub open spec fn encode_spec(bits: u64) -> u64 {
    if bits >> 63 == 0 {
        bits ^ 0x8000_0000_0000_0000u64
    } else {
        !bits
    }
}

/// The bit pattern that the inverse transform recovers from `key`.
pub open spec fn decode_spec(key: u64) -> u64 {
    if key >> 63 == 1 {
        key ^ 0x8000_0000_0000_0000u64
    } else {
        !key
    }
}

/// Forward transform: bit pattern of a double to its ordering key.
pub fn encode(bits: u64) -> (key: u64)
    ensures
        key == encode_spec(bits),
{
    if bits >> 63 == 0 {
        bits ^ SIGN_MASK
    } else {
        !bits
    }
}

/// Inverse transform: ordering key back to the bit pattern it encodes.
pub fn decode(key: u64) -> (bits: u64)
    ensures
        bits == decode_spec(key),
{
    if key >> 63 == 1 {
        key ^ SIGN_MASK
    } else {
        !key
    }
}

/// The codec is a bijection on all 64-bit patterns: decoding an encoded
/// pattern gives the pattern back, and encoding a decoded key gives the key
/// back. In particular every finite, non-NaN double round-trips bit-exactly.
pub proof fn lemma_codec_roundtrip(x: u64)
    ensures
        decode_spec(encode_spec(x)) == x,
        encode_spec(decode_spec(x)) == x,
{
    assert(decode_spec(encode_spec(x)) == x) by (bit_vector);
    assert(encode_spec(decode_spec(x)) == x) by (bit_vector);
}

/// Sign bit of a double's bit pattern (0 for non-negative, 1 for negative).
pub open spec fn sign_field(bits: u64) -> u64 {
    bits >> 63
}

/// Biased 11-bit exponent field of a double's bit pattern.
pub open spec fn exp_field(bits: u64) -> u64 {
    (bits >> 52) & 0x7ff
}

/// 52-bit fraction field of a double's bit pattern.
pub open spec fn frac_field(bits: u64) -> u64 {
    bits & 0xf_ffff_ffff_ffff
}

/// Whether `bits` is the pattern of a finite double (exponent field not all
/// ones, which would mean an infinity or a NaN).
pub open spec fn is_finite(bits: u64) -> bool {
    exp_field(bits) != 0x7ff
}

/// Absolute value of the finite double with bit pattern `bits`, expressed in
/// units of 2^-1074 (the smallest positive subnormal double). A subnormal
/// (exponent field 0) is worth `frac` such units; a normal number with
/// exponent field `e >= 1` is worth `(2^52 + frac) * 2^(e-1)` units.
pub open spec fn magnitude(bits: u64) -> nat {
    if exp_field(bits) == 0 {
        frac_field(bits) as nat
    } else {
        ((frac_field(bits) + 0x10_0000_0000_0000) as nat) * pow2((exp_field(bits) - 1) as nat)
    }
}

/// Exact numeric value of the finite double with bit pattern `bits`, in
/// units of 2^-1074: its magnitude, negated when the sign bit is set. Two
/// finite doubles compare (numerically) exactly as these integers do; the
/// patterns of 0.0 and -0.0 both have value 0.
pub open spec fn value_scaled(bits: u64) -> int {
    if sign_field(bits) == 0 {
        magnitude(bits) as int
    } else {
        -(magnitude(bits) as int)
    }
}

/// The low 63 bits of a pattern: sign removed, exponent and fraction kept.
pub open spec fn mag_bits(bits: u64) -> u64 {
    bits & 0x7fff_ffff_ffff_ffff
}

/// The low 63 bits decompose as exponent times 2^52 plus fraction.
proof fn lemma_field_decomposition(a: u64)
    ensures
        mag_bits(a) == exp_field(a) * 0x10_0000_0000_0000 + frac_field(a),
        frac_field(a) < 0x10_0000_0000_0000,
        exp_field(a) < 0x800,
{
    assert(mag_bits(a) == exp_field(a) * 0x10_0000_0000_0000 + frac_field(a)) by (bit_vector);
    assert(frac_field(a) < 0x10_0000_0000_0000) by (bit_vector);
    assert(exp_field(a) < 0x800) by (bit_vector);
}

/// 2^52 and 2^1 expressed through `pow2`, to bridge literals and the power
/// function.
proof fn lemma_pow2_52()
    ensures
        pow2(52) == 0x10_0000_0000_0000,
        pow2(1) == 2,
{
    lemma2_to64();
    lemma2_to64_rest();
}

/// A normal magnitude with exponent field `e` is at least `2^52 * 2^(e-1)`
/// and less than `2^53 * 2^(e-1) == 2^52 * 2^e`.
proof fn lemma_normal_magnitude_bounds(a: u64)
    requires
        1 <= exp_field(a),
    ensures
        pow2(52) * pow2((exp_field(a) - 1) as nat) <= magnitude(a),
        magnitude(a) < pow2(52) * pow2(exp_field(a) as nat),
{
    let e = exp_field(a);
    let f = frac_field(a);
    let p = pow2((e - 1) as nat);
    lemma_field_decomposition(a);
    lemma_pow2_52();
    lemma_pow2_pos((e - 1) as nat);
    assert(magnitude(a) == (f + 0x10_0000_0000_0000) as nat * p);
    lemma_mul_inequality(pow2(52) as int, (f + 0x10_0000_0000_0000) as int, p as int);
    // (f + 2^52) < 2^53 == 2 * 2^52, so magnitude < 2^53 * 2^(e-1) == 2^52 * 2^e
    lemma_mul_strict_inequality(
        (f + 0x10_0000_0000_0000) as int,
        (2 * 0x10_0000_0000_0000) as int,
        p as int,
    );
    lemma_pow2_adds(1, (e - 1) as nat);
    assert((2 * pow2(52)) * p == pow2(52) * (2 * p)) by (nonlinear_arith);
}

/// Magnitude is strictly monotone in the low 63 bits of a finite pattern:
/// comparing the sign-stripped patterns as integers compares the magnitudes.
proof fn lemma_magnitude_monotone(a: u64, b: u64)
    requires
        is_finite(a),
        is_finite(b),
        mag_bits(a) < mag_bits(b),
    ensures
        magnitude(a) < magnitude(b),
{
    let ea = exp_field(a);
    let eb = exp_field(b);
    let fa = frac_field(a);
    let fb = frac_field(b);
    lemma_field_decomposition(a);
    lemma_field_decomposition(b);
    lemma_pow2_52();
    if ea == eb {
        assert(fa < fb);
        if ea == 0 {
        } else {
            let p = pow2((ea - 1) as nat);
            lemma_pow2_pos((ea - 1) as nat);
            lemma_mul_strict_inequality(
                (fa + 0x10_0000_0000_0000) as int,
                (fb + 0x10_0000_0000_0000) as int,
                p as int,
            );
        }
    } else {
        // Different exponent fields: the larger exponent dominates.
        assert(ea < eb) by {
            if ea > eb {
                lemma_mul_inequality(
                    (eb + 1) as int,
                    ea as int,
                    0x10_0000_0000_0000,
                );
                lemma_mul_is_commutative((eb + 1) as int, 0x10_0000_0000_0000);
                lemma_mul_is_commutative(ea as int, 0x10_0000_0000_0000);
            }
        }
        lemma_normal_magnitude_bounds(b);
        if ea == 0 {
            // magnitude(a) == fa < 2^52 <= 2^52 * 2^(eb-1) <= magnitude(b)
            lemma_pow2_pos((eb - 1) as nat);
            lemma_mul_inequality(1, pow2((eb - 1) as nat) as int, pow2(52) as int);
            lemma_mul_is_commutative(pow2((eb - 1) as nat) as int, pow2(52) as int);
        } else {
            // magnitude(a) < 2^52 * 2^ea <= 2^52 * 2^(eb-1) <= magnitude(b)
            lemma_normal_magnitude_bounds(a);
            if ea < (eb - 1) as nat {
                lemma_pow2_strictly_increases(ea as nat, (eb - 1) as nat);
            }
            lemma_mul_inequality(
                pow2(ea as nat) as int,
                pow2((eb - 1) as nat) as int,
                pow2(52) as int,
            );
            lemma_mul_is_commutative(pow2(ea as nat) as int, pow2(52) as int);
            lemma_mul_is_commutative(pow2((eb - 1) as nat) as int, pow2(52) as int);
        }
    }
}

/// Equal low-63-bit patterns have equal magnitudes, and conversely; together
/// with [`lemma_magnitude_monotone`] this makes magnitude comparison and
/// sign-stripped integer comparison interchangeable on finite patterns.
proof fn lemma_magnitude_order(a: u64, b: u64)
    requires
        is_finite(a),
        is_finite(b),
    ensures
        mag_bits(a) < mag_bits(b) <==> magnitude(a) < magnitude(b),
        mag_bits(a) == mag_bits(b) <==> magnitude(a) == magnitude(b),
{
    if mag_bits(a) < mag_bits(b) {
        lemma_magnitude_monotone(a, b);
    }
    if mag_bits(b) < mag_bits(a) {
        lemma_magnitude_monotone(b, a);
    }
    if mag_bits(a) == mag_bits(b) {
        assert(exp_field(a) == exp_field(b) && frac_field(a) == frac_field(b)) by {
            lemma_field_decomposition(a);
            lemma_field_decomposition(b);
            if exp_field(a) < exp_field(b) {
                lemma_mul_inequality(
                    (exp_field(a) + 1) as int,
                    exp_field(b) as int,
                    0x10_0000_0000_0000,
                );
                lemma_mul_is_commutative((exp_field(a) + 1) as int, 0x10_0000_0000_0000);
                lemma_mul_is_commutative(exp_field(b) as int, 0x10_0000_0000_0000);
            }
            if exp_field(b) < exp_field(a) {
                lemma_mul_inequality(
                    (exp_field(b) + 1) as int,
                    exp_field(a) as int,
                    0x10_0000_0000_0000,
                );
                lemma_mul_is_commutative((exp_field(b) + 1) as int, 0x10_0000_0000_0000);
                lemma_mul_is_commutative(exp_field(a) as int, 0x10_0000_0000_0000);
            }
        }
    }
}

/// Order preservation: on finite bit patterns the codec reproduces numeric
/// order under unsigned comparison of the keys.
///
/// - A strictly smaller numeric value always gets a strictly smaller key.
/// - Unless both patterns denote a zero (0.0 and -0.0, the one numeric value
///   with two patterns), the converse holds as well, so numeric order and
///   key order coincide exactly.
/// - Numeric equality means identical patterns, except that 0.0 and -0.0
///   share the value zero; key equality always means identical patterns.
pub proof fn lemma_order_preservation(a: u64, b: u64)
    requires
        is_finite(a),
        is_finite(b),
    ensures
        value_scaled(a) < value_scaled(b) ==> encode_spec(a) < encode_spec(b),
        magnitude(a) != 0 || magnitude(b) != 0 ==> (value_scaled(a) < value_scaled(b) <==> encode_spec(a) < encode_spec(b)),
        value_scaled(a) == value_scaled(b) <==> (a == b || (magnitude(a) == 0 && magnitude(b) == 0)),
        encode_spec(a) == encode_spec(b) <==> a == b,
{
    lemma_magnitude_order(a, b);
    // How the keys compare, in terms of sign bits and sign-stripped patterns.
    assert(sign_field(a) == 0 && sign_field(b) == 0 ==> (encode_spec(a) < encode_spec(b) <==> mag_bits(a) < mag_bits(b)))
        by (bit_vector);
    assert(sign_field(a) == 1 && sign_field(b) == 1 ==> (encode_spec(a) < encode_spec(b) <==> mag_bits(b) < mag_bits(a)))
        by (bit_vector);
    assert(sign_field(a) == 1 && sign_field(b) == 0 ==> encode_spec(a) < encode_spec(b)) by (bit_vector);
    assert(sign_field(a) == 0 && sign_field(b) == 1 ==> encode_spec(b) < encode_spec(a)) by (bit_vector);
    // Sign bits are the only possible values of `bits >> 63`.
    assert(sign_field(a) == 0 || sign_field(a) == 1) by (bit_vector);
    assert(sign_field(b) == 0 || sign_field(b) == 1) by (bit_vector);
    // Identical sign and sign-stripped pattern means identical pattern.
    assert(sign_field(a) == sign_field(b) && mag_bits(a) == mag_bits(b) ==> a == b) by (bit_vector);
    lemma_codec_roundtrip(a);
    lemma_codec_roundtrip(b);
}

} // verus!
