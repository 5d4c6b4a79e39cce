//! Tests of the order-preserving numeric codec.

use ore_encoding_rs::OrePlaintext;
use stash_core::codec::{decode, encode};

/// Bit-exact round trip through the codec for a sample of finite doubles,
/// including subnormals and the extremes of the finite range.
#[test]
fn roundtrip_samples() {
    let samples: [f64; 12] = [
        3.5,
        -3.5,
        1.0,
        -1.0,
        0.0,
        -0.0,
        123.456,
        f64::MIN,
        f64::MAX,
        f64::MIN_POSITIVE,
        5e-324,
        -5e-324,
    ];
    for x in samples {
        let bits = x.to_bits();
        let back = decode(encode(bits));
        assert_eq!(back, bits);
        assert_eq!(f64::from_bits(back).to_bits(), bits);
    }
}

/// The two zero patterns each round-trip to themselves (and to distinct
/// keys, since the transform is injective on bit patterns).
#[test]
fn zeros_roundtrip_to_themselves() {
    let pos = 0.0f64.to_bits();
    let neg = (-0.0f64).to_bits();
    assert_eq!(decode(encode(pos)), pos);
    assert_eq!(decode(encode(neg)), neg);
    assert_ne!(encode(pos), encode(neg));
}

/// The most negative finite double encodes strictly below the most
/// positive finite double.
#[test]
fn finite_extremes_are_ordered() {
    assert!(encode(f64::MIN.to_bits()) < encode(f64::MAX.to_bits()));
}

/// encode(3.5) decodes back to exactly 3.5, and the key chain
/// -3.5 < -1.0 < 0.0 < 1.0 < 3.5 holds under unsigned comparison.
#[test]
fn example_chain() {
    let k = encode(3.5f64.to_bits());
    assert_eq!(f64::from_bits(decode(k)), 3.5);

    let keys: Vec<u64> = [-3.5f64, -1.0, 0.0, 1.0, 3.5]
        .iter()
        .map(|x| encode(x.to_bits()))
        .collect();
    for i in 0..keys.len() - 1 {
        assert!(keys[i] < keys[i + 1]);
    }
}

/// Key order reproduces numeric order on a mixed sample of pairs.
#[test]
fn order_matches_float_order() {
    let samples: [f64; 10] = [
        -1.0e308, -2.5, -1.0, -5e-324, 0.0, 5e-324, 0.5, 1.0, 2.5, 1.0e308,
    ];
    for &x in &samples {
        for &y in &samples {
            assert_eq!(x < y, encode(x.to_bits()) < encode(y.to_bits()));
            assert_eq!(x == y, encode(x.to_bits()) == encode(y.to_bits()));
        }
    }
}

/// The codec agrees with the engine's own float-to-key mapping
/// (`OrePlaintext::from`), so keys produced here are the keys the engine
/// ecosystem expects.
#[test]
fn agrees_with_engine_mapping() {
    let samples: [f64; 8] = [3.5, -3.5, 0.0, -0.0, 123.456, f64::MIN, f64::MAX, 5e-324];
    for x in samples {
        assert_eq!(encode(x.to_bits()), OrePlaintext::<u64>::from(x).0);
    }
}
