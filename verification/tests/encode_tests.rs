//! Tests of caller-value encoding: numbers and strings.

use ore_encoding_rs::{siphash, OrePlaintext};
use stash_core::codec::encode;
use stash_core::encode::{encode_num, encode_string};

#[test]
fn encode_num_serializes_the_ordering_key() {
    let bits = 3.5f64.to_bits();
    let block = encode_num(bits);
    assert_eq!(block, encode(bits).to_le_bytes().to_vec());
}

#[test]
fn encode_num_agrees_with_engine_mapping() {
    for x in [10.0f64, -2.5, 0.0] {
        assert_eq!(
            encode_num(x.to_bits()),
            OrePlaintext::<u64>::from(x).0.to_le_bytes().to_vec()
        );
    }
}

#[test]
fn encode_string_hashes_utf8_bytes() {
    // "abc" is already in canonical composition, so the encoding is the
    // hash of its bytes as-is.
    assert_eq!(
        encode_string(String::from("abc")),
        siphash("abc".as_bytes()).to_le_bytes().to_vec()
    );
}

#[test]
fn encode_string_normalizes_to_nfc() {
    // U+00E9 (e with acute) versus "e" followed by U+0301 (combining
    // acute): canonically equivalent spellings must encode identically.
    let composed = String::from("caf\u{00e9}");
    let decomposed = String::from("cafe\u{0301}");
    assert_ne!(composed.as_bytes(), decomposed.as_bytes());
    assert_eq!(encode_string(composed.clone()), encode_string(decomposed));
    // And the result is the hash of the composed spelling's bytes.
    assert_eq!(
        encode_string(composed.clone()),
        siphash(composed.as_bytes()).to_le_bytes().to_vec()
    );
}
