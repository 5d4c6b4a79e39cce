//! Tests of buffer validation and marshalling.

use stash_core::buffers::{clone_key_from_buffer, encode_buffer, u64_from_buffer, u64_to_buffer};
use stash_core::error::Error;

#[test]
fn u64_buffer_roundtrip() {
    for val in [0u64, 1, 0x0102_0304_0506_0708, u64::MAX] {
        let buf = u64_to_buffer(val);
        assert_eq!(buf.len(), 8);
        assert_eq!(u64_from_buffer(&buf), Ok(val));
    }
}

#[test]
fn u64_to_buffer_is_little_endian() {
    assert_eq!(
        u64_to_buffer(0x0102_0304_0506_0708),
        vec![0x08, 0x07, 0x06, 0x05, 0x04, 0x03, 0x02, 0x01]
    );
}

#[test]
fn u64_from_buffer_rejects_wrong_lengths() {
    assert_eq!(u64_from_buffer(&vec![]), Err(Error::InvalidPlaintextLength));
    assert_eq!(u64_from_buffer(&vec![0u8; 7]), Err(Error::InvalidPlaintextLength));
    assert_eq!(u64_from_buffer(&vec![0u8; 9]), Err(Error::InvalidPlaintextLength));
}

#[test]
fn clone_key_accepts_exactly_16_bytes() {
    let key: Vec<u8> = (0u8..16).collect();
    assert_eq!(clone_key_from_buffer(&key), Ok(key.clone()));
    assert_eq!(clone_key_from_buffer(&vec![0u8; 15]), Err(Error::InvalidKeyLength));
    assert_eq!(clone_key_from_buffer(&vec![0u8; 17]), Err(Error::InvalidKeyLength));
}

#[test]
fn encode_buffer_passes_8_bytes_through() {
    let buf: Vec<u8> = vec![9, 8, 7, 6, 5, 4, 3, 2];
    assert_eq!(encode_buffer(&buf), Ok(buf.clone()));
    assert_eq!(encode_buffer(&vec![0u8; 7]), Err(Error::InvalidBufferLength));
    assert_eq!(encode_buffer(&vec![0u8; 9]), Err(Error::InvalidBufferLength));
}
