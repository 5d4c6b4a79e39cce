//! Tests of the cipher session: key validation, plaintext validation,
//! exclusivity, and end-to-end encrypt-and-compare behaviour.

use stash_core::encode::encode_num;
use stash_core::error::Error;
use stash_core::session::{compare, Cipher};

fn key1() -> Vec<u8> {
    (0u8..16).collect()
}

fn key2() -> Vec<u8> {
    (16u8..32).collect()
}

#[test]
fn new_accepts_two_16_byte_keys() {
    let cipher = Cipher::new(&key1(), &key2()).unwrap();
    assert!(!cipher.is_busy());
}

#[test]
fn new_rejects_15_and_17_byte_keys() {
    assert!(matches!(
        Cipher::new(&vec![0u8; 15], &key2()),
        Err(Error::InvalidKeyLength)
    ));
    assert!(matches!(
        Cipher::new(&vec![0u8; 17], &key2()),
        Err(Error::InvalidKeyLength)
    ));
    assert!(matches!(
        Cipher::new(&key1(), &vec![0u8; 15]),
        Err(Error::InvalidKeyLength)
    ));
    assert!(matches!(
        Cipher::new(&key1(), &vec![0u8; 17]),
        Err(Error::InvalidKeyLength)
    ));
}

#[test]
fn encrypt_rejects_wrong_plaintext_length_and_stays_idle() {
    let mut cipher = Cipher::new(&key1(), &key2()).unwrap();
    assert!(matches!(
        cipher.encrypt(&vec![0u8; 7]),
        Err(Error::InvalidPlaintextLength)
    ));
    assert!(matches!(
        cipher.encrypt(&vec![0u8; 9]),
        Err(Error::InvalidPlaintextLength)
    ));
    assert!(!cipher.is_busy());
    // The session is still usable afterwards.
    assert!(cipher.encrypt(&encode_num(1.0f64.to_bits())).is_ok());
}

#[test]
fn encrypt_left_rejects_wrong_plaintext_length() {
    let mut cipher = Cipher::new(&key1(), &key2()).unwrap();
    assert!(matches!(
        cipher.encrypt_left(&vec![0u8; 7]),
        Err(Error::InvalidPlaintextLength)
    ));
    assert!(!cipher.is_busy());
    assert!(cipher.encrypt_left(&encode_num(1.0f64.to_bits())).is_ok());
}

#[test]
fn second_operation_on_held_session_fails_busy() {
    let mut cipher = Cipher::new(&key1(), &key2()).unwrap();
    // A host call site takes the exclusive borrow and has not released it
    // when the next operation arrives.
    cipher.try_acquire().unwrap();
    assert!(cipher.is_busy());
    assert!(matches!(
        cipher.encrypt(&encode_num(1.0f64.to_bits())),
        Err(Error::SessionBusy)
    ));
    assert!(matches!(
        cipher.encrypt_left(&encode_num(1.0f64.to_bits())),
        Err(Error::SessionBusy)
    ));
    assert!(matches!(cipher.try_acquire(), Err(Error::SessionBusy)));
    // Releasing restores the session unharmed.
    cipher.release();
    assert!(!cipher.is_busy());
    assert!(cipher.encrypt(&encode_num(1.0f64.to_bits())).is_ok());
}

#[test]
fn end_to_end_encrypt_and_compare() {
    let mut cipher = Cipher::new(&key1(), &key2()).unwrap();
    let ct10 = cipher.encrypt(&encode_num(10.0f64.to_bits())).unwrap();
    let ct20 = cipher.encrypt(&encode_num(20.0f64.to_bits())).unwrap();
    let ct10_again = cipher.encrypt(&encode_num(10.0f64.to_bits())).unwrap();
    assert_eq!(compare(&ct10, &ct20), Ok(-1));
    assert_eq!(compare(&ct20, &ct10), Ok(1));
    assert_eq!(compare(&ct10, &ct10_again), Ok(0));
}

#[test]
fn ciphertexts_have_fixed_sizes() {
    let mut cipher = Cipher::new(&key1(), &key2()).unwrap();
    let block = encode_num(10.0f64.to_bits());
    assert_eq!(cipher.encrypt(&block).unwrap().len(), 408);
    assert_eq!(cipher.encrypt_left(&block).unwrap().len(), 136);
}

#[test]
fn compare_rejects_malformed_pairs() {
    let mut cipher = Cipher::new(&key1(), &key2()).unwrap();
    let ct = cipher.encrypt(&encode_num(10.0f64.to_bits())).unwrap();
    let mut truncated = ct.clone();
    truncated.pop();
    assert_eq!(compare(&ct, &truncated), Err(Error::ComparisonFailed));
    assert_eq!(compare(&vec![0u8; 4], &vec![0u8; 4]), Err(Error::ComparisonFailed));
}
