//! Cipher session: exclusive access to a mutable ORE engine handle.
//!
//! A [`Cipher`] owns an AES-128 BlockORE engine built from two 16-byte
//! keys. Because a session handle may be shared by reference across
//! independent call sites, exclusivity is enforced dynamically: every
//! operation that uses the engine first checks a borrow flag and fails
//! immediately with [`Error::SessionBusy`] when the session is already
//! under an operation — it never blocks, never queues, and never touches
//! engine state on that path. The flag is released unconditionally when an
//! operation returns, errors included, so a session always ends a call
//! idle unless the caller holds an explicit acquisition
//! ([`Cipher::try_acquire`]).
//!
//! All buffer-shaped inputs are validated before the engine is called:
//! a rejected call has no side effects.

use crate::buffers::{clone_key_from_buffer, u64_from_buffer};
use crate::error::Error;
use ore_rs::scheme::bit2::OreAes128ChaCha20;
use ore_rs::{OreCipher, OreEncrypt, OreOutput};
use std::cmp::Ordering;
use vstd::prelude::*;

verus! {

/// Opaque handle to `ore_rs`'s AES-128 BlockORE engine
/// (`OreAes128ChaCha20`). The engine type's generic RNG parameter is
/// bounded by traits of `rand`, which the verifier refuses in a direct
/// type declaration, so the handle is held behind this opaque struct
/// instead; the verifier sees nothing of its contents.
#[verifier::external_body]
struct EngineHandle {
    inner: OreAes128ChaCha20,
}

/// Outcome of comparing two ORE ciphertexts: the ordering of their
/// plaintexts that the ciphertexts reveal.
#[derive(Clone, Copy, Debug, PartialEq, Eq, Structural)]
pub enum Comparison {
    /// The first plaintext is smaller.
    Less,
    /// The plaintexts are equal.
    Equal,
    /// The first plaintext is greater.
    Greater,
}

impl Comparison {
    /// Numeric code of the ordering, as hosts expect it: -1 for less,
    /// 0 for equal, 1 for greater.
    pub open spec fn code_spec(self) -> i8 {
        match self {
            Comparison::Less => -1i8,
            Comparison::Equal => 0i8,
            Comparison::Greater => 1i8,
        }
    }

    /// Numeric code of the ordering ([`Comparison::code_spec`]).
    pub fn code(&self) -> (r: i8)
        ensures
            r == self.code_spec(),
    {
        match self {
            Comparison::Less => -1,
            Comparison::Equal => 0,
            Comparison::Greater => 1,
        }
    }
}

/// The ordering that the engine's raw-ciphertext comparison assigns to a
/// pair of serialized ciphertexts of equal length of at least 16 bytes: a
/// deterministic function of the two byte strings alone (the comparison
/// keys itself from material inside the ciphertexts).
pub uninterp spec fn ore_cmp_of(a: Seq<u8>, b: Seq<u8>) -> Comparison;

/// Relies on `ore_rs::OreCipher::init` for `OreAes128ChaCha20`: it builds
/// the engine from two 16-byte keys and, in this version of the crate, its
/// only return is `Ok` (both PRF constructions are infallible).
#[verifier::external_body]
fn ore_init(k1: &Vec<u8>, k2: &Vec<u8>) -> (r: Result<EngineHandle, Error>)
    requires
        k1@.len() == 16,
        k2@.len() == 16,
    ensures
        r is Ok,
{
    let key1: [u8; 16] = k1.as_slice().try_into().map_err(|_| Error::EngineError)?;
    let key2: [u8; 16] = k2.as_slice().try_into().map_err(|_| Error::EngineError)?;
    match <OreAes128ChaCha20 as OreCipher>::init(&key1, &key2) {
        Ok(engine) => Ok(EngineHandle { inner: engine }),
        Err(_) => Err(Error::EngineError),
    }
}

/// Relies on `ore_rs::OreEncrypt::encrypt` for `u64`: it encrypts the
/// key's order-preserving big-endian bytes into a full Left+Right ORE
/// ciphertext, serialized with `to_bytes`. In this version of the crate
/// the call cannot fail for the ChaCha20-backed engine — the nonce draw is
/// infallible and the 8-bit permutation's error paths are unreachable —
/// and the serialized ciphertext of an 8-byte plaintext always has
/// 8 + 8*16 + 16 + 8*32 == 408 bytes (permuted bytes, left PRF blocks,
/// nonce, right blocks). Each call draws a fresh random nonce, so nothing
/// is claimed of the bytes' values.
#[verifier::external_body]
fn ore_encrypt_u64(engine: &EngineHandle, input: u64) -> (r: Result<Vec<u8>, Error>)
    ensures
        r is Ok,
        r->Ok_0@.len() == 408,
{
    match input.encrypt(&engine.inner) {
        Ok(ct) => Ok(ct.to_bytes()),
        Err(_) => Err(Error::EngineError),
    }
}

/// Relies on `ore_rs::OreEncrypt::encrypt_left` for `u64`: it encrypts the
/// key's order-preserving big-endian bytes into the comparison-only Left
/// half of an ORE ciphertext, serialized with `to_bytes`. As with the full
/// encryption, the call cannot fail in this version of the crate, and the
/// serialized Left half of an 8-byte plaintext always has
/// 8 + 8*16 == 136 bytes.
#[verifier::external_body]
fn ore_encrypt_left_u64(engine: &EngineHandle, input: u64) -> (r: Result<Vec<u8>, Error>)
    ensures
        r is Ok,
        r->Ok_0@.len() == 136,
{
    match input.encrypt_left(&engine.inner) {
        Ok(ct) => Ok(ct.to_bytes()),
        Err(_) => Err(Error::EngineError),
    }
}

/// Relies on `OreAes128ChaCha20::compare_raw_slices`: given two serialized
/// ciphertexts of equal length of at least 16 bytes (the nonce size), it
/// always classifies the pair as less, equal, or greater — a deterministic
/// function of the two byte strings, named [`ore_cmp_of`]; `None` only
/// arises from a length mismatch, which the precondition rules out.
#[verifier::external_body]
fn ore_compare_slices(a: &Vec<u8>, b: &Vec<u8>) -> (r: Option<Comparison>)
    requires
        a@.len() == b@.len(),
        a@.len() >= 16,
    ensures
        r == Some(ore_cmp_of(a@, b@)),
{
    match OreAes128ChaCha20::compare_raw_slices(a.as_slice(), b.as_slice()) {
        Some(Ordering::Less) => Some(Comparison::Less),
        Some(Ordering::Equal) => Some(Comparison::Equal),
        Some(Ordering::Greater) => Some(Comparison::Greater),
        None => None,
    }
}

/// A cipher session: an exclusively-borrowable handle to an ORE engine.
///
/// Dropping the session drops the engine, which zeroizes its key material
/// (`OreAes128` is `ZeroizeOnDrop`).
pub struct Cipher {
    engine: EngineHandle,
    busy: bool,
}

impl Cipher {
    /// Whether the session is idle, i.e. not currently under a mutable
    /// operation. Every operation requires and restores this state except
    /// an explicit [`Cipher::try_acquire`].
    pub closed spec fn is_idle(&self) -> bool {
        !self.busy
    }

    /// Whether two session values hold the same engine state.
    pub closed spec fn same_engine(&self, other: &Cipher) -> bool {
        self.engine == other.engine
    }

    /// Create a session from two pieces of key material.
    ///
    /// Succeeds exactly when both keys are 16 bytes long, returning an
    /// idle session; any other length fails with `InvalidKeyLength`
    /// before the engine is touched.
    pub fn new(k1: &Vec<u8>, k2: &Vec<u8>) -> (r: Result<Cipher, Error>)
        ensures
            r is Ok <==> (k1@.len() == 16 && k2@.len() == 16),
            r is Ok ==> r->Ok_0.is_idle(),
            r is Err ==> r->Err_0 == Error::InvalidKeyLength,
    {
        let key1 = match clone_key_from_buffer(k1) {
            Ok(k) => k,
            Err(e) => {
                return Err(e);
            },
        };
        let key2 = match clone_key_from_buffer(k2) {
            Ok(k) => k,
            Err(e) => {
                return Err(e);
            },
        };
        match ore_init(&key1, &key2) {
            Ok(engine) => Ok(Cipher { engine, busy: false }),
            Err(_) => Err(Error::InvalidKeyLength),
        }
    }

    /// Encrypt an 8-byte plaintext block into a full ORE ciphertext.
    ///
    /// The plaintext length is validated first: anything but 8 bytes fails
    /// with `InvalidPlaintextLength` and leaves the session untouched. A
    /// busy session fails with `SessionBusy`, also untouched. Otherwise
    /// exclusivity is held for the duration of the engine call and
    /// released on every path, so the session ends idle, and encryption
    /// succeeds: the engine's raw ciphertext bytes — always 408 of them
    /// for an 8-byte block — are returned unmodified.
    pub fn encrypt(&mut self, input: &Vec<u8>) -> (r: Result<Vec<u8>, Error>)
        ensures
            input@.len() != 8 ==> r == Err::<Vec<u8>, Error>(Error::InvalidPlaintextLength)
                && *final(self) == *old(self),
            input@.len() == 8 && !old(self).is_idle() ==> r == Err::<Vec<u8>, Error>(
                Error::SessionBusy,
            ) && *final(self) == *old(self),
            input@.len() == 8 && old(self).is_idle() ==> final(self).is_idle()
                && final(self).same_engine(old(self)) && r is Ok && r->Ok_0@.len() == 408,
    {
        let key = match u64_from_buffer(input) {
            Ok(k) => k,
            Err(e) => {
                return Err(e);
            },
        };
        if self.busy {
            return Err(Error::SessionBusy);
        }
        self.busy = true;
        let result = ore_encrypt_u64(&self.engine, key);
        self.busy = false;
        result
    }

    /// Encrypt an 8-byte plaintext block into the comparison-only Left
    /// ciphertext variant — always 136 bytes for an 8-byte block. Same
    /// validation, exclusivity, and release discipline as
    /// [`Cipher::encrypt`].
    pub fn encrypt_left(&mut self, input: &Vec<u8>) -> (r: Result<Vec<u8>, Error>)
        ensures
            input@.len() != 8 ==> r == Err::<Vec<u8>, Error>(Error::InvalidPlaintextLength)
                && *final(self) == *old(self),
            input@.len() == 8 && !old(self).is_idle() ==> r == Err::<Vec<u8>, Error>(
                Error::SessionBusy,
            ) && *final(self) == *old(self),
            input@.len() == 8 && old(self).is_idle() ==> final(self).is_idle()
                && final(self).same_engine(old(self)) && r is Ok && r->Ok_0@.len() == 136,
    {
        let key = match u64_from_buffer(input) {
            Ok(k) => k,
            Err(e) => {
                return Err(e);
            },
        };
        if self.busy {
            return Err(Error::SessionBusy);
        }
        self.busy = true;
        let result = ore_encrypt_left_u64(&self.engine, key);
        self.busy = false;
        result
    }

    /// Attempt to take the session's exclusive borrow, as a host boundary
    /// must before it hands the handle to a re-entrant caller. Fails
    /// immediately with `SessionBusy` when the session is already held;
    /// never blocks.
    pub fn try_acquire(&mut self) -> (r: Result<(), Error>)
        ensures
            !old(self).is_idle() ==> r == Err::<(), Error>(Error::SessionBusy) && *final(self)
                == *old(self),
            old(self).is_idle() ==> r is Ok && !final(self).is_idle() && final(self).same_engine(
                old(self),
            ),
    {
        if self.busy {
            return Err(Error::SessionBusy);
        }
        self.busy = true;
        Ok(())
    }

    /// Release the session's exclusive borrow. Always leaves the session
    /// idle; releasing an idle session is a no-op.
    pub fn release(&mut self)
        ensures
            final(self).is_idle(),
            final(self).same_engine(old(self)),
    {
        self.busy = false;
    }

    /// Whether the session is currently held by an operation.
    pub fn is_busy(&self) -> (r: bool)
        ensures
            r == !self.is_idle(),
    {
        self.busy
    }
}

/// Compare two serialized ORE ciphertexts through the engine's dedicated
/// comparison (ciphertext byte order does not reflect plaintext order).
///
/// Returns the numeric code of the engine's verdict ([`ore_cmp_of`])
/// exactly when the buffers have equal lengths of at least 16 bytes (a
/// serialized ciphertext is never shorter than its nonce); every malformed
/// or mismatched pair fails with `ComparisonFailed`.
pub fn compare(a: &Vec<u8>, b: &Vec<u8>) -> (r: Result<i8, Error>)
    ensures
        r is Ok <==> (a@.len() == b@.len() && a@.len() >= 16),
        r is Ok ==> r->Ok_0 == ore_cmp_of(a@, b@).code_spec(),
        r is Ok ==> (r->Ok_0 == -1 || r->Ok_0 == 0 || r->Ok_0 == 1),
        r is Err ==> r->Err_0 == Error::ComparisonFailed,
{
    if a.len() != b.len() || a.len() < 16 {
        return Err(Error::ComparisonFailed);
    }
    match ore_compare_slices(a, b) {
        Some(c) => Ok(c.code()),
        None => Err(Error::ComparisonFailed),
    }
}

} // verus!
