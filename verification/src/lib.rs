//! Client-side numeric pre-processing and session-state layer for an
//! order-revealing-encryption (ORE) client.
//!
//! The crate has two components:
//!
//! - an order-preserving numeric codec ([`codec`]) that maps the bit
//!   patterns of IEEE-754 double values to and from unsigned 64-bit
//!   ordering keys such that unsigned integer ordering of the keys
//!   reproduces the numeric ordering of the doubles, and
//! - a session wrapper that owns a mutable cipher handle, validates every
//!   buffer-shaped input before it reaches the encryption engine, and
//!   marshals engine outputs into fixed-shape results.
//!
//! Floating-point values never appear in this crate: a double travels as
//! its 64-bit bit pattern (`f64::to_bits` / `f64::from_bits` at the host
//! boundary), which carries exactly the same information.

pub mod buffers;
pub mod codec;
pub mod encode;
pub mod error;
pub mod range;
pub mod session;
