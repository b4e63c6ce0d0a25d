//! Fast generation of guessable, unique 192-bit identifiers, with a
//! hyphenated hexadecimal 128-bit rendering shaped like an RFC-4122
//! version-4 UUID.
//!
//! A [`Generator`] owns a fixed random 24-byte seed and an atomically
//! incremented 64-bit counter.  Each identifier is the counter's
//! little-endian bytes followed by the constant tail of the seed, so
//! successive identifiers are adjacent (guessable by design) but never
//! repeat within one generator's lifetime, short of 64-bit wraparound.

mod encode;
mod generator;
mod validity;

pub use encode::EncodingError;
pub use generator::Generator;
