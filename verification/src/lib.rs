//! AstroHash: a proof-of-work hash that maps an arbitrary byte input to a
//! 32-byte digest through a 256-branch byte-mixing engine, keystream-cipher
//! rekeying, and a suffix-array reseed over an accumulated scratchpad.
//!
//! The digest is consensus data: it must be bit-exact across
//! implementations. The executable engine here is proved to follow the
//! state machine in `model` step for step, so the digest is pinned down as
//! a function of the input bytes relative to the named outside primitives
//! (SHA-256, ChaCha20, RC4, FNV-1a, XXH3, SipHash-2-4, and the suffix
//! array).
pub mod engine;
pub mod laws;
pub mod model;
pub mod ops;
pub mod prims;
pub mod table;
pub mod v1;

pub use engine::astrobwtv3_hash;
pub use engine::hash_with_tries;
pub use v1::vyridium_hash;
pub use v1::xelis_hash;
pub use v1::AlignedInput;
pub use v1::Bytes8Alignment;
pub use v1::Error;
pub use v1::ScratchPad;
