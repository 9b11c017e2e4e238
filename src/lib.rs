//! A Fiat-Shamir transcript built on a Keccak-256 hash chain, with a
//! transcript-bound generator for blinding secret witness data.

pub mod keccak;
pub mod label;
pub mod transcript;
pub mod rng;
pub mod laws;

pub use keccak::keccak256;
pub use label::pad_label;
pub use transcript::HashChainTranscript;
pub use rng::{HashChainTranscriptRng, HashChainTranscriptRngBuilder};
