//! Symmetric, authenticated encryption of byte buffers under a key derived
//! from arbitrary key material, plus the decision logic of the interactive
//! masked password prompt. All I/O lives outside this crate.

pub mod crypto;
pub mod prompt;
