//! A library that builds Solana instructions and signs and verifies Ed25519
//! messages, for a small HTTP service: each public handler validates plain
//! string and integer inputs, calls the blockchain SDK's instruction builders
//! or signature primitives, and returns either the response data or a
//! descriptive error.

pub mod codec;
pub mod crypto;
pub mod error;
pub mod instruction;
pub mod keypair;
pub mod message;
pub mod send;
pub mod token;
