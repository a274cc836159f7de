//! A minimal proof-of-work block miner: blocks carry a nonce whose header
//! digest falls below a difficulty target, and a chain links each block to the
//! digest of its predecessor.

pub mod types;
pub mod encoding;
pub mod hashing;
pub mod block;
pub mod blockchain;
