//! A commit-reveal NFT guessing game, written as a host-invoked state
//! transition function.
//!
//! An owner mints token ids, each bound to a 64-bit commitment digest of the
//! correct lyrics. Anyone may pay a fee and submit a guess; when the digest
//! of the guess equals the stored commitment, a transfer request for the
//! token is handed back to the host. All storage access, wire encoding and
//! sub-request execution belong to the host and to the companion NFT
//! contract; this crate holds the decisions and proves their contracts.

pub mod contract;
pub mod error;
pub mod hash;
pub mod msg;
pub mod state;
