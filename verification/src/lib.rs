//! A state-transition library for a binary-outcome prediction market hosted
//! on an external ledger.
//!
//! The host validates transactions and hands the module an ordered account
//! list together with an opcode-tagged payload.  This crate holds the logic
//! worth proving: payload decoding, account validation, deterministic
//! authority derivation, and the atomic market-state update performed by a
//! share purchase.  The host-facing glue (account access, the token-mint
//! cross-program invocation) lives outside and consumes the plain values
//! this library produces.

pub mod address;
pub mod error;
pub mod instruction;
pub mod processor;
pub mod state;
