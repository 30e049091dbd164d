//! Client side of an off-chain lookup protocol for cross-chain message
//! verification: a security module answers a probing call with a revert that
//! describes where the missing proof can be fetched, and this crate decides,
//! step by step, what has to be read, called, stored and requested until the
//! proof bytes are known.
//!
//! The crate performs no I/O. Every decision is a verified function from plain
//! values to plain values; the caller carries out the actions it is handed.

pub mod abi;
pub mod builder;
pub mod fetch;
pub mod hex;
pub mod laws;
pub mod lookup;
pub mod outcome;
pub mod revert;
pub mod text;
