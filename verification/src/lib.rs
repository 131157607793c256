//! Verified core of a single-asset token escrow: the escrow record, the
//! deterministic derivation of its custody authority, and the refund
//! operation that returns the vault's balance and both storage deposits to
//! the maker and closes both accounts atomically.

pub mod authority;
pub mod laws;
pub mod refund;
pub mod state;
