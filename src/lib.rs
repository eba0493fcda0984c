//! A token contract that binds each minted token to a 256-bit seed derived
//! from the mint's execution context, and resolves token ids to the seed
//! that their metadata is generated from.
//!
//! - `seed`: the seed derivation (Keccak-256 of the ABI-encoded block
//!   number, sender and chain id).
//! - `state`: the supply counter and seed table, and the mint transition.
//! - `error`: the contract's errors, one for each failure of the token ledger.

pub mod error;
pub mod seed;
pub mod state;
