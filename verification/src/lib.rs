//! A remote chain-state provider: a synchronous, read-only view over account
//! balances, nonces, contract bytecode and storage slots of a live chain,
//! pinned to one block, with a content-addressed bytecode cache.

pub mod bytecode;
pub mod cache;
pub mod provider;
pub mod values;
