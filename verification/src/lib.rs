//! A greeting and a per-address value store for a Soroban contract.
//!
//! The contract keeps one `u32` for each address in the instance storage of
//! the host and greets by symbol. The calls into the host are made through
//! the small set of trusted functions in [`host`]; the entry points in
//! [`contract`] are verified against their contracts, and [`entries`] holds
//! the mathematical model of the store and its laws.

pub mod contract;
pub mod entries;
pub mod host;

pub use contract::HelloContract;
pub use host::Host;
