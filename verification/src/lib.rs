//! Integer-exact engines for a token launchpad: a constant-product
//! bonding-curve exchange with fee extraction and a completion threshold,
//! and a reward-per-token staking ledger that accrues rewards continuously.
//!
//! Both engines are pure state machines: every operation takes the persisted
//! record, the caller's identity and the current time as plain values,
//! validates them, and either returns the exact new state or an error with
//! the old state untouched. All arithmetic is checked; nothing wraps.

pub mod config;
pub mod curve;
pub mod errors;
pub mod events;
pub mod pool;
