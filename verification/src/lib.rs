//! Accumulator-based revenue distribution and staking rewards.
//!
//! Periodic revenue is split among a staking reward pool, a DAO treasury and a
//! developer treasury by fixed basis-point ratios, and per-position staking
//! rewards are tracked with a global reward-per-share accumulator.
//!
//! The crate holds only the accounting core: the fixed-point math, the global
//! engine record with its distribution algorithm, the per-position stake
//! records with their stake/unstake/claim algorithms, and the authorization
//! predicate that guards the engine's aggregate staked-weight counter.  The
//! surrounding ledger — token balance transfers, the clock, and the mechanism
//! that attests a call's origin — is an external collaborator: callers read
//! fresh balances and timestamps, hand them in as plain values, and perform
//! the exact transfers the returned values dictate.

pub mod account;
pub mod engine;
pub mod errors;
pub mod math;
pub mod position;
