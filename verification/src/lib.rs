//! Weighted on-chain governance over a custodied treasury.
//!
//! The crate models three cooperating state machines: a governance engine
//! (`dao`) that turns weighted votes into an irreversible execution decision,
//! a custody vault (`vault`) that pays a funded reward out at most once per
//! claim key, and a fungible-token ledger (`token`) that supplies voting
//! weight. Environment facts that only the execution substrate knows — the
//! caller, a ledger balance, the outcome of a cross-contract call, the block
//! time — enter every operation as explicit arguments, so the state machines
//! themselves are verified for every possible outcome of those calls.

use vstd::prelude::*;

pub mod dao;
pub mod store;
pub mod token;
pub mod vault;

verus! {

/// Identity of an account, as the surrounding chain names it.
pub type AccountId = u128;

/// An unsigned amount of tokens or of native value.
pub type Balance = u128;

} // verus!
