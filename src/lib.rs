//! Minimal on-chain governance: a member registry, a proposal store with
//! vote tallies, the decisions that escalate local actions to a federation,
//! and the construction of cross-chain transfer programs.
use vstd::prelude::*;

pub mod crosschain;
pub mod dao;
pub mod error;
pub mod identity;
pub mod laws;
pub mod ledger;
pub mod proposals;
pub mod registry;

verus! {

} // verus!
