//! Verified core logic of the SoroSusu savings-circle contracts.
use vstd::prelude::*;

pub mod deadline;
pub mod errors;
pub mod decimal;
pub mod vault_balance_invariant;
pub mod stealth_mode;
pub mod sbt_minter;
pub mod adaptive_quorum;
pub mod social_vouching;
pub mod arith;
pub mod aggregate_credit;
pub mod bytes;
pub mod contribution_security;
pub mod defi_adapter_trait;
pub mod yield_bridge_adapter;
pub mod dispute;
pub mod grant_governance;
pub mod reputation_export;
pub mod juror_selection;
pub mod default_recovery;
pub mod chat_metadata;
pub mod sequence_buffer;
pub mod yearly_summary;
pub mod stress_test;
pub mod auto_compounder;

verus! {

/// An account identity as the contracts see it: an opaque handle that is only
/// compared for equality and used as a storage key.
pub type AccountId = u64;

} // verus!
