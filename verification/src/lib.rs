//! Permissioned ledger core for tokenized real-world assets.
//!
//! Three record families, each mutated only through authorization-checked,
//! atomic operations: asset records (creation, valuation, verification,
//! tradability, burn, income accounting), governance proposals and votes
//! (propose / vote / tally / execute), and the singleton platform-token
//! record (initialization with fixed percentage allocations, two-step
//! authority transfer, fee configuration, transfer pause).
//!
//! The execution host that authenticates callers, supplies the wall clock,
//! and persists records atomically is an external collaborator: every
//! operation here takes the caller's identity and the current timestamp as
//! plain arguments, mutates the records it is given, and reports any failed
//! precondition as an error with no partial state change.

use vstd::prelude::*;

pub mod asset_token;
pub mod errors;
pub mod governance;
pub mod tokenomics;

verus! {

/// Identity of an account (an authority, voter, mint or recipient) as the
/// host names it. The core only stores and compares these.
pub type AccountId = u64;

} // verus!
