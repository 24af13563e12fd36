//! Reserve-configuration mutation for a lending protocol.
//!
//! A lending market's owner may change a reserve's risk and economic
//! parameters after the reserve has been created. The change is guarded:
//! the reserve's accounting is refreshed first, the requested mutation is
//! applied through a single mode-dispatched entry point, and the resulting
//! configuration must then pass either full semantic validation or a narrow
//! bypass check that proves the reserve is economically inert and the change
//! locks it down.

use vstd::prelude::*;

pub mod codec;
pub mod guard;
pub mod modes;
pub mod mutator;
pub mod refresh;
pub mod state;
pub mod validation;

verus! {

/// Failure taxonomy of a configuration change.
///
/// Every failure aborts the whole operation: no partial state change is ever
/// visible to the caller.
#[derive(Clone, Copy, Debug, PartialEq, Eq)]
pub enum LendingError {
    /// The mode tag maps onto no recognized configuration mode.
    InvalidMode,
    /// The payload does not decode to the shape the mode expects.
    MalformedConfigValue,
    /// The accounting refresh could not complete (stale required price data,
    /// or accrual arithmetic out of range).
    OracleOrStateError,
    /// Full validation rejected the resulting configuration, or the bypass
    /// predicate failed.
    InvalidConfig,
}

} // verus!
