//! The closed catalogue of configuration modes: each mode designates the
//! configuration field (or field group) that a change request targets, and
//! the wire shape of its payload.

use vstd::prelude::*;

verus! {

/// One member of the closed enumeration of configuration modes.
#[derive(Clone, Copy, Debug, PartialEq, Eq)]
pub enum UpdateConfigMode {
    /// Reserve status tag (payload: one byte, a recognized status value).
    UpdateStatus,
    /// Loan-to-value ratio in percent (payload: one byte).
    UpdateLoanToValuePct,
    /// Liquidation threshold in percent (payload: one byte).
    UpdateLiquidationThresholdPct,
    /// Protocol take rate in percent (payload: one byte).
    UpdateProtocolTakeRatePct,
    /// Borrow rate in basis points (payload: two bytes, little-endian).
    UpdateBorrowRateBps,
    /// Both fee-schedule fields at once (payload: sixteen bytes, two
    /// little-endian eight-byte integers).
    UpdateFees,
    /// Deposit limit (payload: eight bytes, little-endian).
    UpdateDepositLimit,
    /// Borrow limit (payload: eight bytes, little-endian).
    UpdateBorrowLimit,
}

/// The mode, if any, that a numeric wire tag designates.
pub open spec fn mode_from_u64_spec(mode: u64) -> Option<UpdateConfigMode> {
    if mode == 1 {
        Some(UpdateConfigMode::UpdateStatus)
    } else if mode == 2 {
        Some(UpdateConfigMode::UpdateLoanToValuePct)
    } else if mode == 3 {
        Some(UpdateConfigMode::UpdateLiquidationThresholdPct)
    } else if mode == 4 {
        Some(UpdateConfigMode::UpdateProtocolTakeRatePct)
    } else if mode == 5 {
        Some(UpdateConfigMode::UpdateBorrowRateBps)
    } else if mode == 6 {
        Some(UpdateConfigMode::UpdateFees)
    } else if mode == 7 {
        Some(UpdateConfigMode::UpdateDepositLimit)
    } else if mode == 8 {
        Some(UpdateConfigMode::UpdateBorrowLimit)
    } else {
        None
    }
}

/// Decodes the numeric wire representation of a mode tag.
pub fn mode_from_u64(mode: u64) -> (r: Option<UpdateConfigMode>)
    ensures
        r == mode_from_u64_spec(mode),
{
    match mode {
        1 => Some(UpdateConfigMode::UpdateStatus),
        2 => Some(UpdateConfigMode::UpdateLoanToValuePct),
        3 => Some(UpdateConfigMode::UpdateLiquidationThresholdPct),
        4 => Some(UpdateConfigMode::UpdateProtocolTakeRatePct),
        5 => Some(UpdateConfigMode::UpdateBorrowRateBps),
        6 => Some(UpdateConfigMode::UpdateFees),
        7 => Some(UpdateConfigMode::UpdateDepositLimit),
        8 => Some(UpdateConfigMode::UpdateBorrowLimit),
        _ => None,
    }
}

/// The exact payload length, in bytes, that a mode expects.
pub open spec fn mode_payload_len(m: UpdateConfigMode) -> nat {
    match m {
        UpdateConfigMode::UpdateStatus => 1,
        UpdateConfigMode::UpdateLoanToValuePct => 1,
        UpdateConfigMode::UpdateLiquidationThresholdPct => 1,
        UpdateConfigMode::UpdateProtocolTakeRatePct => 1,
        UpdateConfigMode::UpdateBorrowRateBps => 2,
        UpdateConfigMode::UpdateFees => 16,
        UpdateConfigMode::UpdateDepositLimit => 8,
        UpdateConfigMode::UpdateBorrowLimit => 8,
    }
}

} // verus!
