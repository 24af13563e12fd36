//! The configuration mutator: decodes a mode-specific payload and
//! overwrites exactly the configuration field(s) the mode designates.
//!
//! The mutator performs no semantic judgment; it only checks that the
//! payload has the shape the mode declares, and it either applies the whole
//! change or leaves the configuration untouched.

use vstd::prelude::*;

use crate::codec::{le_bytes_to_u16, le_bytes_to_u64, u16_from_le, u64_from_le};
use crate::modes::{mode_payload_len, UpdateConfigMode};
use crate::state::{ReserveConfig, ReserveFees, MAX_RESERVE_STATUS};
use crate::LendingError;

verus! {

/// The configuration that results from applying payload `v` under mode `m`
/// to configuration `c`, or the error when the payload is malformed.
pub open spec fn apply_update_spec(c: ReserveConfig, m: UpdateConfigMode, v: Seq<u8>) -> Result<
    ReserveConfig,
    LendingError,
> {
    if v.len() != mode_payload_len(m) {
        Err(LendingError::MalformedConfigValue)
    } else {
        match m {
            UpdateConfigMode::UpdateStatus => {
                if v[0] <= MAX_RESERVE_STATUS {
                    Ok(ReserveConfig { status: v[0], ..c })
                } else {
                    Err(LendingError::MalformedConfigValue)
                }
            },
            UpdateConfigMode::UpdateLoanToValuePct => Ok(
                ReserveConfig { loan_to_value_pct: v[0], ..c },
            ),
            UpdateConfigMode::UpdateLiquidationThresholdPct => Ok(
                ReserveConfig { liquidation_threshold_pct: v[0], ..c },
            ),
            UpdateConfigMode::UpdateProtocolTakeRatePct => Ok(
                ReserveConfig { protocol_take_rate_pct: v[0], ..c },
            ),
            UpdateConfigMode::UpdateBorrowRateBps => Ok(
                ReserveConfig { borrow_rate_bps: le_bytes_to_u16(v) as u16, ..c },
            ),
            UpdateConfigMode::UpdateFees => Ok(
                ReserveConfig {
                    fees: ReserveFees {
                        borrow_fee_bps: le_bytes_to_u64(v.subrange(0, 8)) as u64,
                        flash_loan_fee_bps: le_bytes_to_u64(v.subrange(8, 16)) as u64,
                    },
                    ..c
                },
            ),
            UpdateConfigMode::UpdateDepositLimit => Ok(
                ReserveConfig { deposit_limit: le_bytes_to_u64(v) as u64, ..c },
            ),
            UpdateConfigMode::UpdateBorrowLimit => Ok(
                ReserveConfig { borrow_limit: le_bytes_to_u64(v) as u64, ..c },
            ),
        }
    }
}

/// Applies one discriminated configuration change in place.
///
/// All-or-nothing: on any malformed payload the configuration is bit-for-bit
/// what it was before the call.
pub fn update_reserve_config(
    config: &mut ReserveConfig,
    mode: UpdateConfigMode,
    value: &[u8],
) -> (r: Result<(), LendingError>)
    ensures
        match apply_update_spec(*old(config), mode, value@) {
            Ok(c2) => r == Ok::<(), LendingError>(()) && *final(config) == c2,
            Err(e) => r == Err::<(), LendingError>(e) && *final(config) == *old(config),
        },
{
    match mode {
        UpdateConfigMode::UpdateStatus => {
            if value.len() != 1 {
                return Err(LendingError::MalformedConfigValue);
            }
            let s = value[0];
            if s > MAX_RESERVE_STATUS {
                return Err(LendingError::MalformedConfigValue);
            }
            config.status = s;
        },
        UpdateConfigMode::UpdateLoanToValuePct => {
            if value.len() != 1 {
                return Err(LendingError::MalformedConfigValue);
            }
            config.loan_to_value_pct = value[0];
        },
        UpdateConfigMode::UpdateLiquidationThresholdPct => {
            if value.len() != 1 {
                return Err(LendingError::MalformedConfigValue);
            }
            config.liquidation_threshold_pct = value[0];
        },
        UpdateConfigMode::UpdateProtocolTakeRatePct => {
            if value.len() != 1 {
                return Err(LendingError::MalformedConfigValue);
            }
            config.protocol_take_rate_pct = value[0];
        },
        UpdateConfigMode::UpdateBorrowRateBps => {
            if value.len() != 2 {
                return Err(LendingError::MalformedConfigValue);
            }
            config.borrow_rate_bps = u16_from_le(value);
        },
        UpdateConfigMode::UpdateFees => {
            if value.len() != 16 {
                return Err(LendingError::MalformedConfigValue);
            }
            let borrow_fee_bps = u64_from_le(&value[0..8]);
            let flash_loan_fee_bps = u64_from_le(&value[8..16]);
            config.fees = ReserveFees { borrow_fee_bps, flash_loan_fee_bps };
        },
        UpdateConfigMode::UpdateDepositLimit => {
            if value.len() != 8 {
                return Err(LendingError::MalformedConfigValue);
            }
            config.deposit_limit = u64_from_le(value);
        },
        UpdateConfigMode::UpdateBorrowLimit => {
            if value.len() != 8 {
                return Err(LendingError::MalformedConfigValue);
            }
            config.borrow_limit = u64_from_le(value);
        },
    }
    Ok(())
}

/// Whether `c2` agrees with `c` on every configuration field outside the
/// one(s) that mode `m` designates.
pub open spec fn unchanged_outside_mode(
    c: ReserveConfig,
    c2: ReserveConfig,
    m: UpdateConfigMode,
) -> bool {
    match m {
        UpdateConfigMode::UpdateStatus => c2 == (ReserveConfig { status: c2.status, ..c }),
        UpdateConfigMode::UpdateLoanToValuePct => c2 == (ReserveConfig {
            loan_to_value_pct: c2.loan_to_value_pct,
            ..c
        }),
        UpdateConfigMode::UpdateLiquidationThresholdPct => c2 == (ReserveConfig {
            liquidation_threshold_pct: c2.liquidation_threshold_pct,
            ..c
        }),
        UpdateConfigMode::UpdateProtocolTakeRatePct => c2 == (ReserveConfig {
            protocol_take_rate_pct: c2.protocol_take_rate_pct,
            ..c
        }),
        UpdateConfigMode::UpdateBorrowRateBps => c2 == (ReserveConfig {
            borrow_rate_bps: c2.borrow_rate_bps,
            ..c
        }),
        UpdateConfigMode::UpdateFees => c2 == (ReserveConfig { fees: c2.fees, ..c }),
        UpdateConfigMode::UpdateDepositLimit => c2 == (ReserveConfig {
            deposit_limit: c2.deposit_limit,
            ..c
        }),
        UpdateConfigMode::UpdateBorrowLimit => c2 == (ReserveConfig {
            borrow_limit: c2.borrow_limit,
            ..c
        }),
    }
}

/// A successful mutation changes only the field(s) its mode designates:
/// every other configuration field is bit-identical before and after.
pub proof fn lemma_mutation_changes_only_mode_fields(
    c: ReserveConfig,
    m: UpdateConfigMode,
    v: Seq<u8>,
)
    ensures
        apply_update_spec(c, m, v) matches Ok(c2) ==> unchanged_outside_mode(c, c2, m),
{
}

} // verus!
