//! Full semantic validation of a resulting configuration against the owning
//! market's global constraints: numeric ranges, cross-field consistency,
//! and fee-schedule sanity.

use vstd::prelude::*;

use crate::state::{LendingMarket, ReserveConfig, FULL_BPS, MAX_RESERVE_STATUS};
use crate::LendingError;

verus! {

/// Whether a configuration satisfies every market-wide constraint:
/// a recognized status tag, percentages within range, a loan-to-value ratio
/// no higher than the liquidation threshold, fees capped at one hundred
/// percent, and a deposit limit that is either closed or at least the
/// market's minimum initial deposit.
pub open spec fn config_valid(c: ReserveConfig, market: LendingMarket) -> bool {
    &&& c.status <= MAX_RESERVE_STATUS
    &&& c.liquidation_threshold_pct <= 100
    &&& c.loan_to_value_pct <= c.liquidation_threshold_pct
    &&& c.protocol_take_rate_pct <= 100
    &&& c.fees.borrow_fee_bps <= FULL_BPS as u64
    &&& c.fees.flash_loan_fee_bps <= FULL_BPS as u64
    &&& (c.deposit_limit == 0 || c.deposit_limit >= market.min_initial_deposit_amount)
}

/// Runs full semantic validation of a configuration against the owning
/// market: succeeds exactly when every constraint holds, and otherwise
/// rejects the configuration as invalid.
pub fn validate_reserve_config(config: &ReserveConfig, market: &LendingMarket) -> (r: Result<
    (),
    LendingError,
>)
    ensures
        r == (if config_valid(*config, *market) {
            Ok::<(), LendingError>(())
        } else {
            Err::<(), LendingError>(LendingError::InvalidConfig)
        }),
{
    if config.status > MAX_RESERVE_STATUS {
        return Err(LendingError::InvalidConfig);
    }
    if config.liquidation_threshold_pct > 100 {
        return Err(LendingError::InvalidConfig);
    }
    if config.loan_to_value_pct > config.liquidation_threshold_pct {
        return Err(LendingError::InvalidConfig);
    }
    if config.protocol_take_rate_pct > 100 {
        return Err(LendingError::InvalidConfig);
    }
    if config.fees.borrow_fee_bps > FULL_BPS as u64 {
        return Err(LendingError::InvalidConfig);
    }
    if config.fees.flash_loan_fee_bps > FULL_BPS as u64 {
        return Err(LendingError::InvalidConfig);
    }
    if config.deposit_limit != 0 && config.deposit_limit < market.min_initial_deposit_amount {
        return Err(LendingError::InvalidConfig);
    }
    Ok(())
}

} // verus!
