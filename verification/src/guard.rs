//! The config-change guard: the one entry point through which a market
//! owner changes a reserve's configuration.
//!
//! The guard runs a fixed linear sequence — decode the mode tag, refresh
//! the reserve's accounting, apply the mutation, then either fully validate
//! the resulting configuration or check the narrow lockdown bypass — and
//! commits the whole transition or none of it.
//!
//! Authorization is a precondition of the surrounding system, not of this
//! core: callers are assumed to have already proven that the invoking
//! principal is the owner of the market the reserve belongs to.

use vstd::prelude::*;

use crate::modes::{mode_from_u64, mode_from_u64_spec};
use crate::mutator::{apply_update_spec, update_reserve_config};
use crate::refresh::{refresh_reserve, refresh_spec};
use crate::state::{LendingMarket, Reserve};
use crate::validation::{config_valid, validate_reserve_config};
use crate::LendingError;

verus! {

/// Whether the reserve has ever seen meaningful economic activity: more
/// available liquidity than the market's minimum initial deposit, any
/// outstanding borrow at all, or more issued collateral shares than that
/// same minimum.
pub open spec fn reserve_is_used(r: Reserve, market: LendingMarket) -> bool {
    ||| r.liquidity.available_amount > market.min_initial_deposit_amount
    ||| r.liquidity.spec_total_borrow() > 0
    ||| r.collateral.mint_total_supply > market.min_initial_deposit_amount
}

/// The bypass predicate, judged against the refreshed, post-mutation state:
/// the reserve is economically inert and the new configuration closes it to
/// both deposits and borrows.
pub open spec fn bypass_allowed(r: Reserve, market: LendingMarket) -> bool {
    &&& !reserve_is_used(r, market)
    &&& r.config.deposit_limit == 0
    &&& r.config.borrow_limit == 0
}

/// Evaluates the bypass predicate on the reserve's current state.
pub fn check_bypass(reserve: &Reserve, market: &LendingMarket) -> (b: bool)
    ensures
        b == bypass_allowed(*reserve, *market),
{
    let used = reserve.liquidity.available_amount > market.min_initial_deposit_amount
        || reserve.liquidity.total_borrow() > 0
        || reserve.collateral.mint_total_supply > market.min_initial_deposit_amount;
    let blocks_deposits = reserve.config.deposit_limit == 0;
    let blocks_borrows = reserve.config.borrow_limit == 0;
    !used && blocks_deposits && blocks_borrows
}

/// The reserve state staged by the common prefix of every change request —
/// mode decode, accounting refresh, configuration mutation — before either
/// safety path has judged it; or the first error along that prefix.
pub open spec fn staged_reserve_spec(
    r: Reserve,
    market: LendingMarket,
    t: u64,
    price: Option<u128>,
    mode: u64,
    v: Seq<u8>,
) -> Result<Reserve, LendingError> {
    match mode_from_u64_spec(mode) {
        None => Err(LendingError::InvalidMode),
        Some(m) => match refresh_spec(r, t, price, market.referral_fee_bps) {
            Err(e) => Err(e),
            Ok(r1) => match apply_update_spec(r1.config, m, v) {
                Err(e) => Err(e),
                Ok(c2) => Ok(Reserve { config: c2, ..r1 }),
            },
        },
    }
}

/// The outcome of a whole change request: the committed reserve state, or
/// the error that rejected the request.
pub open spec fn process_spec(
    r: Reserve,
    market: LendingMarket,
    t: u64,
    price: Option<u128>,
    mode: u64,
    v: Seq<u8>,
    skip_validation: bool,
) -> Result<Reserve, LendingError> {
    match staged_reserve_spec(r, market, t, price, mode, v) {
        Err(e) => Err(e),
        Ok(r2) => if skip_validation {
            if bypass_allowed(r2, market) {
                Ok(r2)
            } else {
                Err(LendingError::InvalidConfig)
            }
        } else {
            if config_valid(r2.config, market) {
                Ok(r2)
            } else {
                Err(LendingError::InvalidConfig)
            }
        },
    }
}

/// Applies one configuration change request to a reserve.
///
/// The sequence is fixed: decode the mode tag, refresh the reserve's
/// accounting as of `current_time`, apply the mutation, then judge the
/// resulting state — full validation when `skip_validation` is false, the
/// inert-lockdown bypass when it is true. The transition is atomic: on
/// success the reserve holds exactly the refreshed, mutated state, and on
/// any failure it is bit-for-bit what it was before the call.
pub fn process(
    reserve: &mut Reserve,
    market: &LendingMarket,
    current_time: u64,
    price: Option<u128>,
    mode: u64,
    value: &[u8],
    skip_validation: bool,
) -> (r: Result<(), LendingError>)
    ensures
        match process_spec(
            *old(reserve),
            *market,
            current_time,
            price,
            mode,
            value@,
            skip_validation,
        ) {
            Ok(r2) => r == Ok::<(), LendingError>(()) && *final(reserve) == r2,
            Err(e) => r == Err::<(), LendingError>(e) && *final(reserve) == *old(reserve),
        },
{
    let m = match mode_from_u64(mode) {
        Some(m) => m,
        None => {
            return Err(LendingError::InvalidMode);
        },
    };
    let mut staged: Reserve = *reserve;
    match refresh_reserve(&mut staged, current_time, price, market.referral_fee_bps) {
        Ok(()) => (),
        Err(e) => {
            return Err(e);
        },
    }
    match update_reserve_config(&mut staged.config, m, value) {
        Ok(()) => (),
        Err(e) => {
            return Err(e);
        },
    }
    if skip_validation {
        if !check_bypass(&staged, market) {
            return Err(LendingError::InvalidConfig);
        }
    } else {
        match validate_reserve_config(&staged.config, market) {
            Ok(()) => (),
            Err(e) => {
                return Err(e);
            },
        }
    }
    *reserve = staged;
    Ok(())
}

/// An unrecognized mode tag rejects the request with `InvalidMode` before
/// any state is touched, whatever the payload and whichever safety path was
/// requested.
pub proof fn lemma_unrecognized_mode_rejected(
    r: Reserve,
    market: LendingMarket,
    t: u64,
    price: Option<u128>,
    mode: u64,
    v: Seq<u8>,
    skip_validation: bool,
)
    requires
        mode_from_u64_spec(mode) is None,
    ensures
        process_spec(r, market, t, price, mode, v, skip_validation) == Err::<
            Reserve,
            LendingError,
        >(LendingError::InvalidMode),
{
}

/// The full-validation path always judges the staged configuration: a
/// request that does not ask for the bypass commits only a configuration
/// that passes full validation, and is rejected with `InvalidConfig`
/// whenever validation flags the staged configuration — even on a reserve
/// the bypass predicate would have approved.
pub proof fn lemma_full_validation_always_gates(
    r: Reserve,
    market: LendingMarket,
    t: u64,
    price: Option<u128>,
    mode: u64,
    v: Seq<u8>,
)
    ensures
        process_spec(r, market, t, price, mode, v, false) matches Ok(r2) ==> config_valid(
            r2.config,
            market,
        ),
        staged_reserve_spec(r, market, t, price, mode, v) matches Ok(r2) && !config_valid(
            r2.config,
            market,
        ) ==> process_spec(r, market, t, price, mode, v, false) == Err::<
            Reserve,
            LendingError,
        >(LendingError::InvalidConfig),
{
}

/// The bypass is a strict conjunction: a request that skips validation
/// commits only when, on the refreshed post-mutation state, the reserve is
/// unused and the new configuration closes both deposits and borrows.
pub proof fn lemma_bypass_only_for_inert_lockdown(
    r: Reserve,
    market: LendingMarket,
    t: u64,
    price: Option<u128>,
    mode: u64,
    v: Seq<u8>,
)
    ensures
        process_spec(r, market, t, price, mode, v, true) matches Ok(r2) ==> !reserve_is_used(
            r2,
            market,
        ) && r2.config.deposit_limit == 0 && r2.config.borrow_limit == 0,
{
}

} // verus!
