//! The reserve accounting snapshot: brings a reserve's interest-accrual and
//! liquidity-accounting state up to date as of a given time, so that every
//! later safety decision is judged against current balances.
//!
//! The accrual formula is deliberately simple — linear interest on the
//! outstanding borrow, with a referral share diverted to the market — but
//! its contract is exact, and the refresh is idempotent: run twice at the
//! same timestamp with no intervening mutation, the second run changes
//! nothing.

use vstd::prelude::*;

use crate::state::{Reserve, ReserveLiquidity, FULL_BPS, SECONDS_PER_YEAR};
use crate::LendingError;

verus! {

/// Seconds elapsed since the reserve's last refresh; a clock that moved
/// backwards counts as no elapsed time.
pub open spec fn elapsed_secs(r: Reserve, t: u64) -> int {
    if t >= r.last_update_timestamp {
        t - r.last_update_timestamp
    } else {
        0
    }
}

/// Whether the price data available to a refresh at time `t` is usable:
/// either the caller supplies a price, or the stored price is no older than
/// the configured maximum age.
pub open spec fn price_fresh(r: Reserve, t: u64, price: Option<u128>) -> bool {
    match price {
        Some(_) => true,
        None => t <= r.liquidity.market_price_last_updated
            + r.config.token_info.max_age_price_secs,
    }
}

/// Interest accrued on `borrowed_sf` over `elapsed` seconds at
/// `rate_bps` basis points per year, or `None` when an intermediate
/// product exceeds the fixed-point range.
pub open spec fn accrued_interest_sf(borrowed_sf: u128, rate_bps: u16, elapsed: int) -> Option<
    u128,
> {
    let principal_rate = borrowed_sf * rate_bps;
    let numerator = principal_rate * elapsed;
    if principal_rate > u128::MAX {
        None
    } else if numerator > u128::MAX {
        None
    } else {
        Some((numerator / (FULL_BPS as int * SECONDS_PER_YEAR as int)) as u128)
    }
}

/// The borrow total and accumulated referral fees after accruing interest
/// over `elapsed` seconds, or `None` when the accrual leaves the
/// fixed-point range. Zero elapsed time accrues nothing.
pub open spec fn accrual_spec(
    borrowed_sf: u128,
    accum_fees_sf: u128,
    rate_bps: u16,
    referral_fee_bps: u16,
    elapsed: int,
) -> Option<(u128, u128)> {
    if elapsed == 0 {
        Some((borrowed_sf, accum_fees_sf))
    } else {
        match accrued_interest_sf(borrowed_sf, rate_bps, elapsed) {
            None => None,
            Some(interest) => {
                let fee_product = interest * referral_fee_bps;
                if fee_product > u128::MAX {
                    None
                } else {
                    let referral_fee = fee_product / (FULL_BPS as int);
                    if borrowed_sf + interest > u128::MAX {
                        None
                    } else if accum_fees_sf + referral_fee > u128::MAX {
                        None
                    } else {
                        Some(
                            ((borrowed_sf + interest) as u128, (accum_fees_sf
                                + referral_fee) as u128),
                        )
                    }
                }
            },
        }
    }
}

/// The reserve state a refresh at time `t` produces, or the error when it
/// cannot complete. Only accounting fields change; the configuration block
/// and the collateral supply are untouched, and the available liquidity is
/// carried over unchanged.
pub open spec fn refresh_spec(
    r: Reserve,
    t: u64,
    price: Option<u128>,
    referral_fee_bps: u16,
) -> Result<Reserve, LendingError> {
    if !price_fresh(r, t, price) {
        Err(LendingError::OracleOrStateError)
    } else {
        match accrual_spec(
            r.liquidity.borrowed_amount_sf,
            r.liquidity.accumulated_referral_fees_sf,
            r.config.borrow_rate_bps,
            referral_fee_bps,
            elapsed_secs(r, t),
        ) {
            None => Err(LendingError::OracleOrStateError),
            Some(accrued) => Ok(
                Reserve {
                    last_update_timestamp: t,
                    liquidity: ReserveLiquidity {
                        available_amount: r.liquidity.available_amount,
                        borrowed_amount_sf: accrued.0,
                        accumulated_referral_fees_sf: accrued.1,
                        market_price_sf: match price {
                            Some(p) => p,
                            None => r.liquidity.market_price_sf,
                        },
                        market_price_last_updated: match price {
                            Some(_) => t,
                            None => r.liquidity.market_price_last_updated,
                        },
                    },
                    ..r
                },
            ),
        }
    }
}

/// Recomputes the reserve's accounting state as of `current_time`.
///
/// All-or-nothing: on failure the reserve is bit-for-bit what it was before
/// the call.
pub fn refresh_reserve(
    reserve: &mut Reserve,
    current_time: u64,
    price: Option<u128>,
    referral_fee_bps: u16,
) -> (r: Result<(), LendingError>)
    ensures
        match refresh_spec(*old(reserve), current_time, price, referral_fee_bps) {
            Ok(r1) => r == Ok::<(), LendingError>(()) && *final(reserve) == r1,
            Err(e) => r == Err::<(), LendingError>(e) && *final(reserve) == *old(reserve),
        },
{
    let (new_price_sf, new_price_ts): (u128, u64) = match price {
        Some(p) => (p, current_time),
        None => {
            let newest_usable: u128 = (reserve.liquidity.market_price_last_updated as u128)
                + (reserve.config.token_info.max_age_price_secs as u128);
            if (current_time as u128) > newest_usable {
                return Err(LendingError::OracleOrStateError);
            }
            (reserve.liquidity.market_price_sf, reserve.liquidity.market_price_last_updated)
        },
    };
    let elapsed: u64 = if current_time >= reserve.last_update_timestamp {
        current_time - reserve.last_update_timestamp
    } else {
        0
    };
    let borrowed = reserve.liquidity.borrowed_amount_sf;
    let accum_fees = reserve.liquidity.accumulated_referral_fees_sf;
    let (new_borrowed, new_accum_fees): (u128, u128) = if elapsed == 0 {
        (borrowed, accum_fees)
    } else {
        let principal_rate = match borrowed.checked_mul(reserve.config.borrow_rate_bps as u128) {
            Some(p) => p,
            None => {
                return Err(LendingError::OracleOrStateError);
            },
        };
        let numerator = match principal_rate.checked_mul(elapsed as u128) {
            Some(p) => p,
            None => {
                return Err(LendingError::OracleOrStateError);
            },
        };
        let interest = numerator / ((FULL_BPS as u128) * (SECONDS_PER_YEAR as u128));
        let fee_product = match interest.checked_mul(referral_fee_bps as u128) {
            Some(p) => p,
            None => {
                return Err(LendingError::OracleOrStateError);
            },
        };
        let referral_fee = fee_product / (FULL_BPS as u128);
        let nb = match borrowed.checked_add(interest) {
            Some(p) => p,
            None => {
                return Err(LendingError::OracleOrStateError);
            },
        };
        let na = match accum_fees.checked_add(referral_fee) {
            Some(p) => p,
            None => {
                return Err(LendingError::OracleOrStateError);
            },
        };
        (nb, na)
    };
    reserve.last_update_timestamp = current_time;
    reserve.liquidity.borrowed_amount_sf = new_borrowed;
    reserve.liquidity.accumulated_referral_fees_sf = new_accum_fees;
    reserve.liquidity.market_price_sf = new_price_sf;
    reserve.liquidity.market_price_last_updated = new_price_ts;
    Ok(())
}

/// Refresh is idempotent: a refresh that succeeds at time `t` leaves the
/// reserve in a state on which a second refresh at the same time, with the
/// same price input and fee parameter and no intervening mutation, succeeds
/// and changes nothing.
pub proof fn lemma_refresh_idempotent(r: Reserve, t: u64, price: Option<u128>, referral_fee_bps: u16)
    ensures
        refresh_spec(r, t, price, referral_fee_bps) matches Ok(r1) ==> refresh_spec(
            r1,
            t,
            price,
            referral_fee_bps,
        ) == Ok::<Reserve, LendingError>(r1),
{
}

} // verus!
