//! Persisted records of the lending protocol: the reserve with its
//! configuration block and accounting state, and the lending market that
//! owns it.
//!
//! Fixed-point quantities carry an `_sf` suffix ("scaled fraction"): the
//! stored integer is the real value scaled by a fixed power of two. This
//! module never needs the scale itself, only exact comparisons and sums of
//! scaled values.

use vstd::prelude::*;

verus! {

/// One hundred percent expressed in basis points.
pub const FULL_BPS: u16 = 10_000;

/// Accrual period used by the interest formula.
pub const SECONDS_PER_YEAR: u64 = 31_536_000;

/// Largest raw value of a recognized reserve status tag
/// (0 = active, 1 = obsolete, 2 = hidden).
pub const MAX_RESERVE_STATUS: u8 = 2;

/// Token metadata carried by a reserve's configuration.
#[derive(Clone, Copy, Debug, PartialEq, Eq)]
pub struct TokenInfo {
    /// Human-readable token symbol, read-only for this subsystem.
    pub symbol: [u8; 8],
    /// Maximum age, in seconds, of the stored market price before a refresh
    /// without a price override must fail.
    pub max_age_price_secs: u64,
}

/// The reserve's fee schedule, in basis points.
#[derive(Clone, Copy, Debug, PartialEq, Eq)]
pub struct ReserveFees {
    pub borrow_fee_bps: u64,
    pub flash_loan_fee_bps: u64,
}

/// The configuration block of a reserve: the only part of the reserve that a
/// configuration change is allowed to overwrite.
#[derive(Clone, Copy, Debug, PartialEq, Eq)]
pub struct ReserveConfig {
    /// Raw status tag; recognized values are `0..=MAX_RESERVE_STATUS`.
    pub status: u8,
    /// Loan-to-value ratio in percent.
    pub loan_to_value_pct: u8,
    /// Liquidation threshold in percent.
    pub liquidation_threshold_pct: u8,
    /// Protocol's share of accrued interest, in percent.
    pub protocol_take_rate_pct: u8,
    /// Borrow interest rate in basis points per year.
    pub borrow_rate_bps: u16,
    /// Fee schedule.
    pub fees: ReserveFees,
    /// Cap on total deposits; 0 means closed to new deposits.
    pub deposit_limit: u64,
    /// Cap on total borrows; 0 means closed to new borrows.
    pub borrow_limit: u64,
    /// Token metadata.
    pub token_info: TokenInfo,
}

/// Liquidity accounting of a reserve.
#[derive(Clone, Copy, Debug, PartialEq, Eq)]
pub struct ReserveLiquidity {
    /// Uncommitted liquidity currently held by the reserve.
    pub available_amount: u64,
    /// Outstanding borrow principal plus accrued interest, fixed-point.
    pub borrowed_amount_sf: u128,
    /// Referral fees accrued but not yet paid out, fixed-point.
    pub accumulated_referral_fees_sf: u128,
    /// Last market price observed for the reserve's token, fixed-point.
    pub market_price_sf: u128,
    /// Timestamp at which `market_price_sf` was written.
    pub market_price_last_updated: u64,
}

/// Collateral accounting of a reserve.
#[derive(Clone, Copy, Debug, PartialEq, Eq)]
pub struct ReserveCollateral {
    /// Total collateral-share units issued against the reserve.
    pub mint_total_supply: u64,
}

/// A per-asset reserve: accounting state plus its risk configuration.
#[derive(Clone, Copy, Debug, PartialEq, Eq)]
pub struct Reserve {
    /// Timestamp of the last completed accounting refresh.
    pub last_update_timestamp: u64,
    pub liquidity: ReserveLiquidity,
    pub collateral: ReserveCollateral,
    pub config: ReserveConfig,
}

/// A lending market: the shared policy record that a reserve belongs to.
/// Read-only for this subsystem.
#[derive(Clone, Copy, Debug, PartialEq, Eq)]
pub struct LendingMarket {
    /// Authorization principal; callers are assumed to have already proven
    /// that the invoking signer is this owner.
    pub owner: [u8; 32],
    /// Share of accrued interest diverted to referral fees, in basis points.
    pub referral_fee_bps: u16,
    /// Threshold below which a reserve's liquidity and collateral supply are
    /// still treated as "untouched" by the validation bypass.
    pub min_initial_deposit_amount: u64,
}

impl ReserveLiquidity {
    /// Total outstanding borrow, derived from the liquidity state.
    pub open spec fn spec_total_borrow(self) -> u128 {
        self.borrowed_amount_sf
    }

    /// Total outstanding borrow (principal plus accrued interest),
    /// fixed-point. Recomputed on read; only trustworthy right after a
    /// refresh.
    pub fn total_borrow(&self) -> (r: u128)
        ensures
            r == self.spec_total_borrow(),
    {
        self.borrowed_amount_sf
    }
}

} // verus!
