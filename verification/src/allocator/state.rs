//! The vault account and its share math.

use vstd::prelude::*;

use crate::key::AccountKey;

verus! {

/// Number of allocation slots in a vault; slot 0 is the idle reserve.
pub const MAX_VENUES: usize = 8;

/// The guard settings stored on the vault.
#[derive(Clone, Copy, Debug, PartialEq, Eq)]
pub struct GuardConfig {
    pub oracle: AccountKey,
    pub max_staleness_secs: u64,
    pub max_conf_bps: u16,
    pub max_deviation_bps: u16,
    pub max_slippage_bps: u16,
    pub keeper: AccountKey,
}

/// One venue's share of the vault's assets.
#[derive(Clone, Copy, Debug)]
pub struct Allocation {
    /// 0 = idle, 1 = meteora, 2 = orca, ...
    pub venue_id: u8,
    /// Raw asset units committed to this venue.
    pub deployed: u64,
    /// Last oracle-valued NAV of this allocation.
    pub last_nav: u64,
}

impl Default for Allocation {
    fn default() -> (a: Allocation)
        ensures
            a.venue_id == 0,
            a.deployed == 0,
            a.last_nav == 0,
    {
        Allocation { venue_id: 0, deployed: 0, last_nav: 0 }
    }
}

/// The vault account.
#[derive(Clone, Copy, Debug)]
pub struct Vault {
    pub authority: AccountKey,
    pub asset_mint: AccountKey,
    pub share_mint: AccountKey,
    pub total_shares: u64,
    /// NAV, refreshed by `sync`.
    pub stored_assets: u64,
    pub deposit_cap: u64,
    pub per_tx_cap: u64,
    pub paused: bool,
    pub guard: GuardConfig,
    pub allocations: [Allocation; MAX_VENUES],
    pub bump: u8,
    pub auth_bump: u8,
}

/// Shares owed for `assets` at the vault's NAV, rounded down; one to one
/// while the vault has no shares or no assets.
pub open spec fn shares_owed(v: Vault, assets: u64) -> int {
    if v.total_shares == 0 || v.stored_assets == 0 {
        assets as int
    } else {
        assets * v.total_shares / v.stored_assets as int
    }
}

/// Assets owed for `shares` at the vault's NAV, rounded down; none while the
/// vault has no shares.
pub open spec fn assets_owed(v: Vault, shares: u64) -> int {
    if v.total_shares == 0 {
        0
    } else {
        shares * v.stored_assets / v.total_shares as int
    }
}

impl Vault {
    /// Account size: discriminator + fields.
    pub const SIZE: usize = 8 + 32 * 3 + 8 * 4 + 1 + (32 + 8 + 2 + 2 + 2 + 32) + (1 + 8 + 8)
        * MAX_VENUES + 1 + 1;

    /// ERC-4626-style: shares minted for `assets` at current NAV. Rounds down
    /// (favors the vault); the first deposit is one to one. `None` where the
    /// share count does not fit in `u64`.
    pub fn shares_for_deposit(&self, assets: u64) -> (r: Option<u64>)
        ensures
            r == if shares_owed(*self, assets) <= u64::MAX {
                Some(shares_owed(*self, assets) as u64)
            } else {
                None
            },
    {
        if self.total_shares == 0 || self.stored_assets == 0 {
            Some(assets)
        } else {
            assert(assets * self.total_shares <= u128::MAX) by (nonlinear_arith)
                requires
                    assets <= u64::MAX,
                    self.total_shares <= u64::MAX,
            ;
            let q: u128 = (assets as u128) * (self.total_shares as u128) / (
            self.stored_assets as u128);
            if q > u64::MAX as u128 {
                None
            } else {
                Some(q as u64)
            }
        }
    }

    /// Assets returned for `shares` at current NAV. Rounds down (favors the
    /// vault). `None` where the amount does not fit in `u64`.
    pub fn assets_for_shares(&self, shares: u64) -> (r: Option<u64>)
        ensures
            r == if assets_owed(*self, shares) <= u64::MAX {
                Some(assets_owed(*self, shares) as u64)
            } else {
                None
            },
    {
        if self.total_shares == 0 {
            Some(0)
        } else {
            assert(shares * self.stored_assets <= u128::MAX) by (nonlinear_arith)
                requires
                    shares <= u64::MAX,
                    self.stored_assets <= u64::MAX,
            ;
            let q: u128 = (shares as u128) * (self.stored_assets as u128) / (
            self.total_shares as u128);
            if q > u64::MAX as u128 {
                None
            } else {
                Some(q as u64)
            }
        }
    }
}

} // verus!
