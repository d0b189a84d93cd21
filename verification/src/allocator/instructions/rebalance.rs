//! `sync` (recompute the NAV) and `rebalance_swap` (the keeper's guarded
//! swap), both keeper-gated.

use vstd::prelude::*;

use crate::allocator::errors::VaultError;
use crate::allocator::guards::{
    assert_keeper, assert_pool_price_sane, feed_read, feed_trusted, floor_value, min_out_floor,
    oracle_quote, pool_in_band, pool_verdict, quote_verdict, FeedLayout, OracleAccount,
};
use crate::allocator::state::{Allocation, Vault, MAX_VENUES};
use crate::key::AccountKey;

verus! {

/// Event: the NAV was recomputed.
#[derive(Clone, Copy, Debug)]
pub struct Synced {
    pub vault: AccountKey,
    pub nav: u64,
}

/// Event: a rebalance swap settled.
#[derive(Clone, Copy, Debug)]
pub struct Rebalanced {
    pub vault: AccountKey,
    pub amount_in: u64,
    pub received: u64,
}

/// What one allocation slot adds to the NAV: the idle reserve (venue 0) at
/// its deployed amount, a venue at its last oracle-valued NAV.
pub open spec fn slot_value(a: Allocation) -> int {
    if a.venue_id == 0 {
        a.deployed as int
    } else {
        a.last_nav as int
    }
}

/// The NAV of a run of allocation slots: the sum of their values.
pub open spec fn nav_of(slots: Seq<Allocation>) -> int
    decreases slots.len(),
{
    if slots.len() == 0 {
        0
    } else {
        nav_of(slots.drop_last()) + slot_value(slots.last())
    }
}

/// The NAV of a longer prefix is at least that of a shorter one.
proof fn lemma_nav_prefix_grows(slots: Seq<Allocation>, i: int, j: int)
    requires
        0 <= i <= j <= slots.len(),
    ensures
        nav_of(slots.take(i)) <= nav_of(slots.take(j)),
    decreases j - i,
{
    if i < j {
        lemma_nav_prefix_grows(slots, i, j - 1);
        assert(slots.take(j).drop_last() =~= slots.take(j - 1));
    }
}

/// Recomputes the NAV from idle plus venue allocations (never the raw token
/// balance, so a direct donation cannot move it) and stores it. Only the
/// keeper may. On an error the vault is left as it was.
pub fn sync(vault: &mut Vault, vault_key: AccountKey, cranker: AccountKey) -> (r: Result<
    Synced,
    VaultError,
>)
    ensures
        cranker != old(vault).guard.keeper ==> r == Err::<Synced, VaultError>(
            VaultError::Unauthorized,
        ) && *final(vault) == *old(vault),
        cranker == old(vault).guard.keeper && nav_of(old(vault).allocations@) > u64::MAX ==> r
            == Err::<Synced, VaultError>(VaultError::MathOverflow) && *final(vault) == *old(vault),
        cranker == old(vault).guard.keeper && nav_of(old(vault).allocations@) <= u64::MAX ==> r
            == Ok::<Synced, VaultError>(
            Synced { vault: vault_key, nav: nav_of(old(vault).allocations@) as u64 },
        ) && *final(vault) == (Vault {
            stored_assets: nav_of(old(vault).allocations@) as u64,
            ..*old(vault)
        }),
{
    match assert_keeper(&cranker, &vault.guard) {
        Ok(_) => {},
        Err(e) => {
            return Err(e);
        },
    }
    let ghost slots = vault.allocations@;
    let mut nav: u64 = 0;
    let mut i: usize = 0;
    while i < MAX_VENUES
        invariant
            0 <= i <= MAX_VENUES,
            slots == vault.allocations@,
            cranker == vault.guard.keeper,
            slots.len() == MAX_VENUES,
            nav == nav_of(slots.take(i as int)),
        decreases MAX_VENUES - i,
    {
        let alloc = vault.allocations[i];
        let v = if alloc.venue_id == 0 {
            alloc.deployed
        } else {
            alloc.last_nav
        };
        assert(slots.take(i + 1).drop_last() =~= slots.take(i as int));
        nav = match nav.checked_add(v) {
            Some(x) => x,
            None => {
                proof {
                    lemma_nav_prefix_grows(slots, i + 1, MAX_VENUES as int);
                    assert(slots.take(MAX_VENUES as int) =~= slots);
                }
                return Err(VaultError::MathOverflow);
            },
        };
        i = i + 1;
    }
    assert(slots.take(MAX_VENUES as int) =~= slots);
    vault.stored_assets = nav;
    Ok(Synced { vault: vault_key, nav })
}

/// The feed accounts a rebalance swap is guarded by, all read in one layout:
/// the pool pair's feed (to bound the pool's spot price) and the feeds of the
/// input and output tokens (to price the swap).
#[derive(Clone, Copy, Debug)]
pub struct SwapFeeds<'a> {
    pub layout: FeedLayout,
    pub pool: OracleAccount<'a>,
    pub input: OracleAccount<'a>,
    pub output: OracleAccount<'a>,
}

/// What `rebalance_quote` answers: pause, the keeper, a non-zero amount
/// within the per-transaction cap, the pool's spot price inside the band
/// around the pool feed's price (fresh and confident at `now`), then the
/// oracle-fair output from the input and output feeds (fresh and confident).
pub open spec fn quote_checks(
    v: Vault,
    cranker: AccountKey,
    feeds: SwapFeeds,
    pool_price: u64,
    now: i64,
    amount_in: u64,
) -> Result<u64, VaultError> {
    if v.paused {
        Err(VaultError::Paused)
    } else if cranker != v.guard.keeper {
        Err(VaultError::Unauthorized)
    } else if amount_in == 0 {
        Err(VaultError::ZeroAmount)
    } else if amount_in > v.per_tx_cap {
        Err(VaultError::CapExceeded)
    } else {
        match pool_verdict(
            feeds.layout,
            feeds.pool.owner,
            feeds.pool.data@,
            pool_price,
            v.guard,
            now,
        ) {
            Err(e) => Err(e),
            Ok(_) => quote_verdict(
                feeds.layout,
                feeds.input.owner,
                feeds.input.data@,
                feeds.output.owner,
                feeds.output.data@,
                amount_in,
                v.guard,
                now,
            ),
        }
    }
}

/// What `rebalance_swap` answers: the checks of `rebalance_quote`, then the
/// keeper's `min_out` against the floor derived from the fair output.
pub open spec fn swap_verdict(
    v: Vault,
    cranker: AccountKey,
    feeds: SwapFeeds,
    pool_price: u64,
    now: i64,
    amount_in: u64,
    min_out: u64,
) -> Result<(), VaultError> {
    match quote_checks(v, cranker, feeds, pool_price, now, amount_in) {
        Err(e) => Err(e),
        Ok(fair) => if min_out < floor_value(fair, v.guard.max_slippage_bps) {
            Err(VaultError::SlippageTooLoose)
        } else {
            Ok(())
        },
    }
}

/// The checks in front of a rebalance swap, up to the oracle-fair output of
/// `amount_in`, the feeds' data read at `now` and the pool's spot price
/// `pool_price` given in the pool feed's units.
pub fn rebalance_quote(
    vault: &Vault,
    cranker: AccountKey,
    feeds: &SwapFeeds,
    pool_price: u64,
    now: i64,
    amount_in: u64,
) -> (r: Result<u64, VaultError>)
    ensures
        r == quote_checks(*vault, cranker, *feeds, pool_price, now, amount_in),
{
    if vault.paused {
        return Err(VaultError::Paused);
    }
    match assert_keeper(&cranker, &vault.guard) {
        Ok(_) => {},
        Err(e) => {
            return Err(e);
        },
    }
    if amount_in == 0 {
        return Err(VaultError::ZeroAmount);
    }
    if amount_in > vault.per_tx_cap {
        return Err(VaultError::CapExceeded);
    }
    match assert_pool_price_sane(feeds.layout, &feeds.pool, pool_price, &vault.guard, now) {
        Ok(_) => {},
        Err(e) => {
            return Err(e);
        },
    }
    oracle_quote(feeds.layout, &feeds.input, &feeds.output, amount_in, &vault.guard, now)
}

/// The guards in front of a rebalance swap of `amount_in` with the keeper's
/// `min_out`: everything `rebalance_quote` checks, then `min_out` against the
/// oracle-derived floor. The keeper's quote is not trusted: the floor comes
/// from the oracles. The slippage setting must be at most 100% where the
/// floor is computed.
pub fn rebalance_swap(
    vault: &Vault,
    cranker: AccountKey,
    feeds: &SwapFeeds,
    pool_price: u64,
    now: i64,
    amount_in: u64,
    min_out: u64,
) -> (r: Result<(), VaultError>)
    requires
        quote_checks(*vault, cranker, *feeds, pool_price, now, amount_in) is Ok
            ==> vault.guard.max_slippage_bps <= 10_000,
    ensures
        r == swap_verdict(*vault, cranker, *feeds, pool_price, now, amount_in, min_out),
        r is Ok ==> {
            &&& !vault.paused
            &&& cranker == vault.guard.keeper
            &&& 0 < amount_in <= vault.per_tx_cap
            &&& feed_trusted(feeds.layout, feeds.pool.owner, feeds.pool.data@, vault.guard, now)
            &&& pool_in_band(
                pool_price,
                feed_read(feeds.layout, feeds.pool.owner, feeds.pool.data@)->Ok_0.price,
                vault.guard.max_deviation_bps,
            )
            &&& feed_trusted(feeds.layout, feeds.input.owner, feeds.input.data@, vault.guard, now)
            &&& feed_trusted(
                feeds.layout,
                feeds.output.owner,
                feeds.output.data@,
                vault.guard,
                now,
            )
            &&& min_out >= floor_value(
                quote_checks(*vault, cranker, *feeds, pool_price, now, amount_in)->Ok_0,
                vault.guard.max_slippage_bps,
            )
        },
{
    let fair_out = match rebalance_quote(vault, cranker, feeds, pool_price, now, amount_in) {
        Ok(f) => f,
        Err(e) => {
            return Err(e);
        },
    };
    let floor = match min_out_floor(fair_out, &vault.guard) {
        Ok(f) => f,
        Err(e) => {
            return Err(e);
        },
    };
    if min_out < floor {
        return Err(VaultError::SlippageTooLoose);
    }
    Ok(())
}

/// Settles a rebalance swap from the destination balance before and after
/// it: the amount received must be at least `min_out`.
pub fn rebalance_settle(
    vault_key: AccountKey,
    amount_in: u64,
    min_out: u64,
    balance_before: u64,
    balance_after: u64,
) -> (r: Result<Rebalanced, VaultError>)
    ensures
        r == if balance_after < balance_before {
            Err(VaultError::MathOverflow)
        } else if balance_after - balance_before < min_out {
            Err(VaultError::SlippageExceeded)
        } else {
            Ok(
                Rebalanced {
                    vault: vault_key,
                    amount_in,
                    received: (balance_after - balance_before) as u64,
                },
            )
        },
{
    let received = match balance_after.checked_sub(balance_before) {
        Some(x) => x,
        None => {
            return Err(VaultError::MathOverflow);
        },
    };
    if received < min_out {
        return Err(VaultError::SlippageExceeded);
    }
    Ok(Rebalanced { vault: vault_key, amount_in, received })
}

} // verus!
