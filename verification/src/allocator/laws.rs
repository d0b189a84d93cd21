//! Properties of the vault's instructions taken together.

use vstd::prelude::*;

use crate::allocator::errors::VaultError;
use crate::allocator::guards::{
    caps_verdict, fair_verdict, floor_value, pool_in_band, price_verdict, OraclePrice,
};
use crate::allocator::instructions::rebalance::nav_of;
use crate::allocator::instructions::deposit::{deposit_verdict, deposited};
use crate::allocator::instructions::initialize::{is_fresh_vault, InitializeParams, DEAD_SHARES};
use crate::allocator::instructions::rebalance::{swap_verdict, SwapFeeds};
use crate::allocator::instructions::withdraw::{
    lemma_redeem_within_nav, withdraw_verdict, withdrawn,
};
use crate::allocator::state::{GuardConfig, Vault, MAX_VENUES};
use crate::key::AccountKey;
use crate::math::lemma_quotient_bounds;

verus! {

/// No free value: a deposit of `assets` followed at once by a withdrawal of
/// the shares it minted returns at most `assets`, so the vault's NAV never
/// shrinks by the round trip. This fails for a vault holding assets but no
/// shares, where a deposit is priced one to one; a vault made by
/// `initialize` always holds its dead shares.
pub proof fn lemma_deposit_then_withdraw_no_profit(
    pre: Vault,
    post: Vault,
    assets: u64,
    vault_balance: u64,
)
    requires
        deposit_verdict(pre, assets) is Ok,
        deposited(pre, post, assets, deposit_verdict(pre, assets)->Ok_0),
        !(pre.total_shares == 0 && pre.stored_assets > 0),
    ensures
        withdraw_verdict(post, deposit_verdict(pre, assets)->Ok_0, vault_balance) matches Ok(out)
            ==> out <= assets,
{
    let s = deposit_verdict(pre, assets)->Ok_0 as int;
    let a = assets as int;
    let ts = pre.total_shares as int;
    let sa = pre.stored_assets as int;
    assert(post.total_shares == ts + s);
    assert(post.stored_assets == sa + a);
    if ts == 0 || sa == 0 {
        assert(s == a);
        assert(sa <= ts);
        let out = s * (sa + a) / (ts + s);
        assert(0 <= out <= a) by (nonlinear_arith)
            requires
                out == s * (sa + a) / (ts + s),
                s == a,
                a > 0,
                0 <= sa <= ts,
        ;
    } else {
        assert(s == a * ts / sa);
        let out = s * (sa + a) / (ts + s);
        assert(0 <= out <= a) by (nonlinear_arith)
            requires
                out == s * (sa + a) / (ts + s),
                s == a * ts / sa,
                a >= 0,
                ts > 0,
                sa > 0,
        ;
    }
}

/// Conservation: across a deposit of `assets` minting `minted` shares and a
/// withdrawal of `burned` shares paying out `paid`, the NAV and the supply
/// change by exactly the net of what came in and went out, the venue slots
/// are untouched, and the idle reserve moves by the same net amount.
pub proof fn lemma_conservation(
    pre: Vault,
    mid: Vault,
    post: Vault,
    assets: u64,
    burned: u64,
    vault_balance: u64,
)
    requires
        deposit_verdict(pre, assets) is Ok,
        deposited(pre, mid, assets, deposit_verdict(pre, assets)->Ok_0),
        withdraw_verdict(mid, burned, vault_balance) is Ok,
        withdrawn(mid, post, burned, withdraw_verdict(mid, burned, vault_balance)->Ok_0),
    ensures
        ({
            let minted = deposit_verdict(pre, assets)->Ok_0;
            let paid = withdraw_verdict(mid, burned, vault_balance)->Ok_0;
            &&& post.stored_assets == pre.stored_assets + assets - paid
            &&& post.total_shares == pre.total_shares + minted - burned
            &&& forall|i: int| 1 <= i < MAX_VENUES ==> #[trigger] post.allocations[i] == pre.allocations[i]
            &&& pre.allocations[0].deployed + assets >= paid ==> post.allocations[0].deployed
                == pre.allocations[0].deployed + assets - paid
        }),
{
    lemma_redeem_within_nav(mid, burned);
    assert(mid.allocations[0] == mid.allocations@[0]);
    assert(pre.allocations[0] == pre.allocations@[0]);
    assert forall|i: int| 1 <= i < MAX_VENUES implies #[trigger] post.allocations[i]
        == pre.allocations[i] by {
        assert(post.allocations[i] == post.allocations@[i]);
        assert(mid.allocations[i] == mid.allocations@[i]);
        assert(pre.allocations[i] == pre.allocations@[i]);
    }
    assert(post.allocations[0] == post.allocations@[0]);
}

/// A freshly initialized vault holds shares (its dead shares), and its first
/// deposit mints shares one to one; the supply is then the dead shares plus
/// those.
pub proof fn lemma_first_deposit_one_to_one(
    pre: Vault,
    post: Vault,
    authority: AccountKey,
    asset_mint: AccountKey,
    share_mint: AccountKey,
    params: InitializeParams,
    bump: u8,
    auth_bump: u8,
    assets: u64,
)
    requires
        is_fresh_vault(pre, authority, asset_mint, share_mint, params, bump, auth_bump),
        deposit_verdict(pre, assets) is Ok,
        deposited(pre, post, assets, deposit_verdict(pre, assets)->Ok_0),
    ensures
        pre.total_shares > 0,
        deposit_verdict(pre, assets) == Ok::<u64, VaultError>(assets),
        post.total_shares == DEAD_SHARES + assets,
        post.stored_assets == DEAD_SHARES + assets,
{
    let a = assets as int;
    assert(a * 1_000 / 1_000 == a) by (nonlinear_arith);
}

/// A paused vault moves no value: deposits, withdrawals and rebalance swaps
/// are all refused with `Paused`.
pub proof fn lemma_paused_vault_moves_nothing(
    v: Vault,
    assets: u64,
    shares: u64,
    vault_balance: u64,
    cranker: AccountKey,
    feeds: SwapFeeds,
    pool_price: u64,
    now: i64,
    amount_in: u64,
    min_out: u64,
)
    requires
        v.paused,
    ensures
        deposit_verdict(v, assets) == Err::<u64, VaultError>(VaultError::Paused),
        withdraw_verdict(v, shares, vault_balance) == Err::<u64, VaultError>(VaultError::Paused),
        swap_verdict(v, cranker, feeds, pool_price, now, amount_in, min_out) == Err::<
            (),
            VaultError,
        >(VaultError::Paused),
{
}

/// The oracle check: a price more than `max_staleness_secs` old at `now` is
/// stale; otherwise it passes exactly when its confidence interval is at most
/// `max_conf_bps` basis points of the price, rounding down:
/// `conf * 10_000 < (max_conf_bps + 1) * price` (a zero price counting as 1).
/// So a 5% interval fails a 1% limit.
pub proof fn lemma_oracle_check(p: OraclePrice, cfg: GuardConfig, now: i64)
    ensures
        now - p.publish_time > cfg.max_staleness_secs ==> price_verdict(p, cfg, now) == Err::<
            u64,
            VaultError,
        >(VaultError::StaleOracle),
        now - p.publish_time <= cfg.max_staleness_secs ==> price_verdict(p, cfg, now) == if p.conf
            * 10_000 < (cfg.max_conf_bps + 1) * (if p.price == 0 {
            1
        } else {
            p.price as int
        }) {
            Ok::<u64, VaultError>(p.price)
        } else {
            Err::<u64, VaultError>(VaultError::OracleUncertain)
        },
{
    let d: int = if p.price == 0 {
        1
    } else {
        p.price as int
    };
    lemma_quotient_bounds(p.conf * 10_000, d, cfg.max_conf_bps as int);
}

/// The pool band: a pool price passes against an oracle price `o` (a zero
/// price counting as 1) exactly when `|pool - o| * 10_000 < (band + 1) * o`,
/// i.e. when it deviates by at most `band` basis points, rounding down.
pub proof fn lemma_pool_band(pool_price: u64, oracle_price: u64, max_deviation_bps: u16)
    ensures
        ({
            let o: int = if oracle_price == 0 {
                1
            } else {
                oracle_price as int
            };
            let gap: int = if pool_price >= o {
                pool_price - o
            } else {
                o - pool_price
            };
            pool_in_band(pool_price, oracle_price, max_deviation_bps) <==> gap * 10_000 < (
            max_deviation_bps + 1) * o
        }),
{
    let o: int = if oracle_price == 0 {
        1
    } else {
        oracle_price as int
    };
    let gap: int = if pool_price >= o {
        pool_price - o
    } else {
        o - pool_price
    };
    lemma_quotient_bounds(gap * 10_000, o, max_deviation_bps as int);
}

/// The fair output of a swap is the input's value in the output token,
/// rounded down: it is `fair` exactly when
/// `fair * p_out <= amount_in * p_in < (fair + 1) * p_out` (a zero `p_out`
/// counting as 1), and it is refused as an overflow exactly when that value
/// is 2^64 or more.
pub proof fn lemma_fair_output(amount_in: u64, p_in: u64, p_out: u64, fair: u64)
    ensures
        ({
            let d: int = if p_out == 0 {
                1
            } else {
                p_out as int
            };
            &&& fair_verdict(amount_in, p_in, p_out) == Ok::<u64, VaultError>(fair) <==> (fair * d
                <= amount_in * p_in && amount_in * p_in < (fair + 1) * d)
            &&& fair_verdict(amount_in, p_in, p_out) is Err <==> amount_in * p_in
                >= 0x1_0000_0000_0000_0000 * d
            &&& fair_verdict(amount_in, p_in, p_out) is Err ==> fair_verdict(
                amount_in,
                p_in,
                p_out,
            ) == Err::<u64, VaultError>(VaultError::MathOverflow)
        }),
{
    let d: int = if p_out == 0 {
        1
    } else {
        p_out as int
    };
    let x = amount_in * p_in;
    assert(x >= 0) by (nonlinear_arith)
        requires
            x == amount_in * p_in,
    ;
    lemma_quotient_bounds(x, d, fair as int);
    lemma_quotient_bounds(x, d, u64::MAX as int);
}

/// The swap floor keeps `10_000 - max_slippage_bps` basis points of the fair
/// output, rounding down: it is `f` exactly when
/// `f * 10_000 <= fair * (10_000 - bps) < (f + 1) * 10_000`.
pub proof fn lemma_swap_floor(fair: u64, max_slippage_bps: u16, f: int)
    requires
        max_slippage_bps <= 10_000,
    ensures
        floor_value(fair, max_slippage_bps) == f <==> (f * 10_000 <= fair * (10_000
            - max_slippage_bps) && fair * (10_000 - max_slippage_bps) < (f + 1) * 10_000),
{
    let x = fair * (10_000 - max_slippage_bps);
    assert(x >= 0) by (nonlinear_arith)
        requires
            x == fair * (10_000 - max_slippage_bps),
            max_slippage_bps <= 10_000,
    ;
    lemma_quotient_bounds(x, 10_000, f);
}

/// A deposit succeeds exactly when the vault is unpaused, the amount is
/// non-zero, within the per-transaction cap and keeps the NAV within the
/// deposit cap, and the shares it mints are the NAV-proportional amount
/// rounded down (`shares * NAV <= assets * supply < (shares + 1) * NAV`, or
/// one to one while the vault has no shares or no assets), non-zero, and fit
/// with the supply and the idle reserve.
pub proof fn lemma_deposit_accepts_exactly(v: Vault, assets: u64, shares: u64)
    ensures
        deposit_verdict(v, assets) == Ok::<u64, VaultError>(shares) <==> {
            &&& !v.paused
            &&& 0 < assets <= v.per_tx_cap
            &&& v.stored_assets + assets <= v.deposit_cap
            &&& if v.total_shares == 0 || v.stored_assets == 0 {
                shares == assets
            } else {
                &&& shares * v.stored_assets <= assets * v.total_shares
                &&& assets * v.total_shares < (shares + 1) * v.stored_assets
            }
            &&& shares > 0
            &&& v.total_shares + shares <= u64::MAX
            &&& v.allocations[0].deployed + assets <= u64::MAX
        },
{
    if v.total_shares != 0 && v.stored_assets != 0 {
        let x = assets * v.total_shares;
        assert(x >= 0) by (nonlinear_arith)
            requires
                x == assets * v.total_shares,
        ;
        lemma_quotient_bounds(x, v.stored_assets as int, shares as int);
    }
}

/// A withdrawal succeeds exactly when the vault is unpaused, the shares are
/// non-zero and within the supply, and it pays the NAV-proportional amount
/// rounded down (`assets * supply <= shares * NAV < (assets + 1) * supply`),
/// which must be non-zero, within the per-transaction cap and covered by the
/// vault's token balance.
pub proof fn lemma_withdraw_pays_exactly(v: Vault, shares: u64, vault_balance: u64, assets: u64)
    ensures
        withdraw_verdict(v, shares, vault_balance) == Ok::<u64, VaultError>(assets) <==> {
            &&& !v.paused
            &&& 0 < shares <= v.total_shares
            &&& assets * v.total_shares <= shares * v.stored_assets
            &&& shares * v.stored_assets < (assets + 1) * v.total_shares
            &&& 0 < assets <= v.per_tx_cap
            &&& assets <= vault_balance
        },
{
    if v.total_shares != 0 {
        let x = shares * v.stored_assets;
        assert(x >= 0) by (nonlinear_arith)
            requires
                x == shares * v.stored_assets,
        ;
        lemma_quotient_bounds(x, v.total_shares as int, assets as int);
    }
}

/// The NAV `sync` stores is the sum over the eight slots of the idle
/// reserve's deployed amount (venue 0) and each venue's last oracle-valued
/// NAV.
pub proof fn lemma_nav_sums_slots(v: Vault)
    ensures
        ({
            let a = v.allocations;
            nav_of(a@) == (if a[0].venue_id == 0 {
                a[0].deployed as int
            } else {
                a[0].last_nav as int
            }) + (if a[1].venue_id == 0 {
                a[1].deployed as int
            } else {
                a[1].last_nav as int
            }) + (if a[2].venue_id == 0 {
                a[2].deployed as int
            } else {
                a[2].last_nav as int
            }) + (if a[3].venue_id == 0 {
                a[3].deployed as int
            } else {
                a[3].last_nav as int
            }) + (if a[4].venue_id == 0 {
                a[4].deployed as int
            } else {
                a[4].last_nav as int
            }) + (if a[5].venue_id == 0 {
                a[5].deployed as int
            } else {
                a[5].last_nav as int
            }) + (if a[6].venue_id == 0 {
                a[6].deployed as int
            } else {
                a[6].last_nav as int
            }) + (if a[7].venue_id == 0 {
                a[7].deployed as int
            } else {
                a[7].last_nav as int
            })
        }),
{
    let s = v.allocations@;
    assert(s.len() == MAX_VENUES);
    assert(s.drop_last().drop_last().drop_last().drop_last().drop_last().drop_last().drop_last()
        .drop_last() =~= Seq::<crate::allocator::state::Allocation>::empty());
    reveal_with_fuel(nav_of, 9);
    assert(v.allocations[0] == s[0]);
    assert(v.allocations[1] == s[1]);
    assert(v.allocations[2] == s[2]);
    assert(v.allocations[3] == s[3]);
    assert(v.allocations[4] == s[4]);
    assert(v.allocations[5] == s[5]);
    assert(v.allocations[6] == s[6]);
    assert(v.allocations[7] == s[7]);
}

/// The vault's caps pass exactly when the vault is unpaused, the amount is
/// non-zero and within the per-transaction cap, and, for a deposit, the NAV
/// after it stays within the deposit cap.
pub proof fn lemma_caps_pass_exactly(
    paused: bool,
    amount: u64,
    per_tx_cap: u64,
    stored_assets: u64,
    deposit_cap: u64,
    is_deposit: bool,
)
    ensures
        caps_verdict(paused, amount, per_tx_cap, stored_assets, deposit_cap, is_deposit) is Ok
            <==> (!paused && 0 < amount <= per_tx_cap && (is_deposit ==> stored_assets + amount
            <= deposit_cap)),
{
}

} // verus!
