//! Reusable anti-exploit guards for a vault: share math with virtual offsets,
//! oracle freshness and confidence, the pool deviation band, the
//! oracle-derived swap floor, caps and pause, and the keeper check.
//!
//! The oracle feed read here is the self-contained little-endian layout
//! `price: u64 | conf: u64 | publish_time: i64` (24 bytes); the caller reads
//! the account data and the clock and hands over the bytes and `now`.

use vstd::prelude::*;

use crate::key::AccountKey;
use crate::math::{
    lemma_quotient_bounds,
    abs_diff_u64, at_least_one, distance, le_u64_at, max_one, older_than, read_u64_le,
    reinterpret_as_i64, wrap_i64,
};

verus! {

/// The guard settings stored with a vault.
#[derive(Clone, Copy, Debug, PartialEq, Eq)]
pub struct GuardConfig {
    /// Price feed account.
    pub oracle: AccountKey,
    /// Reject prices older than this many seconds.
    pub max_staleness_secs: u64,
    /// Reject if (conf / price) exceeds this, in basis points.
    pub max_conf_bps: u16,
    /// Max allowed |pool_spot - oracle| / oracle, in basis points.
    pub max_deviation_bps: u16,
    /// Min-out floor for swaps, in basis points of the oracle-fair output.
    pub max_slippage_bps: u16,
    /// Authorized crank signer.
    pub keeper: AccountKey,
}

/// A price read from a feed.
#[derive(Clone, Copy, Debug)]
pub struct OraclePrice {
    pub price: u64,
    pub conf: u64,
    pub publish_time: i64,
}

/// Why a guard refused.
#[derive(Clone, Copy, Debug, PartialEq, Eq, Structural)]
pub enum GuardError {
    StaleOracle,
    OracleUncertain,
    PriceManipulated,
    SlippageTooLoose,
    SlippageExceeded,
    Paused,
    CapExceeded,
    DepositCapReached,
    Unauthorized,
    ZeroAmount,
    MathOverflow,
}

// ---------------------------------------------------------------------------
// Anti-inflation share math (virtual offset)
// ---------------------------------------------------------------------------

/// Virtual shares added to the supply when pricing shares.
pub const VIRTUAL_SHARES: u128 = 1_000_000;

/// Virtual assets added to the NAV when pricing shares.
pub const VIRTUAL_ASSETS: u128 = 1;

/// Shares owed for `assets` at NAV `stored_assets` and supply `total_shares`,
/// rounded down.
pub open spec fn shares_owed(assets: int, total_shares: int, stored_assets: int) -> int {
    assets * (total_shares + VIRTUAL_SHARES) / (stored_assets + VIRTUAL_ASSETS)
}

/// Assets owed for `shares` at NAV `stored_assets` and supply `total_shares`,
/// rounded down.
pub open spec fn assets_owed(shares: int, total_shares: int, stored_assets: int) -> int {
    shares * (stored_assets + VIRTUAL_ASSETS) / (total_shares + VIRTUAL_SHARES)
}

/// Shares minted for `assets` at current NAV. Rounds down (favors the vault).
/// Defined where the share count fits in `u64`.
pub fn shares_for_deposit(assets: u64, total_shares: u64, stored_assets: u64) -> (shares: u64)
    requires
        shares_owed(assets as int, total_shares as int, stored_assets as int) <= u64::MAX,
    ensures
        shares == shares_owed(assets as int, total_shares as int, stored_assets as int),
{
    let ghost q = shares_owed(assets as int, total_shares as int, stored_assets as int);
    assert(assets * (total_shares + VIRTUAL_SHARES) <= u128::MAX) by (nonlinear_arith)
        requires
            q == assets * (total_shares + VIRTUAL_SHARES) / (stored_assets + VIRTUAL_ASSETS),
            0 <= q <= u64::MAX,
            0 <= stored_assets <= u64::MAX,
            assets >= 0,
            total_shares >= 0,
    ;
    let q: u128 = (assets as u128) * (total_shares as u128 + VIRTUAL_SHARES) / (
    stored_assets as u128 + VIRTUAL_ASSETS);
    q as u64
}

/// Assets returned for `shares` at current NAV. Rounds down (favors the
/// vault). Defined where the amount fits in `u64`.
pub fn assets_for_shares(shares: u64, total_shares: u64, stored_assets: u64) -> (assets: u64)
    requires
        assets_owed(shares as int, total_shares as int, stored_assets as int) <= u64::MAX,
    ensures
        assets == assets_owed(shares as int, total_shares as int, stored_assets as int),
{
    assert(shares * (stored_assets + VIRTUAL_ASSETS) <= u128::MAX) by (nonlinear_arith)
        requires
            shares <= u64::MAX,
            stored_assets <= u64::MAX,
    ;
    let q: u128 = (shares as u128) * (stored_assets as u128 + VIRTUAL_ASSETS) / (
    total_shares as u128 + VIRTUAL_SHARES);
    q as u64
}

// ---------------------------------------------------------------------------
// Guard predicates
// ---------------------------------------------------------------------------

/// The feed is fresh: it is at most `max_staleness_secs` old at `now`.
pub open spec fn is_fresh(publish_time: i64, max_staleness_secs: u64, now: i64) -> bool {
    now - publish_time <= max_staleness_secs
}

/// The confidence interval in basis points of the price (a zero price
/// counts as 1).
pub open spec fn confidence_bps(price: u64, conf: u64) -> int {
    conf * 10_000 / at_least_one(price)
}

/// The confidence interval, in basis points of the price, is within the limit.
pub open spec fn is_confident(price: u64, conf: u64, max_conf_bps: u16) -> bool {
    confidence_bps(price, conf) <= max_conf_bps
}

/// What `check_oracle` answers.
pub open spec fn oracle_verdict(p: OraclePrice, cfg: GuardConfig, now: i64) -> Result<
    u64,
    GuardError,
> {
    if !is_fresh(p.publish_time, cfg.max_staleness_secs, now) {
        Err(GuardError::StaleOracle)
    } else if !is_confident(p.price, p.conf, cfg.max_conf_bps) {
        Err(GuardError::OracleUncertain)
    } else {
        Ok(p.price)
    }
}

/// `|pool - oracle| / oracle` in basis points (a zero oracle price counts
/// as 1).
pub open spec fn deviation(pool_price: u64, oracle_price: u64) -> int {
    distance(pool_price as int, oracle_price as int) * 10_000 / at_least_one(oracle_price)
}

/// The pool price is inside the deviation band around the oracle price.
pub open spec fn in_band(pool_price: u64, oracle_price: u64, max_deviation_bps: u16) -> bool {
    deviation(pool_price, oracle_price) <= max_deviation_bps
}

/// The oracle-fair output of a swap.
pub open spec fn fair_value(amount_in: u64, p_in: u64, p_out: u64) -> int {
    amount_in * p_in / at_least_one(p_out)
}

/// The least acceptable output: `fair` less `max_slippage_bps`, rounded down.
pub open spec fn floor_value(fair: u64, max_slippage_bps: u16) -> int {
    fair * (10_000 - max_slippage_bps) / 10_000
}

/// What `check_caps` answers: the first failing check wins.
pub open spec fn caps_verdict(
    paused: bool,
    amount: u64,
    per_tx_cap: u64,
    stored_assets: u64,
    deposit_cap: u64,
    is_deposit: bool,
) -> Result<(), GuardError> {
    if paused {
        Err(GuardError::Paused)
    } else if amount == 0 {
        Err(GuardError::ZeroAmount)
    } else if amount > per_tx_cap {
        Err(GuardError::CapExceeded)
    } else if is_deposit && stored_assets + amount > u64::MAX {
        Err(GuardError::MathOverflow)
    } else if is_deposit && stored_assets + amount > deposit_cap {
        Err(GuardError::DepositCapReached)
    } else {
        Ok(())
    }
}

/// What the 24-byte feed layout decodes to.
pub open spec fn feed_price(data: Seq<u8>) -> Result<OraclePrice, GuardError> {
    if data.len() < 24 {
        Err(GuardError::StaleOracle)
    } else {
        Ok(
            OraclePrice {
                price: le_u64_at(data, 0) as u64,
                conf: le_u64_at(data, 8) as u64,
                publish_time: wrap_i64(le_u64_at(data, 16) as u64) as i64,
            },
        )
    }
}

/// What `read_oracle` answers for the feed bytes `data`.
pub open spec fn read_oracle_verdict(data: Seq<u8>, cfg: GuardConfig, now: i64) -> Result<
    u64,
    GuardError,
> {
    match feed_price(data) {
        Err(e) => Err(e),
        Ok(p) => oracle_verdict(p, cfg, now),
    }
}

// ---------------------------------------------------------------------------
// Pure guard cores
// ---------------------------------------------------------------------------

/// Guard 1 core: freshness + confidence. Returns the validated price.
pub fn check_oracle(p: OraclePrice, cfg: &GuardConfig, now: i64) -> (r: Result<u64, GuardError>)
    ensures
        r == oracle_verdict(p, *cfg, now),
        r is Ok ==> is_fresh(p.publish_time, cfg.max_staleness_secs, now) && is_confident(
            p.price,
            p.conf,
            cfg.max_conf_bps,
        ),
{
    if older_than(now, p.publish_time, cfg.max_staleness_secs) {
        return Err(GuardError::StaleOracle);
    }
    let price = max_one(p.price);
    assert(p.conf * 10_000 <= u128::MAX) by (nonlinear_arith)
        requires
            p.conf <= u64::MAX,
    ;
    let conf_bps: u128 = (p.conf as u128) * 10_000 / price as u128;
    if conf_bps > cfg.max_conf_bps as u128 {
        return Err(GuardError::OracleUncertain);
    }
    Ok(p.price)
}

/// |pool - oracle| / oracle in basis points.
pub fn deviation_bps(pool_price: u64, oracle_price: u64) -> (d: u128)
    ensures
        d == deviation(pool_price, oracle_price),
{
    let o = max_one(oracle_price) as u128;
    let diff = abs_diff_u64(pool_price, oracle_price);
    assert(diff * 10_000 <= u128::MAX) by (nonlinear_arith)
        requires
            diff <= u64::MAX,
    ;
    (diff as u128) * 10_000 / o
}

/// Guard 2 core: pool spot must be within the oracle deviation band.
pub fn check_pool_sane(pool_price: u64, oracle_price: u64, cfg: &GuardConfig) -> (r: Result<
    (),
    GuardError,
>)
    ensures
        r == if in_band(pool_price, oracle_price, cfg.max_deviation_bps) {
            Ok(())
        } else {
            Err(GuardError::PriceManipulated)
        },
{
    if deviation_bps(pool_price, oracle_price) > cfg.max_deviation_bps as u128 {
        return Err(GuardError::PriceManipulated);
    }
    Ok(())
}

/// Oracle-fair output for `amount_in` given in/out prices. Defined where the
/// output fits in `u64`.
pub fn fair_out(amount_in: u64, p_in: u64, p_out: u64) -> (out: u64)
    requires
        fair_value(amount_in, p_in, p_out) <= u64::MAX,
    ensures
        out == fair_value(amount_in, p_in, p_out),
{
    assert(amount_in * p_in <= u128::MAX) by (nonlinear_arith)
        requires
            amount_in <= u64::MAX,
            p_in <= u64::MAX,
    ;
    let q: u128 = (amount_in as u128) * (p_in as u128) / (max_one(p_out) as u128);
    q as u64
}

/// Guard 3 core: oracle-derived min_out floor.
pub fn min_out_floor_bps(fair: u64, max_slippage_bps: u16) -> (floor: u64)
    requires
        max_slippage_bps <= 10_000,
    ensures
        floor == floor_value(fair, max_slippage_bps),
        floor <= fair,
{
    let keep: u16 = 10_000 - max_slippage_bps;
    assert(fair * keep <= u128::MAX && fair * keep / 10_000 <= fair) by (nonlinear_arith)
        requires
            fair <= u64::MAX,
            keep <= 10_000,
    ;
    let q: u128 = (fair as u128) * (keep as u128) / 10_000;
    q as u64
}

/// Guard 3 core: assert the keeper-supplied min_out clears the oracle floor.
pub fn check_min_out(min_out: u64, fair: u64, cfg: &GuardConfig) -> (r: Result<(), GuardError>)
    requires
        cfg.max_slippage_bps <= 10_000,
    ensures
        r == if min_out >= floor_value(fair, cfg.max_slippage_bps) {
            Ok(())
        } else {
            Err(GuardError::SlippageTooLoose)
        },
{
    if min_out < min_out_floor_bps(fair, cfg.max_slippage_bps) {
        return Err(GuardError::SlippageTooLoose);
    }
    Ok(())
}

/// Guard 4 core: pause + per-tx/deposit caps.
pub fn check_caps(
    paused: bool,
    amount: u64,
    per_tx_cap: u64,
    stored_assets: u64,
    deposit_cap: u64,
    is_deposit: bool,
) -> (r: Result<(), GuardError>)
    ensures
        r == caps_verdict(paused, amount, per_tx_cap, stored_assets, deposit_cap, is_deposit),
        r is Ok ==> !paused && amount > 0 && amount <= per_tx_cap && (is_deposit ==> stored_assets
            + amount <= deposit_cap),
{
    if paused {
        return Err(GuardError::Paused);
    }
    if amount == 0 {
        return Err(GuardError::ZeroAmount);
    }
    if amount > per_tx_cap {
        return Err(GuardError::CapExceeded);
    }
    if is_deposit {
        let after = match stored_assets.checked_add(amount) {
            Some(a) => a,
            None => {
                return Err(GuardError::MathOverflow);
            },
        };
        if after > deposit_cap {
            return Err(GuardError::DepositCapReached);
        }
    }
    Ok(())
}

/// Guard 5 core: permissioned crank.
pub fn check_keeper(signer: &AccountKey, keeper: &AccountKey) -> (r: Result<(), GuardError>)
    ensures
        r == if *signer == *keeper {
            Ok(())
        } else {
            Err(GuardError::Unauthorized)
        },
{
    if !signer.same(keeper) {
        return Err(GuardError::Unauthorized);
    }
    Ok(())
}

// ---------------------------------------------------------------------------
// Guards over the feed bytes and the clock
// ---------------------------------------------------------------------------

/// Decodes the self-contained feed layout `price|conf|publish_time`, each
/// little-endian, from the first 24 bytes of the feed account's data.
pub fn read_oracle_raw(data: &[u8]) -> (r: Result<OraclePrice, GuardError>)
    ensures
        r == feed_price(data@),
{
    if data.len() < 24 {
        return Err(GuardError::StaleOracle);
    }
    let price = read_u64_le(data, 0);
    let conf = read_u64_le(data, 8);
    let publish_time = reinterpret_as_i64(read_u64_le(data, 16));
    Ok(OraclePrice { price, conf, publish_time })
}

/// Reads the feed and checks freshness and confidence at time `now`.
pub fn read_oracle(data: &[u8], cfg: &GuardConfig, now: i64) -> (r: Result<u64, GuardError>)
    ensures
        r == read_oracle_verdict(data@, *cfg, now),
{
    match read_oracle_raw(data) {
        Err(e) => Err(e),
        Ok(p) => check_oracle(p, cfg, now),
    }
}

/// Reads the feed at `now` and checks the pool price against its band.
pub fn assert_pool_price_sane(oracle_data: &[u8], pool_price: u64, cfg: &GuardConfig, now: i64) -> (r:
    Result<(), GuardError>)
    ensures
        r == match read_oracle_verdict(oracle_data@, *cfg, now) {
            Err(e) => Err(e),
            Ok(oracle_price) => if in_band(pool_price, oracle_price, cfg.max_deviation_bps) {
                Ok(())
            } else {
                Err(GuardError::PriceManipulated)
            },
        },
{
    let oracle_price = match read_oracle(oracle_data, cfg, now) {
        Ok(p) => p,
        Err(e) => {
            return Err(e);
        },
    };
    check_pool_sane(pool_price, oracle_price, cfg)
}

/// The oracle-fair output of swapping `amount_in`, both feeds read at `now`;
/// `MathOverflow` where it does not fit in `u64`.
pub fn oracle_quote(
    oracle_in_data: &[u8],
    oracle_out_data: &[u8],
    amount_in: u64,
    cfg: &GuardConfig,
    now: i64,
) -> (r: Result<u64, GuardError>)
    ensures
        r == match read_oracle_verdict(oracle_in_data@, *cfg, now) {
            Err(e) => Err(e),
            Ok(p_in) => match read_oracle_verdict(oracle_out_data@, *cfg, now) {
                Err(e) => Err(e),
                Ok(p_out) => if fair_value(amount_in, p_in, p_out) <= u64::MAX {
                    Ok(fair_value(amount_in, p_in, p_out) as u64)
                } else {
                    Err(GuardError::MathOverflow)
                },
            },
        },
{
    let p_in = match read_oracle(oracle_in_data, cfg, now) {
        Ok(p) => p,
        Err(e) => {
            return Err(e);
        },
    };
    let p_out = match read_oracle(oracle_out_data, cfg, now) {
        Ok(p) => p,
        Err(e) => {
            return Err(e);
        },
    };
    assert(amount_in * p_in <= u128::MAX) by (nonlinear_arith)
        requires
            amount_in <= u64::MAX,
            p_in <= u64::MAX,
    ;
    let q: u128 = (amount_in as u128) * (p_in as u128) / (max_one(p_out) as u128);
    if q > u64::MAX as u128 {
        return Err(GuardError::MathOverflow);
    }
    Ok(fair_out(amount_in, p_in, p_out))
}

/// The min_out floor for `fair` under the configured slippage.
pub fn min_out_floor(fair: u64, cfg: &GuardConfig) -> (r: Result<u64, GuardError>)
    requires
        cfg.max_slippage_bps <= 10_000,
    ensures
        r == Ok::<u64, GuardError>(floor_value(fair, cfg.max_slippage_bps) as u64),
{
    Ok(min_out_floor_bps(fair, cfg.max_slippage_bps))
}

/// Pause and caps, as `check_caps`.
pub fn assert_within_caps(
    paused: bool,
    amount: u64,
    per_tx_cap: u64,
    stored_assets: u64,
    deposit_cap: u64,
    is_deposit: bool,
) -> (r: Result<(), GuardError>)
    ensures
        r == caps_verdict(paused, amount, per_tx_cap, stored_assets, deposit_cap, is_deposit),
{
    check_caps(paused, amount, per_tx_cap, stored_assets, deposit_cap, is_deposit)
}

/// The signer must be the configured keeper.
pub fn assert_keeper(signer: &AccountKey, cfg: &GuardConfig) -> (r: Result<(), GuardError>)
    ensures
        r == if *signer == cfg.keeper {
            Ok(())
        } else {
            Err(GuardError::Unauthorized)
        },
{
    check_keeper(signer, &cfg.keeper)
}

// ---------------------------------------------------------------------------
// Laws
// ---------------------------------------------------------------------------

/// No free value: depositing `assets` into a vault that holds
/// `stored_assets` against `total_shares`, then at once redeeming the shares
/// just minted, returns no more than `assets`. (The requirements are those of
/// `shares_for_deposit` and that the new supply and NAV fit in `u64`.)
pub proof fn lemma_deposit_then_redeem_no_profit(assets: u64, total_shares: u64, stored_assets: u64)
    requires
        shares_owed(assets as int, total_shares as int, stored_assets as int) <= u64::MAX,
        total_shares + shares_owed(assets as int, total_shares as int, stored_assets as int)
            <= u64::MAX,
        stored_assets + assets <= u64::MAX,
    ensures
        ({
            let minted = shares_owed(assets as int, total_shares as int, stored_assets as int);
            assets_owed(minted, total_shares + minted, stored_assets + assets) <= assets
        }),
{
    let a = assets as int;
    let ts = total_shares as int;
    let sa = stored_assets as int;
    let s = shares_owed(a, ts, sa);
    let v = VIRTUAL_SHARES as int;
    assert(0 <= s && s * (sa + 1) <= a * (ts + v)) by (nonlinear_arith)
        requires
            s == a * (ts + v) / (sa + 1),
            a >= 0,
            ts >= 0,
            sa >= 0,
            v > 0,
    ;
    let out = assets_owed(s, ts + s, sa + a);
    assert(out <= a) by (nonlinear_arith)
        requires
            out == s * (sa + a + 1) / (ts + s + v),
            s * (sa + 1) <= a * (ts + v),
            s >= 0,
            a >= 0,
            ts >= 0,
            sa >= 0,
            v > 0,
    ;
}

/// A manipulated pool never passes the band: with the pool 20% above an
/// oracle price of at least 5, the deviation is at least 1111 bps, so any
/// band of at most 1110 bps rejects it.
pub proof fn lemma_manipulated_pool_rejected(price: u64, max_deviation_bps: u16)
    requires
        price >= 5,
        price + price / 5 <= u64::MAX,
        max_deviation_bps <= 1110,
    ensures
        !in_band((price + price / 5) as u64, price, max_deviation_bps),
{
    let p = price as int;
    let k = p / 5;
    assert(k >= 1 && 5 * k <= p <= 5 * k + 4);
    let d = k * 10_000 / p;
    assert(1111 <= d <= 2000) by (nonlinear_arith)
        requires
            k >= 1,
            5 * k <= p <= 5 * k + 4,
            d == k * 10_000 / p,
    ;
    assert(deviation((price + price / 5) as u64, price) == d);
}

/// Share pricing with the virtual offsets: the shares minted for `assets`
/// are `s` exactly when `s * (NAV + 1) <= assets * (supply + 1_000_000) <
/// (s + 1) * (NAV + 1)`, and the assets paid for `shares` are `a` exactly
/// when `a * (supply + 1_000_000) <= shares * (NAV + 1) <
/// (a + 1) * (supply + 1_000_000)` (both rounded down).
pub proof fn lemma_share_pricing(amount: u64, total_shares: u64, stored_assets: u64, q: int)
    ensures
        shares_owed(amount as int, total_shares as int, stored_assets as int) == q <==> (q * (
        stored_assets + 1) <= amount * (total_shares + 1_000_000) && amount * (total_shares
            + 1_000_000) < (q + 1) * (stored_assets + 1)),
        assets_owed(amount as int, total_shares as int, stored_assets as int) == q <==> (q * (
        total_shares + 1_000_000) <= amount * (stored_assets + 1) && amount * (stored_assets + 1) < (
        q + 1) * (total_shares + 1_000_000)),
{
    let x = amount * (total_shares + 1_000_000);
    let y = amount * (stored_assets + 1);
    assert(x >= 0 && y >= 0) by (nonlinear_arith)
        requires
            x == amount * (total_shares + 1_000_000),
            y == amount * (stored_assets + 1),
    ;
    lemma_quotient_bounds(x, stored_assets + 1, q);
    lemma_quotient_bounds(y, total_shares + 1_000_000, q);
}

/// The oracle check: a price more than `max_staleness_secs` old at `now` is
/// stale; otherwise it passes exactly when its confidence interval is at most
/// `max_conf_bps` basis points of the price, rounding down:
/// `conf * 10_000 < (max_conf_bps + 1) * price` (a zero price counting as 1).
pub proof fn lemma_oracle_check(p: OraclePrice, cfg: GuardConfig, now: i64)
    ensures
        now - p.publish_time > cfg.max_staleness_secs ==> oracle_verdict(p, cfg, now) == Err::<
            u64,
            GuardError,
        >(GuardError::StaleOracle),
        now - p.publish_time <= cfg.max_staleness_secs ==> oracle_verdict(p, cfg, now) == if p.conf
            * 10_000 < (cfg.max_conf_bps + 1) * (if p.price == 0 {
            1
        } else {
            p.price as int
        }) {
            Ok::<u64, GuardError>(p.price)
        } else {
            Err::<u64, GuardError>(GuardError::OracleUncertain)
        },
{
    let d: int = if p.price == 0 {
        1
    } else {
        p.price as int
    };
    lemma_quotient_bounds(p.conf * 10_000, d, cfg.max_conf_bps as int);
}

/// The pool band: a pool price passes against an oracle price `o` exactly
/// when `|pool - o| * 10_000 < (band + 1) * o` (a zero `o` counting as 1 in
/// the division only), i.e. when it deviates by at most `band` basis points,
/// rounding down.
pub proof fn lemma_pool_band(pool_price: u64, oracle_price: u64, max_deviation_bps: u16)
    ensures
        ({
            let o: int = if oracle_price == 0 {
                1
            } else {
                oracle_price as int
            };
            let gap: int = if pool_price >= oracle_price {
                pool_price - oracle_price
            } else {
                oracle_price - pool_price
            };
            in_band(pool_price, oracle_price, max_deviation_bps) <==> gap * 10_000 < (
            max_deviation_bps + 1) * o
        }),
{
    let o: int = if oracle_price == 0 {
        1
    } else {
        oracle_price as int
    };
    let gap: int = if pool_price >= oracle_price {
        pool_price - oracle_price
    } else {
        oracle_price - pool_price
    };
    lemma_quotient_bounds(gap * 10_000, o, max_deviation_bps as int);
}

/// The fair output is the input's value in the output token, rounded down:
/// it is `q` exactly when `q * p_out <= amount_in * p_in < (q + 1) * p_out`
/// (a zero `p_out` counting as 1); and the floor keeps
/// `10_000 - max_slippage_bps` basis points of `fair`, rounded down.
pub proof fn lemma_fair_output_and_floor(
    amount_in: u64,
    p_in: u64,
    p_out: u64,
    fair: u64,
    max_slippage_bps: u16,
    q: int,
)
    requires
        max_slippage_bps <= 10_000,
    ensures
        ({
            let d: int = if p_out == 0 {
                1
            } else {
                p_out as int
            };
            fair_value(amount_in, p_in, p_out) == q <==> (q * d <= amount_in * p_in && amount_in
                * p_in < (q + 1) * d)
        }),
        floor_value(fair, max_slippage_bps) == q <==> (q * 10_000 <= fair * (10_000
            - max_slippage_bps) && fair * (10_000 - max_slippage_bps) < (q + 1) * 10_000),
{
    let d: int = if p_out == 0 {
        1
    } else {
        p_out as int
    };
    let x = amount_in * p_in;
    let y = fair * (10_000 - max_slippage_bps);
    assert(x >= 0 && y >= 0) by (nonlinear_arith)
        requires
            x == amount_in * p_in,
            y == fair * (10_000 - max_slippage_bps),
            max_slippage_bps <= 10_000,
    ;
    lemma_quotient_bounds(x, d, q);
    lemma_quotient_bounds(y, 10_000, q);
}

/// The caps pass exactly when the vault is unpaused, the amount is non-zero
/// and within the per-transaction cap, and, for a deposit, the NAV after it
/// stays within the deposit cap.
pub proof fn lemma_caps_pass_exactly(
    paused: bool,
    amount: u64,
    per_tx_cap: u64,
    stored_assets: u64,
    deposit_cap: u64,
    is_deposit: bool,
)
    ensures
        caps_verdict(paused, amount, per_tx_cap, stored_assets, deposit_cap, is_deposit) is Ok
            <==> (!paused && 0 < amount <= per_tx_cap && (is_deposit ==> stored_assets + amount
            <= deposit_cap)),
{
}

} // verus!
