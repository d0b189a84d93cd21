//! The vault program's guard middleware. A price feed is read in one of two
//! layouts: the self-contained little-endian `price: u64 | conf: u64 |
//! publish_time: i64`, or a Pyth pull-oracle `PriceUpdateV2` account owned by
//! the Pyth receiver program. The caller reads the account data, its owner and
//! the clock.

use vstd::prelude::*;

use anchor_lang::AccountDeserialize;
use pyth_solana_receiver_sdk::price_update::PriceUpdateV2;

use crate::allocator::errors::VaultError;
use crate::allocator::state::GuardConfig;
use crate::key::AccountKey;
use crate::math::{
    abs_diff_u64, at_least_one, distance, le_u64_at, max_one, older_than, read_u64_le,
    reinterpret_as_i64, wrap_i64,
};

verus! {

/// A price read from a feed.
#[derive(Clone, Copy, Debug)]
pub struct OraclePrice {
    pub price: u64,
    pub conf: u64,
    pub publish_time: i64,
}

/// How a feed account's data is laid out.
#[derive(Clone, Copy, Debug, PartialEq, Eq, Structural)]
pub enum FeedLayout {
    /// `price: u64 | conf: u64 | publish_time: i64`, little-endian.
    SelfContained,
    /// A Pyth `PriceUpdateV2` account.
    Pyth,
}

/// A price feed account: its owner program and its data.
#[derive(Clone, Copy, Debug)]
pub struct OracleAccount<'a> {
    pub owner: AccountKey,
    pub data: &'a [u8],
}

// ---------------------------------------------------------------------------
// Specifications
// ---------------------------------------------------------------------------

/// What the 24-byte self-contained feed layout decodes to.
pub open spec fn feed_price(data: Seq<u8>) -> Result<OraclePrice, VaultError> {
    if data.len() < 24 {
        Err(VaultError::StaleOracle)
    } else {
        Ok(
            OraclePrice {
                price: le_u64_at(data, 0) as u64,
                conf: le_u64_at(data, 8) as u64,
                publish_time: wrap_i64(le_u64_at(data, 16) as u64) as i64,
            },
        )
    }
}

/// The address of the Pyth pull-oracle receiver program,
/// `rec5EKMGg6MxZYaMdyBfgwp4d5rB9T1VQH5pJv5LtFJ`, as bytes.
pub open spec fn pyth_receiver_bytes() -> Seq<u8> {
    seq![
        12u8, 183, 250, 187, 82, 247, 166, 72, 187, 91, 49, 125, 154, 1, 139, 144,
        87, 203, 2, 71, 116, 250, 254, 1, 230, 196, 223, 152, 204, 56, 88, 129,
    ]
}

/// What a Pyth `PriceUpdateV2` account's data deserializes to:
/// `(price_message.price, price_message.conf, price_message.publish_time)`,
/// or `None` where it does not deserialize.
pub uninterp spec fn price_update_fields(data: Seq<u8>) -> Option<(i64, u64, i64)>;

/// The price a deserialized Pyth update yields: a failed deserialization or a
/// non-positive price is refused as stale.
pub open spec fn update_price(fields: Option<(i64, u64, i64)>) -> Result<OraclePrice, VaultError> {
    match fields {
        None => Err(VaultError::StaleOracle),
        Some((price, conf, publish_time)) => if price <= 0 {
            Err(VaultError::StaleOracle)
        } else {
            Ok(OraclePrice { price: price as u64, conf, publish_time })
        },
    }
}

/// What a Pyth feed account yields: it must be owned by the receiver program.
pub open spec fn pyth_price(owner: AccountKey, data: Seq<u8>) -> Result<OraclePrice, VaultError> {
    if owner.bytes@ != pyth_receiver_bytes() {
        Err(VaultError::StaleOracle)
    } else {
        update_price(price_update_fields(data))
    }
}

/// What a feed account yields in the given layout.
pub open spec fn feed_read(layout: FeedLayout, owner: AccountKey, data: Seq<u8>) -> Result<
    OraclePrice,
    VaultError,
> {
    match layout {
        FeedLayout::SelfContained => feed_price(data),
        FeedLayout::Pyth => pyth_price(owner, data),
    }
}

/// The price is fresh: it is at most `max_staleness_secs` old at `now`.
pub open spec fn is_fresh(p: OraclePrice, cfg: GuardConfig, now: i64) -> bool {
    now - p.publish_time <= cfg.max_staleness_secs
}

/// The confidence interval in basis points of the price (a zero price
/// counting as 1).
pub open spec fn confidence_bps(p: OraclePrice) -> int {
    p.conf * 10_000 / at_least_one(p.price)
}

/// What `validate_oracle_price` answers: freshness first, then the
/// confidence against the limit.
pub open spec fn price_verdict(p: OraclePrice, cfg: GuardConfig, now: i64) -> Result<
    u64,
    VaultError,
> {
    if !is_fresh(p, cfg, now) {
        Err(VaultError::StaleOracle)
    } else if confidence_bps(p) > cfg.max_conf_bps {
        Err(VaultError::OracleUncertain)
    } else {
        Ok(p.price)
    }
}

/// What `read_oracle` answers for a feed account at time `now`.
pub open spec fn oracle_verdict(
    layout: FeedLayout,
    owner: AccountKey,
    data: Seq<u8>,
    cfg: GuardConfig,
    now: i64,
) -> Result<u64, VaultError> {
    match feed_read(layout, owner, data) {
        Err(e) => Err(e),
        Ok(p) => price_verdict(p, cfg, now),
    }
}

/// The feed yields a price that is fresh and confident at `now`.
pub open spec fn feed_trusted(
    layout: FeedLayout,
    owner: AccountKey,
    data: Seq<u8>,
    cfg: GuardConfig,
    now: i64,
) -> bool {
    &&& feed_read(layout, owner, data) is Ok
    &&& is_fresh(feed_read(layout, owner, data)->Ok_0, cfg, now)
    &&& confidence_bps(feed_read(layout, owner, data)->Ok_0) <= cfg.max_conf_bps
}

/// `|pool - oracle| / oracle` in basis points (a zero oracle price counting
/// as 1).
pub open spec fn deviation_bps_of(pool_price: u64, oracle_price: u64) -> int {
    let o = at_least_one(oracle_price);
    distance(pool_price as int, o) * 10_000 / o
}

/// The pool price is inside the band around the oracle price.
pub open spec fn pool_in_band(pool_price: u64, oracle_price: u64, max_deviation_bps: u16) -> bool {
    deviation_bps_of(pool_price, oracle_price) <= max_deviation_bps
}

/// What `assert_pool_price_sane` answers.
pub open spec fn pool_verdict(
    layout: FeedLayout,
    owner: AccountKey,
    data: Seq<u8>,
    pool_price: u64,
    cfg: GuardConfig,
    now: i64,
) -> Result<(), VaultError> {
    match oracle_verdict(layout, owner, data, cfg, now) {
        Err(e) => Err(e),
        Ok(oracle_price) => if pool_in_band(pool_price, oracle_price, cfg.max_deviation_bps) {
            Ok(())
        } else {
            Err(VaultError::PriceManipulated)
        },
    }
}

/// The oracle-fair output of a swap.
pub open spec fn fair_value(amount_in: u64, p_in: u64, p_out: u64) -> int {
    amount_in * p_in / at_least_one(p_out)
}

/// What `fair_quote` answers: the fair output, or `MathOverflow` where it
/// does not fit in `u64`.
pub open spec fn fair_verdict(amount_in: u64, p_in: u64, p_out: u64) -> Result<u64, VaultError> {
    if fair_value(amount_in, p_in, p_out) > u64::MAX {
        Err(VaultError::MathOverflow)
    } else {
        Ok(fair_value(amount_in, p_in, p_out) as u64)
    }
}

/// What `oracle_quote` answers.
pub open spec fn quote_verdict(
    layout: FeedLayout,
    in_owner: AccountKey,
    in_data: Seq<u8>,
    out_owner: AccountKey,
    out_data: Seq<u8>,
    amount_in: u64,
    cfg: GuardConfig,
    now: i64,
) -> Result<u64, VaultError> {
    match oracle_verdict(layout, in_owner, in_data, cfg, now) {
        Err(e) => Err(e),
        Ok(p_in) => match oracle_verdict(layout, out_owner, out_data, cfg, now) {
            Err(e) => Err(e),
            Ok(p_out) => fair_verdict(amount_in, p_in, p_out),
        },
    }
}

/// The least acceptable output: `fair` less `max_slippage_bps`, rounded down.
pub open spec fn floor_value(fair: u64, max_slippage_bps: u16) -> int {
    fair * (10_000 - max_slippage_bps) / 10_000
}

/// What `assert_within_caps` answers: the first failing check wins.
pub open spec fn caps_verdict(
    paused: bool,
    amount: u64,
    per_tx_cap: u64,
    stored_assets: u64,
    deposit_cap: u64,
    is_deposit: bool,
) -> Result<(), VaultError> {
    if paused {
        Err(VaultError::Paused)
    } else if amount == 0 {
        Err(VaultError::ZeroAmount)
    } else if amount > per_tx_cap {
        Err(VaultError::CapExceeded)
    } else if is_deposit && stored_assets + amount > u64::MAX {
        Err(VaultError::MathOverflow)
    } else if is_deposit && stored_assets + amount > deposit_cap {
        Err(VaultError::DepositCapReached)
    } else {
        Ok(())
    }
}

// ---------------------------------------------------------------------------
// Calls into the Pyth receiver SDK
// ---------------------------------------------------------------------------

/// Calls `pyth_solana_receiver_sdk::ID.to_bytes()`. Claimed: the bytes are
/// those of the address the crate declares (`declare_id!` with
/// `rec5EKMGg6MxZYaMdyBfgwp4d5rB9T1VQH5pJv5LtFJ`, its default build).
#[verifier::external_body]
fn pyth_receiver_program_id() -> (id: [u8; 32])
    ensures
        id@ == pyth_receiver_bytes(),
{
    pyth_solana_receiver_sdk::ID.to_bytes()
}

/// Calls `PriceUpdateV2::try_deserialize` (the `AccountDeserialize` impl that
/// anchor-lang's `#[account]` writes for the SDK's `PriceUpdateV2`) on `data`
/// and hands back the price message's `price`, `conf` and `publish_time`, or
/// `None` on an error. Claimed: the result depends on the bytes alone, and data
/// shorter than the 8-byte discriminator is refused. What the borsh layout
/// decodes to is not stated.
#[verifier::external_body]
fn deserialize_price_update(data: &[u8]) -> (r: Option<(i64, u64, i64)>)
    ensures
        r == price_update_fields(data@),
        data@.len() < 8 ==> r is None,
{
    match PriceUpdateV2::try_deserialize(&mut &data[..]) {
        Ok(u) => Some((u.price_message.price, u.price_message.conf, u.price_message.publish_time)),
        Err(_) => None,
    }
}

// ---------------------------------------------------------------------------
// Feed reads
// ---------------------------------------------------------------------------

/// Decodes the self-contained feed: `price|conf|publish_time`, little-endian,
/// from the first 24 bytes of the account data.
pub fn read_oracle_raw(data: &[u8]) -> (r: Result<OraclePrice, VaultError>)
    ensures
        r == feed_price(data@),
{
    if data.len() < 24 {
        return Err(VaultError::StaleOracle);
    }
    let price = read_u64_le(data, 0);
    let conf = read_u64_le(data, 8);
    let publish_time = reinterpret_as_i64(read_u64_le(data, 16));
    Ok(OraclePrice { price, conf, publish_time })
}

/// The price carried by a deserialized Pyth update: refused as stale where
/// the update did not deserialize or its price is not positive.
pub fn price_from_update(fields: Option<(i64, u64, i64)>) -> (r: Result<OraclePrice, VaultError>)
    ensures
        r == update_price(fields),
{
    match fields {
        None => Err(VaultError::StaleOracle),
        Some((price, conf, publish_time)) => {
            if price <= 0 {
                return Err(VaultError::StaleOracle);
            }
            Ok(OraclePrice { price: price as u64, conf, publish_time })
        },
    }
}

/// Pyth pull-oracle read: the feed account must be owned by the Pyth receiver
/// program (else an attacker could substitute a fake feed); its data must
/// deserialize as a `PriceUpdateV2` with a positive price.
pub fn read_oracle_raw_pyth(owner: &AccountKey, data: &[u8]) -> (r: Result<OraclePrice, VaultError>)
    ensures
        r == pyth_price(*owner, data@),
{
    broadcast use vstd::array::group_array_axioms;

    let receiver = AccountKey::new(pyth_receiver_program_id());
    if !owner.same(&receiver) {
        assert(owner.bytes@ != pyth_receiver_bytes()) by {
            if owner.bytes@ == pyth_receiver_bytes() {
                assert(owner.bytes =~= receiver.bytes);
            }
        }
        return Err(VaultError::StaleOracle);
    }
    price_from_update(deserialize_price_update(data))
}

/// Reads a feed account in the given layout.
pub fn read_feed(layout: FeedLayout, feed: &OracleAccount) -> (r: Result<OraclePrice, VaultError>)
    ensures
        r == feed_read(layout, feed.owner, feed.data@),
{
    match layout {
        FeedLayout::SelfContained => read_oracle_raw(feed.data),
        FeedLayout::Pyth => read_oracle_raw_pyth(&feed.owner, feed.data),
    }
}

/// Freshness and confidence of a price read at time `now`; the price itself
/// where both hold.
pub fn validate_oracle_price(p: OraclePrice, cfg: &GuardConfig, now: i64) -> (r: Result<
    u64,
    VaultError,
>)
    ensures
        r == price_verdict(p, *cfg, now),
{
    if older_than(now, p.publish_time, cfg.max_staleness_secs) {
        return Err(VaultError::StaleOracle);
    }
    let price = max_one(p.price);
    assert(p.conf * 10_000 <= u128::MAX) by (nonlinear_arith)
        requires
            p.conf <= u64::MAX,
    ;
    let scaled = match (p.conf as u128).checked_mul(10_000) {
        Some(x) => x,
        None => {
            return Err(VaultError::MathOverflow);
        },
    };
    let conf_bps: u128 = scaled / price as u128;
    if conf_bps > cfg.max_conf_bps as u128 {
        return Err(VaultError::OracleUncertain);
    }
    Ok(p.price)
}

/// Reads a feed and checks freshness and confidence at time `now`.
pub fn read_oracle(layout: FeedLayout, feed: &OracleAccount, cfg: &GuardConfig, now: i64) -> (r:
    Result<u64, VaultError>)
    ensures
        r == oracle_verdict(layout, feed.owner, feed.data@, *cfg, now),
{
    let p = match read_feed(layout, feed) {
        Ok(p) => p,
        Err(e) => {
            return Err(e);
        },
    };
    validate_oracle_price(p, cfg, now)
}

// ---------------------------------------------------------------------------
// Guards
// ---------------------------------------------------------------------------

/// The pool price against a validated oracle price (a zero oracle price
/// counting as 1): refused where it deviates beyond the band.
pub fn check_pool_price(pool_price: u64, oracle_price: u64, cfg: &GuardConfig) -> (r: Result<
    (),
    VaultError,
>)
    ensures
        r == if pool_in_band(pool_price, oracle_price, cfg.max_deviation_bps) {
            Ok(())
        } else {
            Err(VaultError::PriceManipulated)
        },
{
    let oracle_price = max_one(oracle_price);
    let diff = abs_diff_u64(pool_price, oracle_price);
    assert(diff * 10_000 <= u128::MAX) by (nonlinear_arith)
        requires
            diff <= u64::MAX,
    ;
    let scaled = match (diff as u128).checked_mul(10_000) {
        Some(x) => x,
        None => {
            return Err(VaultError::MathOverflow);
        },
    };
    let dev_bps: u128 = scaled / oracle_price as u128;
    if dev_bps > cfg.max_deviation_bps as u128 {
        return Err(VaultError::PriceManipulated);
    }
    Ok(())
}

/// Reads the feed at `now` and checks the pool price against its band.
pub fn assert_pool_price_sane(
    layout: FeedLayout,
    feed: &OracleAccount,
    pool_price: u64,
    cfg: &GuardConfig,
    now: i64,
) -> (r: Result<(), VaultError>)
    ensures
        r == pool_verdict(layout, feed.owner, feed.data@, pool_price, *cfg, now),
{
    let oracle_price = match read_oracle(layout, feed, cfg, now) {
        Ok(p) => p,
        Err(e) => {
            return Err(e);
        },
    };
    check_pool_price(pool_price, oracle_price, cfg)
}

/// The oracle-fair output of swapping `amount_in` at prices `p_in` and
/// `p_out` (a zero `p_out` counting as 1); `MathOverflow` where it does not
/// fit in `u64`.
pub fn fair_quote(amount_in: u64, p_in: u64, p_out: u64) -> (r: Result<u64, VaultError>)
    ensures
        r == fair_verdict(amount_in, p_in, p_out),
{
    let p_out = max_one(p_out);
    assert(amount_in * p_in <= u128::MAX) by (nonlinear_arith)
        requires
            amount_in <= u64::MAX,
            p_in <= u64::MAX,
    ;
    let product = match (amount_in as u128).checked_mul(p_in as u128) {
        Some(x) => x,
        None => {
            return Err(VaultError::MathOverflow);
        },
    };
    let fair: u128 = product / p_out as u128;
    if fair > u64::MAX as u128 {
        return Err(VaultError::MathOverflow);
    }
    Ok(fair as u64)
}

/// The oracle-fair output of swapping `amount_in`, both feeds read at `now`.
pub fn oracle_quote(
    layout: FeedLayout,
    oracle_in: &OracleAccount,
    oracle_out: &OracleAccount,
    amount_in: u64,
    cfg: &GuardConfig,
    now: i64,
) -> (r: Result<u64, VaultError>)
    ensures
        r == quote_verdict(
            layout,
            oracle_in.owner,
            oracle_in.data@,
            oracle_out.owner,
            oracle_out.data@,
            amount_in,
            *cfg,
            now,
        ),
{
    let p_in = match read_oracle(layout, oracle_in, cfg, now) {
        Ok(p) => p,
        Err(e) => {
            return Err(e);
        },
    };
    let p_out = match read_oracle(layout, oracle_out, cfg, now) {
        Ok(p) => p,
        Err(e) => {
            return Err(e);
        },
    };
    fair_quote(amount_in, p_in, p_out)
}

/// The min_out floor for `fair_out` under the configured slippage.
pub fn min_out_floor(fair_out: u64, cfg: &GuardConfig) -> (r: Result<u64, VaultError>)
    requires
        cfg.max_slippage_bps <= 10_000,
    ensures
        r == Ok::<u64, VaultError>(floor_value(fair_out, cfg.max_slippage_bps) as u64),
        floor_value(fair_out, cfg.max_slippage_bps) <= fair_out,
{
    let keep: u16 = 10_000 - cfg.max_slippage_bps;
    assert(fair_out * keep <= u128::MAX) by (nonlinear_arith)
        requires
            fair_out <= u64::MAX,
            keep <= 10_000,
    ;
    let scaled = match (fair_out as u128).checked_mul(keep as u128) {
        Some(x) => x,
        None => {
            return Err(VaultError::MathOverflow);
        },
    };
    assert(scaled / 10_000 <= fair_out) by (nonlinear_arith)
        requires
            scaled == fair_out * keep,
            keep <= 10_000,
    ;
    let floor: u128 = scaled / 10_000;
    Ok(floor as u64)
}

/// Pause, a non-zero amount, the per-transaction cap and, for a deposit, the
/// deposit cap.
pub fn assert_within_caps(
    paused: bool,
    amount: u64,
    per_tx_cap: u64,
    stored_assets: u64,
    deposit_cap: u64,
    is_deposit: bool,
) -> (r: Result<(), VaultError>)
    ensures
        r == caps_verdict(paused, amount, per_tx_cap, stored_assets, deposit_cap, is_deposit),
        r is Ok ==> !paused && amount > 0 && amount <= per_tx_cap && (is_deposit ==> stored_assets
            + amount <= deposit_cap),
{
    if paused {
        return Err(VaultError::Paused);
    }
    if amount == 0 {
        return Err(VaultError::ZeroAmount);
    }
    if amount > per_tx_cap {
        return Err(VaultError::CapExceeded);
    }
    if is_deposit {
        let after = match stored_assets.checked_add(amount) {
            Some(a) => a,
            None => {
                return Err(VaultError::MathOverflow);
            },
        };
        if after > deposit_cap {
            return Err(VaultError::DepositCapReached);
        }
    }
    Ok(())
}

/// The signer must be the configured keeper.
pub fn assert_keeper(signer: &AccountKey, cfg: &GuardConfig) -> (r: Result<(), VaultError>)
    ensures
        r == if *signer == cfg.keeper {
            Ok(())
        } else {
            Err(VaultError::Unauthorized)
        },
{
    if !signer.same(&cfg.keeper) {
        return Err(VaultError::Unauthorized);
    }
    Ok(())
}

} // verus!
