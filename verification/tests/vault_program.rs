//! Concrete runs of the vault program's instructions.

use anchor_lang::AccountSerialize;
use pyth_solana_receiver_sdk::price_update::{PriceFeedMessage, PriceUpdateV2, VerificationLevel};
use svs_vault::allocator::errors::VaultError;
use svs_vault::allocator::guards::{
    assert_pool_price_sane, check_pool_price, fair_quote, min_out_floor, oracle_quote,
    price_from_update, read_feed, read_oracle, read_oracle_raw, read_oracle_raw_pyth,
    validate_oracle_price, FeedLayout, OracleAccount, OraclePrice,
};
use svs_vault::allocator::instructions::admin::set_paused;
use svs_vault::allocator::instructions::deposit::deposit;
use svs_vault::allocator::instructions::initialize::{initialize, InitializeParams, DEAD_SHARES};
use svs_vault::allocator::instructions::rebalance::{
    rebalance_quote, rebalance_settle, rebalance_swap, sync, SwapFeeds,
};
use svs_vault::allocator::instructions::withdraw::withdraw;
use svs_vault::allocator::state::{Allocation, GuardConfig, Vault, MAX_VENUES};
use svs_vault::key::AccountKey;

fn key(b: u8) -> AccountKey {
    AccountKey::new([b; 32])
}

fn guard() -> GuardConfig {
    GuardConfig {
        oracle: key(9),
        max_staleness_secs: 60,
        max_conf_bps: 100,
        max_deviation_bps: 100,
        max_slippage_bps: 50,
        keeper: key(7),
    }
}

fn blank() -> Vault {
    Vault {
        authority: key(0),
        asset_mint: key(0),
        share_mint: key(0),
        total_shares: 42,
        stored_assets: 42,
        deposit_cap: 0,
        per_tx_cap: 0,
        paused: true,
        guard: guard(),
        allocations: [Allocation { venue_id: 3, deployed: 1, last_nav: 1 }; MAX_VENUES],
        bump: 0,
        auth_bump: 0,
    }
}

fn vault(deposit_cap: u64, per_tx_cap: u64) -> Vault {
    let mut v = blank();
    let params = InitializeParams { deposit_cap, per_tx_cap, guard: guard() };
    assert_eq!(initialize(&mut v, key(1), key(2), key(3), params, 254, 253), Ok(DEAD_SHARES));
    v
}

fn raw(data: &[u8]) -> OracleAccount<'_> {
    OracleAccount { owner: key(0), data }
}

fn feed(price: u64, conf: u64, publish_time: i64) -> Vec<u8> {
    let mut v = Vec::new();
    v.extend_from_slice(&price.to_le_bytes());
    v.extend_from_slice(&conf.to_le_bytes());
    v.extend_from_slice(&publish_time.to_le_bytes());
    v
}

#[test]
fn initialize_seeds_dead_shares() {
    let v = vault(10_000, 100);
    assert_eq!(v.authority.to_bytes(), [1; 32]);
    assert_eq!(v.asset_mint.to_bytes(), [2; 32]);
    assert_eq!(v.share_mint.to_bytes(), [3; 32]);
    assert_eq!((v.total_shares, v.stored_assets, v.deposit_cap, v.per_tx_cap), (1_000, 1_000, 10_000, 100));
    assert!(!v.paused);
    assert_eq!((v.bump, v.auth_bump), (254, 253));
    assert_eq!((v.allocations[0].venue_id, v.allocations[0].deployed, v.allocations[0].last_nav), (0, 1_000, 0));
    for a in v.allocations[1..].iter() {
        assert_eq!((a.venue_id, a.deployed, a.last_nav), (0, 0, 0));
    }
    assert_eq!(Vault::SIZE, 8 + 96 + 32 + 1 + 78 + 17 * 8 + 2);
}

#[test]
fn vault_share_math() {
    let mut v = vault(0, 0);
    v.total_shares = 0;
    v.stored_assets = 0;
    assert_eq!(v.shares_for_deposit(500), Some(500));
    assert_eq!(v.assets_for_shares(500), Some(0));
    v.total_shares = 300;
    v.stored_assets = 200;
    assert_eq!(v.shares_for_deposit(101), Some(151));
    assert_eq!(v.assets_for_shares(151), Some(100));
    // quotients that do not fit in u64
    v.total_shares = 2;
    v.stored_assets = 1;
    assert_eq!(v.shares_for_deposit(u64::MAX), None);
    assert_eq!(v.shares_for_deposit(u64::MAX / 2), Some(u64::MAX - 1));
    v.total_shares = 1;
    v.stored_assets = 2;
    assert_eq!(v.assets_for_shares(u64::MAX), None);
}

#[test]
fn first_deposit_is_one_to_one_and_recorded() {
    let mut v = vault(10_000, 100);
    let ev = deposit(&mut v, key(5), key(6), 40).unwrap();
    assert_eq!((ev.assets, ev.shares), (40, 40));
    assert_eq!(ev.vault.to_bytes(), [5; 32]);
    assert_eq!(ev.user.to_bytes(), [6; 32]);
    assert_eq!((v.total_shares, v.stored_assets, v.allocations[0].deployed), (1_040, 1_040, 1_040));
    assert_eq!(v.allocations[1].deployed, 0);
}

#[test]
fn deposit_errors_leave_vault_unchanged() {
    let mut v = vault(1_100, 60);
    deposit(&mut v, key(5), key(6), 50).unwrap();
    let before = v;
    assert_eq!(deposit(&mut v, key(5), key(6), 0).unwrap_err(), VaultError::ZeroAmount);
    assert_eq!(deposit(&mut v, key(5), key(6), 61).unwrap_err(), VaultError::CapExceeded);
    assert_eq!(deposit(&mut v, key(5), key(6), 51).unwrap_err(), VaultError::DepositCapReached);
    assert_eq!((v.total_shares, v.stored_assets), (before.total_shares, before.stored_assets));
    // shares that round to zero
    v.total_shares = 1;
    v.stored_assets = 50;
    v.deposit_cap = u64::MAX;
    assert_eq!(deposit(&mut v, key(5), key(6), 10).unwrap_err(), VaultError::ZeroAmount);
    // a share count that does not fit in u64
    v.total_shares = 2;
    v.stored_assets = 1;
    v.per_tx_cap = u64::MAX;
    assert_eq!(deposit(&mut v, key(5), key(6), u64::MAX - 1).unwrap_err(), VaultError::MathOverflow);
    // supply overflow
    v.total_shares = u64::MAX;
    v.stored_assets = 1;
    assert_eq!(deposit(&mut v, key(5), key(6), 1).unwrap_err(), VaultError::MathOverflow);
    v.paused = true;
    assert_eq!(deposit(&mut v, key(5), key(6), 1).unwrap_err(), VaultError::Paused);
}

#[test]
fn withdraw_round_trip_and_errors() {
    let mut v = vault(10_000, 100);
    deposit(&mut v, key(5), key(6), 90).unwrap();
    assert_eq!(withdraw(&mut v, key(5), key(6), 0, 10_000).unwrap_err(), VaultError::ZeroAmount);
    assert_eq!(withdraw(&mut v, key(5), key(6), 1_091, 10_000).unwrap_err(), VaultError::InsufficientShares);
    assert_eq!(withdraw(&mut v, key(5), key(6), 30, 29).unwrap_err(), VaultError::InsufficientShares);
    v.per_tx_cap = 20;
    assert_eq!(withdraw(&mut v, key(5), key(6), 30, 10_000).unwrap_err(), VaultError::CapExceeded);
    v.per_tx_cap = 100;
    let ev = withdraw(&mut v, key(5), key(6), 30, 1_090).unwrap();
    assert_eq!((ev.assets, ev.shares), (30, 30));
    assert_eq!((v.total_shares, v.stored_assets, v.allocations[0].deployed), (1_060, 1_060, 1_060));
    // the idle reserve saturates at zero
    v.allocations[0].deployed = 5;
    withdraw(&mut v, key(5), key(6), 10, 1_090).unwrap();
    assert_eq!(v.allocations[0].deployed, 0);
    // redeeming against a NAV too small to pay anything
    v.stored_assets = 0;
    assert_eq!(withdraw(&mut v, key(5), key(6), 10, 1_090).unwrap_err(), VaultError::ZeroAmount);
    v.paused = true;
    assert_eq!(withdraw(&mut v, key(5), key(6), 10, 1_090).unwrap_err(), VaultError::Paused);
}

#[test]
fn deposit_then_withdraw_no_profit_after_gain() {
    let mut v = vault(u64::MAX, u64::MAX);
    deposit(&mut v, key(5), key(6), 1_000).unwrap();
    v.stored_assets = 2_333; // the venues earned
    let before = v.stored_assets;
    let ev = deposit(&mut v, key(5), key(6), 777).unwrap();
    let out = withdraw(&mut v, key(5), key(6), ev.shares, u64::MAX).unwrap();
    assert!(out.assets <= 777);
    assert!(v.stored_assets >= before);
}

#[test]
fn sync_sums_idle_and_venues() {
    let mut v = vault(1_000, 100);
    v.allocations[0] = Allocation { venue_id: 0, deployed: 10, last_nav: 999 };
    v.allocations[1] = Allocation { venue_id: 1, deployed: 999, last_nav: 20 };
    v.allocations[7] = Allocation { venue_id: 2, deployed: 5, last_nav: 30 };
    assert_eq!(sync(&mut v, key(5), key(8)).unwrap_err(), VaultError::Unauthorized);
    let ev = sync(&mut v, key(5), key(7)).unwrap();
    assert_eq!(ev.nav, 60);
    assert_eq!(v.stored_assets, 60);
    v.allocations[3] = Allocation { venue_id: 4, deployed: 0, last_nav: u64::MAX };
    assert_eq!(sync(&mut v, key(5), key(7)).unwrap_err(), VaultError::MathOverflow);
    assert_eq!(v.stored_assets, 60);
}

#[test]
fn rebalance_guards() {
    let mut v = vault(1_000, 10_000);
    let p = feed(1_000_000, 100, 500);
    let pool = feed(2_000_000, 0, 500);
    let feeds = SwapFeeds { layout: FeedLayout::SelfContained, pool: raw(&pool), input: raw(&p), output: raw(&p) };
    let now = 520;
    // fair output 10_000, floor 9_950
    assert_eq!(rebalance_quote(&v, key(7), &feeds, 2_010_000, now, 10_000), Ok(10_000));
    assert_eq!(rebalance_swap(&v, key(7), &feeds, 2_010_000, now, 10_000, 9_950), Ok(()));
    assert_eq!(rebalance_swap(&v, key(7), &feeds, 2_010_000, now, 10_000, 9_949), Err(VaultError::SlippageTooLoose));
    // a pool 1% + 1 bps off the oracle is refused
    assert_eq!(rebalance_swap(&v, key(7), &feeds, 2_020_200, now, 10_000, 9_950), Err(VaultError::PriceManipulated));
    assert_eq!(rebalance_swap(&v, key(7), &feeds, 1_979_800, now, 10_000, 9_950), Err(VaultError::PriceManipulated));
    assert_eq!(rebalance_swap(&v, key(8), &feeds, 2_010_000, now, 10_000, 9_950), Err(VaultError::Unauthorized));
    assert_eq!(rebalance_swap(&v, key(7), &feeds, 2_010_000, now, 0, 0), Err(VaultError::ZeroAmount));
    assert_eq!(rebalance_swap(&v, key(7), &feeds, 2_010_000, now, 10_001, 0), Err(VaultError::CapExceeded));
    assert_eq!(rebalance_swap(&v, key(7), &feeds, 2_010_000, 561, 10_000, 9_950), Err(VaultError::StaleOracle));
    // a confidence of 655_410 bps is refused, not wrapped
    let wide = feed(10_000, 655_410, 500);
    let wide_out = SwapFeeds { output: raw(&wide), ..feeds };
    assert_eq!(rebalance_swap(&v, key(7), &wide_out, 2_010_000, now, 10_000, 0), Err(VaultError::OracleUncertain));
    // a fair output of 2^64 is an overflow, not a floor of zero
    let two = feed(2, 0, 500);
    let one = feed(1, 0, 500);
    let big = SwapFeeds { input: raw(&two), output: raw(&one), ..feeds };
    v.per_tx_cap = u64::MAX;
    assert_eq!(rebalance_swap(&v, key(7), &big, 2_010_000, now, 1 << 63, 0), Err(VaultError::MathOverflow));
    // an out-of-range slippage setting is never reached when an earlier check fails
    v.guard.max_slippage_bps = 20_000;
    assert_eq!(rebalance_swap(&v, key(8), &feeds, 2_010_000, now, 10_000, 0), Err(VaultError::Unauthorized));
    v.paused = true;
    assert_eq!(rebalance_swap(&v, key(7), &feeds, 2_010_000, now, 10_000, 9_950), Err(VaultError::Paused));
}

#[test]
fn rebalance_settlement() {
    let ev = rebalance_settle(key(5), 100, 40, 1_000, 1_050).unwrap();
    assert_eq!((ev.amount_in, ev.received), (100, 50));
    assert_eq!(rebalance_settle(key(5), 100, 51, 1_000, 1_050).unwrap_err(), VaultError::SlippageExceeded);
    assert_eq!(rebalance_settle(key(5), 100, 0, 1_000, 999).unwrap_err(), VaultError::MathOverflow);
}

#[test]
fn only_the_authority_pauses() {
    let mut v = vault(10_000, 100);
    assert_eq!(set_paused(&mut v, key(5), key(2), true).unwrap_err(), VaultError::Unauthorized);
    assert!(!v.paused);
    let ev = set_paused(&mut v, key(5), key(1), true).unwrap();
    assert!(ev.paused && v.paused);
    assert_eq!(deposit(&mut v, key(5), key(6), 1).unwrap_err(), VaultError::Paused);
    set_paused(&mut v, key(5), key(1), false).unwrap();
    assert!(!v.paused);
}

#[test]
fn program_feed_guards() {
    let g = guard();
    let layout = FeedLayout::SelfContained;
    let p = feed(1_000_000, 100, 500);
    assert_eq!(read_oracle_raw(&p).unwrap().price, 1_000_000);
    assert_eq!(read_oracle_raw(&p[..5]).unwrap_err(), VaultError::StaleOracle);
    assert_eq!(read_feed(layout, &raw(&p)).unwrap().conf, 100);
    assert_eq!(read_oracle(layout, &raw(&p), &g, 560), Ok(1_000_000));
    assert_eq!(read_oracle(layout, &raw(&p), &g, 561), Err(VaultError::StaleOracle));
    assert_eq!(assert_pool_price_sane(layout, &raw(&p), 1_010_000, &g, 500), Ok(()));
    assert_eq!(assert_pool_price_sane(layout, &raw(&p), 1_010_100, &g, 500), Err(VaultError::PriceManipulated));
    // a deviation of 65_536 bps is refused, not wrapped
    let q = feed(10_000, 0, 500);
    assert_eq!(assert_pool_price_sane(layout, &raw(&q), 75_536, &g, 500), Err(VaultError::PriceManipulated));
    assert_eq!(check_pool_price(5, 0, &g), Err(VaultError::PriceManipulated));
    assert_eq!(check_pool_price(1, 0, &g), Ok(()));
    assert_eq!(oracle_quote(layout, &raw(&p), &raw(&feed(4_000_000, 0, 500)), 8, &g, 500), Ok(2));
    assert_eq!(fair_quote(1 << 63, 2, 1), Err(VaultError::MathOverflow));
    assert_eq!(fair_quote(5, 3, 0), Ok(15));
    assert_eq!(min_out_floor(10_000, &g), Ok(9_950));
    // a confidence of 655_410 bps is refused, not wrapped
    let wide = OraclePrice { price: 10_000, conf: 655_410, publish_time: 0 };
    assert_eq!(validate_oracle_price(wide, &g, 0), Err(VaultError::OracleUncertain));
    let ok = OraclePrice { price: 10_000, conf: 100, publish_time: 0 };
    assert_eq!(validate_oracle_price(ok, &g, 0), Ok(10_000));
    // a limit of 2^63 or more is not read as negative
    let mut open = g;
    open.max_staleness_secs = u64::MAX;
    assert_eq!(validate_oracle_price(ok, &open, 10), Ok(10_000));
    assert_eq!(validate_oracle_price(ok, &g, 61), Err(VaultError::StaleOracle));
}

fn price_update_bytes(price: i64, conf: u64, publish_time: i64) -> Vec<u8> {
    let update = PriceUpdateV2 {
        write_authority: anchor_lang::prelude::Pubkey::new_unique(),
        verification_level: VerificationLevel::Full,
        price_message: PriceFeedMessage {
            feed_id: [4; 32],
            price,
            conf,
            exponent: -6,
            publish_time,
            prev_publish_time: publish_time - 1,
            ema_price: price,
            ema_conf: conf,
        },
        posted_slot: 77,
    };
    let mut out = Vec::new();
    update.try_serialize(&mut out).unwrap();
    out
}

#[test]
fn pyth_feed_read() {
    let receiver = AccountKey::new(pyth_solana_receiver_sdk::ID.to_bytes());
    let g = guard();
    let good = price_update_bytes(1_000_000, 100, 500);
    let pyth = OracleAccount { owner: receiver, data: &good };
    assert_eq!(read_oracle(FeedLayout::Pyth, &pyth, &g, 520), Ok(1_000_000));
    assert_eq!(read_oracle(FeedLayout::Pyth, &pyth, &g, 561), Err(VaultError::StaleOracle));
    let spoofed = OracleAccount { owner: key(3), data: &good };
    assert_eq!(read_oracle(FeedLayout::Pyth, &spoofed, &g, 520), Err(VaultError::StaleOracle));
    assert_eq!(assert_pool_price_sane(FeedLayout::Pyth, &pyth, 1_010_000, &g, 520), Ok(()));
    assert_eq!(oracle_quote(FeedLayout::Pyth, &pyth, &pyth, 77, &g, 520), Ok(77));
    let v = vault(1_000, 10_000);
    let feeds = SwapFeeds { layout: FeedLayout::Pyth, pool: pyth, input: pyth, output: pyth };
    assert_eq!(rebalance_swap(&v, key(7), &feeds, 1_000_000, 520, 10_000, 9_950), Ok(()));
    let data = price_update_bytes(1_234_567, 89, 1_700_000_000);
    let p = read_oracle_raw_pyth(&receiver, &data).unwrap();
    assert_eq!((p.price, p.conf, p.publish_time), (1_234_567, 89, 1_700_000_000));
    // a feed not owned by the receiver program is refused
    assert_eq!(read_oracle_raw_pyth(&key(3), &data).unwrap_err(), VaultError::StaleOracle);
    // a non-positive price is refused
    let neg = price_update_bytes(-5, 89, 1_700_000_000);
    assert_eq!(read_oracle_raw_pyth(&receiver, &neg).unwrap_err(), VaultError::StaleOracle);
    // bytes that are not a price update are refused
    assert_eq!(read_oracle_raw_pyth(&receiver, &data[..20]).unwrap_err(), VaultError::StaleOracle);
    let mut wrong_disc = data.clone();
    wrong_disc[0] ^= 1;
    assert_eq!(read_oracle_raw_pyth(&receiver, &wrong_disc).unwrap_err(), VaultError::StaleOracle);
}

#[test]
fn price_from_update_values() {
    assert_eq!(price_from_update(None).unwrap_err(), VaultError::StaleOracle);
    assert_eq!(price_from_update(Some((0, 1, 2))).unwrap_err(), VaultError::StaleOracle);
    let p = price_from_update(Some((7, 1, -2))).unwrap();
    assert_eq!((p.price, p.conf, p.publish_time), (7, 1, -2));
}
