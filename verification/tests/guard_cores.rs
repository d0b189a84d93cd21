//! Concrete checks of the guard cores, their reads of the feed bytes, and
//! the laws of the share math.

use svs_vault::guards::{
    assert_keeper, assert_pool_price_sane, assert_within_caps, assets_for_shares, check_caps,
    check_min_out, check_oracle, deviation_bps, fair_out, min_out_floor, min_out_floor_bps,
    oracle_quote, read_oracle, read_oracle_raw, shares_for_deposit, GuardConfig, GuardError,
    OraclePrice,
};
use svs_vault::key::AccountKey;

fn key(b: u8) -> AccountKey {
    AccountKey::new([b; 32])
}

fn config() -> GuardConfig {
    GuardConfig {
        oracle: key(1),
        max_staleness_secs: 60,
        max_conf_bps: 100,
        max_deviation_bps: 100,
        max_slippage_bps: 50,
        keeper: key(2),
    }
}

fn feed(price: u64, conf: u64, publish_time: i64) -> Vec<u8> {
    let mut v = Vec::new();
    v.extend_from_slice(&price.to_le_bytes());
    v.extend_from_slice(&conf.to_le_bytes());
    v.extend_from_slice(&publish_time.to_le_bytes());
    v
}

#[test]
fn share_math_exact_values() {
    // first deposit: 1_000 * (0 + 1_000_000) / (0 + 1)
    assert_eq!(shares_for_deposit(1_000, 0, 0), 1_000_000_000);
    // 500 * (2_000_000 + 1_000_000) / (999 + 1)
    assert_eq!(shares_for_deposit(500, 2_000_000, 999), 1_500_000);
    // 3_000_000 * (1_000 + 1) / (2_000_000 + 1_000_000)
    assert_eq!(assets_for_shares(3_000_000, 2_000_000, 1_000), 1_001);
    assert_eq!(assets_for_shares(0, 0, 0), 0);
}

#[test]
fn deposit_then_redeem_never_profits() {
    for &(ts, sa, a) in &[(0u64, 0u64, 1u64), (5, 1_000_000, 7), (1_000_000, 3, 999_999), (123, 456, 789)] {
        let s = shares_for_deposit(a, ts, sa);
        let out = assets_for_shares(s, ts + s, sa + a);
        assert!(out <= a);
    }
}

#[test]
fn oracle_checks_each_outcome() {
    let c = config();
    assert_eq!(check_oracle(OraclePrice { price: 1_000, conf: 10, publish_time: 100 }, &c, 160), Ok(1_000));
    // 61 seconds old
    assert_eq!(
        check_oracle(OraclePrice { price: 1_000, conf: 10, publish_time: 100 }, &c, 161),
        Err(GuardError::StaleOracle)
    );
    // conf 101 bps
    assert_eq!(
        check_oracle(OraclePrice { price: 10_000, conf: 101, publish_time: 100 }, &c, 100),
        Err(GuardError::OracleUncertain)
    );
    // a zero price counts as 1 in the confidence
    assert_eq!(
        check_oracle(OraclePrice { price: 0, conf: 1, publish_time: 100 }, &c, 100),
        Err(GuardError::OracleUncertain)
    );
    assert_eq!(check_oracle(OraclePrice { price: 0, conf: 0, publish_time: 100 }, &c, 100), Ok(0));
    // the saturating difference: a publish time in the far past is stale
    assert_eq!(
        check_oracle(OraclePrice { price: 1, conf: 0, publish_time: i64::MIN }, &c, i64::MAX),
        Err(GuardError::StaleOracle)
    );
}

#[test]
fn oracle_staleness_limit_is_unsigned() {
    let mut c = config();
    // the largest limit switches the staleness check off
    c.max_staleness_secs = u64::MAX;
    assert_eq!(check_oracle(OraclePrice { price: 1, conf: 0, publish_time: 0 }, &c, 10), Ok(1));
    assert_eq!(
        check_oracle(OraclePrice { price: 1, conf: 0, publish_time: i64::MIN }, &c, i64::MAX),
        Ok(1)
    );
    // a limit just below the age refuses
    c.max_staleness_secs = u64::MAX - 1;
    assert_eq!(
        check_oracle(OraclePrice { price: 1, conf: 0, publish_time: i64::MIN }, &c, i64::MAX),
        Err(GuardError::StaleOracle)
    );
}

#[test]
fn deviation_and_band() {
    assert_eq!(deviation_bps(1_200_000, 1_000_000), 2_000);
    assert_eq!(deviation_bps(990_000, 1_000_000), 100);
    assert_eq!(deviation_bps(5, 0), 50_000);
    let c = config();
    assert_eq!(svs_vault::guards::check_pool_sane(1_010_000, 1_000_000, &c), Ok(()));
    assert_eq!(
        svs_vault::guards::check_pool_sane(1_010_001, 1_000_000, &c),
        Ok(())
    );
    assert_eq!(
        svs_vault::guards::check_pool_sane(1_010_100, 1_000_000, &c),
        Err(GuardError::PriceManipulated)
    );
}

#[test]
fn manipulated_pool_always_rejected() {
    let c = config();
    for &price in &[5u64, 9, 1_000, 123_457, 10_000_000] {
        assert_eq!(
            svs_vault::guards::check_pool_sane(price + price / 5, price, &c),
            Err(GuardError::PriceManipulated)
        );
    }
}

#[test]
fn fair_out_and_floor() {
    assert_eq!(fair_out(1_000, 3, 2), 1_500);
    assert_eq!(fair_out(1_000, 3, 0), 3_000);
    assert_eq!(min_out_floor_bps(10_000, 50), 9_950);
    assert_eq!(min_out_floor_bps(10_000, 10_000), 0);
    assert_eq!(min_out_floor_bps(3, 0), 3);
    let c = config();
    assert_eq!(min_out_floor(10_000, &c), Ok(9_950));
    assert_eq!(check_min_out(9_950, 10_000, &c), Ok(()));
    assert_eq!(check_min_out(9_949, 10_000, &c), Err(GuardError::SlippageTooLoose));
}

#[test]
fn caps_each_outcome() {
    assert_eq!(check_caps(true, 0, 0, 0, 0, true), Err(GuardError::Paused));
    assert_eq!(check_caps(false, 0, 10, 0, 10, true), Err(GuardError::ZeroAmount));
    assert_eq!(check_caps(false, 11, 10, 0, 100, false), Err(GuardError::CapExceeded));
    assert_eq!(check_caps(false, 2, 10, u64::MAX - 1, u64::MAX, true), Err(GuardError::MathOverflow));
    assert_eq!(check_caps(false, 2, 10, 99, 100, true), Err(GuardError::DepositCapReached));
    assert_eq!(check_caps(false, 1, 10, 99, 100, true), Ok(()));
    // a withdrawal ignores the deposit cap
    assert_eq!(check_caps(false, 2, 10, u64::MAX, 0, false), Ok(()));
    assert_eq!(assert_within_caps(false, 2, 10, 99, 100, true), Err(GuardError::DepositCapReached));
}

#[test]
fn keeper_only() {
    let c = config();
    assert_eq!(assert_keeper(&key(2), &c), Ok(()));
    assert_eq!(assert_keeper(&key(3), &c), Err(GuardError::Unauthorized));
    let mut near = [2u8; 32];
    near[31] = 3;
    assert_eq!(assert_keeper(&AccountKey::new(near), &c), Err(GuardError::Unauthorized));
}

#[test]
fn feed_decoding() {
    let data = feed(1_000_000, 500, -7);
    let p = read_oracle_raw(&data).unwrap();
    assert_eq!(p.price, 1_000_000);
    assert_eq!(p.conf, 500);
    assert_eq!(p.publish_time, -7);
    // trailing bytes are ignored
    let mut longer = feed(0x0102_0304_0506_0708, u64::MAX, i64::MIN);
    longer.push(9);
    let p = read_oracle_raw(&longer).unwrap();
    assert_eq!(p.price, 0x0102_0304_0506_0708);
    assert_eq!(p.conf, u64::MAX);
    assert_eq!(p.publish_time, i64::MIN);
    assert!(matches!(read_oracle_raw(&data[..23]), Err(GuardError::StaleOracle)));
}

#[test]
fn feed_guards() {
    let c = config();
    let good = feed(1_000_000, 500, 1_000);
    assert_eq!(read_oracle(&good, &c, 1_030), Ok(1_000_000));
    assert_eq!(read_oracle(&good, &c, 1_061), Err(GuardError::StaleOracle));
    assert_eq!(read_oracle(&good[..10], &c, 1_000), Err(GuardError::StaleOracle));
    assert_eq!(assert_pool_price_sane(&good, 1_005_000, &c, 1_000), Ok(()));
    assert_eq!(assert_pool_price_sane(&good, 1_200_000, &c, 1_000), Err(GuardError::PriceManipulated));
    let wide = feed(1_000_000, 50_000, 1_000);
    assert_eq!(assert_pool_price_sane(&wide, 1_000_000, &c, 1_000), Err(GuardError::OracleUncertain));
    let p_out = feed(2_000_000, 0, 1_000);
    assert_eq!(oracle_quote(&good, &p_out, 10_000, &c, 1_000), Ok(5_000));
    assert_eq!(oracle_quote(&good, &wide, 10_000, &c, 1_000), Err(GuardError::OracleUncertain));
}

#[test]
fn wide_bands_are_not_wrapped() {
    let c = config();
    // 2^60 * 10_000 bps of confidence is far above the limit
    assert_eq!(
        check_oracle(OraclePrice { price: 1, conf: 1 << 60, publish_time: 100 }, &c, 100),
        Err(GuardError::OracleUncertain)
    );
    assert_eq!(
        svs_vault::guards::check_pool_sane((1 << 60) + 1, 1, &c),
        Err(GuardError::PriceManipulated)
    );
    assert_eq!(deviation_bps((1 << 60) + 1, 1), (1u128 << 60) * 10_000);
}

#[test]
fn quote_overflow_is_refused() {
    let c = config();
    let p_in = feed(2, 0, 1_000);
    let p_out = feed(1, 0, 1_000);
    // 2^63 * 2 / 1 == 2^64 does not fit in u64
    assert_eq!(oracle_quote(&p_in, &p_out, 1 << 63, &c, 1_000), Err(GuardError::MathOverflow));
    assert_eq!(oracle_quote(&p_in, &p_out, (1 << 63) - 1, &c, 1_000), Ok(u64::MAX - 1));
}
