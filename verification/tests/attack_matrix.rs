//! Attack matrix A1-A9 over the guard cores.

use anchor_lang::prelude::Pubkey;
use svs_vault::guards::{
    assets_for_shares, check_caps, check_keeper, check_min_out, check_oracle, check_pool_sane,
    fair_out, min_out_floor_bps, shares_for_deposit, GuardConfig, GuardError, OraclePrice,
};
use svs_vault::key::AccountKey;

const NOW: i64 = 1_000_000;

fn unique_key() -> AccountKey {
    AccountKey::new(Pubkey::new_unique().to_bytes())
}

fn cfg() -> GuardConfig {
    GuardConfig {
        oracle: unique_key(),
        max_staleness_secs: 60,
        max_conf_bps: 100,      // 1%
        max_deviation_bps: 100, // 1%
        max_slippage_bps: 50,   // 0.5%
        keeper: unique_key(),
    }
}

fn fresh(price: u64, conf: u64) -> OraclePrice {
    OraclePrice { price, conf, publish_time: NOW }
}

// ---- control paths (the normal flow must succeed) ----

#[test]
fn control_in_band_rebalance_succeeds() {
    let c = cfg();
    // oracle = 1_000_000 (scaled $1.00), pool within 1% band
    check_pool_sane(1_005_000, 1_000_000, &c).unwrap();
    let price = check_oracle(fresh(1_000_000, 500), &c, NOW).unwrap();
    let fair = fair_out(1_000, price, price);
    check_min_out(min_out_floor_bps(fair, c.max_slippage_bps), fair, &c).unwrap();
}

#[test]
fn control_normal_deposit_succeeds() {
    check_caps(false, 1_000, 1_000_000, 0, u64::MAX, true).unwrap();
    assert!(shares_for_deposit(1_000, 0, 0) > 0);
}

// ---- A1: oracle / pool price manipulation ----

#[test]
fn a1_manipulated_pool_price_reverts() {
    let c = cfg();
    // pool implies $1.20 vs oracle $1.00 => 20% off, band is 1%
    assert!(matches!(
        check_pool_sane(1_200_000, 1_000_000, &c),
        Err(GuardError::PriceManipulated)
    ));
}

// ---- A2: sandwich / loose min_out ----

#[test]
fn a2_loose_min_out_reverts() {
    let c = cfg();
    let price = 1_000_000;
    let fair = fair_out(10_000, price, price); // 10_000
    let floor = min_out_floor_bps(fair, c.max_slippage_bps); // 9_950
    assert!(matches!(check_min_out(floor - 1, fair, &c), Err(GuardError::SlippageTooLoose)));
    // and the exact floor is accepted
    check_min_out(floor, fair, &c).unwrap();
}

// ---- A3: stale oracle ----

#[test]
fn a3_stale_oracle_reverts() {
    let c = cfg();
    let stale = OraclePrice { price: 1_000_000, conf: 100, publish_time: NOW - 10_000 };
    assert!(matches!(check_oracle(stale, &c, NOW), Err(GuardError::StaleOracle)));
}

// ---- A4: wide confidence ----

#[test]
fn a4_wide_confidence_reverts() {
    let c = cfg();
    // conf 5% of price, max is 1%
    let uncertain = fresh(1_000_000, 50_000);
    assert!(matches!(check_oracle(uncertain, &c, NOW), Err(GuardError::OracleUncertain)));
}

// ---- A5: first-deposit / donation inflation ----

#[test]
fn a5_first_deposit_inflation_neutralized() {
    // attacker deposits 1 unit
    let attacker_in = 1u64;
    let attacker_shares = shares_for_deposit(attacker_in, 0, 0);
    let mut total_shares = attacker_shares;
    let mut stored = attacker_in; // NAV tracks stored_assets, NOT the ATA

    // attacker DONATES 1_000_000 directly to the vault ATA.
    // NAV uses stored_assets, so the donation does NOT change share price.
    // (stored is unchanged here on purpose.)

    // victim deposits 1_000_000
    let victim_in = 1_000_000u64;
    let victim_shares = shares_for_deposit(victim_in, total_shares, stored);
    total_shares += victim_shares;
    stored += victim_in;

    // victim must receive a fair, non-zero amount of shares
    assert!(victim_shares > 0, "victim got zero shares (inflation succeeded)");

    // attacker cannot extract the victim's deposit: redeeming all attacker
    // shares returns no more than the attacker actually contributed.
    let attacker_out = assets_for_shares(attacker_shares, total_shares, stored);
    assert!(attacker_out <= attacker_in + 1, "attacker profited from inflation");

    // victim can redeem ~their deposit back
    let victim_out = assets_for_shares(victim_shares, total_shares, stored);
    assert!(victim_out >= victim_in - victim_in / 1000, "victim was diluted");
}

// ---- A6: unauthorized crank ----

#[test]
fn a6_unauthorized_crank_reverts() {
    let c = cfg();
    let attacker = unique_key();
    assert!(matches!(check_keeper(&attacker, &c.keeper), Err(GuardError::Unauthorized)));
    check_keeper(&c.keeper, &c.keeper).unwrap();
}

// ---- A7: cap breach ----

#[test]
fn a7_cap_breach_reverts() {
    // per-tx cap
    assert!(matches!(
        check_caps(false, 2_000_000, 1_000_000, 0, u64::MAX, true),
        Err(GuardError::CapExceeded)
    ));
    // deposit cap
    assert!(matches!(
        check_caps(false, 600, 1_000_000, 500, 1_000, true),
        Err(GuardError::DepositCapReached)
    ));
}

// ---- A8: paused vault ----

#[test]
fn a8_paused_vault_reverts() {
    assert!(matches!(
        check_caps(true, 100, 1_000_000, 0, u64::MAX, true),
        Err(GuardError::Paused)
    ));
}

// ---- A9: account substitution (key mismatch) ----
//
// Full A9 (wrong ATA / wrong PDA) is enforced at runtime by the account
// constraints. This models the underlying key-equality predicate those
// constraints reduce to.
#[test]
fn a9_account_substitution_key_mismatch_reverts() {
    let expected_authority = unique_key();
    let substituted = unique_key();
    assert!(matches!(check_keeper(&substituted, &expected_authority), Err(GuardError::Unauthorized)));
}
