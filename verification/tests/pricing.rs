//! Price, threshold, split and yield formulas on concrete values.

use crown_clash::constants::HIT_A_LICK_MAX;
use crown_clash::constants::HIT_A_LICK_MIN;
use crown_clash::constants::SURPLUS_BEAST;
use crown_clash::constants::SURPLUS_DEV;
use crown_clash::constants::SURPLUS_JACKPOT;
use crown_clash::constants::SURPLUS_YIELD;
use crown_clash::errors::StealError;
use crown_clash::logic::calculate_entry_cost;
use crown_clash::logic::calculate_hit_a_lick_end_payouts;
use crown_clash::logic::calculate_hit_a_lick_entry_cost;
use crown_clash::logic::calculate_hit_a_lick_old_king_payout;
use crown_clash::logic::calculate_hit_a_lick_overhead_split;
use crown_clash::logic::calculate_hit_a_lick_price;
use crown_clash::logic::calculate_run_it_up_split;
use crown_clash::logic::calculate_time_bonus;
use crown_clash::logic::calculate_yield;
use crown_clash::logic::calculate_yield_with_cap;
use crown_clash::logic::compute_min_growth_steals_for_war;
use crown_clash::logic::execute_entry;
use crown_clash::logic::is_mega_hit_a_lick;
use crown_clash::logic::is_vip;
use crown_clash::logic::verify_token_mint;
use crown_clash::state::Pubkey;

fn key(tag: u64) -> Pubkey {
    Pubkey { w0: tag, w1: 0, w2: 0, w3: 0 }
}

#[test]
fn entry_cost_is_listed_price() {
    assert_eq!(calculate_entry_cost(0, 20_000_000), 20_000_000);
    assert_eq!(calculate_entry_cost(u64::MAX, 20_000_000), 20_000_000);
    assert_eq!(execute_entry(0, 33), (33, 0, 0));
}

#[test]
fn vip_threshold_is_exact() {
    assert!(!is_vip(999_999_999_999));
    assert!(is_vip(1_000_000_000_000));
    assert!(is_vip(u64::MAX));
}

#[test]
fn mint_verification() {
    assert_eq!(verify_token_mint(key(7), key(7)), Ok(()));
    assert_eq!(verify_token_mint(key(7), key(8)), Err(StealError::InvalidMint));
}

#[test]
fn growth_price_escalates_twelve_percent() {
    // Scenario: one growth steal from the starting price.
    let (refund, dev, beast, yield_add, jackpot) =
        calculate_run_it_up_split(20_000_000, 22_400_000);
    assert_eq!(refund, 20_000_000);
    assert_eq!(dev, 144_000);
    assert_eq!(beast, 12_000);
    assert_eq!(yield_add, 480_000);
    assert_eq!(jackpot, 1_764_000);
    // The whole profit delta is accounted for.
    assert_eq!(dev + beast + yield_add + jackpot, 2_400_000);
}

#[test]
fn growth_split_constants_sum_to_thousand() {
    assert_eq!(SURPLUS_DEV + SURPLUS_BEAST + SURPLUS_YIELD + SURPLUS_JACKPOT, 1000);
}

#[test]
fn growth_split_never_exceeds_delta() {
    for delta in [0u64, 1, 7, 999, 1000, 123_456_789, u64::MAX / 735] {
        let (_, dev, beast, yield_add, jackpot) = calculate_run_it_up_split(0, delta);
        assert!(dev as u128 + beast as u128 + yield_add as u128 + jackpot as u128 <= delta as u128);
    }
}

#[test]
fn hit_a_lick_price_clamped_to_band() {
    // 3% of the pot, clamped into [0.05, 1.5] SOL.
    assert_eq!(calculate_hit_a_lick_price(0), HIT_A_LICK_MIN);
    assert_eq!(calculate_hit_a_lick_price(2_000_000_000), 60_000_000);
    assert_eq!(calculate_hit_a_lick_price(5_000_000_000), 150_000_000);
    assert_eq!(calculate_hit_a_lick_price(1_000_000_000_000), HIT_A_LICK_MAX);
    // A pot whose share computation overflows still lands on the ceiling.
    assert_eq!(calculate_hit_a_lick_price(u64::MAX), HIT_A_LICK_MAX);
    for pot in [0u64, 1, 49_999_999_999, 50_000_000_000, u64::MAX] {
        let p = calculate_hit_a_lick_price(pot);
        assert!(HIT_A_LICK_MIN <= p && p <= HIT_A_LICK_MAX);
    }
}

#[test]
fn min_growth_steals_formula() {
    // Base 35 plus 15 per whole SOL, clamped to [35, 100].
    assert_eq!(compute_min_growth_steals_for_war(0), 35);
    assert_eq!(compute_min_growth_steals_for_war(100_000_000), 36);
    assert_eq!(compute_min_growth_steals_for_war(999_999_999), 49);
    assert_eq!(compute_min_growth_steals_for_war(1_000_000_000), 50);
    assert_eq!(compute_min_growth_steals_for_war(4_000_000_000), 95);
    // Scenario: a ten-SOL jackpot pins the threshold at the ceiling.
    assert_eq!(compute_min_growth_steals_for_war(10_000_000_000), 100);
    // The clamp applies before the value narrows to its stored width, so
    // an enormous jackpot stays pinned at the ceiling.
    assert_eq!(compute_min_growth_steals_for_war(4_370_000_000_000), 100);
    assert_eq!(compute_min_growth_steals_for_war(u64::MAX), 100);
    // A larger jackpot never asks for fewer steals.
    let mut previous: u16 = 0;
    for jackpot in [0u64, 500_000_000, 2_000_000_000, 10_000_000_000, u64::MAX] {
        let threshold = compute_min_growth_steals_for_war(jackpot);
        assert!(threshold >= previous);
        previous = threshold;
    }
}

#[test]
fn hit_a_lick_entry_cost_surcharge() {
    assert_eq!(calculate_hit_a_lick_entry_cost(100_000_000, false), 112_000_000);
    assert_eq!(calculate_hit_a_lick_entry_cost(100_000_000, true), 100_000_000);
    assert_eq!(calculate_hit_a_lick_entry_cost(0, false), 0);
}

#[test]
fn hit_a_lick_old_king_payout_is_ninety_percent() {
    assert_eq!(calculate_hit_a_lick_old_king_payout(100_000_000), 90_000_000);
    assert_eq!(calculate_hit_a_lick_old_king_payout(1), 0);
}

#[test]
fn hit_a_lick_overhead_split() {
    let (dev, beast, yield_add, jackpot) = calculate_hit_a_lick_overhead_split(100_000_000);
    assert_eq!(dev, 5_000_000);
    assert_eq!(beast, 0);
    assert_eq!(yield_add, 0);
    assert_eq!(jackpot, 5_000_000);
}

#[test]
fn time_bonus_is_linear_and_capped() {
    assert_eq!(calculate_time_bonus(0), 1000);
    assert_eq!(calculate_time_bonus(15), 1500);
    assert_eq!(calculate_time_bonus(30), 2000);
    assert_eq!(calculate_time_bonus(10_000), 2000);
}

#[test]
fn yield_formula_exact_values() {
    // 5% of the payment, scaled by the time bonus.
    assert_eq!(calculate_yield(1_000_000_000, 0, false), 50_000_000);
    assert_eq!(calculate_yield(1_000_000_000, 30, false), 100_000_000);
    // VIP holders earn double.
    assert_eq!(calculate_yield(1_000_000_000, 30, true), 200_000_000);
}

#[test]
fn yield_caps_apply() {
    // Cap by half the entry price.
    assert_eq!(
        calculate_yield_with_cap(u64::MAX, 1_000_000, 1_000_000_000, 30, false),
        500_000
    );
    // Cap by the remaining pool.
    assert_eq!(calculate_yield_with_cap(1_000, 1_000_000, 1_000_000_000, 30, false), 1_000);
    // No cap binds.
    assert_eq!(
        calculate_yield_with_cap(u64::MAX, u64::MAX / 500, 1_000_000_000, 30, false),
        100_000_000
    );
    // The paid amount never exceeds either cap.
    for pool in [0u64, 5_000, 1_000_000_000] {
        for entry in [100_000u64, 22_400_000] {
            let y = calculate_yield_with_cap(pool, entry, 1_000_000_000, 17, true);
            assert!(y <= pool);
            assert!(y <= entry / 2);
        }
    }
}

#[test]
fn mega_pot_threshold() {
    assert!(!is_mega_hit_a_lick(49_999_999_999));
    assert!(is_mega_hit_a_lick(50_000_000_000));
}

#[test]
fn end_payout_tables_account_for_pot() {
    // Normal table on a round pot: 15% / 6% / 4% / 75%.
    let (w1, w2, w3, dev, beast, rollover) = calculate_hit_a_lick_end_payouts(1_000_000);
    assert_eq!((w1, w2, w3, dev, beast, rollover), (150_000, 60_000, 40_000, 0, 0, 750_000));
    assert_eq!(w1 + w2 + w3 + dev + beast + rollover, 1_000_000);
    // Mega table: 25% / 10% / 5% / 60%.
    let (m1, m2, m3, mdev, mbeast, mroll) = calculate_hit_a_lick_end_payouts(100_000_000_000);
    assert_eq!(
        (m1, m2, m3, mdev, mbeast, mroll),
        (25_000_000_000, 10_000_000_000, 5_000_000_000, 0, 0, 60_000_000_000)
    );
    assert_eq!(m1 + m2 + m3 + mdev + mbeast + mroll, 100_000_000_000);
    // A pot that does not divide evenly is conserved exactly: the rollover
    // absorbs what the floored shares lose to rounding.
    let (s1, s2, s3, sdev, sbeast, sroll) = calculate_hit_a_lick_end_payouts(7);
    assert_eq!((s1, s2, s3, sdev, sbeast, sroll), (1, 0, 0, 0, 0, 6));
    let (t1, t2, t3, tdev, tbeast, troll) = calculate_hit_a_lick_end_payouts(1_001);
    assert_eq!((t1, t2, t3, tdev, tbeast, troll), (150, 60, 40, 0, 0, 751));
    for pot in [0u64, 1, 7, 999, 1_001, 49_999_999_999, 50_000_000_001, u64::MAX] {
        let (a, b, c, d, e, f) = calculate_hit_a_lick_end_payouts(pot);
        let paid = a as u128 + b as u128 + c as u128 + d as u128 + e as u128 + f as u128;
        assert_eq!(paid, pot as u128);
    }
}
