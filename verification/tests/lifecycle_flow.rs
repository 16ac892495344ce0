//! Full-record lifecycle: initialization, steals with settlement, round
//! ends with up to three winners, resets and buybacks, including the
//! rejection for every reachable error.

use crown_clash::errors::StealError;
use crown_clash::lifecycle::beast_buyback_burn;
use crown_clash::lifecycle::current_entry_cost;
use crown_clash::lifecycle::end_round;
use crown_clash::lifecycle::initialize_config;
use crown_clash::lifecycle::initialize_game;
use crown_clash::lifecycle::reset_round;
use crown_clash::lifecycle::steal;
use crown_clash::state::GameAccount;
use crown_clash::state::Pubkey;

fn key(tag: u64) -> Pubkey {
    Pubkey { w0: tag, w1: 0, w2: 0, w3: 0 }
}

fn fresh_game(now: i64) -> GameAccount {
    initialize_game(0, 0, 0, now, key(100), key(101), key(102), 255)
}

/// A war-phase record with a holder, used by the war-specific tests.
fn war_game(now: i64) -> GameAccount {
    let mut g = fresh_game(now);
    g.is_hit_a_lick_mode = true;
    g.hit_a_lick_price = 100_000_000;
    g.hit_a_lick_end_time = now + 10;
    g.current_king = key(1);
    g.has_king = true;
    g.king_since = now;
    g.king_entry_price = 112_000_000;
    g.jackpot_balance = 1_000_000_000;
    g
}

#[test]
fn initialize_game_fields() {
    let g = initialize_game(7_000, 3_000, 42, 1_000, key(100), key(101), key(102), 255);
    assert_eq!(g.current_price, 20_000_000);
    assert_eq!(g.jackpot_balance, 7_000);
    assert_eq!(g.yield_pool, 3_000);
    assert_eq!(g.round_end_time, 1_600);
    assert_eq!(g.growth_hard_end_ts, 1_180);
    assert_eq!(g.season_start_time, 42);
    assert!(!g.has_king);
    assert_eq!(g.round, 1);
    assert_eq!(g.min_growth_steals_for_war, 35);
    assert_eq!(g.dev_wallet, key(100));
    assert_eq!(g.beast_wallet, key(101));
    assert_eq!(g.steal_mint, key(102));
    assert_eq!(g.bump, 255);
}

#[test]
fn initialize_config_fields() {
    let c = initialize_config(key(1), key(2), key(3), key(4), 254);
    assert_eq!(c.authority, key(1));
    assert_eq!(c.dev_wallet, key(2));
    assert_eq!(c.beast_wallet, key(3));
    assert_eq!(c.steal_mint, key(4));
    assert_eq!(c.bump, 254);
}

#[test]
fn entry_cost_follows_phase_and_status() {
    let g = fresh_game(1_000);
    assert_eq!(current_entry_cost(&g, 0), 22_400_000);
    let w = war_game(1_000);
    assert_eq!(current_entry_cost(&w, 0), 112_000_000);
    assert_eq!(current_entry_cost(&w, 1_000_000_000_000), 100_000_000);
}

#[test]
fn first_steal_crowns_without_payout() {
    let mut g = fresh_game(1_000);
    let plan = steal(&mut g, 1_000, key(1), 0, 1_000_000_000, Pubkey::default(), 22_400_000)
        .expect("first steal");
    assert_eq!(plan.entry_cost, 22_400_000);
    assert_eq!(plan.old_king_payout, 0);
    assert_eq!(plan.yield_paid, 0);
    assert_eq!(plan.dev_cut, 144_000);
    assert_eq!(plan.beast_cut, 12_000);
    assert_eq!(g.current_king, key(1));
    assert!(g.has_king);
    assert_eq!(g.king_entry_price, 22_400_000);
    assert_eq!(g.current_price, 22_400_000);
    assert_eq!(g.pending_jackpot, 1_764_000);
    assert_eq!(g.yield_pool, 480_000);
    assert_eq!(g.total_steals, 1);
    assert_eq!(g.beast_sol_pending, 12_000);
    // The timer extension is capped at the full duration from now.
    assert_eq!(g.round_end_time, 1_600);
}

#[test]
fn second_steal_settles_previous_holder() {
    let mut g = fresh_game(1_000);
    steal(&mut g, 1_000, key(1), 0, 1_000_000_000, Pubkey::default(), 22_400_000).unwrap();
    let plan = steal(&mut g, 1_010, key(2), 0, 1_000_000_000, key(1), 1_000_000_000)
        .expect("second steal");
    assert_eq!(plan.entry_cost, 25_088_000);
    // Full refund of what the holder paid, plus the whole remaining pool's
    // worth of yield (the pool is smaller than the formula's amount).
    assert_eq!(plan.yield_paid, 480_000);
    assert_eq!(plan.old_king_payout, 22_400_000 + 480_000);
    assert_eq!(g.current_king, key(2));
    assert_eq!(g.king_entry_price, 25_088_000);
    // Pool: drained by the payout, refilled by the new entry's share.
    assert_eq!(g.yield_pool, 537_600);
}

#[test]
fn stale_old_holder_is_skipped_not_paid() {
    // Scenario: two steals race against the same recorded holder; the
    // second to commit sees a new holder and must not pay the stale one.
    let mut g = fresh_game(1_000);
    steal(&mut g, 1_000, key(1), 0, 1_000_000_000, Pubkey::default(), 22_400_000).unwrap();
    steal(&mut g, 1_010, key(2), 0, 1_000_000_000, key(1), 1_000_000_000).unwrap();
    // This caller still names the long-gone holder as the one to pay.
    let plan = steal(&mut g, 1_020, key(3), 0, 1_000_000_000, key(1), 1_000_000_000)
        .expect("stale steal");
    assert_eq!(plan.old_king_payout, 0);
    assert_eq!(plan.yield_paid, 0);
    assert_eq!(g.current_king, key(3));
    // The unpaid holder is made whole on the next steal against them.
    let plan2 = steal(&mut g, 1_030, key(4), 0, 1_000_000_000, key(3), 1_000_000_000)
        .expect("settling steal");
    assert!(plan2.old_king_payout > 0);
}

#[test]
fn self_steal_pays_no_one() {
    let mut g = fresh_game(1_000);
    steal(&mut g, 1_000, key(1), 0, 1_000_000_000, Pubkey::default(), 22_400_000).unwrap();
    let plan = steal(&mut g, 1_010, key(1), 0, 1_000_000_000, key(1), 1_000_000_000).unwrap();
    assert_eq!(plan.old_king_payout, 0);
}

#[test]
fn steal_before_season_rejected() {
    let mut g = fresh_game(1_000);
    g.season_start_time = 2_000;
    let r = steal(&mut g, 1_500, key(1), 0, 1_000_000_000, Pubkey::default(), 1_000_000_000);
    assert_eq!(r.unwrap_err(), StealError::SeasonNotStarted);
    assert_eq!(g.total_steals, 0);
}

#[test]
fn steal_after_growth_timer_rejected() {
    let mut g = fresh_game(1_000);
    let r = steal(&mut g, 1_600, key(1), 0, 1_000_000_000, Pubkey::default(), 1_000_000_000);
    assert_eq!(r.unwrap_err(), StealError::RoundEnded);
}

#[test]
fn steal_with_insufficient_funds_rejected() {
    let mut g = fresh_game(1_000);
    let r = steal(&mut g, 1_000, key(1), 0, 22_399_999, Pubkey::default(), 1_000_000_000);
    assert_eq!(r.unwrap_err(), StealError::InsufficientFunds);
}

#[test]
fn steal_with_underfunded_vault_rejected() {
    let mut g = fresh_game(1_000);
    steal(&mut g, 1_000, key(1), 0, 1_000_000_000, Pubkey::default(), 22_400_000).unwrap();
    // The vault cannot cover the holder's refund.
    let r = steal(&mut g, 1_010, key(2), 0, 1_000_000_000, key(1), 1_000_000);
    assert_eq!(r.unwrap_err(), StealError::InsufficientVaultBalance);
    assert_eq!(g.current_king, key(1));
}

#[test]
fn war_steal_applies_surcharge_and_records_king() {
    let mut g = war_game(1_000);
    let plan = steal(&mut g, 1_005, key(2), 0, 1_000_000_000, key(1), 1_000_000_000)
        .expect("war steal");
    // Frozen ticket plus the 12% surcharge for a non-VIP.
    assert_eq!(plan.entry_cost, 112_000_000);
    // 90% of what the dethroned holder actually paid, no yield.
    assert_eq!(plan.old_king_payout, 100_800_000);
    assert_eq!(plan.yield_paid, 0);
    assert_eq!(plan.dev_cut, 5_000_000);
    assert_eq!(plan.beast_cut, 0);
    // Ticket share plus the whole surcharge gap feeds the pending jackpot.
    assert_eq!(g.pending_jackpot, 5_000_000 + 12_000_000);
    // The countdown re-arms to its fixed duration.
    assert_eq!(g.hit_a_lick_end_time, 1_015);
    assert_eq!(g.recent_kings_count, 1);
    assert_eq!(g.recent_kings[0], key(2));
    assert_eq!(g.king_base_price, 100_000_000);
    assert_eq!(g.king_entry_price, 112_000_000);
}

#[test]
fn war_vip_pays_no_surcharge() {
    let mut g = war_game(1_000);
    let plan = steal(&mut g, 1_005, key(2), 1_000_000_000_000, 1_000_000_000, key(1),
        1_000_000_000).expect("vip steal");
    assert_eq!(plan.entry_cost, 100_000_000);
    assert!(g.king_was_vip);
    assert_eq!(g.pending_jackpot, 5_000_000);
}

#[test]
fn war_rate_limit_blocks_quick_resteal() {
    let mut g = war_game(1_000);
    steal(&mut g, 1_005, key(2), 0, 1_000_000_000, key(1), 1_000_000_000).unwrap();
    let r = steal(&mut g, 1_006, key(2), 0, 1_000_000_000, key(2), 1_000_000_000);
    assert_eq!(r.unwrap_err(), StealError::RateLimitExceeded);
    // After the cooldown the same wallet may steal again.
    let r2 = steal(&mut g, 1_007, key(2), 0, 1_000_000_000, key(2), 1_000_000_000);
    assert!(r2.is_ok());
}

#[test]
fn war_steal_after_settleable_rejected() {
    let mut g = war_game(1_000);
    g.king_since = 990;
    // The countdown has run out and the holder has held long enough.
    let r = steal(&mut g, 1_010, key(2), 0, 1_000_000_000, key(1), 1_000_000_000);
    assert_eq!(r.unwrap_err(), StealError::RoundEnded);
}

#[test]
fn war_sniping_window_stays_open_for_short_holds() {
    let mut g = war_game(1_000);
    // The countdown has elapsed, but the holder took the crown a second
    // before it did: still snipeable.
    g.king_since = 1_009;
    let r = steal(&mut g, 1_010, key(2), 0, 1_000_000_000, key(1), 1_000_000_000);
    assert!(r.is_ok());
}

#[test]
fn war_refund_of_dust_entry_rejected() {
    let mut g = war_game(1_000);
    // A recorded entry so small that 90% of it rounds to nothing.
    g.king_entry_price = 1;
    let r = steal(&mut g, 1_005, key(2), 0, 1_000_000_000, key(1), 1_000_000_000);
    assert_eq!(r.unwrap_err(), StealError::InvalidAccount);
}

#[test]
fn growth_steal_can_flip_into_war() {
    let mut g = fresh_game(1_000);
    g.jackpot_balance = 5_000_000_000;
    g.growth_steals = 34;
    g.min_growth_steals_for_war = 35;
    let plan = steal(&mut g, 1_000, key(1), 0, 1_000_000_000, Pubkey::default(),
        1_000_000_000).expect("flipping steal");
    // The steal itself is still priced as growth.
    assert_eq!(plan.entry_cost, 22_400_000);
    assert!(g.is_hit_a_lick_mode);
    assert_eq!(g.hit_a_lick_price, 150_000_000);
    assert_eq!(g.current_price, 150_000_000);
    assert_eq!(g.hit_a_lick_end_time, 1_010);
    // What the flipping player actually paid is what a dethroner refunds.
    assert_eq!(g.king_entry_price, 22_400_000);
    assert_eq!(g.king_base_price, 150_000_000);
    // The war starts a fresh race with the flipping player recorded.
    assert_eq!(g.recent_kings_count, 1);
    assert_eq!(g.recent_kings[0], key(1));
}

#[test]
fn war_triggers_on_steal_count_even_with_empty_pot() {
    // Unlike the in-memory model, the full-record transition lets the
    // steal-count trigger fire with nothing in the jackpot; the ticket then
    // clamps up to its floor.
    let mut g = fresh_game(1_000);
    g.growth_steals = 34;
    g.min_growth_steals_for_war = 35;
    steal(&mut g, 1_000, key(1), 0, 1_000_000_000, Pubkey::default(), 22_400_000).unwrap();
    assert!(g.is_hit_a_lick_mode);
    assert_eq!(g.hit_a_lick_price, 50_000_000);
}

#[test]
fn end_round_pays_three_places() {
    let mut g = war_game(1_000);
    g.king_since = 990;
    g.recent_kings = [key(1), key(2), key(3)];
    g.recent_kings_count = 3;
    g.pending_jackpot = 500;
    let plan = end_round(&mut g, 1_020, key(1), Some(key(2)), Some(key(3)))
        .expect("end round");
    assert_eq!(plan.winner1_payout, 150_000_000);
    assert_eq!(plan.winner2_payout, 60_000_000);
    assert_eq!(plan.winner3_payout, 40_000_000);
    assert_eq!(g.jackpot_balance, 750_000_000 + 500);
    assert_eq!(g.pending_jackpot, 0);
    assert!(!g.has_king);
    assert!(!g.is_hit_a_lick_mode);
    assert_eq!(g.round, 2);
    assert_eq!(g.recent_kings_count, 0);
    assert_eq!(g.round_end_time, 1_620);
}

#[test]
fn end_round_unfilled_slot_rolls_over() {
    // Scenario: a war round with only two recorded kings and a pot below
    // the mega threshold; the third share is rolled over, not paid.
    let mut g = war_game(1_000);
    g.king_since = 990;
    g.recent_kings = [key(1), key(2), Pubkey::default()];
    g.recent_kings_count = 2;
    let plan = end_round(&mut g, 1_020, key(1), Some(key(2)), None).expect("end round");
    assert_eq!(plan.winner1_payout, 150_000_000);
    assert_eq!(plan.winner2_payout, 60_000_000);
    assert_eq!(plan.winner3_payout, 0);
    // Rollover plus the unclaimed third share.
    assert_eq!(g.jackpot_balance, 750_000_000 + 40_000_000);
}

#[test]
fn end_round_without_second_account_skips_that_payment() {
    let mut g = war_game(1_000);
    g.king_since = 990;
    g.recent_kings = [key(1), key(2), Pubkey::default()];
    g.recent_kings_count = 2;
    let plan = end_round(&mut g, 1_020, key(1), None, None).expect("end round");
    assert_eq!(plan.winner1_payout, 150_000_000);
    assert_eq!(plan.winner2_payout, 0);
}

#[test]
fn end_round_with_no_recorded_kings_refunds_holder() {
    let mut g = war_game(1_000);
    g.king_since = 990;
    let plan = end_round(&mut g, 1_020, key(1), None, None).expect("end round");
    // No recorded race: the still-current holder gets back what they paid,
    // and every table share rolls over.
    assert_eq!(plan.winner1_payout, 112_000_000);
    assert_eq!(g.jackpot_balance, 750_000_000 + 250_000_000);
}

#[test]
fn end_round_too_early_rejected() {
    let mut g = war_game(1_000);
    let r = end_round(&mut g, 1_005, key(1), None, None);
    assert_eq!(r.unwrap_err(), StealError::RoundNotEnded);
}

#[test]
fn end_round_short_hold_extends_deadline() {
    let mut g = war_game(1_000);
    g.king_since = 1_009;
    let r = end_round(&mut g, 1_010, key(1), None, None);
    assert_eq!(r.unwrap_err(), StealError::KingMustHoldLonger);
    // The deliberate exception: the deadline is pushed to the minimum hold.
    assert_eq!(g.hit_a_lick_end_time, 1_012);
    assert!(g.has_king);
}

#[test]
fn end_round_wrong_winner_rejected() {
    let mut g = war_game(1_000);
    g.king_since = 990;
    let r = end_round(&mut g, 1_020, key(9), None, None);
    assert_eq!(r.unwrap_err(), StealError::InvalidWinner);
}

#[test]
fn end_round_wrong_second_place_rejected() {
    let mut g = war_game(1_000);
    g.king_since = 990;
    g.recent_kings = [key(1), key(2), Pubkey::default()];
    g.recent_kings_count = 2;
    let r = end_round(&mut g, 1_020, key(1), Some(key(9)), None);
    assert_eq!(r.unwrap_err(), StealError::InvalidWinner);
    // Nothing committed.
    assert!(g.has_king);
    assert_eq!(g.round, 1);
}

#[test]
fn end_round_without_holder_rejected() {
    let mut g = fresh_game(1_000);
    let r = end_round(&mut g, 1_700, Pubkey::default(), None, None);
    assert_eq!(r.unwrap_err(), StealError::NoKing);
}

#[test]
fn dead_round_end_refunds_with_yield() {
    let mut g = fresh_game(1_000);
    steal(&mut g, 1_000, key(1), 0, 1_000_000_000, Pubkey::default(), 22_400_000).unwrap();
    let plan = end_round(&mut g, 1_630, key(1), None, None).expect("dead round end");
    // Full refund plus the whole pool (the pool is below the formula cap).
    assert_eq!(plan.winner1_payout, 22_400_000 + 480_000);
    assert_eq!(g.yield_pool, 0);
    // The pot rolls forward with the pending jackpot merged in.
    assert_eq!(g.jackpot_balance, 1_764_000);
    assert_eq!(g.round, 2);
}

#[test]
fn reset_round_restarts_without_paying() {
    let mut g = fresh_game(1_000);
    g.pending_jackpot = 777;
    let r = reset_round(&mut g, 1_600);
    assert_eq!(r, Ok(()));
    assert_eq!(g.jackpot_balance, 777);
    assert_eq!(g.pending_jackpot, 0);
    assert_eq!(g.round, 2);
    assert_eq!(g.round_end_time, 2_200);
}

#[test]
fn reset_round_too_early_rejected() {
    let mut g = fresh_game(1_000);
    let r = reset_round(&mut g, 1_599);
    assert_eq!(r, Err(StealError::RoundNotEnded));
}

#[test]
fn reset_round_with_holder_rejected() {
    let mut g = fresh_game(1_000);
    steal(&mut g, 1_000, key(1), 0, 1_000_000_000, Pubkey::default(), 22_400_000).unwrap();
    let r = reset_round(&mut g, 1_700);
    assert_eq!(r, Err(StealError::HasKing));
}

#[test]
fn buyback_burns_at_mock_rate() {
    let mut g = fresh_game(1_000);
    g.beast_sol_pending = 1_000_000_000;
    let burned = beast_buyback_burn(&mut g, 1_000_000_000).expect("buyback");
    // One whole SOL converts to one hundred thousand tokens, nine decimals.
    assert_eq!(burned, 100_000_000_000_000);
    assert_eq!(g.beast_sol_pending, 0);
    assert_eq!(g.total_burned, 100_000_000_000_000);
}

#[test]
fn buyback_over_budget_rejected() {
    let mut g = fresh_game(1_000);
    g.beast_sol_pending = 5;
    let r = beast_buyback_burn(&mut g, 6);
    assert_eq!(r, Err(StealError::InsufficientFunds));
    assert_eq!(g.beast_sol_pending, 5);
}

#[test]
fn error_messages_name_their_cause() {
    assert_eq!(StealError::InvalidMint.message(), "Invalid token mint");
    assert_eq!(StealError::RateLimitExceeded.message(), "Must wait before stealing again");
    assert_eq!(StealError::SeasonNotStarted.message(), "Season has not started yet");
}
