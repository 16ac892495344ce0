//! In-memory game state transitions: fresh games, steals, phase flips,
//! dethronements and round resets.

use crown_clash::errors::StealError;
use crown_clash::logic::check_phase_transition;
use crown_clash::logic::execute_dethrone;
use crown_clash::logic::execute_round_end;
use crown_clash::logic::execute_steal;
use crown_clash::logic::execute_steal_with_accounting;
use crown_clash::logic::new_game;
use crown_clash::logic::safe_add_to_jackpot;
use crown_clash::logic::trigger_hit_a_lick_mode;
use crown_clash::state::Pubkey;

#[test]
fn new_game_initial_state() {
    let g = new_game();
    assert_eq!(g.current_price, 20_000_000);
    assert_eq!(g.hit_a_lick_price, 0);
    assert_eq!(g.jackpot_balance, 0);
    assert_eq!(g.pending_jackpot, 0);
    assert_eq!(g.yield_pool, 0);
    assert_eq!(g.time_remaining, 600);
    assert!(!g.is_hit_a_lick_mode);
    assert!(g.current_king.is_none());
    assert_eq!(g.recent_kings_count, 0);
    assert_eq!(g.growth_steals, 0);
    assert_eq!(g.min_growth_steals_for_war, 35);
    assert_eq!(g.cooldown_seconds, 2);
}

#[test]
fn growth_steal_escalates_and_feeds_pools() {
    let mut g = new_game();
    let r = execute_steal(&mut g);
    assert!(r.is_ok());
    assert_eq!(g.current_price, 22_400_000);
    assert_eq!(g.time_remaining, 600);
    assert_eq!(g.yield_pool, 480_000);
    assert_eq!(g.pending_jackpot, 1_764_000);
    assert_eq!(g.growth_steals, 1);
    assert!(!g.is_hit_a_lick_mode);
    assert!(g.current_king.is_some());
}

#[test]
fn war_triggers_on_steal_count() {
    let mut g = new_game();
    g.jackpot_balance = 1_000_000_000;
    g.growth_steals = 34;
    g.min_growth_steals_for_war = 35;
    let _ = execute_steal(&mut g);
    assert!(g.is_hit_a_lick_mode);
    // 3% of the pot is below the floor, so the ticket clamps up.
    assert_eq!(g.hit_a_lick_price, 50_000_000);
    // Entering the war freezes the listed price at the ticket.
    assert_eq!(g.current_price, 50_000_000);
    assert_eq!(g.hit_a_lick_end_time, 10);
    assert_eq!(g.recent_kings_count, 0);
}

#[test]
fn war_triggers_on_price_share() {
    let mut g = new_game();
    // The next price (22.4M) reaches 60% of a small pot.
    g.jackpot_balance = 30_000_000;
    let _ = execute_steal(&mut g);
    assert!(g.is_hit_a_lick_mode);
}

#[test]
fn no_war_without_jackpot() {
    let mut g = new_game();
    g.growth_steals = 200;
    let _ = execute_steal(&mut g);
    assert!(!g.is_hit_a_lick_mode);
}

#[test]
fn war_steal_keeps_price_frozen() {
    let mut g = new_game();
    g.is_hit_a_lick_mode = true;
    g.hit_a_lick_price = 100_000_000;
    g.hit_a_lick_end_time = 3;
    let _ = execute_steal(&mut g);
    assert_eq!(g.hit_a_lick_price, 100_000_000);
    assert_eq!(g.hit_a_lick_end_time, 10);
    // 5% of the frozen ticket feeds the pending jackpot; the yield pool
    // gets nothing in the war phase.
    assert_eq!(g.pending_jackpot, 5_000_000);
    assert_eq!(g.yield_pool, 0);
}

#[test]
fn phase_check_alone_can_flip() {
    let mut g = new_game();
    g.jackpot_balance = 1_000_000_000;
    g.growth_steals = 35;
    check_phase_transition(&mut g);
    assert!(g.is_hit_a_lick_mode);
    let before = g;
    check_phase_transition(&mut g);
    // Already in the war phase: nothing changes.
    assert_eq!(g.hit_a_lick_price, before.hit_a_lick_price);
    assert_eq!(g.hit_a_lick_end_time, before.hit_a_lick_end_time);
}

#[test]
fn trigger_sets_war_state() {
    let mut g = new_game();
    g.jackpot_balance = 5_000_000_000;
    trigger_hit_a_lick_mode(&mut g);
    assert!(g.is_hit_a_lick_mode);
    assert_eq!(g.hit_a_lick_price, 150_000_000);
    assert_eq!(g.current_price, 150_000_000);
    assert_eq!(g.recent_kings_count, 0);
    assert_eq!(g.recent_kings[0], Pubkey::default());
}

#[test]
fn dethrone_in_growth_pays_refund_and_yield() {
    let mut g = new_game();
    g.king_base_price = 22_400_000;
    g.king_entry_price = 22_400_000;
    g.yield_pool = 1_000_000_000;
    g.king_since = 0;
    let (refund, yield_paid) = execute_dethrone(&mut g, 30, 25_088_000, false);
    assert_eq!(refund, 22_400_000);
    // 5% of the payment at the full 2.0x time bonus.
    assert_eq!(yield_paid, 2_508_800);
    assert_eq!(g.yield_pool, 1_000_000_000 - 2_508_800);
}

#[test]
fn dethrone_in_war_pays_ninety_percent_no_yield() {
    let mut g = new_game();
    g.is_hit_a_lick_mode = true;
    g.hit_a_lick_price = 100_000_000;
    g.king_entry_price = 112_000_000;
    g.yield_pool = 1_000_000_000;
    let (refund, yield_paid) = execute_dethrone(&mut g, 30, 112_000_000, true);
    assert_eq!(refund, 100_800_000);
    assert_eq!(yield_paid, 0);
    assert_eq!(g.yield_pool, 1_000_000_000);
}

#[test]
fn steal_accounting_balances() {
    let mut g = new_game();
    // No holder: nothing flows out, the full entry stays.
    let (outgoing, delta) = execute_steal_with_accounting(&mut g);
    assert_eq!(outgoing, 0);
    assert_eq!(delta, 22_400_000);
    // With a holder: the old price flows back out.
    let (outgoing2, delta2) = execute_steal_with_accounting(&mut g);
    assert_eq!(outgoing2, 22_400_000);
    assert_eq!(delta2, 25_088_000 - 22_400_000);
}

#[test]
fn round_end_merges_and_resets() {
    let mut g = new_game();
    g.jackpot_balance = 500_000_000;
    g.pending_jackpot = 500_000_000;
    g.is_hit_a_lick_mode = true;
    g.hit_a_lick_price = 60_000_000;
    g.growth_steals = 44;
    execute_round_end(&mut g);
    assert_eq!(g.jackpot_balance, 1_000_000_000);
    assert_eq!(g.pending_jackpot, 0);
    assert_eq!(g.current_price, 20_000_000);
    assert!(!g.is_hit_a_lick_mode);
    assert_eq!(g.growth_steals, 0);
    // One whole SOL in the pot raises the threshold by fifteen.
    assert_eq!(g.min_growth_steals_for_war, 50);
}

#[test]
fn escalated_price_never_falls() {
    for price in [1u64, 17, 20_000_000, 1_000_000_007, u64::MAX / 112, u64::MAX] {
        let mut g = new_game();
        g.current_price = price;
        let _ = execute_steal(&mut g);
        assert!(g.current_price >= price);
    }
}

#[test]
fn jackpot_addition_rejects_overflow() {
    let mut g = new_game();
    g.jackpot_balance = u64::MAX - 5;
    assert_eq!(safe_add_to_jackpot(&mut g, 5), Ok(()));
    assert_eq!(g.jackpot_balance, u64::MAX);
    assert_eq!(safe_add_to_jackpot(&mut g, 1), Err(StealError::Overflow));
    assert_eq!(g.jackpot_balance, u64::MAX);
}
