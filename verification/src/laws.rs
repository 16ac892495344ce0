//! Global laws of the economy, stated and proved once over the spec
//! functions the executable contracts use: the split tables conserve the
//! amounts they divide, the war ticket price stays in its band, and yield
//! can never drain more than its caps allow.

use vstd::prelude::*;
use vstd::arithmetic::div_mod::lemma_div_is_ordered;
use vstd::arithmetic::div_mod::lemma_div_multiples_vanish;
use vstd::arithmetic::div_mod::lemma_div_multiples_vanish_fancy;
use vstd::arithmetic::div_mod::lemma_fundamental_div_mod;
use vstd::arithmetic::div_mod::lemma_mod_division_less_than_divisor;
use crate::constants::GROWTH_STEALS_PER_SOL;
use crate::constants::HIT_A_LICK_MAX;
use crate::constants::HIT_A_LICK_MIN;
use crate::constants::LAMPORTS_PER_SOL;
use crate::constants::MIN_YIELD;
use crate::constants::SURPLUS_BEAST;
use crate::constants::SURPLUS_DEV;
use crate::constants::SURPLUS_JACKPOT;
use crate::constants::SURPLUS_YIELD;
use crate::lifecycle::spec_old_king_yield;
use crate::logic::spec_end_beast;
use crate::logic::spec_end_dev;
use crate::logic::spec_end_rollover;
use crate::logic::spec_end_winner1;
use crate::logic::spec_end_winner2;
use crate::logic::spec_end_winner3;
use crate::logic::saturating_mul_u64;
use crate::logic::spec_hit_a_lick_price;
use crate::logic::spec_min_growth_steals;
use crate::logic::spec_surplus_beast;
use crate::logic::spec_surplus_dev;
use crate::logic::spec_surplus_jackpot;
use crate::logic::spec_record_king;
use crate::logic::spec_surplus_yield;
use crate::logic::spec_yield_entry_cap;
use crate::logic::spec_yield_with_cap;
use crate::state::kings_well_formed;
use crate::state::occupied_kings;
use crate::state::GameAccount;
use crate::state::Pubkey;

verus! {

/// The growth-phase split permille constants sum to exactly one thousand:
/// the profit delta is divided completely, with nothing invented and
/// nothing unaccounted for.
pub proof fn lemma_growth_split_constants_sum()
    ensures
        SURPLUS_DEV + SURPLUS_BEAST + SURPLUS_YIELD + SURPLUS_JACKPOT == 1000,
{
}

/// Two floor divisions by a thousand never sum to more than the floor
/// division of the sum.
proof fn lemma_div1000_sum_le(a: int, b: int)
    requires
        a >= 0,
        b >= 0,
    ensures
        a / 1000 + b / 1000 <= (a + b) / 1000,
{
    lemma_fundamental_div_mod(a, 1000);
    lemma_fundamental_div_mod(b, 1000);
    lemma_fundamental_div_mod(a + b, 1000);
    lemma_mod_division_less_than_divisor(a, 1000);
    lemma_mod_division_less_than_divisor(b, 1000);
    lemma_mod_division_less_than_divisor(a + b, 1000);
}

/// What the four growth-phase shares take out of a profit delta never
/// exceeds the delta itself, whatever the delta; and when the delta is a
/// whole multiple of a thousand small enough for the products to fit, the
/// shares account for it exactly.
pub proof fn lemma_growth_split_conserves_delta(delta: u64)
    ensures
        spec_surplus_dev(delta) + spec_surplus_beast(delta) + spec_surplus_yield(delta)
            + spec_surplus_jackpot(delta) <= delta,
        delta % 1000 == 0 && delta * SURPLUS_JACKPOT <= u64::MAX ==> spec_surplus_dev(delta)
            + spec_surplus_beast(delta) + spec_surplus_yield(delta) + spec_surplus_jackpot(delta)
            == delta,
{
    let d = delta as int;
    lemma_div1000_sum_le(d * 60, d * 5);
    lemma_div1000_sum_le(d * 65, d * 200);
    lemma_div1000_sum_le(d * 265, d * 735);
    lemma_div_multiples_vanish(d, 1000);
    if delta % 1000 == 0 && delta * SURPLUS_JACKPOT <= u64::MAX {
        lemma_fundamental_div_mod(d, 1000);
        let k = d / 1000;
        assert(d == 1000 * k);
        lemma_div_multiples_vanish(k * 60, 1000);
        lemma_div_multiples_vanish(k * 5, 1000);
        lemma_div_multiples_vanish(k * 200, 1000);
        lemma_div_multiples_vanish(k * 735, 1000);
        assert(d * 60 == 1000 * (k * 60));
        assert(d * 5 == 1000 * (k * 5));
        assert(d * 200 == 1000 * (k * 200));
        assert(d * 735 == 1000 * (k * 735));
    }
}

/// The war ticket price stays inside its fixed band for every jackpot,
/// including an empty one and one whose share computation overflows.
pub proof fn lemma_hit_a_lick_price_in_band(jackpot: u64)
    ensures
        HIT_A_LICK_MIN <= spec_hit_a_lick_price(jackpot) <= HIT_A_LICK_MAX,
{
}

/// Yield can never drain more than its caps allow: the capped formula pays
/// at most the remaining pool and at most half the holder's entry price,
/// and even the floored amount actually paid out on a growth-phase steal
/// stays within the pool always, and within half the entry price whenever
/// the entry price is at least twice the minimum floor.
pub proof fn lemma_yield_payout_capped(s: GameAccount, now: i64, entry_cost: u64)
    requires
        !s.is_hit_a_lick_mode,
    ensures
        spec_yield_with_cap(
            s.yield_pool,
            s.king_entry_price,
            entry_cost,
            (now - s.king_since) as u64,
            s.king_was_vip,
        ) <= s.yield_pool,
        spec_old_king_yield(s, now, entry_cost) <= s.yield_pool,
        s.king_entry_price >= 2 * MIN_YIELD ==> spec_old_king_yield(s, now, entry_cost)
            <= s.king_entry_price / 2,
{
    let e = s.king_entry_price;
    if e >= 2 * MIN_YIELD {
        lemma_fundamental_div_mod(e as int, 2);
        lemma_mod_division_less_than_divisor(e as int, 2);
        let q = e as int / 2;
        let rem = e as int % 2;
        assert(q >= MIN_YIELD);
        if e * 500 <= u64::MAX {
            assert(e as int * 500 == 1000 * q + 500 * rem);
            lemma_div_multiples_vanish_fancy(q, 500 * rem, 1000);
            assert(spec_yield_entry_cap(e) == q);
        }
    }
}

/// The recent-kings registry is a bounded, duplicate-free, most-recent-first
/// history: recording puts the new identity at the front, an occupancy never
/// exceeds three slots, re-recording a present identity changes its position
/// but not the occupancy, and a new identity grows the occupancy only up to
/// the cap.
pub proof fn lemma_record_king_registry(kings: [Pubkey; 3], count: u8, k: Pubkey)
    requires
        kings_well_formed(kings, count),
    ensures
        1 <= spec_record_king(kings, count, k).len() <= 3,
        spec_record_king(kings, count, k)[0] == k,
        occupied_kings(kings, count).contains(k) ==> spec_record_king(kings, count, k).len()
            == count,
        !occupied_kings(kings, count).contains(k) ==> spec_record_king(kings, count, k).len() == (
        if count < 3 {
            count + 1
        } else {
            3
        }),
        forall|i: int, j: int|
            0 <= i < j < spec_record_king(kings, count, k).len() ==> spec_record_king(
                kings,
                count,
                k,
            )[i] != spec_record_king(kings, count, k)[j],
{
    let occ = occupied_kings(kings, count);
    let res = spec_record_king(kings, count, k);
    if occ.contains(k) {
        let w = choose|w: int| 0 <= w < occ.len() && occ[w] == k;
        assert(occ[w] == kings[w]);
        assert(kings[w] == k && 0 <= w < count);
    }
    if count >= 1 && kings[0] == k {
        assert(occ[0] == k);
        assert(occ.contains(k));
    }
    if count >= 2 && kings[1] == k {
        assert(occ[1] == k);
        assert(occ.contains(k));
    }
    if count >= 3 && kings[2] == k {
        assert(occ[2] == k);
        assert(occ.contains(k));
    }
    assert forall|i: int, j: int| 0 <= i < j < res.len() implies res[i] != res[j] by {
        if count >= 1 && kings[0] == k {
            assert(res[i] == kings[i] && res[j] == kings[j]);
        }
    }
}

/// The winner, dev and buyback shares of a round-end pot together never
/// reach past the pot: their permille table leaves room for the rollover
/// remainder, in both the normal and the mega table, for every pot size.
pub proof fn lemma_end_shares_bounded(total_pot: u64)
    ensures
        spec_end_winner1(total_pot) + spec_end_winner2(total_pot) + spec_end_winner3(total_pot)
            + spec_end_dev(total_pot) + spec_end_beast(total_pot) <= total_pot,
{
    let p = total_pot as int;
    lemma_div_multiples_vanish(p, 1000);
    lemma_div1000_sum_le(p * 250, p * 100);
    lemma_div1000_sum_le(p * 350, p * 50);
    lemma_div_is_ordered(p * 400, p * 1000, 1000);
    lemma_div1000_sum_le(p * 150, p * 60);
    lemma_div1000_sum_le(p * 210, p * 40);
    lemma_div_is_ordered(p * 250, p * 1000, 1000);
}

/// The round-end payout table accounts for the pot exactly: the three
/// winner shares plus the (zero) dev and buyback shares plus the rollover
/// equal the pot, for every pot size and in both the normal and the mega
/// table. The ledger stays balanced: what the floored shares lose to
/// rounding stays in the rollover.
pub proof fn lemma_end_payout_sum_exact(total_pot: u64)
    ensures
        spec_end_winner1(total_pot) + spec_end_winner2(total_pot) + spec_end_winner3(total_pot)
            + spec_end_dev(total_pot) + spec_end_beast(total_pot) + spec_end_rollover(total_pot)
            == total_pot,
{
    lemma_end_shares_bounded(total_pot);
}

/// A larger jackpot never asks for fewer growth steals before a war can
/// trigger: the dynamic threshold is monotone in the pot, which is what
/// makes it an anti-drainage safeguard.
pub proof fn lemma_min_growth_steals_monotone(j1: u64, j2: u64)
    requires
        j1 <= j2,
    ensures
        spec_min_growth_steals(j1) <= spec_min_growth_steals(j2),
{
    let s1 = saturating_mul_u64(j1, GROWTH_STEALS_PER_SOL);
    let s2 = saturating_mul_u64(j2, GROWTH_STEALS_PER_SOL);
    assert(j1 * GROWTH_STEALS_PER_SOL <= j2 * GROWTH_STEALS_PER_SOL) by (nonlinear_arith)
        requires
            j1 <= j2,
    ;
    assert(s1 <= s2);
    lemma_div_is_ordered(s1 as int, s2 as int, LAMPORTS_PER_SOL as int);
}

} // verus!