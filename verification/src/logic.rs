//! Pure game logic: entry gating, price and threshold formulas, permille
//! splits, yield computation, recent-king tracking and the reduced in-memory
//! state transitions. Every fraction is integer permille arithmetic with an
//! explicit overflow fallback; nothing here panics.

use vstd::prelude::*;
use crate::constants::END_BEAST;
use crate::constants::END_BEAST_MEGA;
use crate::constants::END_DEV;
use crate::constants::END_DEV_MEGA;
use crate::constants::END_WINNER_1;
use crate::constants::END_WINNER_1_MEGA;
use crate::constants::END_WINNER_2;
use crate::constants::END_WINNER_2_MEGA;
use crate::constants::END_WINNER_3;
use crate::constants::END_WINNER_3_MEGA;
use crate::constants::GROWTH_STEALS_BASE;
use crate::constants::HIT_A_LICK_COOLDOWN_SECS;
use crate::constants::HIT_A_LICK_THRESHOLD;
use crate::constants::HIT_A_LICK_TIMER;
use crate::constants::MAX_TIMER;
use crate::constants::MEGA_POT_THRESHOLD;
use crate::constants::RUN_IT_UP_RATE;
use crate::constants::START_PRICE;
use crate::constants::TIMER_ADD;
use crate::constants::HIT_A_LICK_DEV;
use crate::constants::HIT_A_LICK_JACKPOT;
use crate::constants::HIT_A_LICK_OLD_KING_REFUND;
use crate::constants::HIT_A_LICK_SURCHARGE;
use crate::constants::SURPLUS_BEAST;
use crate::constants::SURPLUS_DEV;
use crate::constants::SURPLUS_JACKPOT;
use crate::constants::SURPLUS_YIELD;
use crate::constants::VIP_NO_SURCHARGE;
use crate::constants::VIP_YIELD_MULTIPLIER;
use crate::constants::YIELD_BASE_RATE;
use crate::constants::YIELD_CAP;
use crate::constants::YIELD_TIME_BONUS_CAP_SECS;
use crate::constants::GROWTH_STEALS_PER_SOL;
use crate::constants::HIT_A_LICK_MAX;
use crate::constants::HIT_A_LICK_MIN;
use crate::constants::HIT_A_LICK_PCT_OF_POT;
use crate::constants::LAMPORTS_PER_SOL;
use crate::constants::MAX_GROWTH_STEALS_CLAMP;
use crate::constants::MIN_GROWTH_STEALS_CLAMP;
use crate::constants::NORMIE_RATE;
use crate::constants::TOKEN_REQUIREMENT;
use crate::errors::StealError;
use crate::state::cleared_kings;
use crate::state::kings_well_formed;
use crate::state::nil_key;
use crate::state::occupied_kings;
use crate::state::GameState;
use crate::state::Pubkey;

verus! {

/// Floor of `v * m / d`, falling back to `fallback` when the product does
/// not fit in a `u64`. This is the one fixed-point primitive every permille
/// split and threshold is built from; each call site picks the fallback that
/// is safe for it (a split that overflows pays nothing, a threshold that
/// overflows never triggers).
pub open spec fn scaled_or(v: u64, m: u64, d: u64, fallback: u64) -> u64
    recommends
        d > 0,
{
    if v * m > u64::MAX {
        fallback
    } else {
        ((v * m) as u64) / d
    }
}

/// `v` clamped into `[lo, hi]`.
pub open spec fn clamped(v: u64, lo: u64, hi: u64) -> u64
    recommends
        lo <= hi,
{
    if v < lo {
        lo
    } else if v > hi {
        hi
    } else {
        v
    }
}

/// `a * b`, saturating at the `u64` maximum.
pub open spec fn saturating_mul_u64(a: u64, b: u64) -> u64 {
    if a * b > u64::MAX {
        u64::MAX
    } else {
        (a * b) as u64
    }
}

/// Executable form of [`scaled_or`].
pub(crate) fn scale_or(v: u64, m: u64, d: u64, fallback: u64) -> (r: u64)
    requires
        d > 0,
    ensures
        r == scaled_or(v, m, d, fallback),
{
    match v.checked_mul(m) {
        Some(p) => p / d,
        None => fallback,
    }
}

/// What a player owes to enter at the given listed price. VIP and regular
/// players pay the same listed price; VIP benefits are granted in yield and
/// surcharge exemption, never in the price itself.
pub open spec fn spec_entry_cost(game_price: u64) -> u64 {
    scaled_or(game_price, NORMIE_RATE, 100, 0)
}

pub fn calculate_entry_cost(token_balance: u64, game_price: u64) -> (r: u64)
    ensures
        r == spec_entry_cost(game_price),
        game_price * NORMIE_RATE <= u64::MAX ==> r == game_price,
{
    proof {
        if game_price * NORMIE_RATE <= u64::MAX {
            let p = (game_price * NORMIE_RATE) as u64;
            assert(p == game_price * 100);
            vstd::arithmetic::div_mod::lemma_div_multiples_vanish(
                game_price as int,
                100,
            );
        }
    }
    scale_or(game_price, NORMIE_RATE, 100, 0)
}

/// Whether a token balance grants VIP status.
pub open spec fn spec_is_vip(token_balance: u64) -> bool {
    token_balance >= TOKEN_REQUIREMENT
}

pub fn is_vip(token_balance: u64) -> (r: bool)
    ensures
        r == spec_is_vip(token_balance),
{
    token_balance >= TOKEN_REQUIREMENT
}

/// Amount due on entry, plus the (always zero) VIP discount and surcharge
/// components kept for interface stability.
pub fn execute_entry(token_balance: u64, game_price: u64) -> (r: (u64, u64, u64))
    ensures
        r.0 == spec_entry_cost(game_price),
        r.1 == 0,
        r.2 == 0,
{
    let amount_due = calculate_entry_cost(token_balance, game_price);
    (amount_due, 0, 0)
}

/// Accept exactly the configured token mint.
pub fn verify_token_mint(user_mint: Pubkey, real_mint: Pubkey) -> (r: Result<
    (),
    StealError,
>)
    ensures
        user_mint == real_mint <==> r is Ok,
        r is Err ==> r == Err::<(), StealError>(StealError::InvalidMint),
{
    if user_mint == real_mint {
        Ok(())
    } else {
        Err(StealError::InvalidMint)
    }
}

/// War-phase ticket price: the pot's permille share, clamped into the fixed
/// band. An overflowing product falls back to the maximum, which the clamp
/// then pins to the band's ceiling.
pub open spec fn spec_hit_a_lick_price(jackpot: u64) -> u64 {
    clamped(
        scaled_or(jackpot, HIT_A_LICK_PCT_OF_POT, 1000, u64::MAX),
        HIT_A_LICK_MIN,
        HIT_A_LICK_MAX,
    )
}

pub fn calculate_hit_a_lick_price(jackpot: u64) -> (r: u64)
    ensures
        r == spec_hit_a_lick_price(jackpot),
        HIT_A_LICK_MIN <= r <= HIT_A_LICK_MAX,
{
    let raw_price = scale_or(jackpot, HIT_A_LICK_PCT_OF_POT, 1000, u64::MAX);
    if raw_price < HIT_A_LICK_MIN {
        HIT_A_LICK_MIN
    } else if raw_price > HIT_A_LICK_MAX {
        HIT_A_LICK_MAX
    } else {
        raw_price
    }
}

/// Dynamic war threshold: base steals plus extra steals per whole SOL in the
/// pot, clamped into the fixed band before it narrows to its stored width.
/// Larger jackpots demand more growth steals before a war can trigger, so
/// the pot grows enough between wars to cover the next war's winner payouts.
pub open spec fn spec_min_growth_steals(jackpot_lamports: u64) -> u16 {
    let additional = saturating_mul_u64(jackpot_lamports, GROWTH_STEALS_PER_SOL)
        / LAMPORTS_PER_SOL;
    let total = GROWTH_STEALS_BASE + additional;
    if total < MIN_GROWTH_STEALS_CLAMP as int {
        MIN_GROWTH_STEALS_CLAMP
    } else if total > MAX_GROWTH_STEALS_CLAMP as int {
        MAX_GROWTH_STEALS_CLAMP
    } else {
        total as u16
    }
}

pub fn compute_min_growth_steals_for_war(jackpot_lamports: u64) -> (r: u16)
    ensures
        r == spec_min_growth_steals(jackpot_lamports),
        MIN_GROWTH_STEALS_CLAMP <= r <= MAX_GROWTH_STEALS_CLAMP,
{
    let saturated = match jackpot_lamports.checked_mul(GROWTH_STEALS_PER_SOL) {
        Some(v) => v,
        None => u64::MAX,
    };
    let additional = saturated / LAMPORTS_PER_SOL;
    proof {
        vstd::arithmetic::div_mod::lemma_div_is_ordered(
            saturated as int,
            u64::MAX as int,
            LAMPORTS_PER_SOL as int,
        );
    }
    let total = GROWTH_STEALS_BASE as u64 + additional;
    let floored = if total > MIN_GROWTH_STEALS_CLAMP as u64 {
        total
    } else {
        MIN_GROWTH_STEALS_CLAMP as u64
    };
    let capped = if floored < MAX_GROWTH_STEALS_CLAMP as u64 {
        floored
    } else {
        MAX_GROWTH_STEALS_CLAMP as u64
    };
    capped as u16
}

/// `a + b`, saturating at the `u64` maximum.
pub open spec fn saturating_add_u64(a: u64, b: u64) -> u64 {
    if a + b > u64::MAX {
        u64::MAX
    } else {
        (a + b) as u64
    }
}

/// `a - b`, saturating at zero.
pub open spec fn saturating_sub_u64(a: u64, b: u64) -> u64 {
    if a >= b {
        (a - b) as u64
    } else {
        0
    }
}

/// The profit delta a growth-phase steal is taxed on: the price increase,
/// never the old price itself.
pub open spec fn spec_profit_delta(old_price: u64, new_price: u64) -> u64 {
    saturating_sub_u64(new_price, old_price)
}

/// Dev share of a growth-phase profit delta.
pub open spec fn spec_surplus_dev(delta: u64) -> u64 {
    scaled_or(delta, SURPLUS_DEV, 1000, 0)
}

/// Buyback share of a growth-phase profit delta.
pub open spec fn spec_surplus_beast(delta: u64) -> u64 {
    scaled_or(delta, SURPLUS_BEAST, 1000, 0)
}

/// Yield-pool share of a growth-phase profit delta.
pub open spec fn spec_surplus_yield(delta: u64) -> u64 {
    scaled_or(delta, SURPLUS_YIELD, 1000, 0)
}

/// Jackpot share of a growth-phase profit delta.
pub open spec fn spec_surplus_jackpot(delta: u64) -> u64 {
    scaled_or(delta, SURPLUS_JACKPOT, 1000, 0)
}

/// Growth-phase steal split: the dethroned holder is refunded exactly what
/// they paid, and the taxes come out of the profit delta alone. Returns
/// `(refund, dev, beast, yield_add, jackpot_add)`.
pub fn calculate_run_it_up_split(old_price: u64, new_price: u64) -> (r: (
    u64,
    u64,
    u64,
    u64,
    u64,
))
    ensures
        r.0 == old_price,
        r.1 == spec_surplus_dev(spec_profit_delta(old_price, new_price)),
        r.2 == spec_surplus_beast(spec_profit_delta(old_price, new_price)),
        r.3 == spec_surplus_yield(spec_profit_delta(old_price, new_price)),
        r.4 == spec_surplus_jackpot(spec_profit_delta(old_price, new_price)),
{
    let refund = old_price;
    let profit_delta = new_price.saturating_sub(old_price);
    let dev = scale_or(profit_delta, SURPLUS_DEV, 1000, 0);
    let beast = scale_or(profit_delta, SURPLUS_BEAST, 1000, 0);
    let yield_add = scale_or(profit_delta, SURPLUS_YIELD, 1000, 0);
    let jackpot = scale_or(profit_delta, SURPLUS_JACKPOT, 1000, 0);
    (refund, dev, beast, yield_add, jackpot)
}

/// Full war-phase entry cost: the frozen ticket price, plus the surcharge
/// for non-VIP players.
pub open spec fn spec_hit_a_lick_entry_cost(hit_a_lick_price: u64, is_vip: bool) -> u64 {
    if is_vip && VIP_NO_SURCHARGE {
        hit_a_lick_price
    } else {
        saturating_add_u64(
            hit_a_lick_price,
            scaled_or(hit_a_lick_price, HIT_A_LICK_SURCHARGE, 1000, 0),
        )
    }
}

pub fn calculate_hit_a_lick_entry_cost(hit_a_lick_price: u64, is_vip: bool) -> (r: u64)
    ensures
        r == spec_hit_a_lick_entry_cost(hit_a_lick_price, is_vip),
        r >= hit_a_lick_price,
{
    if is_vip && VIP_NO_SURCHARGE {
        hit_a_lick_price
    } else {
        let surcharge = scale_or(hit_a_lick_price, HIT_A_LICK_SURCHARGE, 1000, 0);
        hit_a_lick_price.saturating_add(surcharge)
    }
}

/// What a dethroned war-phase holder is paid back: a fixed permille of what
/// they actually paid.
pub open spec fn spec_hit_a_lick_old_king_payout(paid: u64) -> u64 {
    scaled_or(paid, HIT_A_LICK_OLD_KING_REFUND, 1000, 0)
}

pub fn calculate_hit_a_lick_old_king_payout(hit_a_lick_price: u64) -> (r: u64)
    ensures
        r == spec_hit_a_lick_old_king_payout(hit_a_lick_price),
{
    scale_or(hit_a_lick_price, HIT_A_LICK_OLD_KING_REFUND, 1000, 0)
}

/// Dev share of a war-phase ticket.
pub open spec fn spec_hal_dev(price: u64) -> u64 {
    scaled_or(price, HIT_A_LICK_DEV, 1000, 0)
}

/// Jackpot share of a war-phase ticket.
pub open spec fn spec_hal_jackpot(price: u64) -> u64 {
    scaled_or(price, HIT_A_LICK_JACKPOT, 1000, 0)
}

/// War-phase overhead split of the frozen ticket price: dev and jackpot take
/// a cut, nothing goes to the buyback wallet or the yield pool. Returns
/// `(dev, beast, yield_add, jackpot_add)`.
pub fn calculate_hit_a_lick_overhead_split(hit_a_lick_price: u64) -> (r: (u64, u64, u64, u64))
    ensures
        r.0 == spec_hal_dev(hit_a_lick_price),
        r.1 == 0,
        r.2 == 0,
        r.3 == spec_hal_jackpot(hit_a_lick_price),
{
    let dev = scale_or(hit_a_lick_price, HIT_A_LICK_DEV, 1000, 0);
    let beast: u64 = 0;
    let yield_add: u64 = 0;
    let jackpot = scale_or(hit_a_lick_price, HIT_A_LICK_JACKPOT, 1000, 0);
    (dev, beast, yield_add, jackpot)
}

/// Time bonus in permille: 1000 at zero seconds held, growing linearly to
/// 2000 at the cap.
pub open spec fn spec_time_bonus(hold_time_seconds: u64) -> u64 {
    let held = if hold_time_seconds < YIELD_TIME_BONUS_CAP_SECS {
        hold_time_seconds
    } else {
        YIELD_TIME_BONUS_CAP_SECS
    };
    (1000 + held * 1000 / (YIELD_TIME_BONUS_CAP_SECS as int)) as u64
}

pub fn calculate_time_bonus(hold_time_seconds: u64) -> (r: u64)
    ensures
        r == spec_time_bonus(hold_time_seconds),
        1000 <= r <= 2000,
{
    let held = if hold_time_seconds < YIELD_TIME_BONUS_CAP_SECS {
        hold_time_seconds
    } else {
        YIELD_TIME_BONUS_CAP_SECS
    };
    let bonus_factor = held * 1000 / YIELD_TIME_BONUS_CAP_SECS;
    1000 + bonus_factor
}

/// Raw yield before caps: the base permille of the incoming payment, scaled
/// by the time bonus, doubled for VIP holders. Any overflow along the way
/// falls back to paying nothing (or, for the VIP doubling, to the undoubled
/// amount) rather than failing.
pub open spec fn spec_yield(new_payment: u64, hold_time_seconds: u64, is_vip: bool) -> u64 {
    let tb = spec_time_bonus(hold_time_seconds);
    let base = if new_payment * YIELD_BASE_RATE > u64::MAX {
        0u64
    } else {
        let a = ((new_payment * YIELD_BASE_RATE) as u64) / 1000;
        if a * tb > u64::MAX {
            0u64
        } else {
            ((a * tb) as u64) / 1000
        }
    };
    if is_vip {
        if base * VIP_YIELD_MULTIPLIER > u64::MAX {
            base
        } else {
            (base * VIP_YIELD_MULTIPLIER) as u64
        }
    } else {
        base
    }
}

pub fn calculate_yield(new_payment: u64, hold_time_seconds: u64, is_vip: bool) -> (r: u64)
    ensures
        r == spec_yield(new_payment, hold_time_seconds, is_vip),
{
    let time_bonus = calculate_time_bonus(hold_time_seconds);
    let base_yield = match new_payment.checked_mul(YIELD_BASE_RATE) {
        Some(v) => {
            match (v / 1000).checked_mul(time_bonus) {
                Some(w) => w / 1000,
                None => 0,
            }
        },
        None => 0,
    };
    if is_vip {
        match base_yield.checked_mul(VIP_YIELD_MULTIPLIER) {
            Some(v) => v,
            None => base_yield,
        }
    } else {
        base_yield
    }
}

/// Half the holder's entry price, the maximum return a holder can ever earn
/// in yield; an overflowing product caps the yield at nothing.
pub open spec fn spec_yield_entry_cap(entry_price: u64) -> u64 {
    scaled_or(entry_price, YIELD_CAP, 1000, 0)
}

/// Yield with every cap applied: never more than the raw formula, never more
/// than half the entry price, never more than the pool holds.
pub open spec fn spec_yield_with_cap(
    yield_pool: u64,
    entry_price: u64,
    new_payment: u64,
    hold_time_seconds: u64,
    is_vip: bool,
) -> u64 {
    let raw = spec_yield(new_payment, hold_time_seconds, is_vip);
    let by_entry = if raw < spec_yield_entry_cap(entry_price) {
        raw
    } else {
        spec_yield_entry_cap(entry_price)
    };
    if by_entry < yield_pool {
        by_entry
    } else {
        yield_pool
    }
}

pub fn calculate_yield_with_cap(
    yield_pool: u64,
    entry_price: u64,
    new_payment: u64,
    hold_time_seconds: u64,
    is_vip: bool,
) -> (r: u64)
    ensures
        r == spec_yield_with_cap(yield_pool, entry_price, new_payment, hold_time_seconds, is_vip),
        r <= spec_yield_entry_cap(entry_price),
        r <= yield_pool,
{
    let raw_yield = calculate_yield(new_payment, hold_time_seconds, is_vip);
    let cap_by_entry = scale_or(entry_price, YIELD_CAP, 1000, 0);
    let capped = if raw_yield < cap_by_entry {
        raw_yield
    } else {
        cap_by_entry
    };
    if capped < yield_pool {
        capped
    } else {
        yield_pool
    }
}

/// The occupied recent-kings slots after recording `k`, most recent first.
/// A present identity moves to the front without changing the occupancy; a
/// new identity pushes in at the front, dropping the oldest entry once all
/// three slots are occupied. No identity ever appears twice.
pub open spec fn spec_record_king(kings: [Pubkey; 3], count: u8, k: Pubkey) -> Seq<Pubkey>
    recommends
        kings_well_formed(kings, count),
{
    if count >= 1 && kings[0] == k {
        occupied_kings(kings, count)
    } else if count >= 2 && kings[1] == k {
        if count >= 3 {
            seq![k, kings[0], kings[2]]
        } else {
            seq![k, kings[0]]
        }
    } else if count >= 3 && kings[2] == k {
        seq![k, kings[0], kings[1]]
    } else if count == 0 {
        seq![k]
    } else if count == 1 {
        seq![k, kings[0]]
    } else {
        seq![k, kings[0], kings[1]]
    }
}

/// Record a steal in the recent-kings registry, keeping the occupied slots
/// duplicate-free and most recent first.
pub fn update_recent_kings(recent_kings: &mut [Pubkey; 3], count: &mut u8, new_king: Pubkey)
    requires
        kings_well_formed(*old(recent_kings), *old(count)),
    ensures
        kings_well_formed(*final(recent_kings), *final(count)),
        occupied_kings(*final(recent_kings), *final(count)) == spec_record_king(
            *old(recent_kings),
            *old(count),
            new_king,
        ),
        *final(count) == spec_record_king(*old(recent_kings), *old(count), new_king).len(),
{
    let c = *count;
    let k0 = recent_kings[0];
    let k1 = recent_kings[1];
    let k2 = recent_kings[2];
    if c >= 1 && k0 == new_king {
        proof {
            assert(occupied_kings(*recent_kings, *count) =~= spec_record_king(
                *old(recent_kings),
                *old(count),
                new_king,
            ));
        }
    } else if c >= 2 && k1 == new_king {
        recent_kings[1] = k0;
        recent_kings[0] = new_king;
        proof {
            assert(occupied_kings(*recent_kings, *count) =~= spec_record_king(
                *old(recent_kings),
                *old(count),
                new_king,
            ));
        }
    } else if c >= 3 && k2 == new_king {
        recent_kings[2] = k1;
        recent_kings[1] = k0;
        recent_kings[0] = new_king;
        proof {
            assert(occupied_kings(*recent_kings, *count) =~= spec_record_king(
                *old(recent_kings),
                *old(count),
                new_king,
            ));
        }
    } else {
        recent_kings[2] = k1;
        recent_kings[1] = k0;
        recent_kings[0] = new_king;
        if c < 3 {
            *count = c + 1;
        }
        proof {
            assert(occupied_kings(*recent_kings, *count) =~= spec_record_king(
                *old(recent_kings),
                *old(count),
                new_king,
            ));
        }
    }
}

/// The growth-phase price after one steal: a fixed-rate increase with
/// integer truncation, saturating at the `u64` maximum instead of failing.
pub open spec fn spec_next_price(price: u64) -> u64 {
    scaled_or(price, RUN_IT_UP_RATE, 100, u64::MAX)
}

/// The escalated price never falls below the price it grew from: each steal
/// can only raise (or, at the saturation ceiling, hold) the ticket price.
pub proof fn lemma_next_price_monotone(price: u64)
    ensures
        spec_next_price(price) >= price,
{
    if price * RUN_IT_UP_RATE <= u64::MAX {
        vstd::arithmetic::div_mod::lemma_div_multiples_vanish(price as int, 100);
        vstd::arithmetic::div_mod::lemma_div_is_ordered(
            price * 100,
            price * RUN_IT_UP_RATE,
            100,
        );
    }
}

/// A freshly initialized game: growth phase, starting price, empty pools
/// and no holder.
pub open spec fn spec_new_game() -> GameState {
    GameState {
        current_price: START_PRICE,
        hit_a_lick_price: 0,
        jackpot_balance: 0,
        pending_jackpot: 0,
        yield_pool: 0,
        time_remaining: MAX_TIMER,
        hit_a_lick_end_time: 0,
        is_hit_a_lick_mode: false,
        current_king: None,
        king_since: 0,
        king_entry_price: 0,
        king_base_price: 0,
        recent_kings: cleared_kings(),
        recent_kings_count: 0,
        last_steal_wallet: None,
        last_steal_time: 0,
        cooldown_seconds: HIT_A_LICK_COOLDOWN_SECS,
        growth_steals: 0,
        min_growth_steals_for_war: MIN_GROWTH_STEALS_CLAMP,
        growth_hard_end_ts: 0,
    }
}

pub fn new_game() -> (g: GameState)
    ensures
        g == spec_new_game(),
        g.wf(),
{
    let z = Pubkey::default();
    let g = GameState {
        current_price: START_PRICE,
        hit_a_lick_price: 0,
        jackpot_balance: 0,
        pending_jackpot: 0,
        yield_pool: 0,
        time_remaining: MAX_TIMER,
        hit_a_lick_end_time: 0,
        is_hit_a_lick_mode: false,
        current_king: None,
        king_since: 0,
        king_entry_price: 0,
        king_base_price: 0,
        recent_kings: [z, z, z],
        recent_kings_count: 0,
        last_steal_wallet: None,
        last_steal_time: 0,
        cooldown_seconds: HIT_A_LICK_COOLDOWN_SECS,
        growth_steals: 0,
        min_growth_steals_for_war: MIN_GROWTH_STEALS_CLAMP,
        growth_hard_end_ts: 0,
    };
    proof {
        assert(g.recent_kings@ =~= cleared_kings()@);
    }
    g
}

/// The price level at which the growth phase tips into war: a percentage of
/// the jackpot, falling back to "never triggers" when the product overflows.
pub open spec fn spec_hal_threshold(jackpot: u64) -> u64 {
    scaled_or(jackpot, HIT_A_LICK_THRESHOLD, 100, u64::MAX)
}

/// Whether a growth-phase state is due to flip into the war phase: there is
/// a pot to fight over, and either the price has reached its trigger share
/// of the jackpot or enough growth steals have accumulated.
pub open spec fn spec_should_enter_war(s: GameState) -> bool {
    &&& !s.is_hit_a_lick_mode
    &&& s.jackpot_balance > 0
    &&& {
        ||| s.current_price >= spec_hal_threshold(s.jackpot_balance)
        ||| s.growth_steals >= s.min_growth_steals_for_war
    }
}

/// The war phase as entered from `s`: phase flag set, ticket price computed
/// as the pot's clamped share, the listed price frozen to that ticket, the
/// short war countdown armed, and the recent-kings race restarted.
pub open spec fn spec_trigger_hal(s: GameState) -> GameState {
    GameState {
        is_hit_a_lick_mode: true,
        hit_a_lick_price: spec_hit_a_lick_price(s.jackpot_balance),
        current_price: spec_hit_a_lick_price(s.jackpot_balance),
        hit_a_lick_end_time: HIT_A_LICK_TIMER,
        recent_kings: cleared_kings(),
        recent_kings_count: 0,
        ..s
    }
}

/// Enter the war phase: freeze the listed price at the ticket price, arm
/// the countdown and restart the three-place race.
pub fn trigger_hit_a_lick_mode(game: &mut GameState)
    ensures
        *final(game) == spec_trigger_hal(*old(game)),
        old(game).wf() ==> final(game).wf(),
{
    game.is_hit_a_lick_mode = true;
    game.hit_a_lick_price = calculate_hit_a_lick_price(game.jackpot_balance);
    game.current_price = game.hit_a_lick_price;
    game.hit_a_lick_end_time = HIT_A_LICK_TIMER;
    let z = Pubkey::default();
    game.recent_kings = [z, z, z];
    game.recent_kings_count = 0;
    proof {
        assert(game.recent_kings@ =~= cleared_kings()@);
    }
}

/// Flip into the war phase when the trigger condition holds; leave the
/// state untouched otherwise.
pub fn check_phase_transition(game: &mut GameState)
    ensures
        spec_should_enter_war(*old(game)) ==> *final(game) == spec_trigger_hal(*old(game)),
        !spec_should_enter_war(*old(game)) ==> *final(game) == *old(game),
        old(game).wf() ==> final(game).wf(),
{
    if !game.is_hit_a_lick_mode && game.jackpot_balance > 0 {
        let hit_a_lick_threshold_price = scale_or(
            game.jackpot_balance,
            HIT_A_LICK_THRESHOLD,
            100,
            u64::MAX,
        );
        let price_triggers = game.current_price >= hit_a_lick_threshold_price;
        let steals_trigger = game.growth_steals >= game.min_growth_steals_for_war;
        if price_triggers || steals_trigger {
            trigger_hit_a_lick_mode(game);
        }
    }
}

/// The in-memory state after one steal commits, before the new holder's
/// identity is written: war steals re-arm the countdown and feed the pools
/// from the ticket overhead; growth steals escalate the price, extend the
/// timer, feed the pools from the profit delta, and may flip the phase.
pub open spec fn spec_execute_steal(s: GameState) -> GameState {
    let stepped = if s.is_hit_a_lick_mode {
        GameState {
            hit_a_lick_end_time: HIT_A_LICK_TIMER,
            pending_jackpot: saturating_add_u64(
                s.pending_jackpot,
                spec_hal_jackpot(s.hit_a_lick_price),
            ),
            ..s
        }
    } else {
        let new_price = spec_next_price(s.current_price);
        let delta = spec_profit_delta(s.current_price, new_price);
        let extended = if s.time_remaining + TIMER_ADD > MAX_TIMER {
            MAX_TIMER
        } else {
            (s.time_remaining + TIMER_ADD) as u64
        };
        let s1 = GameState {
            current_price: new_price,
            time_remaining: extended,
            yield_pool: saturating_add_u64(s.yield_pool, spec_surplus_yield(delta)),
            pending_jackpot: saturating_add_u64(s.pending_jackpot, spec_surplus_jackpot(delta)),
            growth_steals: if s.growth_steals == u16::MAX {
                u16::MAX
            } else {
                (s.growth_steals + 1) as u16
            },
            ..s
        };
        if spec_should_enter_war(s1) {
            spec_trigger_hal(s1)
        } else {
            s1
        }
    };
    GameState { current_king: Some(nil_key()), king_since: 0, ..stepped }
}

/// One steal on the in-memory state. The caller's payment and the dethroned
/// holder's payout are settled separately (see `execute_dethrone`); this
/// transition advances price, timers, pools, phase and the placeholder
/// holder fields.
pub fn execute_steal(game: &mut GameState) -> (r: Result<(), StealError>)
    requires
        old(game).wf(),
    ensures
        r is Ok,
        *final(game) == spec_execute_steal(*old(game)),
        final(game).wf(),
        final(game).yield_pool >= old(game).yield_pool,
        final(game).pending_jackpot >= old(game).pending_jackpot,
        final(game).jackpot_balance == old(game).jackpot_balance,
        !old(game).is_hit_a_lick_mode && final(game).is_hit_a_lick_mode
            ==> final(game).current_price == final(game).hit_a_lick_price,
{
    if game.is_hit_a_lick_mode {
        game.hit_a_lick_end_time = HIT_A_LICK_TIMER;
        let split = calculate_hit_a_lick_overhead_split(game.hit_a_lick_price);
        let yield_add = split.2;
        let jackpot_add = split.3;
        game.yield_pool = game.yield_pool.saturating_add(yield_add);
        game.pending_jackpot = game.pending_jackpot.saturating_add(jackpot_add);
    } else {
        let old_price = game.current_price;
        proof {
            lemma_next_price_monotone(old_price);
        }
        game.current_price = scale_or(game.current_price, RUN_IT_UP_RATE, 100, u64::MAX);
        game.time_remaining += TIMER_ADD;
        if game.time_remaining > MAX_TIMER {
            game.time_remaining = MAX_TIMER;
        }
        let new_price = game.current_price;
        let split = calculate_run_it_up_split(old_price, new_price);
        let yield_add = split.3;
        let jackpot_add = split.4;
        game.yield_pool = game.yield_pool.saturating_add(yield_add);
        game.pending_jackpot = game.pending_jackpot.saturating_add(jackpot_add);
        game.growth_steals = game.growth_steals.saturating_add(1);
        if game.jackpot_balance > 0 {
            let hit_a_lick_threshold_price = scale_or(
                game.jackpot_balance,
                HIT_A_LICK_THRESHOLD,
                100,
                u64::MAX,
            );
            let price_triggers = game.current_price >= hit_a_lick_threshold_price;
            let steals_trigger = game.growth_steals >= game.min_growth_steals_for_war;
            if price_triggers || steals_trigger {
                trigger_hit_a_lick_mode(game);
            }
        }
    }
    game.current_king = Some(Pubkey::default());
    game.king_since = 0;
    Ok(())
}

/// What a dethroning pays the holder losing the crown: in the war phase a
/// fixed permille of what they actually paid and never any yield; in the
/// growth phase their base price back in full, plus capped time-weighted
/// yield taken out of the yield pool.
pub fn execute_dethrone(
    game: &mut GameState,
    current_time: u64,
    new_payment: u64,
    old_king_was_vip: bool,
) -> (r: (u64, u64))
    ensures
        old(game).is_hit_a_lick_mode ==> *final(game) == *old(game) && r == (
            spec_hit_a_lick_old_king_payout(old(game).king_entry_price),
            0u64,
        ),
        !old(game).is_hit_a_lick_mode ==> {
            let yield_paid = spec_yield_with_cap(
                old(game).yield_pool,
                old(game).king_entry_price,
                new_payment,
                saturating_sub_u64(current_time, old(game).king_since),
                old_king_was_vip,
            );
            &&& r == (old(game).king_base_price, yield_paid)
            &&& yield_paid <= old(game).yield_pool
            &&& *final(game) == (GameState {
                yield_pool: (old(game).yield_pool - yield_paid) as u64,
                ..*old(game)
            })
        },
{
    let hold_time = current_time.saturating_sub(game.king_since);
    if game.is_hit_a_lick_mode {
        let refund = calculate_hit_a_lick_old_king_payout(game.king_entry_price);
        (refund, 0)
    } else {
        let refund = game.king_base_price;
        let yield_payout = calculate_yield_with_cap(
            game.yield_pool,
            game.king_entry_price,
            new_payment,
            hold_time,
            old_king_was_vip,
        );
        if yield_payout > 0 {
            game.yield_pool = game.yield_pool.saturating_sub(yield_payout);
        }
        (refund, yield_payout)
    }
}

/// What flows in from a non-VIP entry at the current state's price.
pub open spec fn spec_incoming(s: GameState) -> u64 {
    if s.is_hit_a_lick_mode {
        spec_hit_a_lick_entry_cost(s.hit_a_lick_price, false)
    } else {
        spec_next_price(s.current_price)
    }
}

/// What flows out to the dethroned holder, from the state's own prices.
pub open spec fn spec_outgoing(s: GameState) -> u64 {
    if s.current_king is Some {
        if s.is_hit_a_lick_mode {
            spec_hit_a_lick_old_king_payout(s.hit_a_lick_price)
        } else {
            s.current_price
        }
    } else {
        0
    }
}

/// One steal together with its cash-flow accounting: returns the payout owed
/// to the dethroned holder and the net amount the vault retains, assuming a
/// non-VIP entry.
pub fn execute_steal_with_accounting(game: &mut GameState) -> (r: (u64, u64))
    requires
        old(game).wf(),
    ensures
        r.0 == spec_outgoing(*old(game)),
        r.1 == saturating_sub_u64(spec_incoming(*old(game)), spec_outgoing(*old(game))),
        *final(game) == spec_execute_steal(*old(game)),
{
    let old_price = game.current_price;
    let incoming = if game.is_hit_a_lick_mode {
        calculate_hit_a_lick_entry_cost(game.hit_a_lick_price, false)
    } else {
        scale_or(game.current_price, RUN_IT_UP_RATE, 100, u64::MAX)
    };
    let total_outgoing = if game.current_king.is_some() {
        if game.is_hit_a_lick_mode {
            calculate_hit_a_lick_old_king_payout(game.hit_a_lick_price)
        } else {
            old_price
        }
    } else {
        0
    };
    let _ = execute_steal(game);
    let contract_delta = incoming.saturating_sub(total_outgoing);
    (total_outgoing, contract_delta)
}

/// Whether a pot qualifies for the richer mega payout table.
pub fn is_mega_hit_a_lick(total_pot: u64) -> (r: bool)
    ensures
        r == (total_pot >= MEGA_POT_THRESHOLD),
{
    total_pot >= MEGA_POT_THRESHOLD
}

/// First-place share of a round-end pot.
pub open spec fn spec_end_winner1(pot: u64) -> u64 {
    if pot >= MEGA_POT_THRESHOLD {
        scaled_or(pot, END_WINNER_1_MEGA, 1000, 0)
    } else {
        scaled_or(pot, END_WINNER_1, 1000, 0)
    }
}

/// Second-place share of a round-end pot.
pub open spec fn spec_end_winner2(pot: u64) -> u64 {
    if pot >= MEGA_POT_THRESHOLD {
        scaled_or(pot, END_WINNER_2_MEGA, 1000, 0)
    } else {
        scaled_or(pot, END_WINNER_2, 1000, 0)
    }
}

/// Third-place share of a round-end pot.
pub open spec fn spec_end_winner3(pot: u64) -> u64 {
    if pot >= MEGA_POT_THRESHOLD {
        scaled_or(pot, END_WINNER_3_MEGA, 1000, 0)
    } else {
        scaled_or(pot, END_WINNER_3, 1000, 0)
    }
}

/// Dev share of a round-end pot; all dev fees are taken on entry, so this is
/// a zero share kept for table completeness.
pub open spec fn spec_end_dev(pot: u64) -> u64 {
    if pot >= MEGA_POT_THRESHOLD {
        scaled_or(pot, END_DEV_MEGA, 1000, 0)
    } else {
        scaled_or(pot, END_DEV, 1000, 0)
    }
}

/// Buyback share of a round-end pot; zero for the same reason as the dev
/// share.
pub open spec fn spec_end_beast(pot: u64) -> u64 {
    if pot >= MEGA_POT_THRESHOLD {
        scaled_or(pot, END_BEAST_MEGA, 1000, 0)
    } else {
        scaled_or(pot, END_BEAST, 1000, 0)
    }
}

/// Rollover share of a round-end pot: what stays in the jackpot for the next
/// round. Its nominal permille share is whatever the winner, dev and buyback
/// shares leave of the table's thousand, and it is defined as the exact
/// remainder of the pot, so the rounding lost by flooring the other shares
/// stays in the pot and the table always accounts for the pot exactly.
pub open spec fn spec_end_rollover(pot: u64) -> u64 {
    (pot - spec_end_winner1(pot) - spec_end_winner2(pot) - spec_end_winner3(pot) - spec_end_dev(
        pot,
    ) - spec_end_beast(pot)) as u64
}

/// Round-end payout table: three winner shares, the (zero) dev and buyback
/// shares, and the rollover remainder, selected by pot size. Returns
/// `(winner1, winner2, winner3, dev, beast, rollover)`; the six always sum
/// to the pot exactly.
pub fn calculate_hit_a_lick_end_payouts(total_pot: u64) -> (r: (u64, u64, u64, u64, u64, u64))
    ensures
        r.0 == spec_end_winner1(total_pot),
        r.1 == spec_end_winner2(total_pot),
        r.2 == spec_end_winner3(total_pot),
        r.3 == spec_end_dev(total_pot),
        r.4 == spec_end_beast(total_pot),
        r.5 == spec_end_rollover(total_pot),
        r.0 + r.1 + r.2 + r.3 + r.4 + r.5 == total_pot,
{
    let shares = if is_mega_hit_a_lick(total_pot) {
        let winner1 = scale_or(total_pot, END_WINNER_1_MEGA, 1000, 0);
        let winner2 = scale_or(total_pot, END_WINNER_2_MEGA, 1000, 0);
        let winner3 = scale_or(total_pot, END_WINNER_3_MEGA, 1000, 0);
        let dev = scale_or(total_pot, END_DEV_MEGA, 1000, 0);
        let beast = scale_or(total_pot, END_BEAST_MEGA, 1000, 0);
        (winner1, winner2, winner3, dev, beast)
    } else {
        let winner1 = scale_or(total_pot, END_WINNER_1, 1000, 0);
        let winner2 = scale_or(total_pot, END_WINNER_2, 1000, 0);
        let winner3 = scale_or(total_pot, END_WINNER_3, 1000, 0);
        let dev = scale_or(total_pot, END_DEV, 1000, 0);
        let beast = scale_or(total_pot, END_BEAST, 1000, 0);
        (winner1, winner2, winner3, dev, beast)
    };
    proof {
        crate::laws::lemma_end_shares_bounded(total_pot);
    }
    let rollover = total_pot - shares.0 - shares.1 - shares.2 - shares.3 - shares.4;
    (shares.0, shares.1, shares.2, shares.3, shares.4, rollover)
}

/// The in-memory state reset for a new round: the pending jackpot merges
/// into the pot, every per-round field returns to its initial value, and the
/// war threshold is recomputed from the carried jackpot.
pub open spec fn spec_execute_round_end(s: GameState) -> GameState {
    let merged = saturating_add_u64(s.jackpot_balance, s.pending_jackpot);
    GameState {
        jackpot_balance: merged,
        pending_jackpot: 0,
        current_price: START_PRICE,
        hit_a_lick_price: 0,
        is_hit_a_lick_mode: false,
        time_remaining: MAX_TIMER,
        hit_a_lick_end_time: 0,
        current_king: None,
        king_since: 0,
        king_entry_price: 0,
        king_base_price: 0,
        recent_kings: cleared_kings(),
        recent_kings_count: 0,
        growth_steals: 0,
        min_growth_steals_for_war: spec_min_growth_steals(merged),
        growth_hard_end_ts: 0,
        ..s
    }
}

/// Reset the in-memory state for the next round, merging the pending
/// jackpot into the pot and recomputing the dynamic war threshold.
pub fn execute_round_end(game: &mut GameState)
    ensures
        *final(game) == spec_execute_round_end(*old(game)),
        final(game).wf(),
        final(game).jackpot_balance == saturating_add_u64(
            old(game).jackpot_balance,
            old(game).pending_jackpot,
        ),
{
    game.jackpot_balance = game.jackpot_balance.saturating_add(game.pending_jackpot);
    game.pending_jackpot = 0;
    game.current_price = START_PRICE;
    game.hit_a_lick_price = 0;
    game.is_hit_a_lick_mode = false;
    game.time_remaining = MAX_TIMER;
    game.hit_a_lick_end_time = 0;
    game.current_king = None;
    game.king_since = 0;
    game.king_entry_price = 0;
    game.king_base_price = 0;
    let z = Pubkey::default();
    game.recent_kings = [z, z, z];
    game.recent_kings_count = 0;
    game.growth_steals = 0;
    game.min_growth_steals_for_war = compute_min_growth_steals_for_war(game.jackpot_balance);
    game.growth_hard_end_ts = 0;
    proof {
        assert(game.recent_kings@ =~= cleared_kings()@);
    }
}

/// Add to the jackpot, rejecting the addition outright on overflow instead
/// of saturating: an ambiguous overflow must never unlock an unintended
/// payout.
pub fn safe_add_to_jackpot(game: &mut GameState, amount: u64) -> (r: Result<(), StealError>)
    ensures
        old(game).jackpot_balance + amount <= u64::MAX ==> r is Ok && *final(game) == (GameState {
            jackpot_balance: (old(game).jackpot_balance + amount) as u64,
            ..*old(game)
        }),
        old(game).jackpot_balance + amount > u64::MAX ==> r == Err::<(), StealError>(
            StealError::Overflow,
        ) && *final(game) == *old(game),
{
    match game.jackpot_balance.checked_add(amount) {
        Some(new_balance) => {
            game.jackpot_balance = new_balance;
            Ok(())
        },
        None => Err(StealError::Overflow),
    }
}

} // verus!
