//! Tunable rule constants for the crown-clash economy. All fractional rates
//! are expressed in integer permille (parts per 1000) so the whole crate stays
//! in integer arithmetic.

use vstd::prelude::*;

verus! {

pub const LAMPORTS_PER_SOL: u64 = 1_000_000_000;

// Initial state
pub const START_PRICE: u64 = 20_000_000;

// Growth ("run it up") phase
pub const RUN_IT_UP_RATE: u64 = 112;
pub const MAX_TIMER: u64 = 600;
pub const TIMER_ADD: u64 = 30;

// Growth-phase surplus split, out of 1000, taken on the profit delta
// (new price minus old price). The dethroned holder gets a full refund of
// what they paid; the profit delta is the tax base, never the refund base.
pub const SURPLUS_DEV: u64 = 60;
pub const SURPLUS_BEAST: u64 = 5;
pub const SURPLUS_YIELD: u64 = 200;
pub const SURPLUS_JACKPOT: u64 = 735;

// Dynamic war threshold: base steals plus extra steals per whole SOL in the
// jackpot, clamped so a war can never trigger too early nor be pushed out
// forever.
pub const MIN_GROWTH_STEALS_CLAMP: u16 = 35;
pub const MAX_GROWTH_STEALS_CLAMP: u16 = 100;
pub const GROWTH_STEALS_BASE: u16 = 35;
pub const GROWTH_STEALS_PER_SOL: u64 = 15;
pub const GROWTH_MAX_DURATION_SECS: i64 = 180;

// War ("hit a lick") trigger: price reaching this percentage of the jackpot
// flips the phase.
pub const HIT_A_LICK_THRESHOLD: u64 = 60;

// War-phase ticket price: this permille share of the pot, clamped.
pub const HIT_A_LICK_PCT_OF_POT: u64 = 30;
pub const HIT_A_LICK_MIN: u64 = 50_000_000;
pub const HIT_A_LICK_MAX: u64 = 1_500_000_000;
pub const HIT_A_LICK_TIMER: u64 = 10;
pub const MIN_HIT_A_LICK_HOLD: u64 = 3;
pub const HIT_A_LICK_COOLDOWN_SECS: u64 = 2;

// War-phase entry splits, out of 1000 of the frozen ticket price.
pub const HIT_A_LICK_SURCHARGE: u64 = 120;
pub const HIT_A_LICK_OLD_KING_REFUND: u64 = 900;
pub const HIT_A_LICK_DEV: u64 = 50;
pub const HIT_A_LICK_BEAST: u64 = 0;
pub const HIT_A_LICK_YIELD: u64 = 0;
pub const HIT_A_LICK_JACKPOT: u64 = 50;

// Round end: pots at or above the mega threshold use the richer winner table.
pub const MEGA_POT_THRESHOLD: u64 = 50_000_000_000;

// Normal round-end split, out of 1000.
pub const END_WINNER_1: u64 = 150;
pub const END_WINNER_2: u64 = 60;
pub const END_WINNER_3: u64 = 40;
pub const END_DEV: u64 = 0;
pub const END_BEAST: u64 = 0;
pub const END_ROLLOVER: u64 = 750;

// Mega round-end split, out of 1000.
pub const END_WINNER_1_MEGA: u64 = 250;
pub const END_WINNER_2_MEGA: u64 = 100;
pub const END_WINNER_3_MEGA: u64 = 50;
pub const END_DEV_MEGA: u64 = 0;
pub const END_BEAST_MEGA: u64 = 0;
pub const END_ROLLOVER_MEGA: u64 = 600;

// Yield paid to a dethroned holder, growth phase only.
pub const YIELD_BASE_RATE: u64 = 50;
pub const YIELD_TIME_BONUS_CAP_SECS: u64 = 30;
pub const YIELD_CAP: u64 = 500;
pub const MIN_YIELD: u64 = 10_000;

// VIP status and pricing.
pub const TOKEN_REQUIREMENT: u64 = 1_000_000_000_000;
pub const VIP_YIELD_MULTIPLIER: u64 = 2;
pub const VIP_NO_SURCHARGE: bool = true;
pub const NORMIE_RATE: u64 = 100;

// Minimum balance a fee wallet must hold to stay rent exempt.
pub const RENT_EXEMPT_MIN: u64 = 890_880;

// Mock buyback swap rate: tokens (9 decimals) per whole SOL.
pub const MOCK_BUYBACK_RATE: u64 = 100_000_000_000_000;

} // verus!
