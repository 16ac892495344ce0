//! Data model: the wallet identity type, the full per-round game record, the
//! operator configuration record, and the reduced in-memory state the pure
//! logic functions operate on, together with their well-formedness
//! conditions.

use vstd::prelude::*;
use crate::constants::HIT_A_LICK_MAX;
use crate::constants::HIT_A_LICK_MIN;
use crate::constants::MAX_GROWTH_STEALS_CLAMP;
use crate::constants::MAX_TIMER;
use crate::constants::MIN_GROWTH_STEALS_CLAMP;

verus! {

/// A wallet identity: a fixed-width 256-bit public key, held as four 64-bit
/// words. The game only ever compares identities for equality; it never
/// inspects their contents.
#[derive(Clone, Copy, Debug, PartialEq, Eq, Hash, Structural)]
pub struct Pubkey {
    pub w0: u64,
    pub w1: u64,
    pub w2: u64,
    pub w3: u64,
}

/// The all-zero identity, used as the empty sentinel in fixed-width slots.
pub open spec fn nil_key() -> Pubkey {
    Pubkey { w0: 0, w1: 0, w2: 0, w3: 0 }
}

/// A recent-kings array with every slot cleared back to the sentinel.
pub open spec fn cleared_kings() -> [Pubkey; 3] {
    [nil_key(), nil_key(), nil_key()]
}

impl Default for Pubkey {
    fn default() -> (r: Pubkey)
        ensures
            r == nil_key(),
    {
        Pubkey { w0: 0, w1: 0, w2: 0, w3: 0 }
    }
}

/// The first `count` slots of a recent-kings array, as a sequence.
pub open spec fn occupied_kings(kings: [Pubkey; 3], count: u8) -> Seq<Pubkey> {
    kings@.take(count as int)
}

/// The occupied slots of a recent-kings array hold pairwise distinct
/// identities, and at most three slots are occupied.
pub open spec fn kings_well_formed(kings: [Pubkey; 3], count: u8) -> bool {
    &&& count <= 3
    &&& count >= 2 ==> kings[0] != kings[1]
    &&& count >= 3 ==> kings[0] != kings[2] && kings[1] != kings[2]
}

/// The full per-round game record, one instance per deployment, mutated only
/// by the lifecycle transitions.
#[derive(Clone, Copy, Debug)]
pub struct GameAccount {
    /// Current growth-phase price to steal the crown.
    pub current_price: u64,
    /// War-phase ticket price (a permille share of the pot, clamped).
    pub hit_a_lick_price: u64,
    /// Jackpot pool balance.
    pub jackpot_balance: u64,
    /// Jackpot accumulated during the current round; merges into
    /// `jackpot_balance` only at round end or reset.
    pub pending_jackpot: u64,
    /// Yield pool funding holder earnings.
    pub yield_pool: u64,
    /// Timestamp when the growth round ends.
    pub round_end_time: i64,
    /// War-phase countdown deadline.
    pub hit_a_lick_end_time: i64,
    /// Whether the game is in the war phase.
    pub is_hit_a_lick_mode: bool,
    /// Current holder's wallet; meaningful only while `has_king` is set.
    pub current_king: Pubkey,
    /// Timestamp when the current holder took the crown.
    pub king_since: i64,
    /// What the holder actually paid to enter, surcharge included.
    pub king_entry_price: u64,
    /// Base price backing the holder's refund, phase dependent.
    pub king_base_price: u64,
    /// Whether a holder exists.
    pub has_king: bool,
    /// Fee wallet for the dev cut.
    pub dev_wallet: Pubkey,
    /// Fee wallet for the buyback-burn cut.
    pub beast_wallet: Pubkey,
    /// Token mint backing VIP eligibility.
    pub steal_mint: Pubkey,
    /// Monotonic round counter.
    pub round: u64,
    /// Steals committed this round.
    pub total_steals: u64,
    /// Tokens burned by buybacks so far, across rounds.
    pub total_burned: u64,
    /// Fee lamports accumulated toward the next buyback, across rounds.
    pub beast_sol_pending: u64,
    /// The last three unique war-phase holders, most recent first.
    pub recent_kings: [Pubkey; 3],
    /// How many `recent_kings` slots are occupied.
    pub recent_kings_count: u8,
    /// Wallet that last stole, for rate limiting.
    pub last_steal_wallet: Pubkey,
    /// Timestamp of the last steal, for rate limiting.
    pub last_steal_time: i64,
    /// Cooldown between steals by the same wallet in the war phase.
    pub cooldown_seconds: u64,
    /// Steals taken during the current growth phase.
    pub growth_steals: u16,
    /// Dynamic growth-steal threshold before a war can trigger.
    pub min_growth_steals_for_war: u16,
    /// Informational hard cap on the growth phase.
    pub growth_hard_end_ts: i64,
    /// Whether the current holder was VIP when they stole.
    pub king_was_vip: bool,
    /// Paid operations are blocked before this time; 0 means no restriction.
    pub season_start_time: i64,
    /// Address-derivation bump seed, carried opaquely.
    pub bump: u8,
}

impl GameAccount {
    /// Structural invariant every lifecycle transition preserves.
    pub open spec fn wf(self) -> bool {
        &&& kings_well_formed(self.recent_kings, self.recent_kings_count)
        &&& MIN_GROWTH_STEALS_CLAMP <= self.min_growth_steals_for_war
            <= MAX_GROWTH_STEALS_CLAMP
        &&& self.current_price >= 1
        &&& self.is_hit_a_lick_mode ==> HIT_A_LICK_MIN <= self.hit_a_lick_price
            <= HIT_A_LICK_MAX
        &&& self.has_king ==> self.king_entry_price >= 1
        &&& self.king_since >= 0
        &&& self.last_steal_time >= 0
        &&& self.cooldown_seconds <= i64::MAX as u64
    }
}

/// Operator configuration: the canonical fee wallets and token mint.
#[derive(Clone, Copy, Debug)]
pub struct GameConfig {
    /// Authority allowed to update this configuration.
    pub authority: Pubkey,
    /// Fee wallet for the dev cut.
    pub dev_wallet: Pubkey,
    /// Fee wallet for the buyback-burn cut.
    pub beast_wallet: Pubkey,
    /// Token mint backing VIP eligibility.
    pub steal_mint: Pubkey,
    /// Address-derivation bump seed, carried opaquely.
    pub bump: u8,
}

/// Reduced in-memory game state used by the pure logic functions: the same
/// economy without the host-side bookkeeping fields, with a relative timer in
/// place of absolute deadlines and an explicit option for the holder.
#[derive(Clone, Copy, Debug)]
pub struct GameState {
    pub current_price: u64,
    pub hit_a_lick_price: u64,
    pub jackpot_balance: u64,
    pub pending_jackpot: u64,
    pub yield_pool: u64,
    pub time_remaining: u64,
    pub hit_a_lick_end_time: u64,
    pub is_hit_a_lick_mode: bool,
    pub current_king: Option<Pubkey>,
    pub king_since: u64,
    pub king_entry_price: u64,
    pub king_base_price: u64,
    /// The last three unique war-phase holders, most recent first.
    pub recent_kings: [Pubkey; 3],
    /// How many `recent_kings` slots are occupied.
    pub recent_kings_count: u8,
    /// Wallet that last stole, for rate limiting.
    pub last_steal_wallet: Option<Pubkey>,
    /// Timestamp of the last steal, for rate limiting.
    pub last_steal_time: u64,
    /// Cooldown between steals by the same wallet in the war phase.
    pub cooldown_seconds: u64,
    /// Steals taken during the current growth phase.
    pub growth_steals: u16,
    /// Dynamic growth-steal threshold before a war can trigger.
    pub min_growth_steals_for_war: u16,
    /// Informational hard cap on the growth phase.
    pub growth_hard_end_ts: i64,
}

impl GameState {
    /// Structural invariant the pure transitions preserve.
    pub open spec fn wf(self) -> bool {
        &&& kings_well_formed(self.recent_kings, self.recent_kings_count)
        &&& MIN_GROWTH_STEALS_CLAMP <= self.min_growth_steals_for_war
            <= MAX_GROWTH_STEALS_CLAMP
        &&& self.time_remaining <= MAX_TIMER
        &&& self.current_price >= 1
        &&& self.is_hit_a_lick_mode ==> HIT_A_LICK_MIN <= self.hit_a_lick_price
            <= HIT_A_LICK_MAX
    }
}

} // verus!
