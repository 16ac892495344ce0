//! Round lifecycle: each operation (initialize, steal, end round, reset
//! round, buyback) is one atomic transition on the full game record. A
//! transition validates every precondition, computes the exact transfer
//! amounts the host must perform, and commits the new state; on rejection
//! the record is left untouched, with one documented exception for the
//! war-phase minimum-hold rule.
//!
//! The host around this crate reads the clock and balances, hands them in as
//! plain values, and performs the returned transfers; nothing here does I/O.

use vstd::prelude::*;
use crate::constants::GROWTH_MAX_DURATION_SECS;
use crate::constants::HIT_A_LICK_COOLDOWN_SECS;
use crate::constants::HIT_A_LICK_THRESHOLD;
use crate::constants::HIT_A_LICK_TIMER;
use crate::constants::LAMPORTS_PER_SOL;
use crate::constants::MAX_TIMER;
use crate::constants::MIN_HIT_A_LICK_HOLD;
use crate::constants::MIN_YIELD;
use crate::constants::MOCK_BUYBACK_RATE;
use crate::constants::RUN_IT_UP_RATE;
use crate::constants::START_PRICE;
use crate::constants::TIMER_ADD;
use crate::errors::StealError;
use crate::logic::calculate_hit_a_lick_end_payouts;
use crate::logic::calculate_hit_a_lick_entry_cost;
use crate::logic::calculate_hit_a_lick_old_king_payout;
use crate::logic::calculate_hit_a_lick_overhead_split;
use crate::logic::calculate_hit_a_lick_price;
use crate::logic::calculate_run_it_up_split;
use crate::logic::calculate_yield_with_cap;
use crate::logic::compute_min_growth_steals_for_war;
use crate::logic::is_vip;
use crate::logic::lemma_next_price_monotone;
use crate::logic::saturating_add_u64;
use crate::logic::saturating_sub_u64;
use crate::logic::scale_or;
use crate::logic::spec_end_rollover;
use crate::logic::spec_end_winner1;
use crate::logic::spec_end_winner2;
use crate::logic::spec_end_winner3;
use crate::logic::spec_hal_threshold;
use crate::logic::spec_hal_dev;
use crate::logic::spec_hal_jackpot;
use crate::logic::spec_hit_a_lick_entry_cost;
use crate::logic::spec_hit_a_lick_old_king_payout;
use crate::logic::spec_hit_a_lick_price;
use crate::logic::spec_is_vip;
use crate::logic::spec_min_growth_steals;
use crate::logic::spec_next_price;
use crate::logic::spec_profit_delta;
use crate::logic::spec_record_king;
use crate::logic::spec_surplus_beast;
use crate::logic::spec_surplus_dev;
use crate::logic::spec_surplus_jackpot;
use crate::logic::spec_surplus_yield;
use crate::logic::spec_yield_with_cap;
use crate::logic::update_recent_kings;
use crate::state::cleared_kings;
use crate::state::nil_key;
use crate::state::occupied_kings;
use crate::state::GameAccount;
use crate::state::GameConfig;
use crate::state::Pubkey;

verus! {

/// The transfers one committed steal obliges the host to perform.
#[derive(Clone, Copy, Debug, PartialEq, Eq, Structural)]
pub struct StealPlan {
    /// What the player pays into the vault.
    pub entry_cost: u64,
    /// What the vault pays the dethroned holder: refund plus yield, or zero
    /// when there is nobody to pay or the supplied old-holder account is
    /// stale.
    pub old_king_payout: u64,
    /// The yield component of `old_king_payout`, already taken out of the
    /// yield pool.
    pub yield_paid: u64,
    /// Fee the vault pays the dev wallet.
    pub dev_cut: u64,
    /// Fee the vault pays the buyback wallet.
    pub beast_cut: u64,
}

/// The transfers one committed round end obliges the host to perform.
#[derive(Clone, Copy, Debug, PartialEq, Eq, Structural)]
pub struct EndRoundPlan {
    /// Paid to the first-place account.
    pub winner1_payout: u64,
    /// Paid to the second-place account, zero when the slot is unfilled or
    /// the account was not supplied.
    pub winner2_payout: u64,
    /// Paid to the third-place account, zero when the slot is unfilled or
    /// the account was not supplied.
    pub winner3_payout: u64,
}

/// A freshly initialized game record: growth phase at the starting price,
/// seeded pools, no holder, and the war threshold derived from the seed
/// jackpot.
pub open spec fn spec_initialize_game(
    jackpot_seed: u64,
    yield_seed: u64,
    season_start_time: i64,
    now: i64,
    dev_wallet: Pubkey,
    beast_wallet: Pubkey,
    steal_mint: Pubkey,
    bump: u8,
) -> GameAccount {
    GameAccount {
        current_price: START_PRICE,
        hit_a_lick_price: 0,
        jackpot_balance: jackpot_seed,
        pending_jackpot: 0,
        yield_pool: yield_seed,
        round_end_time: (now + MAX_TIMER) as i64,
        hit_a_lick_end_time: 0,
        is_hit_a_lick_mode: false,
        current_king: nil_key(),
        king_since: 0,
        king_entry_price: 0,
        king_base_price: 0,
        has_king: false,
        dev_wallet: dev_wallet,
        beast_wallet: beast_wallet,
        steal_mint: steal_mint,
        round: 1,
        total_steals: 0,
        total_burned: 0,
        beast_sol_pending: 0,
        recent_kings: cleared_kings(),
        recent_kings_count: 0,
        last_steal_wallet: nil_key(),
        last_steal_time: 0,
        cooldown_seconds: HIT_A_LICK_COOLDOWN_SECS,
        growth_steals: 0,
        min_growth_steals_for_war: spec_min_growth_steals(jackpot_seed),
        growth_hard_end_ts: (now + GROWTH_MAX_DURATION_SECS) as i64,
        king_was_vip: false,
        season_start_time: season_start_time,
        bump: bump,
    }
}

/// Initialize a new game record. The host validates accounts and funds the
/// vault; this computes the initial state.
pub fn initialize_game(
    jackpot_seed: u64,
    yield_seed: u64,
    season_start_time: i64,
    now: i64,
    dev_wallet: Pubkey,
    beast_wallet: Pubkey,
    steal_mint: Pubkey,
    bump: u8,
) -> (g: GameAccount)
    requires
        0 <= now <= i64::MAX - MAX_TIMER,
    ensures
        g == spec_initialize_game(
            jackpot_seed,
            yield_seed,
            season_start_time,
            now,
            dev_wallet,
            beast_wallet,
            steal_mint,
            bump,
        ),
        g.wf(),
        !g.has_king,
{
    let z = Pubkey::default();
    let min_growth = compute_min_growth_steals_for_war(jackpot_seed);
    let g = GameAccount {
        current_price: START_PRICE,
        hit_a_lick_price: 0,
        jackpot_balance: jackpot_seed,
        pending_jackpot: 0,
        yield_pool: yield_seed,
        round_end_time: now + MAX_TIMER as i64,
        hit_a_lick_end_time: 0,
        is_hit_a_lick_mode: false,
        current_king: z,
        king_since: 0,
        king_entry_price: 0,
        king_base_price: 0,
        has_king: false,
        dev_wallet: dev_wallet,
        beast_wallet: beast_wallet,
        steal_mint: steal_mint,
        round: 1,
        total_steals: 0,
        total_burned: 0,
        beast_sol_pending: 0,
        recent_kings: [z, z, z],
        recent_kings_count: 0,
        last_steal_wallet: z,
        last_steal_time: 0,
        cooldown_seconds: HIT_A_LICK_COOLDOWN_SECS,
        growth_steals: 0,
        min_growth_steals_for_war: min_growth,
        growth_hard_end_ts: now + GROWTH_MAX_DURATION_SECS,
        king_was_vip: false,
        season_start_time: season_start_time,
        bump: bump,
    };
    proof {
        assert(g.recent_kings@ =~= cleared_kings()@);
    }
    g
}

/// Record the canonical fee wallets and mint.
pub fn initialize_config(
    authority: Pubkey,
    dev_wallet: Pubkey,
    beast_wallet: Pubkey,
    steal_mint: Pubkey,
    bump: u8,
) -> (c: GameConfig)
    ensures
        c == (GameConfig { authority, dev_wallet, beast_wallet, steal_mint, bump }),
{
    GameConfig { authority, dev_wallet, beast_wallet, steal_mint, bump }
}

/// The record after a no-winner reset: the pending jackpot merges into the
/// pot, the timers and per-round counters restart, and the war threshold is
/// recomputed; nobody is paid and the holder fields are untouched.
pub open spec fn spec_reset_round(s: GameAccount, now: i64) -> GameAccount {
    let merged = saturating_add_u64(s.jackpot_balance, s.pending_jackpot);
    GameAccount {
        jackpot_balance: merged,
        pending_jackpot: 0,
        current_price: START_PRICE,
        hit_a_lick_price: 0,
        round_end_time: (now + MAX_TIMER) as i64,
        hit_a_lick_end_time: 0,
        is_hit_a_lick_mode: false,
        last_steal_wallet: nil_key(),
        last_steal_time: 0,
        growth_steals: 0,
        min_growth_steals_for_war: spec_min_growth_steals(merged),
        growth_hard_end_ts: (now + GROWTH_MAX_DURATION_SECS) as i64,
        round: (s.round + 1) as u64,
        total_steals: 0,
        ..s
    }
}

/// Restart a round that ran out with no holder. Legal only once the round
/// timer has elapsed and only while no holder exists; a round with a holder
/// must be ended instead so the holder is paid.
pub fn reset_round(game: &mut GameAccount, now: i64) -> (r: Result<(), StealError>)
    requires
        old(game).wf(),
        0 <= now <= i64::MAX - MAX_TIMER,
        old(game).round < u64::MAX,
    ensures
        r is Err ==> *final(game) == *old(game),
        now < old(game).round_end_time <==> r == Err::<(), StealError>(StealError::RoundNotEnded),
        now >= old(game).round_end_time && old(game).has_king <==> r == Err::<(), StealError>(
            StealError::HasKing,
        ),
        r is Ok <==> now >= old(game).round_end_time && !old(game).has_king,
        r is Ok ==> *final(game) == spec_reset_round(*old(game), now) && final(game).wf(),
{
    if now < game.round_end_time {
        return Err(StealError::RoundNotEnded);
    }
    if game.has_king {
        return Err(StealError::HasKing);
    }
    game.jackpot_balance = game.jackpot_balance.saturating_add(game.pending_jackpot);
    game.pending_jackpot = 0;
    game.current_price = START_PRICE;
    game.hit_a_lick_price = 0;
    game.round_end_time = now + MAX_TIMER as i64;
    game.hit_a_lick_end_time = 0;
    game.is_hit_a_lick_mode = false;
    game.last_steal_wallet = Pubkey::default();
    game.last_steal_time = 0;
    game.growth_steals = 0;
    game.min_growth_steals_for_war = compute_min_growth_steals_for_war(game.jackpot_balance);
    game.growth_hard_end_ts = now + GROWTH_MAX_DURATION_SECS;
    game.round = game.round + 1;
    game.total_steals = 0;
    Ok(())
}

/// Tokens bought and burned for a given amount of fee lamports, at the
/// fixed mock swap rate, truncated to sixty-four bits exactly as stored.
pub open spec fn spec_buyback_tokens(amount_sol: u64) -> u64 {
    ((amount_sol as int) * (MOCK_BUYBACK_RATE as int) / (LAMPORTS_PER_SOL as int)) as u64
}

/// Convert accumulated buyback fees into burned tokens at the fixed mock
/// rate. The host performs the actual token burn of the returned amount;
/// this checks the budget and commits the bookkeeping.
pub fn beast_buyback_burn(game: &mut GameAccount, amount_sol: u64) -> (r: Result<u64, StealError>)
    requires
        old(game).total_burned + spec_buyback_tokens(amount_sol) <= u64::MAX,
    ensures
        amount_sol > old(game).beast_sol_pending ==> r == Err::<u64, StealError>(
            StealError::InsufficientFunds,
        ) && *final(game) == *old(game),
        amount_sol <= old(game).beast_sol_pending ==> r == Ok::<u64, StealError>(
            spec_buyback_tokens(amount_sol),
        ) && *final(game) == (GameAccount {
            beast_sol_pending: (old(game).beast_sol_pending - amount_sol) as u64,
            total_burned: (old(game).total_burned + spec_buyback_tokens(amount_sol)) as u64,
            ..*old(game)
        }),
{
    if amount_sol > game.beast_sol_pending {
        return Err(StealError::InsufficientFunds);
    }
    let wide = (amount_sol as u128) * (MOCK_BUYBACK_RATE as u128);
    let tokens_to_burn = #[verifier::truncate] ((wide / (LAMPORTS_PER_SOL as u128)) as u64);
    game.beast_sol_pending = game.beast_sol_pending - amount_sol;
    game.total_burned = game.total_burned + tokens_to_burn;
    Ok(tokens_to_burn)
}

/// What the player owes to enter: the escalated price in the growth phase,
/// the frozen ticket (plus any non-VIP surcharge) in the war phase.
pub open spec fn spec_steal_entry_cost(s: GameAccount, token_balance: u64) -> u64 {
    if s.is_hit_a_lick_mode {
        spec_hit_a_lick_entry_cost(s.hit_a_lick_price, spec_is_vip(token_balance))
    } else {
        spec_next_price(s.current_price)
    }
}

/// Whether this steal settles the previous holder: there is one, the thief
/// is not stealing from themself, and the supplied old-holder account
/// matches the recorded holder. A stale account (lost race between two
/// concurrent steals) makes this false: the payout is skipped, never paid
/// to the wrong party, and the real holder is settled on the next steal.
pub open spec fn spec_settles_old_king(s: GameAccount, player: Pubkey, old_king_wallet: Pubkey) -> bool {
    &&& s.has_king
    &&& s.current_king != player
    &&& old_king_wallet == s.current_king
}

/// The dethroned holder's refund: in the growth phase everything they paid;
/// in the war phase the fixed permille of what they actually paid, which
/// stays correct even when that payment was a growth-phase price that
/// triggered the war.
pub open spec fn spec_old_king_refund(s: GameAccount) -> u64 {
    if s.is_hit_a_lick_mode {
        spec_hit_a_lick_old_king_payout(s.king_entry_price)
    } else {
        s.king_entry_price
    }
}

/// The dethroned holder's yield: none in the war phase; in the growth phase
/// the capped time-weighted yield, raised to the fixed minimum floor as far
/// as the pool allows.
pub open spec fn spec_old_king_yield(s: GameAccount, now: i64, entry_cost: u64) -> u64 {
    if s.is_hit_a_lick_mode {
        0
    } else {
        let capped = spec_yield_with_cap(
            s.yield_pool,
            s.king_entry_price,
            entry_cost,
            (now - s.king_since) as u64,
            s.king_was_vip,
        );
        let floor = if MIN_YIELD < s.yield_pool {
            MIN_YIELD
        } else {
            s.yield_pool
        };
        if capped > floor {
            capped
        } else {
            floor
        }
    }
}

/// Dev fee taken on this entry.
pub open spec fn spec_steal_dev_cut(s: GameAccount, entry_cost: u64) -> u64 {
    if s.is_hit_a_lick_mode {
        spec_hal_dev(s.hit_a_lick_price)
    } else {
        spec_surplus_dev(spec_profit_delta(s.current_price, entry_cost))
    }
}

/// Buyback fee taken on this entry; the war phase takes none.
pub open spec fn spec_steal_beast_cut(s: GameAccount, entry_cost: u64) -> u64 {
    if s.is_hit_a_lick_mode {
        0
    } else {
        spec_surplus_beast(spec_profit_delta(s.current_price, entry_cost))
    }
}

/// What this entry adds to the yield pool; the war phase adds nothing.
pub open spec fn spec_steal_yield_add(s: GameAccount, entry_cost: u64) -> u64 {
    if s.is_hit_a_lick_mode {
        0
    } else {
        spec_surplus_yield(spec_profit_delta(s.current_price, entry_cost))
    }
}

/// What this entry adds to the pending jackpot. In the war phase the whole
/// surcharge gap between what was paid and the base ticket goes to the
/// jackpot on top of the ticket's own share.
pub open spec fn spec_steal_jackpot_add(s: GameAccount, entry_cost: u64) -> u64 {
    if s.is_hit_a_lick_mode {
        saturating_add_u64(
            spec_hal_jackpot(s.hit_a_lick_price),
            saturating_sub_u64(entry_cost, s.hit_a_lick_price),
        )
    } else {
        spec_surplus_jackpot(spec_profit_delta(s.current_price, entry_cost))
    }
}

/// Everything the vault owes once this steal commits.
pub open spec fn spec_steal_required_payouts(
    s: GameAccount,
    now: i64,
    player: Pubkey,
    token_balance: u64,
    old_king_wallet: Pubkey,
) -> u64 {
    let entry_cost = spec_steal_entry_cost(s, token_balance);
    let okp = if spec_settles_old_king(s, player, old_king_wallet) {
        saturating_add_u64(spec_old_king_refund(s), spec_old_king_yield(s, now, entry_cost))
    } else {
        0
    };
    saturating_add_u64(
        saturating_add_u64(okp, spec_steal_dev_cut(s, entry_cost)),
        spec_steal_beast_cut(s, entry_cost),
    )
}

/// What a steal by a wallet with the given token balance would cost right
/// now. The host collects exactly this amount into the vault before asking
/// for the steal itself, which is why it is exposed on its own.
pub fn current_entry_cost(game: &GameAccount, token_balance: u64) -> (r: u64)
    ensures
        r == spec_steal_entry_cost(*game, token_balance),
{
    if game.is_hit_a_lick_mode {
        calculate_hit_a_lick_entry_cost(game.hit_a_lick_price, is_vip(token_balance))
    } else {
        scale_or(game.current_price, RUN_IT_UP_RATE, 100, u64::MAX)
    }
}

/// The first reason this steal is rejected, in the order the checks run, or
/// nothing when it commits. `vault_lamports` is the vault balance after the
/// entry payment has been collected, which is when the surrounding ledger
/// reads it; a rejection rolls the entry payment back with everything else.
pub open spec fn spec_steal_rejection(
    s: GameAccount,
    now: i64,
    player: Pubkey,
    token_balance: u64,
    player_lamports: u64,
    old_king_wallet: Pubkey,
    vault_lamports: u64,
) -> Option<StealError> {
    let entry_cost = spec_steal_entry_cost(s, token_balance);
    let settles = spec_settles_old_king(s, player, old_king_wallet);
    let okp = if settles {
        saturating_add_u64(spec_old_king_refund(s), spec_old_king_yield(s, now, entry_cost))
    } else {
        0
    };
    let dev_cut = spec_steal_dev_cut(s, entry_cost);
    let beast_cut = spec_steal_beast_cut(s, entry_cost);
    if s.season_start_time != 0 && now < s.season_start_time {
        Some(StealError::SeasonNotStarted)
    } else if s.is_hit_a_lick_mode && now >= s.hit_a_lick_end_time && s.has_king && now
        - s.king_since >= MIN_HIT_A_LICK_HOLD {
        Some(StealError::RoundEnded)
    } else if s.is_hit_a_lick_mode && now >= s.hit_a_lick_end_time && !s.has_king {
        Some(StealError::RoundEnded)
    } else if s.is_hit_a_lick_mode && player == s.last_steal_wallet && s.last_steal_time > 0
        && now - s.last_steal_time < s.cooldown_seconds {
        Some(StealError::RateLimitExceeded)
    } else if !s.is_hit_a_lick_mode && now >= s.round_end_time {
        Some(StealError::RoundEnded)
    } else if entry_cost == 0 {
        Some(StealError::InvalidAccount)
    } else if player_lamports < entry_cost {
        Some(StealError::InsufficientFunds)
    } else if settles && s.is_hit_a_lick_mode && (spec_hit_a_lick_old_king_payout(
        s.king_entry_price,
    ) == 0 || s.king_entry_price == 0) {
        Some(StealError::InvalidAccount)
    } else if vault_lamports < spec_steal_required_payouts(
        s,
        now,
        player,
        token_balance,
        old_king_wallet,
    ) {
        Some(StealError::InsufficientVaultBalance)
    } else if (dev_cut > 0 || beast_cut > 0) && vault_lamports - okp < saturating_add_u64(
        dev_cut,
        beast_cut,
    ) {
        Some(StealError::InsufficientVaultBalance)
    } else {
        None
    }
}

/// Whether a growth-phase steal flips the game into the war phase, judged
/// on the already-stepped state: either the escalated price has reached its
/// trigger share of a non-empty jackpot, or enough growth steals have
/// accumulated.
pub open spec fn spec_war_triggers(s: GameAccount) -> bool {
    ||| s.jackpot_balance > 0 && s.current_price >= spec_hal_threshold(s.jackpot_balance)
    ||| s.growth_steals >= s.min_growth_steals_for_war
}

/// The committed record after a steal, except for the recent-kings slots,
/// which the transition's contract pins separately through their occupied
/// prefix.
pub open spec fn spec_steal_next(
    s: GameAccount,
    now: i64,
    player: Pubkey,
    token_balance: u64,
    old_king_wallet: Pubkey,
) -> GameAccount {
    let entry_cost = spec_steal_entry_cost(s, token_balance);
    let settles = spec_settles_old_king(s, player, old_king_wallet);
    let y_paid = if settles {
        spec_old_king_yield(s, now, entry_cost)
    } else {
        0
    };
    let beast_cut = spec_steal_beast_cut(s, entry_cost);
    let pool_after_payout = if y_paid > 0 {
        saturating_sub_u64(s.yield_pool, y_paid)
    } else {
        s.yield_pool
    };
    let pool_fed = saturating_add_u64(pool_after_payout, spec_steal_yield_add(s, entry_cost));
    let pending_fed = saturating_add_u64(s.pending_jackpot, spec_steal_jackpot_add(s, entry_cost));
    let beast_pending = if beast_cut > 0 {
        saturating_add_u64(s.beast_sol_pending, beast_cut)
    } else {
        s.beast_sol_pending
    };
    let stepped = if s.is_hit_a_lick_mode {
        GameAccount {
            hit_a_lick_end_time: (now + HIT_A_LICK_TIMER) as i64,
            current_price: s.hit_a_lick_price,
            yield_pool: pool_fed,
            pending_jackpot: pending_fed,
            beast_sol_pending: beast_pending,
            ..s
        }
    } else {
        let s1 = GameAccount {
            current_price: spec_next_price(s.current_price),
            round_end_time: if s.round_end_time + TIMER_ADD < now + MAX_TIMER {
                (s.round_end_time + TIMER_ADD) as i64
            } else {
                (now + MAX_TIMER) as i64
            },
            yield_pool: pool_fed,
            pending_jackpot: pending_fed,
            beast_sol_pending: beast_pending,
            growth_steals: if s.growth_steals == u16::MAX {
                u16::MAX
            } else {
                (s.growth_steals + 1) as u16
            },
            ..s
        };
        if spec_war_triggers(s1) {
            GameAccount {
                is_hit_a_lick_mode: true,
                hit_a_lick_price: spec_hit_a_lick_price(s1.jackpot_balance),
                current_price: spec_hit_a_lick_price(s1.jackpot_balance),
                hit_a_lick_end_time: (now + HIT_A_LICK_TIMER) as i64,
                recent_kings: cleared_kings(),
                recent_kings_count: 0,
                ..s1
            }
        } else {
            s1
        }
    };
    GameAccount {
        current_king: player,
        king_since: now,
        king_entry_price: entry_cost,
        king_base_price: if stepped.is_hit_a_lick_mode {
            stepped.hit_a_lick_price
        } else {
            entry_cost
        },
        king_was_vip: spec_is_vip(token_balance),
        has_king: true,
        total_steals: (s.total_steals + 1) as u64,
        last_steal_wallet: player,
        last_steal_time: now,
        ..stepped
    }
}

/// The transfers a committed steal obliges the host to perform.
pub open spec fn spec_steal_plan(
    s: GameAccount,
    now: i64,
    player: Pubkey,
    token_balance: u64,
    old_king_wallet: Pubkey,
) -> StealPlan {
    let entry_cost = spec_steal_entry_cost(s, token_balance);
    let settles = spec_settles_old_king(s, player, old_king_wallet);
    let y_paid = if settles {
        spec_old_king_yield(s, now, entry_cost)
    } else {
        0
    };
    StealPlan {
        entry_cost: entry_cost,
        old_king_payout: if settles {
            saturating_add_u64(spec_old_king_refund(s), y_paid)
        } else {
            0
        },
        yield_paid: y_paid,
        dev_cut: spec_steal_dev_cut(s, entry_cost),
        beast_cut: spec_steal_beast_cut(s, entry_cost),
    }
}

/// One steal of the crown, validated and committed atomically. The caller
/// reads the clock, the player's balance, the token balance behind VIP
/// status and the vault balance after collecting the entry, and performs
/// the returned transfers; on any error the record is unchanged and the
/// collected entry must be rolled back.
#[verifier::rlimit(100)]
pub fn steal(
    game: &mut GameAccount,
    now: i64,
    player: Pubkey,
    token_balance: u64,
    player_lamports: u64,
    old_king_wallet: Pubkey,
    vault_lamports: u64,
) -> (r: Result<StealPlan, StealError>)
    requires
        old(game).wf(),
        0 <= now <= i64::MAX - MAX_TIMER,
        old(game).round_end_time + TIMER_ADD <= i64::MAX,
        old(game).has_king ==> old(game).king_since <= now,
        old(game).total_steals < u64::MAX,
    ensures
        r is Err ==> *final(game) == *old(game),
        r matches Err(e) ==> spec_steal_rejection(
            *old(game),
            now,
            player,
            token_balance,
            player_lamports,
            old_king_wallet,
            vault_lamports,
        ) == Some(e),
        r is Ok <==> spec_steal_rejection(
            *old(game),
            now,
            player,
            token_balance,
            player_lamports,
            old_king_wallet,
            vault_lamports,
        ) is None,
        r matches Ok(plan) ==> plan == spec_steal_plan(
            *old(game),
            now,
            player,
            token_balance,
            old_king_wallet,
        ),
        r is Ok ==> *final(game) == (GameAccount {
            recent_kings: final(game).recent_kings,
            recent_kings_count: final(game).recent_kings_count,
            ..spec_steal_next(*old(game), now, player, token_balance, old_king_wallet)
        }),
        r is Ok ==> final(game).wf(),
        r is Ok && old(game).is_hit_a_lick_mode ==> occupied_kings(
            final(game).recent_kings,
            final(game).recent_kings_count,
        ) == spec_record_king(
            old(game).recent_kings,
            old(game).recent_kings_count,
            player,
        ),
        r is Ok && !old(game).is_hit_a_lick_mode && final(game).is_hit_a_lick_mode
            ==> occupied_kings(final(game).recent_kings, final(game).recent_kings_count)
            == seq![player],
        r is Ok && !final(game).is_hit_a_lick_mode ==> final(game).recent_kings == old(
            game,
        ).recent_kings && final(game).recent_kings_count == old(game).recent_kings_count,
        r matches Ok(plan) ==> ((old(game).has_king && old_king_wallet != old(
            game,
        ).current_king) ==> plan.old_king_payout == 0),
        r matches Ok(plan) ==> plan.yield_paid <= old(game).yield_pool,
        r matches Ok(plan) ==> final(game).jackpot_balance + final(game).pending_jackpot
            + final(game).yield_pool >= old(game).jackpot_balance + old(game).pending_jackpot
            + old(game).yield_pool - plan.yield_paid,
{
    if game.season_start_time != 0 && now < game.season_start_time {
        return Err(StealError::SeasonNotStarted);
    }
    if game.is_hit_a_lick_mode {
        if now >= game.hit_a_lick_end_time {
            if game.has_king {
                let held_secs = (now - game.king_since) as u64;
                if held_secs >= MIN_HIT_A_LICK_HOLD {
                    return Err(StealError::RoundEnded);
                }
            } else {
                return Err(StealError::RoundEnded);
            }
        }
        if player == game.last_steal_wallet && game.last_steal_time > 0 {
            let time_since_last_steal = now - game.last_steal_time;
            if time_since_last_steal < game.cooldown_seconds as i64 {
                return Err(StealError::RateLimitExceeded);
            }
        }
    } else {
        if now >= game.round_end_time {
            return Err(StealError::RoundEnded);
        }
    }
    let vip = is_vip(token_balance);
    let entry_cost = if game.is_hit_a_lick_mode {
        calculate_hit_a_lick_entry_cost(game.hit_a_lick_price, vip)
    } else {
        scale_or(game.current_price, RUN_IT_UP_RATE, 100, u64::MAX)
    };
    if entry_cost == 0 {
        return Err(StealError::InvalidAccount);
    }
    if player_lamports < entry_cost {
        return Err(StealError::InsufficientFunds);
    }
    let old_price = game.current_price;
    let new_price = entry_cost;
    let mut old_king_payout: u64 = 0;
    let mut yield_payout: u64 = 0;
    if game.has_king && !(game.current_king == player) {
        if old_king_wallet == game.current_king {
            let hold_time = (now - game.king_since) as u64;
            let refund = if game.is_hit_a_lick_mode {
                let calculated_refund = calculate_hit_a_lick_old_king_payout(
                    game.king_entry_price,
                );
                if !(calculated_refund > 0 && game.king_entry_price > 0) {
                    return Err(StealError::InvalidAccount);
                }
                calculated_refund
            } else {
                game.king_entry_price
            };
            yield_payout = if game.is_hit_a_lick_mode {
                0
            } else {
                let uncapped = calculate_yield_with_cap(
                    game.yield_pool,
                    game.king_entry_price,
                    new_price,
                    hold_time,
                    game.king_was_vip,
                );
                let yield_floor = if MIN_YIELD < game.yield_pool {
                    MIN_YIELD
                } else {
                    game.yield_pool
                };
                if uncapped > yield_floor {
                    uncapped
                } else {
                    yield_floor
                }
            };
            old_king_payout = refund.saturating_add(yield_payout);
        }
    }
    let cuts = if game.is_hit_a_lick_mode {
        let split = calculate_hit_a_lick_overhead_split(game.hit_a_lick_price);
        let surcharge = entry_cost.saturating_sub(game.hit_a_lick_price);
        (split.0, split.1, split.2, split.3.saturating_add(surcharge))
    } else {
        let split = calculate_run_it_up_split(old_price, new_price);
        (split.1, split.2, split.3, split.4)
    };
    let dev_cut = cuts.0;
    let beast_cut = cuts.1;
    let yield_add = cuts.2;
    let jackpot_add = cuts.3;
    let total_required = old_king_payout.saturating_add(dev_cut).saturating_add(beast_cut);
    if vault_lamports < total_required {
        return Err(StealError::InsufficientVaultBalance);
    }
    if dev_cut > 0 || beast_cut > 0 {
        let vault_after_old_king = vault_lamports - old_king_payout;
        if vault_after_old_king < dev_cut.saturating_add(beast_cut) {
            return Err(StealError::InsufficientVaultBalance);
        }
    }
    if old_king_payout > 0 && yield_payout > 0 {
        game.yield_pool = game.yield_pool.saturating_sub(yield_payout);
    }
    if beast_cut > 0 {
        game.beast_sol_pending = game.beast_sol_pending.saturating_add(beast_cut);
    }
    if game.is_hit_a_lick_mode {
        game.hit_a_lick_end_time = now + HIT_A_LICK_TIMER as i64;
        game.current_price = game.hit_a_lick_price;
        game.yield_pool = game.yield_pool.saturating_add(yield_add);
        game.pending_jackpot = game.pending_jackpot.saturating_add(jackpot_add);
    } else {
        proof {
            lemma_next_price_monotone(old_price);
        }
        game.current_price = scale_or(game.current_price, RUN_IT_UP_RATE, 100, u64::MAX);
        let new_end = game.round_end_time + TIMER_ADD as i64;
        let max_end = now + MAX_TIMER as i64;
        game.round_end_time = if new_end < max_end {
            new_end
        } else {
            max_end
        };
        game.yield_pool = game.yield_pool.saturating_add(yield_add);
        game.pending_jackpot = game.pending_jackpot.saturating_add(jackpot_add);
        game.growth_steals = game.growth_steals.saturating_add(1);
        let steals_trigger = game.growth_steals >= game.min_growth_steals_for_war;
        let price_triggers = if game.jackpot_balance > 0 {
            let hit_a_lick_threshold = scale_or(
                game.jackpot_balance,
                HIT_A_LICK_THRESHOLD,
                100,
                u64::MAX,
            );
            game.current_price >= hit_a_lick_threshold
        } else {
            false
        };
        if price_triggers || steals_trigger {
            game.is_hit_a_lick_mode = true;
            game.hit_a_lick_price = calculate_hit_a_lick_price(game.jackpot_balance);
            game.current_price = game.hit_a_lick_price;
            game.hit_a_lick_end_time = now + HIT_A_LICK_TIMER as i64;
            let z = Pubkey::default();
            game.recent_kings = [z, z, z];
            game.recent_kings_count = 0;
            proof {
                assert(game.recent_kings@ =~= cleared_kings()@);
            }
        }
    }
    game.current_king = player;
    game.king_since = now;
    game.king_entry_price = entry_cost;
    game.king_base_price = if game.is_hit_a_lick_mode {
        game.hit_a_lick_price
    } else {
        entry_cost
    };
    game.king_was_vip = vip;
    game.has_king = true;
    game.total_steals = game.total_steals + 1;
    game.last_steal_wallet = player;
    game.last_steal_time = now;
    if game.is_hit_a_lick_mode {
        let mut kings = game.recent_kings;
        let mut count = game.recent_kings_count;
        update_recent_kings(&mut kings, &mut count, player);
        game.recent_kings = kings;
        game.recent_kings_count = count;
    }
    Ok(
        StealPlan {
            entry_cost: entry_cost,
            old_king_payout: old_king_payout,
            yield_paid: yield_payout,
            dev_cut: dev_cut,
            beast_cut: beast_cut,
        },
    )
}

/// First-place amount actually owed at round end: the table share when the
/// war produced at least one recorded king; the still-current holder's bare
/// refund when the war never saw a recorded steal; refund plus yield after
/// a dead round.
pub open spec fn spec_end_winner1_payout(s: GameAccount, now: i64) -> u64 {
    if s.is_hit_a_lick_mode {
        if s.recent_kings_count >= 1 {
            spec_end_winner1(s.jackpot_balance)
        } else {
            s.king_entry_price
        }
    } else {
        (s.king_entry_price + spec_end_dead_round_yield(s, now)) as u64
    }
}

/// Second-place amount owed at round end; only a war with two recorded
/// kings owes one.
pub open spec fn spec_end_winner2_payout(s: GameAccount) -> u64 {
    if s.is_hit_a_lick_mode && s.recent_kings_count >= 2 {
        spec_end_winner2(s.jackpot_balance)
    } else {
        0
    }
}

/// Third-place amount owed at round end; only a war with three recorded
/// kings owes one.
pub open spec fn spec_end_winner3_payout(s: GameAccount) -> u64 {
    if s.is_hit_a_lick_mode && s.recent_kings_count >= 3 {
        spec_end_winner3(s.jackpot_balance)
    } else {
        0
    }
}

/// Yield owed to the holder of a dead round (a round ending without ever
/// reaching the war phase), computed with the growth-phase formula using
/// the current price as the notional incoming payment.
pub open spec fn spec_end_dead_round_yield(s: GameAccount, now: i64) -> u64 {
    spec_yield_with_cap(
        s.yield_pool,
        s.king_entry_price,
        s.current_price,
        (now - s.king_since) as u64,
        s.king_was_vip,
    )
}

/// What rolls into the next round's jackpot before the pending jackpot
/// merges: the rollover share plus every unfilled winner slot's share after
/// a war; the whole untouched pot after a dead round.
pub open spec fn spec_end_next_jackpot(s: GameAccount) -> u64 {
    if s.is_hit_a_lick_mode {
        let unclaimed = saturating_add_u64(
            saturating_add_u64(
                if s.recent_kings_count < 1 {
                    spec_end_winner1(s.jackpot_balance)
                } else {
                    0
                },
                if s.recent_kings_count < 2 {
                    spec_end_winner2(s.jackpot_balance)
                } else {
                    0
                },
            ),
            if s.recent_kings_count < 3 {
                spec_end_winner3(s.jackpot_balance)
            } else {
                0
            },
        );
        saturating_add_u64(spec_end_rollover(s.jackpot_balance), unclaimed)
    } else {
        s.jackpot_balance
    }
}

/// The first reason this round end is rejected, in the order the checks
/// run, or nothing when it commits.
pub open spec fn spec_end_rejection(
    s: GameAccount,
    now: i64,
    winner: Pubkey,
    winner2: Option<Pubkey>,
    winner3: Option<Pubkey>,
) -> Option<StealError> {
    if winner != s.current_king {
        Some(StealError::InvalidWinner)
    } else if s.is_hit_a_lick_mode && now < s.hit_a_lick_end_time {
        Some(StealError::RoundNotEnded)
    } else if s.is_hit_a_lick_mode && !s.has_king {
        Some(StealError::NoKing)
    } else if s.is_hit_a_lick_mode && now - s.king_since < MIN_HIT_A_LICK_HOLD {
        Some(StealError::KingMustHoldLonger)
    } else if !s.is_hit_a_lick_mode && now < s.round_end_time {
        Some(StealError::RoundNotEnded)
    } else if !s.has_king {
        Some(StealError::NoKing)
    } else if spec_end_winner2_payout(s) > 0 && (winner2 matches Some(w2) && w2
        != s.recent_kings[1]) {
        Some(StealError::InvalidWinner)
    } else if spec_end_winner3_payout(s) > 0 && (winner3 matches Some(w3) && w3
        != s.recent_kings[2]) {
        Some(StealError::InvalidWinner)
    } else {
        None
    }
}

/// The record after a committed round end: pools settled, every per-round
/// field reset, the next war threshold derived from the rolled-over pot
/// before the pending jackpot merges into it.
pub open spec fn spec_end_round_next(s: GameAccount, now: i64) -> GameAccount {
    let next_jackpot = spec_end_next_jackpot(s);
    GameAccount {
        jackpot_balance: saturating_add_u64(next_jackpot, s.pending_jackpot),
        pending_jackpot: 0,
        yield_pool: if s.is_hit_a_lick_mode {
            s.yield_pool
        } else {
            saturating_sub_u64(s.yield_pool, spec_end_dead_round_yield(s, now))
        },
        current_price: START_PRICE,
        hit_a_lick_price: 0,
        round_end_time: (now + MAX_TIMER) as i64,
        hit_a_lick_end_time: 0,
        is_hit_a_lick_mode: false,
        current_king: nil_key(),
        king_since: 0,
        king_entry_price: 0,
        king_base_price: 0,
        king_was_vip: false,
        has_king: false,
        recent_kings: cleared_kings(),
        recent_kings_count: 0,
        last_steal_wallet: nil_key(),
        last_steal_time: 0,
        growth_steals: 0,
        min_growth_steals_for_war: spec_min_growth_steals(next_jackpot),
        growth_hard_end_ts: (now + GROWTH_MAX_DURATION_SECS) as i64,
        round: (s.round + 1) as u64,
        total_steals: 0,
        ..s
    }
}

/// The transfers a committed round end obliges the host to perform: a
/// second or third share is paid only when its account was supplied.
pub open spec fn spec_end_plan(
    s: GameAccount,
    now: i64,
    winner2: Option<Pubkey>,
    winner3: Option<Pubkey>,
) -> EndRoundPlan {
    EndRoundPlan {
        winner1_payout: spec_end_winner1_payout(s, now),
        winner2_payout: if winner2 is Some {
            spec_end_winner2_payout(s)
        } else {
            0
        },
        winner3_payout: if winner3 is Some {
            spec_end_winner3_payout(s)
        } else {
            0
        },
    }
}

/// End the round and pay up to three winners, then reset for the next
/// round. A war round must have run out its countdown and its holder must
/// have held the crown for the minimum time — otherwise the deadline is
/// pushed to exactly that minimum and the call reports `KingMustHoldLonger`,
/// the one rejection that leaves a mark on the record. A growth round must
/// simply have run out its timer; its holder is refunded in full plus
/// yield, and the pot rolls forward untouched.
#[verifier::rlimit(100)]
pub fn end_round(
    game: &mut GameAccount,
    now: i64,
    winner: Pubkey,
    winner2: Option<Pubkey>,
    winner3: Option<Pubkey>,
) -> (r: Result<EndRoundPlan, StealError>)
    requires
        old(game).wf(),
        0 <= now <= i64::MAX - MAX_TIMER,
        old(game).has_king ==> old(game).king_since <= now,
        old(game).round < u64::MAX,
        !old(game).is_hit_a_lick_mode ==> old(game).king_entry_price + old(game).yield_pool
            <= u64::MAX,
    ensures
        r matches Err(e) ==> spec_end_rejection(*old(game), now, winner, winner2, winner3)
            == Some(e),
        r is Ok <==> spec_end_rejection(*old(game), now, winner, winner2, winner3) is None,
        r is Err && r != Err::<EndRoundPlan, StealError>(StealError::KingMustHoldLonger)
            ==> *final(game) == *old(game),
        r == Err::<EndRoundPlan, StealError>(StealError::KingMustHoldLonger) ==> *final(game)
            == (GameAccount {
            hit_a_lick_end_time: (old(game).king_since + MIN_HIT_A_LICK_HOLD) as i64,
            ..*old(game)
        }),
        r is Ok ==> *final(game) == spec_end_round_next(*old(game), now),
        r is Ok ==> final(game).wf() && !final(game).has_king,
        r matches Ok(plan) ==> plan == spec_end_plan(*old(game), now, winner2, winner3),
        r is Ok ==> final(game).jackpot_balance <= old(game).jackpot_balance + old(
            game,
        ).pending_jackpot,
{
    if !(winner == game.current_king) {
        return Err(StealError::InvalidWinner);
    }
    if game.is_hit_a_lick_mode {
        if now < game.hit_a_lick_end_time {
            return Err(StealError::RoundNotEnded);
        }
        if !game.has_king {
            return Err(StealError::NoKing);
        }
        let held_secs = (now - game.king_since) as u64;
        if held_secs < MIN_HIT_A_LICK_HOLD {
            game.hit_a_lick_end_time = game.king_since + MIN_HIT_A_LICK_HOLD as i64;
            return Err(StealError::KingMustHoldLonger);
        }
    } else {
        if now < game.round_end_time {
            return Err(StealError::RoundNotEnded);
        }
    }
    if !game.has_king {
        return Err(StealError::NoKing);
    }
    let total_pot = game.jackpot_balance;
    let outcome = if game.is_hit_a_lick_mode {
        let table = calculate_hit_a_lick_end_payouts(total_pot);
        let w1 = table.0;
        let w2 = table.1;
        let w3 = table.2;
        let rollover = table.5;
        let actual_w1 = if game.recent_kings_count >= 1 {
            w1
        } else {
            game.king_entry_price
        };
        let actual_w2 = if game.recent_kings_count >= 2 {
            w2
        } else {
            0
        };
        let actual_w3 = if game.recent_kings_count >= 3 {
            w3
        } else {
            0
        };
        let unclaimed = (if game.recent_kings_count < 1 {
            w1
        } else {
            0
        }).saturating_add(
            if game.recent_kings_count < 2 {
                w2
            } else {
                0
            },
        ).saturating_add(
            if game.recent_kings_count < 3 {
                w3
            } else {
                0
            },
        );
        (actual_w1, actual_w2, actual_w3, rollover.saturating_add(unclaimed))
    } else {
        let hold_time = (now - game.king_since) as u64;
        let refund = game.king_entry_price;
        let yield_earned = calculate_yield_with_cap(
            game.yield_pool,
            game.king_entry_price,
            game.current_price,
            hold_time,
            game.king_was_vip,
        );
        let winner_payout = refund + yield_earned;
        game.yield_pool = game.yield_pool.saturating_sub(yield_earned);
        (winner_payout, 0, 0, game.jackpot_balance)
    };
    let winner1_payout = outcome.0;
    let winner2_available = outcome.1;
    let winner3_available = outcome.2;
    let next_jackpot = outcome.3;
    proof {
        crate::laws::lemma_end_payout_sum_exact(total_pot);
    }
    let winner2_payout = if winner2_available > 0 {
        match winner2 {
            Some(w2_account) => {
                if !(w2_account == game.recent_kings[1]) {
                    return Err(StealError::InvalidWinner);
                }
                winner2_available
            },
            None => 0,
        }
    } else {
        0
    };
    let winner3_payout = if winner3_available > 0 {
        match winner3 {
            Some(w3_account) => {
                if !(w3_account == game.recent_kings[2]) {
                    return Err(StealError::InvalidWinner);
                }
                winner3_available
            },
            None => 0,
        }
    } else {
        0
    };
    game.jackpot_balance = next_jackpot.saturating_add(game.pending_jackpot);
    game.pending_jackpot = 0;
    game.current_price = START_PRICE;
    game.hit_a_lick_price = 0;
    game.round_end_time = now + MAX_TIMER as i64;
    game.hit_a_lick_end_time = 0;
    game.is_hit_a_lick_mode = false;
    game.current_king = Pubkey::default();
    game.king_since = 0;
    game.king_entry_price = 0;
    game.king_base_price = 0;
    game.king_was_vip = false;
    game.has_king = false;
    let z = Pubkey::default();
    game.recent_kings = [z, z, z];
    game.recent_kings_count = 0;
    game.last_steal_wallet = Pubkey::default();
    game.last_steal_time = 0;
    game.growth_steals = 0;
    game.min_growth_steals_for_war = compute_min_growth_steals_for_war(next_jackpot);
    game.growth_hard_end_ts = now + GROWTH_MAX_DURATION_SECS;
    game.round = game.round + 1;
    game.total_steals = 0;
    proof {
        assert(game.recent_kings@ =~= cleared_kings()@);
    }
    Ok(
        EndRoundPlan {
            winner1_payout: winner1_payout,
            winner2_payout: winner2_payout,
            winner3_payout: winner3_payout,
        },
    )
}

} // verus!
