//! Failure reasons for game operations. Every error aborts the in-flight
//! operation before any state change commits, with one documented exception:
//! a war-phase round end attempted before the minimum hold re-extends the
//! deadline while reporting `KingMustHoldLonger`.

use vstd::prelude::*;

verus! {

#[derive(Clone, Copy, Debug, PartialEq, Eq, Structural)]
pub enum StealError {
    /// The supplied token mint does not match the game's mint.
    InvalidMint,
    /// An arithmetic step would overflow a safety-critical sum.
    Overflow,
    /// A steal arrived after the round became settleable; call end instead.
    RoundEnded,
    /// An end or reset arrived before the round's deadline.
    RoundNotEnded,
    /// The payer cannot cover the entry cost.
    InsufficientFunds,
    /// An end or reset needs a holder to pay and none exists.
    NoKing,
    /// A reset was attempted while a holder exists; the round must be ended.
    HasKing,
    /// The supplied old-holder account does not match the recorded holder.
    InvalidOldKing,
    /// The holder has not yet held the crown for the minimum war-phase time.
    KingMustHoldLonger,
    /// A supplied winner account does not match the recorded registry.
    InvalidWinner,
    /// The same caller tried to steal again inside the cooldown window.
    RateLimitExceeded,
    /// The vault cannot cover the payouts this operation owes.
    InsufficientVaultBalance,
    /// A malformed or zero-valued input that signals an upstream bug.
    InvalidAccount,
    /// The supplied token account is not owned by the token program.
    InvalidTokenAccount,
    /// The supplied token account does not belong to the player.
    InvalidTokenAccountOwner,
    /// A fee wallet is not funded to the rent-exempt minimum.
    WalletNotRentExempt,
    /// A paid operation arrived before the configured season start.
    SeasonNotStarted,
}

impl StealError {
    /// Human-readable description, mirroring the on-wire error messages.
    pub fn message(&self) -> &'static str {
        match self {
            StealError::InvalidMint => "Invalid token mint",
            StealError::Overflow => "Integer overflow",
            StealError::RoundEnded => "Round has ended - call end_round",
            StealError::RoundNotEnded => "Round has not ended yet",
            StealError::InsufficientFunds => "Insufficient funds to steal",
            StealError::NoKing => "No king to pay out",
            StealError::HasKing => "Round has a king - use end_round instead",
            StealError::InvalidOldKing => "Invalid old king account - must match current king",
            StealError::KingMustHoldLonger => "King must hold crown for 3 seconds to win Hit A Lick",
            StealError::InvalidWinner => "Invalid winner account - must match recent_kings",
            StealError::RateLimitExceeded => "Must wait before stealing again",
            StealError::InsufficientVaultBalance => "Vault has insufficient balance for payout",
            StealError::InvalidAccount => "Invalid account provided",
            StealError::InvalidTokenAccount => "Invalid token account - must be owned by Token Program",
            StealError::InvalidTokenAccountOwner => "Invalid token account owner - must match player",
            StealError::WalletNotRentExempt => "Dev or beast wallet must be funded with at least rent-exempt minimum (0.00089 SOL)",
            StealError::SeasonNotStarted => "Season has not started yet",
        }
    }
}

} // verus!
