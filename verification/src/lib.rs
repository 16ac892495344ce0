//! Crown-clash economic game core: a continuously running winner-take-the-pot
//! game where players pay an escalating price to seize a crown, the previous
//! holder is refunded plus a time-weighted yield, and a jackpot builds toward a
//! high-stakes "hit a lick" (war) finale with a frozen ticket price and a
//! three-place payout.
//!
//! Everything here is pure: prices, splits, yields and whole-round state
//! transitions are functions of the current state and externally supplied
//! inputs (clock readings, balances, identities). Fund movement, account
//! validation and clock retrieval live outside this crate; the transitions
//! return the exact transfer amounts the host must perform.

pub mod constants;
pub mod errors;
pub mod state;
pub mod logic;
pub mod lifecycle;
pub mod laws;
