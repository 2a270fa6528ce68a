//! Error taxonomy of the lifecycle engine.
//!
//! Every operation either succeeds or aborts atomically with one of these
//! errors; nothing is retried internally.

use vstd::prelude::*;

verus! {

/// Reason an operation on a game was refused.
#[derive(Clone, Debug, PartialEq, Eq)]
pub enum ContractError {
    /// The referenced game does not exist in the store.
    NotFound { game_id: u64 },
    /// The game is past the joining phase and cannot be joined.
    GameNotInCreatedState { game_id: u64 },
    /// The caller is already among the game's players.
    PlayerAlreadyJoined { game_id: u64, player: String },
    /// The game has reached its player capacity.
    GameFull { game_id: u64 },
    /// The game is not ready to be started.
    GameNotInReadyState { game_id: u64 },
    /// The caller lacks the required owner or admin role.
    Unauthorized {},
    /// No funds accompanied an operation that needs a deposit.
    NoFundsProvided {},
    /// A deposit was made in the wrong denomination.
    InvalidDenom { expected: String },
    /// The player never joined the game.
    PlayerNotInGame { game_id: u64, player: String },
    /// The player already submitted for this round.
    RoundAlreadyCommitted { game_id: u64, player: String },
    /// No round with the given number is open.
    RoundNotFound { game_id: u64, round: u64 },
    /// The round's expiry tick has passed.
    RoundExpired { game_id: u64, round: u64 },
    /// Not every player has committed and the round has not expired.
    RoundNotCommitted { game_id: u64, round: u64 },
    /// The deposit is smaller than required.
    InsufficientFunds { expected: u128, received: u128 },
    /// The game may not be closed by this caller in this phase.
    CannotCloseGame { reason: String },
    /// The recomputed commitment does not match the stored commit.
    RoundRevealMismatch { game_id: u64, round: u64 },
    /// A revealed value is not a valid choice for the game's rule.
    InvalidRevealChoice { game_id: u64, round: u64 },
}

} // verus!
