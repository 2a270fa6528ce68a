//! The engine's external interface: commands, queries and their outcomes.
//!
//! Each command maps to exactly one state-machine operation. The engine
//! never moves tokens itself: where an operation needs the external ledger
//! it returns a [`TransferRequest`] or settlement payouts for the caller to
//! forward.

use vstd::prelude::*;

use crate::state::GameConfig;

verus! {

/// A request to the external ledger to pull funds from a payer into the
/// engine's escrow account.
#[derive(Clone, Debug, PartialEq, Eq)]
pub struct TransferRequest {
    /// Identity the fee is pulled from.
    pub payer: String,
    /// Amount to transfer.
    pub amount: u128,
}

/// Settings handed to the engine when it is instantiated.
#[derive(Clone, Debug, PartialEq, Eq)]
pub struct InstantiateMsg {
    /// Base URL of the hosting service.
    pub base_url: String,
    /// URL of the artwork shown for games of this contract.
    pub image_url: String,
    /// Identity of the external token ledger.
    pub token_contract: String,
}

/// A mutating operation on the engine.
#[derive(Clone, Debug, PartialEq, Eq)]
pub enum ExecuteMsg {
    /// Allocate a fresh game with the given configuration.
    CreateGame { config: GameConfig },
    /// Open round 1 of a ready game.
    StartGame { game_id: u64 },
    /// Enter the caller as a player of a created game.
    JoinGame { game_id: u64, telegram_id: String },
    /// Record the caller's commitment for the current round.
    CommitRound { game_id: u64, value: String, amount: Option<u128> },
    /// Record a commitment on behalf of a player; owner or admin only.
    CommitRoundAsAdmin { game_id: u64, value: String, amount: Option<u128>, player: String },
    /// Disclose the value and nonce behind the caller's commitment.
    RevealRound { game_id: u64, value: String, nonce: u64 },
    /// Settle the game and close it.
    EndGame { game_id: u64 },
}

/// A read-only projection over the engine's store.
#[derive(Clone, Debug, PartialEq, Eq)]
pub enum QueryMsg {
    /// The full game record.
    GetGame { game_id: u64 },
    /// The leaderboard: external tag, identity and cumulative score.
    GetLeaderboard {},
    /// The game's current round number.
    GetCurrentRound { game_id: u64 },
    /// The game's lifecycle status.
    GetGameStatus { game_id: u64 },
    /// How many games have been created.
    GetGamesCount {},
}

/// What a successful mutating operation hands back to its caller.
#[derive(Clone, Debug, PartialEq, Eq)]
pub enum ExecuteReply {
    /// The id allocated to the new game.
    GameCreated { game_id: u64 },
    /// The joining fee to pull into escrow, when one is configured.
    Joined { fee_transfer: Option<TransferRequest> },
    /// Round 1 is open.
    Started {},
    /// The commitment was recorded.
    Committed {},
    /// The reveal was recorded (or skipped, in skip-reveal mode).
    Revealed {},
    /// The final per-player scores, one settlement payout per player.
    Ended { payouts: Vec<(String, u128)> },
}

} // verus!
