//! Request dispatch: one command maps to exactly one lifecycle operation,
//! one query to one read-only projection.

use vstd::prelude::*;

use crate::error::ContractError;
use crate::execute::{
    admin_commit_error, commit_error, commit_round, commit_round_as_admin, commit_updates,
    create_game, create_updates, end_allowed, end_game, end_updates, expiry_fits, fee_fits,
    join_error, join_game, join_updates, reveal_error, reveal_round, reveal_updates, rounds_advance,
    start_error, start_game, start_updates, statuses_advance, store_unchanged,
};
use crate::msg::{ExecuteMsg, ExecuteReply, QueryMsg, TransferRequest};
use crate::query::{
    get_current_round, get_game_by_id, get_game_status, get_games_count, get_leaderboard,
};
use crate::rewards::{rule_applicable, settle_result};
use crate::state::{Game, GameStatus};
use crate::store::GameStore;

verus! {

/// What a query hands back to its caller.
#[derive(Debug)]
pub enum QueryReply<'a> {
    /// The full game record.
    Game(&'a Game),
    /// The leaderboard rows.
    Leaderboard(&'a Vec<(String, String, u128)>),
    /// The game's current round number.
    CurrentRound(u64),
    /// The game's lifecycle status.
    Status(GameStatus),
    /// How many games have been created.
    GamesCount(u64),
}

/// Perform the one lifecycle operation the command names. The contract of
/// each operation carries over case by case; statuses only move forward and
/// a failed command leaves the store exactly as it was.
pub fn execute(store: &mut GameStore, caller: &String, now: u64, msg: ExecuteMsg) -> (r: Result<
    ExecuteReply,
    ContractError,
>)
    requires
        old(store).wf(),
        msg matches ExecuteMsg::CreateGame { .. } ==> old(store).next_game_id < u64::MAX,
        msg matches ExecuteMsg::JoinGame { game_id, .. } ==> (old(store).has_game(game_id)
            ==> fee_fits(*old(store), game_id)),
        msg matches ExecuteMsg::StartGame { game_id } ==> (old(store).has_game(game_id)
            ==> expiry_fits(*old(store), game_id, now)),
        msg matches ExecuteMsg::RevealRound { game_id, .. } ==> (old(store).has_game(game_id)
            ==> expiry_fits(*old(store), game_id, now)),
        msg matches ExecuteMsg::EndGame { game_id } ==> (old(store).has_game(game_id)
            ==> rule_applicable(old(store).rule, old(store).game_at(game_id))),
    ensures
        final(store).wf(),
        statuses_advance(*old(store), *final(store)),
        rounds_advance(*old(store), *final(store)),
        match msg {
            ExecuteMsg::CreateGame { config } => r matches Ok(ExecuteReply::GameCreated { game_id })
                && create_updates(*old(store), *final(store), *caller, config, game_id),
            ExecuteMsg::JoinGame { game_id, telegram_id } => match r {
                Ok(reply) => {
                    &&& join_error(*old(store), *caller, game_id) is None
                    &&& join_updates(*old(store), *final(store), *caller, game_id, telegram_id)
                    &&& reply == (ExecuteReply::Joined {
                        fee_transfer: match old(store).game_at(game_id).config.game_joining_fee {
                            Some(fee) => Some(TransferRequest { payer: *caller, amount: fee }),
                            None => None::<TransferRequest>,
                        },
                    })
                },
                Err(e) => {
                    &&& *final(store) == *old(store)
                    &&& join_error(*old(store), *caller, game_id) == Some(e)
                },
            },
            ExecuteMsg::StartGame { game_id } => match r {
                Ok(reply) => {
                    &&& start_error(*old(store), game_id) is None
                    &&& start_updates(*old(store), *final(store), game_id, now)
                    &&& reply == ExecuteReply::Started {  }
                },
                Err(e) => {
                    &&& *final(store) == *old(store)
                    &&& start_error(*old(store), game_id) == Some(e)
                },
            },
            ExecuteMsg::CommitRound { game_id, value, amount } => match r {
                Ok(reply) => {
                    &&& commit_error(*old(store), *caller, game_id, now) is None
                    &&& commit_updates(*old(store), *final(store), *caller, game_id, value, amount)
                    &&& reply == ExecuteReply::Committed {  }
                },
                Err(e) => {
                    &&& *final(store) == *old(store)
                    &&& commit_error(*old(store), *caller, game_id, now) == Some(e)
                },
            },
            ExecuteMsg::CommitRoundAsAdmin { game_id, value, amount, player } => match r {
                Ok(reply) => {
                    &&& admin_commit_error(*old(store), *caller, player, game_id, now) is None
                    &&& commit_updates(*old(store), *final(store), player, game_id, value, amount)
                    &&& reply == ExecuteReply::Committed {  }
                },
                Err(e) => {
                    &&& *final(store) == *old(store)
                    &&& admin_commit_error(*old(store), *caller, player, game_id, now) == Some(e)
                },
            },
            ExecuteMsg::RevealRound { game_id, value, nonce } => match r {
                Ok(reply) => {
                    &&& reveal_error(*old(store), *caller, game_id, value, nonce, now) is None
                    &&& reveal_updates(
                        *old(store),
                        *final(store),
                        *caller,
                        game_id,
                        value,
                        nonce,
                        now,
                    )
                    &&& reply == ExecuteReply::Revealed {  }
                },
                Err(e) => {
                    &&& *final(store) == *old(store)
                    &&& reveal_error(*old(store), *caller, game_id, value, nonce, now) == Some(e)
                },
            },
            ExecuteMsg::EndGame { game_id } => match r {
                Ok(reply) => {
                    &&& old(store).has_game(game_id)
                    &&& end_allowed(*old(store), *caller, game_id)
                    &&& end_updates(*old(store), *final(store), game_id)
                    &&& reply matches ExecuteReply::Ended { payouts }
                        && payouts@ == final(store).game_at(game_id).scores@
                },
                Err(e) => {
                    &&& store_unchanged(*old(store), *final(store))
                    &&& if !old(store).has_game(game_id) {
                        e == (ContractError::NotFound { game_id })
                    } else if !end_allowed(*old(store), *caller, game_id) {
                        e matches ContractError::CannotCloseGame { reason } && reason@
                            == "Rounds not finished!"@
                    } else {
                        settle_result(old(store).game_at(game_id), old(store).rule) == Err::<
                            Seq<(String, u128)>,
                            ContractError,
                        >(e)
                    }
                },
            },
        },
{
    match msg {
        ExecuteMsg::CreateGame { config } => {
            let game_id = create_game(store, caller, config);
            Ok(ExecuteReply::GameCreated { game_id })
        },
        ExecuteMsg::JoinGame { game_id, telegram_id } => {
            match join_game(store, caller, game_id, telegram_id) {
                Ok(fee_transfer) => Ok(ExecuteReply::Joined { fee_transfer }),
                Err(e) => Err(e),
            }
        },
        ExecuteMsg::StartGame { game_id } => {
            match start_game(store, caller, game_id, now) {
                Ok(_) => Ok(ExecuteReply::Started {  }),
                Err(e) => Err(e),
            }
        },
        ExecuteMsg::CommitRound { game_id, value, amount } => {
            match commit_round(store, caller, game_id, value, amount, now) {
                Ok(_) => Ok(ExecuteReply::Committed {  }),
                Err(e) => Err(e),
            }
        },
        ExecuteMsg::CommitRoundAsAdmin { game_id, value, amount, player } => {
            match commit_round_as_admin(store, caller, game_id, &player, value, amount, now) {
                Ok(_) => Ok(ExecuteReply::Committed {  }),
                Err(e) => Err(e),
            }
        },
        ExecuteMsg::RevealRound { game_id, value, nonce } => {
            match reveal_round(store, caller, game_id, value, nonce, now) {
                Ok(_) => Ok(ExecuteReply::Revealed {  }),
                Err(e) => Err(e),
            }
        },
        ExecuteMsg::EndGame { game_id } => {
            match end_game(store, caller, game_id) {
                Ok(payouts) => Ok(ExecuteReply::Ended { payouts }),
                Err(e) => Err(e),
            }
        },
    }
}

/// Answer the one read-only projection the query names.
pub fn query<'a>(store: &'a GameStore, msg: QueryMsg) -> (r: Result<QueryReply<'a>, ContractError>)
    ensures
        match msg {
            QueryMsg::GetGame { game_id } => match r {
                Ok(reply) => reply matches QueryReply::Game(g) && store.has_game(game_id) && *g
                    == store.game_at(game_id),
                Err(e) => !store.has_game(game_id) && e == (ContractError::NotFound { game_id }),
            },
            QueryMsg::GetLeaderboard {  } => r matches Ok(QueryReply::Leaderboard(rows)) && *rows
                == store.leaderboard,
            QueryMsg::GetCurrentRound { game_id } => match r {
                Ok(reply) => reply matches QueryReply::CurrentRound(n) && store.has_game(game_id)
                    && n == store.game_at(game_id).current_round,
                Err(e) => !store.has_game(game_id) && e == (ContractError::NotFound { game_id }),
            },
            QueryMsg::GetGameStatus { game_id } => match r {
                Ok(reply) => reply matches QueryReply::Status(s) && store.has_game(game_id) && s
                    == store.game_at(game_id).status,
                Err(e) => !store.has_game(game_id) && e == (ContractError::NotFound { game_id }),
            },
            QueryMsg::GetGamesCount {  } => r matches Ok(QueryReply::GamesCount(n)) && n
                == store.next_game_id,
        },
{
    match msg {
        QueryMsg::GetGame { game_id } => {
            match get_game_by_id(store, game_id) {
                Ok(g) => Ok(QueryReply::Game(g)),
                Err(e) => Err(e),
            }
        },
        QueryMsg::GetLeaderboard {  } => Ok(QueryReply::Leaderboard(get_leaderboard(store))),
        QueryMsg::GetCurrentRound { game_id } => {
            match get_current_round(store, game_id) {
                Ok(n) => Ok(QueryReply::CurrentRound(n)),
                Err(e) => Err(e),
            }
        },
        QueryMsg::GetGameStatus { game_id } => {
            match get_game_status(store, game_id) {
                Ok(s) => Ok(QueryReply::Status(s)),
                Err(e) => Err(e),
            }
        },
        QueryMsg::GetGamesCount {  } => Ok(QueryReply::GamesCount(get_games_count(store))),
    }
}

} // verus!
