//! Read-only projections over the game store.
//!
//! Queries are pure: they mutate nothing, and what they return is a function
//! of the store alone, so two reads without an intervening mutation agree.

use vstd::prelude::*;

use crate::error::ContractError;
use crate::state::{Game, GameStatus};
use crate::store::GameStore;

verus! {

/// The game with the given id, or `NotFound` when no such game exists.
pub fn get_game_by_id<'a>(store: &'a GameStore, game_id: u64) -> (r: Result<&'a Game, ContractError>)
    ensures
        match r {
            Ok(g) => store.has_game(game_id) && *g == store.game_at(game_id),
            Err(e) => !store.has_game(game_id) && e == (ContractError::NotFound { game_id }),
        },
{
    let n = store.games.len();
    if game_id < n as u64 {
        Ok(&store.games[game_id as usize])
    } else {
        Err(ContractError::NotFound { game_id })
    }
}

/// The current round number of the game, or `NotFound`.
pub fn get_current_round(store: &GameStore, game_id: u64) -> (r: Result<u64, ContractError>)
    ensures
        match r {
            Ok(n) => store.has_game(game_id) && n == store.game_at(game_id).current_round,
            Err(e) => !store.has_game(game_id) && e == (ContractError::NotFound { game_id }),
        },
{
    match get_game_by_id(store, game_id) {
        Ok(g) => Ok(g.current_round),
        Err(e) => Err(e),
    }
}

/// The lifecycle status of the game, or `NotFound`.
pub fn get_game_status(store: &GameStore, game_id: u64) -> (r: Result<GameStatus, ContractError>)
    ensures
        match r {
            Ok(s) => store.has_game(game_id) && s == store.game_at(game_id).status,
            Err(e) => !store.has_game(game_id) && e == (ContractError::NotFound { game_id }),
        },
{
    match get_game_by_id(store, game_id) {
        Ok(g) => Ok(g.status),
        Err(e) => Err(e),
    }
}

/// The leaderboard rows: external tag, identity, cumulative score.
pub fn get_leaderboard<'a>(store: &'a GameStore) -> (r: &'a Vec<(String, String, u128)>)
    ensures
        *r == store.leaderboard,
{
    &store.leaderboard
}

/// How many games have been created in this store.
pub fn get_games_count(store: &GameStore) -> (r: u64)
    ensures
        r == store.next_game_id,
{
    store.next_game_id
}

/// Reading a game twice from an unchanged store yields identical results:
/// the lookup is a function of the store and the id alone.
pub proof fn lemma_get_game_idempotent(
    store: GameStore,
    game_id: u64,
    r1: Result<&Game, ContractError>,
    r2: Result<&Game, ContractError>,
)
    requires
        match r1 {
            Ok(g) => store.has_game(game_id) && *g == store.game_at(game_id),
            Err(e) => !store.has_game(game_id) && e == (ContractError::NotFound { game_id }),
        },
        match r2 {
            Ok(g) => store.has_game(game_id) && *g == store.game_at(game_id),
            Err(e) => !store.has_game(game_id) && e == (ContractError::NotFound { game_id }),
        },
    ensures
        r1 == r2,
{
}

} // verus!
