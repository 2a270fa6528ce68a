//! The lifecycle operations: create, join, start, commit, reveal, end.
//!
//! Each operation loads one game, validates phase and authorization, mutates
//! it in memory and leaves every other game untouched; on error the whole
//! store is exactly as it was. Statuses only ever move forward.

use vstd::prelude::*;

use crate::error::ContractError;
use crate::msg::TransferRequest;
use crate::state::{
    is_new_game, status_rank, Game, GameConfig, GameRound, GameRoundStatus, GameStatus,
};
use crate::store::GameStore;

verus! {

/// Everything in the store except the game with the given id is unchanged.
pub open spec fn store_frame(pre: GameStore, post: GameStore, game_id: u64) -> bool {
    &&& post.owner == pre.owner
    &&& post.admins == pre.admins
    &&& post.metadata == pre.metadata
    &&& post.rule == pre.rule
    &&& post.leaderboard == pre.leaderboard
    &&& post.next_game_id == pre.next_game_id
    &&& post.games@.len() == pre.games@.len()
    &&& forall|j: int|
        0 <= j < pre.games@.len() && j != game_id ==> post.games@[j] == pre.games@[j]
}

/// No game's status ever moves backward through the lifecycle order.
pub open spec fn statuses_advance(pre: GameStore, post: GameStore) -> bool {
    &&& post.games@.len() >= pre.games@.len()
    &&& forall|j: int|
        0 <= j < pre.games@.len() ==> status_rank(#[trigger] post.games@[j].status) >= status_rank(
            pre.games@[j].status,
        )
}

/// No game's round counter ever decreases.
pub open spec fn rounds_advance(pre: GameStore, post: GameStore) -> bool {
    forall|j: int|
        0 <= j < pre.games@.len() ==> (#[trigger] post.games@[j]).current_round
            >= pre.games@[j].current_round
}

/// The round expiry for a round opened now, per the game's configuration.
pub open spec fn expiry_of(config: GameConfig, now: u64) -> Option<u64> {
    match config.round_expiry_duration {
        Some(d) => Some((now + d) as u64),
        None => None,
    }
}

/// Whether collecting the game's joining fee cannot overflow its escrow.
pub open spec fn fee_fits(pre: GameStore, game_id: u64) -> bool {
    match pre.game_at(game_id).config.game_joining_fee {
        Some(fee) => pre.game_at(game_id).total_escrow + fee <= u128::MAX,
        None => true,
    }
}

/// Whether a round opened now would get an expiry tick that fits the clock.
pub open spec fn expiry_fits(pre: GameStore, game_id: u64, now: u64) -> bool {
    match pre.game_at(game_id).config.round_expiry_duration {
        Some(d) => now + d <= u64::MAX,
        None => true,
    }
}

/// How creating a game changes the store: the new record is appended under
/// the allocated id, the counter moves up, and nothing else changes.
pub open spec fn create_updates(
    pre: GameStore,
    post: GameStore,
    caller: String,
    config: GameConfig,
    game_id: u64,
) -> bool {
    &&& game_id == pre.next_game_id
    &&& post.next_game_id == pre.next_game_id + 1
    &&& post.games@.len() == pre.games@.len() + 1
    &&& forall|j: int| 0 <= j < pre.games@.len() ==> post.games@[j] == pre.games@[j]
    &&& is_new_game(post.games@[game_id as int], game_id, config, caller)
    &&& post.owner == pre.owner
    &&& post.admins == pre.admins
    &&& post.metadata == pre.metadata
    &&& post.rule == pre.rule
    &&& post.leaderboard == pre.leaderboard
}

/// The first index at which the identity appears among the players.
fn player_index(g: &Game, id: &String) -> (r: Option<usize>)
    ensures
        match r {
            Some(i) => i < g.players@.len() && g.players@[i as int].0@ == id@ && g.has_player(id@),
            None => !g.has_player(id@),
        },
{
    let n = g.players.len();
    let mut i: usize = 0;
    while i < n
        invariant
            0 <= i <= n,
            n == g.players@.len(),
            forall|j: int| 0 <= j < i ==> g.players@[j].0@ != id@,
        decreases n - i,
    {
        if g.players[i].0 == *id {
            assert(g.player_ids()[i as int] == id@);
            return Some(i);
        }
        i = i + 1;
    }
    assert(forall|j: int| 0 <= j < g.player_ids().len() ==> g.player_ids()[j] != id@);
    None
}

/// The first index at which the identity appears among a round's commits.
fn commit_index(r: &GameRound, id: &String) -> (idx: Option<usize>)
    ensures
        match idx {
            Some(i) => i < r.commits@.len() && r.commits@[i as int].0@ == id@ && r.has_commit_by(
                id@,
            ),
            None => !r.has_commit_by(id@),
        },
{
    let n = r.commits.len();
    let mut i: usize = 0;
    while i < n
        invariant
            0 <= i <= n,
            n == r.commits@.len(),
            forall|j: int| 0 <= j < i ==> r.commits@[j].0@ != id@,
        decreases n - i,
    {
        if r.commits[i].0 == *id {
            assert(r.commit_ids()[i as int] == id@);
            return Some(i);
        }
        i = i + 1;
    }
    assert(forall|j: int| 0 <= j < r.commit_ids().len() ==> r.commit_ids()[j] != id@);
    None
}

/// Whether the identity has already revealed in this round.
fn has_reveal(r: &GameRound, id: &String) -> (b: bool)
    ensures
        b == r.has_reveal_by(id@),
{
    let n = r.reveals.len();
    let mut i: usize = 0;
    while i < n
        invariant
            0 <= i <= n,
            n == r.reveals@.len(),
            forall|j: int| 0 <= j < i ==> r.reveals@[j].0@ != id@,
        decreases n - i,
    {
        if r.reveals[i].0 == *id {
            assert(r.reveal_ids()[i as int] == id@);
            return true;
        }
        i = i + 1;
    }
    assert(forall|j: int| 0 <= j < r.reveal_ids().len() ==> r.reveal_ids()[j] != id@);
    false
}

/// Deposit validation; the engine currently accepts every deposit.
pub fn _validate_deposit() -> (r: Result<(), ContractError>)
    ensures
        r is Ok,
{
    Ok(())
}

/// Allocate a strictly increasing id and store a fresh game under it.
/// Creation always succeeds; nothing beyond the structure is validated.
pub fn create_game(store: &mut GameStore, caller: &String, config: GameConfig) -> (game_id: u64)
    requires
        old(store).wf(),
        old(store).next_game_id < u64::MAX,
    ensures
        final(store).wf(),
        statuses_advance(*old(store), *final(store)),
        rounds_advance(*old(store), *final(store)),
        game_id == old(store).next_game_id,
        final(store).next_game_id == old(store).next_game_id + 1,
        final(store).games@.len() == old(store).games@.len() + 1,
        forall|j: int|
            0 <= j < old(store).games@.len() ==> final(store).games@[j] == old(store).games@[j],
        is_new_game(final(store).games@[game_id as int], game_id, config, *caller),
        create_updates(*old(store), *final(store), *caller, config, game_id),
        final(store).games@[game_id as int].wf(),
        final(store).owner == old(store).owner,
        final(store).admins == old(store).admins,
        final(store).metadata == old(store).metadata,
        final(store).rule == old(store).rule,
        final(store).leaderboard == old(store).leaderboard,
{
    let game_id = store.next_game_id;
    let game = Game::new(game_id, config, caller.clone());
    store.games.push(game);
    store.next_game_id = game_id + 1;
    game_id
}

/// Why a join would be refused, or nothing when it is allowed.
pub open spec fn join_error(pre: GameStore, caller: String, game_id: u64) -> Option<ContractError> {
    if !pre.has_game(game_id) {
        Some(ContractError::NotFound { game_id })
    } else {
        let g = pre.game_at(game_id);
        if !(g.status is Created) {
            Some(ContractError::GameNotInCreatedState { game_id })
        } else if g.has_player(caller@) {
            Some(ContractError::PlayerAlreadyJoined { game_id, player: caller })
        } else if g.players@.len() >= g.max_players_eff() {
            Some(ContractError::GameFull { game_id })
        } else {
            None
        }
    }
}

/// How a successful join changes the store: the caller is appended to the
/// players, the game becomes `Ready` once the minimum player count is
/// reached, and a configured joining fee is accumulated into escrow.
pub open spec fn join_updates(
    pre: GameStore,
    post: GameStore,
    caller: String,
    game_id: u64,
    tag: String,
) -> bool {
    let g = pre.game_at(game_id);
    let g2 = post.game_at(game_id);
    &&& store_frame(pre, post, game_id)
    &&& g2.players@ == g.players@.push((caller, tag))
    &&& g2.status == (if g.players@.len() + 1 >= g.config.min_players as int {
        GameStatus::Ready
    } else {
        GameStatus::Created
    })
    &&& g2.id == g.id
    &&& g2.rounds@ == g.rounds@
    &&& g2.current_round == g.current_round
    &&& g2.config == g.config
    &&& g2.creator == g.creator
    &&& g2.scores@ == g.scores@
    &&& match g.config.game_joining_fee {
        Some(fee) => {
            &&& g2.total_escrow == g.total_escrow + fee
            &&& g2.player_escrow@ == g.player_escrow@.push((caller, fee))
        },
        None => {
            &&& g2.total_escrow == g.total_escrow
            &&& g2.player_escrow@ == g.player_escrow@
        },
    }
}

/// Enter the caller as a player of a created game. On success, when the
/// configuration sets a joining fee, the fee is recorded in the game's
/// escrow and a transfer request for it is handed back; the join and the
/// fee belong to one atomic operation.
pub fn join_game(store: &mut GameStore, caller: &String, game_id: u64, telegram_id: String) -> (r:
    Result<Option<TransferRequest>, ContractError>)
    requires
        old(store).wf(),
        old(store).has_game(game_id) ==> fee_fits(*old(store), game_id),
    ensures
        final(store).wf(),
        statuses_advance(*old(store), *final(store)),
        rounds_advance(*old(store), *final(store)),
        match r {
            Ok(ft) => {
                &&& join_error(*old(store), *caller, game_id) is None
                &&& join_updates(*old(store), *final(store), *caller, game_id, telegram_id)
                &&& ft == match old(store).game_at(game_id).config.game_joining_fee {
                    Some(fee) => Some(TransferRequest { payer: *caller, amount: fee }),
                    None => None::<TransferRequest>,
                }
            },
            Err(e) => {
                &&& *final(store) == *old(store)
                &&& join_error(*old(store), *caller, game_id) == Some(e)
            },
        },
{
    let n_games = store.games.len();
    if game_id >= n_games as u64 {
        return Err(ContractError::NotFound { game_id });
    }
    let gi = game_id as usize;
    if !matches!(store.games[gi].status, GameStatus::Created) {
        return Err(ContractError::GameNotInCreatedState { game_id });
    }
    if player_index(&store.games[gi], caller).is_some() {
        return Err(ContractError::PlayerAlreadyJoined { game_id, player: caller.clone() });
    }
    let cap: usize = match store.games[gi].config.max_players {
        Some(m) => m as usize,
        None => 255,
    };
    if store.games[gi].players.len() >= cap {
        return Err(ContractError::GameFull { game_id });
    }
    let ghost pre_game = store.games@[gi as int];
    let g = &mut store.games[gi];
    g.players.push((caller.clone(), telegram_id));
    if g.players.len() >= g.config.min_players as usize {
        g.status = GameStatus::Ready;
    }
    let fee_transfer = process_joining_fee(g, caller);
    proof {
        let g2 = store.games@[gi as int];
        assert(!pre_game.player_ids().contains(caller@));
        assert(g2.player_ids() =~= pre_game.player_ids().push(caller@));
        if let Some(fee) = pre_game.config.game_joining_fee {
            crate::state::lemma_escrow_sum_push(pre_game.player_escrow@, (*caller, fee));
        }
        assert(g2.wf());
        assert(store.wf());
    }
    Ok(fee_transfer)
}

/// Collect the game's joining fee from the caller, when one is configured:
/// record it in the game's escrow and hand back the transfer request that
/// pulls it from the caller on the external ledger.
pub fn process_joining_fee(game: &mut Game, caller: &String) -> (r: Option<TransferRequest>)
    requires
        match old(game).config.game_joining_fee {
            Some(fee) => old(game).total_escrow + fee <= u128::MAX,
            None => true,
        },
    ensures
        final(game).id == old(game).id,
        final(game).players@ == old(game).players@,
        final(game).rounds@ == old(game).rounds@,
        final(game).current_round == old(game).current_round,
        final(game).status == old(game).status,
        final(game).config == old(game).config,
        final(game).creator == old(game).creator,
        final(game).scores@ == old(game).scores@,
        match old(game).config.game_joining_fee {
            Some(fee) => {
                &&& final(game).total_escrow == old(game).total_escrow + fee
                &&& final(game).player_escrow@ == old(game).player_escrow@.push((*caller, fee))
                &&& r == Some(TransferRequest { payer: *caller, amount: fee })
            },
            None => {
                &&& final(game).total_escrow == old(game).total_escrow
                &&& final(game).player_escrow@ == old(game).player_escrow@
                &&& r is None
            },
        },
{
    match game.config.game_joining_fee {
        Some(fee) => {
            game.total_escrow = game.total_escrow + fee;
            game.player_escrow.push((caller.clone(), fee));
            Some(TransferRequest { payer: caller.clone(), amount: fee })
        },
        None => None,
    }
}

/// Why a start would be refused, or nothing when it is allowed.
pub open spec fn start_error(pre: GameStore, game_id: u64) -> Option<ContractError> {
    if !pre.has_game(game_id) {
        Some(ContractError::NotFound { game_id })
    } else if !(pre.game_at(game_id).status is Ready) {
        Some(ContractError::GameNotInReadyState { game_id })
    } else {
        None
    }
}

/// How a successful start changes the store: the game moves to
/// `InProgress` and round 1 is opened, expiring after the configured
/// duration when one is set.
pub open spec fn start_updates(pre: GameStore, post: GameStore, game_id: u64, now: u64) -> bool {
    let g = pre.game_at(game_id);
    let g2 = post.game_at(game_id);
    &&& store_frame(pre, post, game_id)
    &&& g2.status is InProgress
    &&& g2.current_round == 1
    &&& g2.rounds@.len() == 1
    &&& crate::state::is_fresh_round(g2.rounds@[0], 1, expiry_of(g.config, now))
    &&& g2.id == g.id
    &&& g2.players@ == g.players@
    &&& g2.config == g.config
    &&& g2.creator == g.creator
    &&& g2.total_escrow == g.total_escrow
    &&& g2.player_escrow@ == g.player_escrow@
    &&& g2.scores@ == g.scores@
}

/// Open round 1 of a ready game. Any caller may start a ready game.
pub fn start_game(store: &mut GameStore, _caller: &String, game_id: u64, now: u64) -> (r: Result<
    (),
    ContractError,
>)
    requires
        old(store).wf(),
        old(store).has_game(game_id) ==> expiry_fits(*old(store), game_id, now),
    ensures
        final(store).wf(),
        statuses_advance(*old(store), *final(store)),
        rounds_advance(*old(store), *final(store)),
        match r {
            Ok(_) => {
                &&& start_error(*old(store), game_id) is None
                &&& start_updates(*old(store), *final(store), game_id, now)
            },
            Err(e) => {
                &&& *final(store) == *old(store)
                &&& start_error(*old(store), game_id) == Some(e)
            },
        },
{
    let n_games = store.games.len();
    if game_id >= n_games as u64 {
        return Err(ContractError::NotFound { game_id });
    }
    let gi = game_id as usize;
    if !matches!(store.games[gi].status, GameStatus::Ready) {
        return Err(ContractError::GameNotInReadyState { game_id });
    }
    let expires_at: Option<u64> = match store.games[gi].config.round_expiry_duration {
        Some(d) => Some(now + d),
        None => None,
    };
    let g = &mut store.games[gi];
    g.status = GameStatus::InProgress;
    g.current_round = 1;
    g.rounds.push(GameRound::new(1, expires_at));
    Ok(())
}

/// Why a commit on behalf of the player would be refused, or nothing when
/// it is allowed.
pub open spec fn commit_error(pre: GameStore, player: String, game_id: u64, now: u64) -> Option<
    ContractError,
> {
    if !pre.has_game(game_id) {
        Some(ContractError::NotFound { game_id })
    } else {
        let g = pre.game_at(game_id);
        if !g.has_player(player@) {
            Some(ContractError::PlayerNotInGame { game_id, player })
        } else if !(g.status is InProgress) {
            Some(ContractError::RoundNotFound { game_id, round: g.current_round })
        } else {
            let r = g.rounds@[g.current_round - 1];
            if r.has_commit_by(player@) {
                Some(ContractError::RoundAlreadyCommitted { game_id, player })
            } else if now >= r.expiry_or_max() {
                Some(ContractError::RoundExpired { game_id, round: r.id })
            } else {
                None
            }
        }
    }
}

/// How a successful commit changes the store: the player's entry is
/// appended to the current round's commits, and the round moves to
/// `Committed` once every player has committed.
pub open spec fn commit_updates(
    pre: GameStore,
    post: GameStore,
    player: String,
    game_id: u64,
    value: String,
    amount: Option<u128>,
) -> bool {
    let g = pre.game_at(game_id);
    let g2 = post.game_at(game_id);
    let ri = g.current_round - 1;
    let r = g.rounds@[ri];
    let r2 = g2.rounds@[ri];
    &&& store_frame(pre, post, game_id)
    &&& g2.rounds@ == g.rounds@.update(ri, r2)
    &&& r2.commits@ == r.commits@.push((player, value, amount))
    &&& r2.reveals@ == r.reveals@
    &&& r2.id == r.id
    &&& r2.expires_at == r.expires_at
    &&& r2.status == (if r.commits@.len() + 1 >= g.players@.len() {
        GameRoundStatus::Committed
    } else {
        r.status
    })
    &&& g2.status == g.status
    &&& g2.current_round == g.current_round
    &&& g2.id == g.id
    &&& g2.players@ == g.players@
    &&& g2.config == g.config
    &&& g2.creator == g.creator
    &&& g2.total_escrow == g.total_escrow
    &&& g2.player_escrow@ == g.player_escrow@
    &&& g2.scores@ == g.scores@
}

/// Record a commitment by the player for the game's current round.
fn _commit_round(
    store: &mut GameStore,
    game_id: u64,
    player: &String,
    value: String,
    amount: Option<u128>,
    now: u64,
) -> (r: Result<(), ContractError>)
    requires
        old(store).wf(),
    ensures
        final(store).wf(),
        statuses_advance(*old(store), *final(store)),
        rounds_advance(*old(store), *final(store)),
        match r {
            Ok(_) => {
                &&& commit_error(*old(store), *player, game_id, now) is None
                &&& commit_updates(*old(store), *final(store), *player, game_id, value, amount)
            },
            Err(e) => {
                &&& *final(store) == *old(store)
                &&& commit_error(*old(store), *player, game_id, now) == Some(e)
            },
        },
{
    let n_games = store.games.len();
    if game_id >= n_games as u64 {
        return Err(ContractError::NotFound { game_id });
    }
    let gi = game_id as usize;
    if player_index(&store.games[gi], player).is_none() {
        return Err(ContractError::PlayerNotInGame { game_id, player: player.clone() });
    }
    if !matches!(store.games[gi].status, GameStatus::InProgress) {
        return Err(
            ContractError::RoundNotFound { game_id, round: store.games[gi].current_round },
        );
    }
    let ri = store.games[gi].rounds.len() - 1;
    assert(ri == store.games@[gi as int].current_round - 1);
    if commit_index(&store.games[gi].rounds[ri], player).is_some() {
        return Err(ContractError::RoundAlreadyCommitted { game_id, player: player.clone() });
    }
    let expiry: u64 = match store.games[gi].rounds[ri].expires_at {
        Some(e) => e,
        None => u64::MAX,
    };
    if now >= expiry {
        let round_id = store.games[gi].rounds[ri].id;
        return Err(ContractError::RoundExpired { game_id, round: round_id });
    }
    let ghost pre_game = store.games@[gi as int];
    let ghost pre_round = pre_game.rounds@[ri as int];
    let n_players = store.games[gi].players.len();
    let g = &mut store.games[gi];
    let round = &mut g.rounds[ri];
    round.commits.push((player.clone(), value, amount));
    if round.commits.len() >= n_players {
        round.status = GameRoundStatus::Committed;
    }
    proof {
        let g2 = store.games@[gi as int];
        let r2 = g2.rounds@[ri as int];
        assert(pre_game.wf());
        assert(pre_round.wf());
        let ids = pre_round.commit_ids();
        assert(!ids.contains(player@));
        assert(forall|k: int| 0 <= k < ids.len() ==> ids[k] != player@);
        assert(r2.commit_ids() =~= ids.push(player@));
        assert(r2.reveal_ids() =~= pre_round.reveal_ids());
        assert forall|i2: int|
            0 <= i2 < r2.reveals@.len() implies r2.has_commit_by(r2.reveals@[i2].0@) by {
            assert(pre_round.has_commit_by(pre_round.reveals@[i2].0@));
            let k = choose|k: int| 0 <= k < ids.len() && ids[k] == pre_round.reveals@[i2].0@;
            assert(r2.commit_ids()[k] == r2.reveals@[i2].0@);
        };
        assert(r2.wf());
        assert(g2.player_ids() =~= pre_game.player_ids());
        assert forall|j2: int|
            0 <= j2 < r2.commits@.len() implies g2.has_player(r2.commits@[j2].0@) by {
            if j2 < pre_round.commits@.len() {
                assert(pre_game.has_player(pre_round.commits@[j2].0@));
            } else {
                assert(r2.commits@[j2].0@ == player@);
                assert(pre_game.has_player(player@));
            }
        };
        assert forall|k: int, j2: int|
            0 <= k < g2.rounds@.len() && 0 <= j2 < g2.rounds@[k].commits@.len()
                implies g2.has_player(g2.rounds@[k].commits@[j2].0@) by {
            if k != ri {
                assert(g2.rounds@[k] == pre_game.rounds@[k]);
                assert(pre_game.has_player(pre_game.rounds@[k].commits@[j2].0@));
            }
        };
        assert(g2.wf());
        assert(store.wf());
    }
    Ok(())
}

/// Record the caller's own commitment for the game's current round.
pub fn commit_round(
    store: &mut GameStore,
    caller: &String,
    game_id: u64,
    value: String,
    amount: Option<u128>,
    now: u64,
) -> (r: Result<(), ContractError>)
    requires
        old(store).wf(),
    ensures
        final(store).wf(),
        statuses_advance(*old(store), *final(store)),
        rounds_advance(*old(store), *final(store)),
        match r {
            Ok(_) => {
                &&& commit_error(*old(store), *caller, game_id, now) is None
                &&& commit_updates(*old(store), *final(store), *caller, game_id, value, amount)
            },
            Err(e) => {
                &&& *final(store) == *old(store)
                &&& commit_error(*old(store), *caller, game_id, now) == Some(e)
            },
        },
{
    _commit_round(store, game_id, caller, value, amount, now)
}

/// Why an admin commit would be refused, or nothing when it is allowed:
/// the caller must hold the owner or admin role, then the commit is
/// validated as if the player had submitted it.
pub open spec fn admin_commit_error(
    pre: GameStore,
    caller: String,
    player: String,
    game_id: u64,
    now: u64,
) -> Option<ContractError> {
    if !pre.is_admin_id(caller@) {
        Some(ContractError::Unauthorized {  })
    } else {
        commit_error(pre, player, game_id, now)
    }
}

/// Record a commitment on behalf of a player; owner or admin only.
pub fn commit_round_as_admin(
    store: &mut GameStore,
    caller: &String,
    game_id: u64,
    player: &String,
    value: String,
    amount: Option<u128>,
    now: u64,
) -> (r: Result<(), ContractError>)
    requires
        old(store).wf(),
    ensures
        final(store).wf(),
        statuses_advance(*old(store), *final(store)),
        rounds_advance(*old(store), *final(store)),
        match r {
            Ok(_) => {
                &&& admin_commit_error(*old(store), *caller, *player, game_id, now) is None
                &&& commit_updates(*old(store), *final(store), *player, game_id, value, amount)
            },
            Err(e) => {
                &&& *final(store) == *old(store)
                &&& admin_commit_error(*old(store), *caller, *player, game_id, now) == Some(e)
            },
        },
{
    if !store.is_admin(caller) {
        return Err(ContractError::Unauthorized {  });
    }
    _commit_round(store, game_id, player, value, amount, now)
}

/// Whether this reveal closes the round: every player has revealed, or the
/// round's expiry tick lies strictly in the past.
pub open spec fn reveal_closes_round(g: Game, r: GameRound, now: u64) -> bool {
    r.reveals@.len() + 1 >= g.players@.len() || r.expiry_or_max() < now
}

/// Why a reveal would be refused, or nothing when it is allowed (a game in
/// skip-reveal mode accepts every reveal as a no-op).
pub open spec fn reveal_error(
    pre: GameStore,
    caller: String,
    game_id: u64,
    value: String,
    nonce: u64,
    now: u64,
) -> Option<ContractError> {
    if !pre.has_game(game_id) {
        Some(ContractError::NotFound { game_id })
    } else {
        let g = pre.game_at(game_id);
        if g.config.skip_reveal {
            None
        } else if !(g.status is InProgress) {
            Some(ContractError::RoundNotFound { game_id, round: g.current_round })
        } else {
            let r = g.rounds@[g.current_round - 1];
            if !(r.status is Committed) && r.expiry_or_max() > now {
                Some(ContractError::RoundNotCommitted { game_id, round: r.id })
            } else if r.has_reveal_by(caller@) {
                Some(ContractError::RoundAlreadyCommitted { game_id, player: caller })
            } else if !r.has_commit_by(caller@) || r.commit_digest_of(caller@)
                != crate::commitment::commit_digest(value@, nonce) {
                Some(ContractError::RoundRevealMismatch { game_id, round: g.current_round })
            } else {
                None
            }
        }
    }
}

/// How a successful reveal changes the store. In skip-reveal mode nothing
/// changes. Otherwise the caller's entry is appended to the reveals; when
/// that closes the round, the round ends, and either the game has played
/// its last round and becomes `RoundsFinished`, or the next round is
/// opened and `current_round` moves up by one.
pub open spec fn reveal_updates(
    pre: GameStore,
    post: GameStore,
    caller: String,
    game_id: u64,
    value: String,
    nonce: u64,
    now: u64,
) -> bool {
    let g = pre.game_at(game_id);
    if g.config.skip_reveal {
        post == pre
    } else {
        let g2 = post.game_at(game_id);
        let ri = g.current_round - 1;
        let r = g.rounds@[ri];
        let r2 = g2.rounds@[ri];
        let closes = reveal_closes_round(g, r, now);
        let finishes = closes && g.current_round >= g.round_limit();
        &&& store_frame(pre, post, game_id)
        &&& r2.reveals@ == r.reveals@.push((caller, value))
        &&& r2.commits@ == r.commits@
        &&& r2.id == r.id
        &&& r2.expires_at == r.expires_at
        &&& r2.status == (if closes {
            GameRoundStatus::Ended
        } else {
            r.status
        })
        &&& g2.status == (if finishes {
            GameStatus::RoundsFinished
        } else {
            g.status
        })
        &&& g2.current_round == (if closes && !finishes {
            g.current_round + 1
        } else {
            g.current_round as int
        })
        &&& if closes && !finishes {
            &&& g2.rounds@.len() == g.rounds@.len() + 1
            &&& g2.rounds@ == g.rounds@.update(ri, r2).push(g2.rounds@.last())
            &&& crate::state::is_fresh_round(
                g2.rounds@.last(),
                (g.current_round + 1) as u64,
                expiry_of(g.config, now),
            )
        } else {
            g2.rounds@ == g.rounds@.update(ri, r2)
        }
        &&& g2.id == g.id
        &&& g2.players@ == g.players@
        &&& g2.config == g.config
        &&& g2.creator == g.creator
        &&& g2.total_escrow == g.total_escrow
        &&& g2.player_escrow@ == g.player_escrow@
        &&& g2.scores@ == g.scores@
    }
}

/// Disclose the value and nonce behind the caller's commitment for the
/// current round. The reveal is accepted exactly when the recomputed
/// commitment digest matches the stored commit; it may close the round and,
/// after the last round, finish the game's playing phase.
pub fn reveal_round(
    store: &mut GameStore,
    caller: &String,
    game_id: u64,
    value: String,
    nonce: u64,
    now: u64,
) -> (r: Result<(), ContractError>)
    requires
        old(store).wf(),
        old(store).has_game(game_id) ==> expiry_fits(*old(store), game_id, now),
    ensures
        final(store).wf(),
        statuses_advance(*old(store), *final(store)),
        rounds_advance(*old(store), *final(store)),
        match r {
            Ok(_) => {
                &&& reveal_error(*old(store), *caller, game_id, value, nonce, now) is None
                &&& reveal_updates(*old(store), *final(store), *caller, game_id, value, nonce, now)
            },
            Err(e) => {
                &&& *final(store) == *old(store)
                &&& reveal_error(*old(store), *caller, game_id, value, nonce, now) == Some(e)
            },
        },
{
    let n_games = store.games.len();
    if game_id >= n_games as u64 {
        return Err(ContractError::NotFound { game_id });
    }
    let gi = game_id as usize;
    if store.games[gi].config.skip_reveal {
        return Ok(());
    }
    if !matches!(store.games[gi].status, GameStatus::InProgress) {
        return Err(
            ContractError::RoundNotFound { game_id, round: store.games[gi].current_round },
        );
    }
    let ri = store.games[gi].rounds.len() - 1;
    assert(ri == store.games@[gi as int].current_round - 1);
    let expiry: u64 = match store.games[gi].rounds[ri].expires_at {
        Some(e) => e,
        None => u64::MAX,
    };
    if !matches!(store.games[gi].rounds[ri].status, GameRoundStatus::Committed) && expiry > now {
        let round_id = store.games[gi].rounds[ri].id;
        return Err(ContractError::RoundNotCommitted { game_id, round: round_id });
    }
    if has_reveal(&store.games[gi].rounds[ri], caller) {
        return Err(ContractError::RoundAlreadyCommitted { game_id, player: caller.clone() });
    }
    let digest = crate::commitment::hash_commitment(value.as_str(), nonce);
    let ghost pre_game = store.games@[gi as int];
    let ghost pre_round = pre_game.rounds@[ri as int];
    match commit_index(&store.games[gi].rounds[ri], caller) {
        None => {
            return Err(
                ContractError::RoundRevealMismatch {
                    game_id,
                    round: store.games[gi].current_round,
                },
            );
        },
        Some(ci) => {
            proof {
                assert(pre_game.wf());
                assert(pre_round.wf());
                let k = pre_round.commit_index_of(caller@);
                assert(pre_round.commit_ids()[k] == caller@);
                assert(pre_round.commit_ids()[ci as int] == caller@);
                assert(k == ci);
            }
            if store.games[gi].rounds[ri].commits[ci].1 != digest {
                return Err(
                    ContractError::RoundRevealMismatch {
                        game_id,
                        round: store.games[gi].current_round,
                    },
                );
            }
        },
    }
    let n_players = store.games[gi].players.len();
    let limit: u64 = if store.games[gi].config.max_rounds == 0 {
        1
    } else {
        store.games[gi].config.max_rounds as u64
    };
    let next_expiry: Option<u64> = match store.games[gi].config.round_expiry_duration {
        Some(d) => Some(now + d),
        None => None,
    };
    let g = &mut store.games[gi];
    let mut closes = false;
    {
        let round = &mut g.rounds[ri];
        round.reveals.push((caller.clone(), value));
        if round.reveals.len() >= n_players || expiry < now {
            round.status = GameRoundStatus::Ended;
            closes = true;
        }
    }
    proof {
        let rm = g.rounds@[ri as int];
        assert(!pre_round.reveal_ids().contains(caller@));
        assert(rm.reveal_ids() =~= pre_round.reveal_ids().push(caller@));
        assert(rm.commit_ids() =~= pre_round.commit_ids());
        assert forall|i2: int|
            0 <= i2 < rm.reveals@.len() implies rm.has_commit_by(rm.reveals@[i2].0@) by {
            if i2 < pre_round.reveals@.len() {
                assert(pre_round.has_commit_by(pre_round.reveals@[i2].0@));
                let k = choose|k: int|
                    0 <= k < pre_round.commit_ids().len() && pre_round.commit_ids()[k]
                        == pre_round.reveals@[i2].0@;
                assert(rm.commit_ids()[k] == rm.reveals@[i2].0@);
            } else {
                assert(rm.reveals@[i2].0@ == caller@);
                assert(pre_round.has_commit_by(caller@));
                let k = choose|k: int|
                    0 <= k < pre_round.commit_ids().len() && pre_round.commit_ids()[k] == caller@;
                assert(rm.commit_ids()[k] == caller@);
            }
        };
        assert(rm.wf());
    }
    if closes {
        if g.current_round >= limit {
            g.status = GameStatus::RoundsFinished;
        } else {
            g.current_round = g.current_round + 1;
            let next_id = g.current_round;
            g.rounds.push(GameRound::new(next_id, next_expiry));
        }
    }
    proof {
        let g2 = store.games@[gi as int];
        assert(g2.player_ids() =~= pre_game.player_ids());
        assert forall|k: int, j2: int|
            0 <= k < g2.rounds@.len() && 0 <= j2 < g2.rounds@[k].commits@.len()
                implies g2.has_player(g2.rounds@[k].commits@[j2].0@) by {
            if k < pre_game.rounds@.len() && k != ri {
                assert(g2.rounds@[k] == pre_game.rounds@[k]);
                assert(pre_game.has_player(pre_game.rounds@[k].commits@[j2].0@));
            } else if k == ri {
                assert(g2.rounds@[k].commits@ == pre_round.commits@);
                assert(pre_game.has_player(pre_round.commits@[j2].0@));
            }
        };
        assert(g2.wf());
        assert(store.wf());
    }
    Ok(())
}

/// The store's observable state is unchanged: every field equal, the game
/// records compared one by one.
pub open spec fn store_unchanged(pre: GameStore, post: GameStore) -> bool {
    &&& post.owner == pre.owner
    &&& post.admins == pre.admins
    &&& post.metadata == pre.metadata
    &&& post.rule == pre.rule
    &&& post.leaderboard == pre.leaderboard
    &&& post.next_game_id == pre.next_game_id
    &&& post.games@ == pre.games@
}

/// Whether the caller may end the game: its rounds are finished, or the
/// caller holds the owner or admin role, who may end a game in any phase.
pub open spec fn end_allowed(pre: GameStore, caller: String, game_id: u64) -> bool {
    pre.game_at(game_id).status is RoundsFinished || pre.is_admin_id(caller@)
}

/// How a successful end changes the store: the game is `Ended` and its
/// scores hold what the engine's scoring rule computed; everything else is
/// untouched.
pub open spec fn end_updates(pre: GameStore, post: GameStore, game_id: u64) -> bool {
    let g = pre.game_at(game_id);
    let g2 = post.game_at(game_id);
    &&& store_frame(pre, post, game_id)
    &&& g2.status is Ended
    &&& crate::rewards::settle_result(g, pre.rule) == Ok::<Seq<(String, u128)>, ContractError>(
        g2.scores@,
    )
    &&& g2.id == g.id
    &&& g2.players@ == g.players@
    &&& g2.rounds@ == g.rounds@
    &&& g2.current_round == g.current_round
    &&& g2.config == g.config
    &&& g2.creator == g.creator
    &&& g2.total_escrow == g.total_escrow
    &&& g2.player_escrow@ == g.player_escrow@
}

/// A copy of a score mapping, for handing payouts out while the record
/// stays in the store.
fn clone_scores(v: &Vec<(String, u128)>) -> (r: Vec<(String, u128)>)
    ensures
        r@ == v@,
{
    let n = v.len();
    let mut out: Vec<(String, u128)> = Vec::new();
    let mut i: usize = 0;
    while i < n
        invariant
            0 <= i <= n,
            n == v@.len(),
            out@ == v@.take(i as int),
        decreases n - i,
    {
        out.push((v[i].0.clone(), v[i].1));
        assert(out@ =~= v@.take(i as int + 1));
        i = i + 1;
    }
    assert(v@.take(n as int) =~= v@);
    out
}

/// Settle and close the game. Allowed when its rounds are finished, or for
/// the owner or an admin in any phase. On success the scoring rule's
/// mapping is written into the game's scores, the game is `Ended`, and the
/// payouts — one entry per scored player — are handed back for the caller
/// to forward to the ledger. Any failure leaves the whole store as it was.
pub fn end_game(store: &mut GameStore, caller: &String, game_id: u64) -> (r: Result<
    Vec<(String, u128)>,
    ContractError,
>)
    requires
        old(store).wf(),
        old(store).has_game(game_id) ==> crate::rewards::rule_applicable(
            old(store).rule,
            old(store).game_at(game_id),
        ),
    ensures
        final(store).wf(),
        statuses_advance(*old(store), *final(store)),
        rounds_advance(*old(store), *final(store)),
        match r {
            Ok(payouts) => {
                &&& old(store).has_game(game_id)
                &&& end_allowed(*old(store), *caller, game_id)
                &&& end_updates(*old(store), *final(store), game_id)
                &&& payouts@ == final(store).game_at(game_id).scores@
            },
            Err(e) => {
                &&& store_unchanged(*old(store), *final(store))
                &&& if !old(store).has_game(game_id) {
                    e == (ContractError::NotFound { game_id })
                } else if !end_allowed(*old(store), *caller, game_id) {
                    e matches ContractError::CannotCloseGame { reason } && reason@
                        == "Rounds not finished!"@
                } else {
                    crate::rewards::settle_result(
                        old(store).game_at(game_id),
                        old(store).rule,
                    ) == Err::<Seq<(String, u128)>, ContractError>(e)
                }
            },
        },
{
    let n_games = store.games.len();
    if game_id >= n_games as u64 {
        return Err(ContractError::NotFound { game_id });
    }
    let gi = game_id as usize;
    let admin = store.is_admin(caller);
    if !matches!(store.games[gi].status, GameStatus::RoundsFinished) && !admin {
        return Err(ContractError::CannotCloseGame { reason: "Rounds not finished!".to_owned() });
    }
    let rule = store.rule;
    let ghost pre_game = store.games@[gi as int];
    let g = &mut store.games[gi];
    match crate::rewards::calculate_rewards_and_winners(g, rule) {
        Err(e) => {
            proof {
                assert(store.games@ =~= old(store).games@);
            }
            return Err(e);
        },
        Ok(_) => {},
    }
    g.status = GameStatus::Ended;
    let payouts = clone_scores(&g.scores);
    proof {
        let g2 = store.games@[gi as int];
        assert(g2.player_ids() =~= pre_game.player_ids());
        assert forall|k: int, j2: int|
            0 <= k < g2.rounds@.len() && 0 <= j2 < g2.rounds@[k].commits@.len()
                implies g2.has_player(g2.rounds@[k].commits@[j2].0@) by {
            assert(g2.rounds@[k] == pre_game.rounds@[k]);
            assert(pre_game.has_player(pre_game.rounds@[k].commits@[j2].0@));
        };
        assert(g2.wf());
        assert(store.wf());
    }
    Ok(payouts)
}

} // verus!
