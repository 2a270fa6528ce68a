//! The asteroid scoring rule.
//!
//! A two-player, single-round game: each player commits to a score written
//! as a decimal numeral. The higher revealed score is credited 100; a tie
//! credits both 50; a lone revealer is credited 100. Only the first round
//! is scored, and an unreadable revealed score makes settlement fail.

use vstd::prelude::*;

use crate::decimal::{parse_u64, parse_u64_of};
use crate::error::ContractError;
use crate::state::{lemma_reveal_is_player, lemma_two_player_id, Game, GameRound};

verus! {

/// The asteroid game.
#[derive(Clone, Copy, Debug, PartialEq, Eq, Structural)]
pub struct Asteroid {
    /// The score the game accepts as a win threshold.
    pub accepted_value: u128,
}

/// The identity's credit for the scored round.
pub open spec fn asteroid_round_credit(r: GameRound, id: Seq<char>) -> Result<int, ()> {
    if r.reveals@.len() >= 2 {
        match (parse_u64_of(r.reveals@[0].1@), parse_u64_of(r.reveals@[1].1@)) {
            (Some(a), Some(b)) => Ok(
                if a > b {
                    if r.reveals@[0].0@ == id {
                        100int
                    } else {
                        0
                    }
                } else if a < b {
                    if r.reveals@[1].0@ == id {
                        100
                    } else {
                        0
                    }
                } else {
                    (if r.reveals@[0].0@ == id {
                        50int
                    } else {
                        0
                    }) + (if r.reveals@[1].0@ == id {
                        50int
                    } else {
                        0
                    })
                },
            ),
            _ => Err(()),
        }
    } else if r.reveals@.len() == 1 {
        Ok(
            if r.reveals@[0].0@ == id {
                100
            } else {
                0
            },
        )
    } else {
        Ok(0)
    }
}

/// What settlement yields for the game: both players' credits for the
/// first round, or an invalid-choice error for it.
pub open spec fn asteroid_settle(g: Game) -> Result<Seq<(String, u128)>, ContractError> {
    let r = g.rounds@[0];
    match (asteroid_round_credit(r, g.players@[0].0@), asteroid_round_credit(
        r,
        g.players@[1].0@,
    )) {
        (Ok(t0), Ok(t1)) => Ok(
            seq![(g.players@[0].0, t0 as u128), (g.players@[1].0, t1 as u128)],
        ),
        _ => Err(ContractError::InvalidRevealChoice { game_id: g.id, round: r.id }),
    }
}

impl Asteroid {
    /// Settle the game from its first round, or fail when a revealed score
    /// cannot be read, leaving the game unchanged.
    pub fn calculate_rewards_and_winners(game: &mut Game) -> (r: Result<bool, ContractError>)
        requires
            old(game).wf(),
            old(game).players@.len() == 2,
            old(game).rounds@.len() >= 1,
        ensures
            match r {
                Ok(_) => {
                    &&& asteroid_settle(*old(game)) == Ok::<Seq<(String, u128)>, ContractError>(
                        final(game).scores@,
                    )
                    &&& final(game).id == old(game).id
                    &&& final(game).players@ == old(game).players@
                    &&& final(game).rounds@ == old(game).rounds@
                    &&& final(game).current_round == old(game).current_round
                    &&& final(game).status == old(game).status
                    &&& final(game).config == old(game).config
                    &&& final(game).creator == old(game).creator
                    &&& final(game).total_escrow == old(game).total_escrow
                    &&& final(game).player_escrow@ == old(game).player_escrow@
                },
                Err(e) => {
                    &&& *final(game) == *old(game)
                    &&& asteroid_settle(*old(game)) == Err::<Seq<(String, u128)>, ContractError>(e)
                },
            },
    {
        let ghost g0 = *game;
        let ghost p0 = game.players@[0].0@;
        let ghost p1 = game.players@[1].0@;
        let ghost rd = g0.rounds@[0];
        proof {
            assert(g0.player_ids()[0] == p0 && g0.player_ids()[1] == p1);
            assert(p0 != p1);
        }
        let mut t0: u128 = 0;
        let mut t1: u128 = 0;
        let nrev = game.rounds[0].reveals.len();
        if nrev >= 2 {
            let c0 = parse_u64(game.rounds[0].reveals[0].1.as_str());
            let c1 = parse_u64(game.rounds[0].reveals[1].1.as_str());
            if c0.is_none() || c1.is_none() {
                let round_id = game.rounds[0].id;
                return Err(
                    ContractError::InvalidRevealChoice { game_id: game.id, round: round_id },
                );
            }
            let a = c0.unwrap();
            let b = c1.unwrap();
            proof {
                lemma_reveal_is_player(g0, 0, 0);
                lemma_reveal_is_player(g0, 0, 1);
                lemma_two_player_id(g0, rd.reveals@[0].0@);
                lemma_two_player_id(g0, rd.reveals@[1].0@);
                assert(rd.wf());
                assert(rd.reveal_ids()[0] == rd.reveals@[0].0@);
                assert(rd.reveal_ids()[1] == rd.reveals@[1].0@);
                assert(rd.reveals@[0].0@ != rd.reveals@[1].0@);
            }
            if a > b {
                if game.rounds[0].reveals[0].0 == game.players[0].0 {
                    t0 = 100;
                } else {
                    t1 = 100;
                }
            } else if a < b {
                if game.rounds[0].reveals[1].0 == game.players[0].0 {
                    t0 = 100;
                } else {
                    t1 = 100;
                }
            } else {
                t0 = 50;
                t1 = 50;
            }
        } else if nrev == 1 {
            proof {
                lemma_reveal_is_player(g0, 0, 0);
                lemma_two_player_id(g0, rd.reveals@[0].0@);
            }
            if game.rounds[0].reveals[0].0 == game.players[0].0 {
                t0 = 100;
            } else {
                t1 = 100;
            }
        }
        assert(asteroid_round_credit(rd, p0) == Ok::<int, ()>(t0 as int));
        assert(asteroid_round_credit(rd, p1) == Ok::<int, ()>(t1 as int));
        let mut scores: Vec<(String, u128)> = Vec::new();
        scores.push((game.players[0].0.clone(), t0));
        scores.push((game.players[1].0.clone(), t1));
        game.scores = scores;
        proof {
            assert(game.scores@ =~= seq![(g0.players@[0].0, t0), (g0.players@[1].0, t1)]);
        }
        Ok(true)
    }
}

} // verus!
