//! The cooperation-dilemma scoring rule.
//!
//! A two-player game; each round both players commit to `cooperate` or
//! `defect`. Mutual cooperation credits both 50; unilateral defection
//! credits the defector 100; mutual defection credits nobody, and so does a
//! round whose revealed values do not parse. A round in which only one
//! player revealed credits that player 100.

use vstd::prelude::*;

use crate::error::ContractError;
use crate::rewards::{lemma_total_credit_step, total_credit};
use crate::state::{lemma_reveal_is_player, lemma_two_player_id, Game, GameRound};

verus! {

/// The two playable choices.
#[derive(Clone, Copy, Debug, PartialEq, Eq, Structural)]
pub enum CooperationDilemmaChoices {
    Cooperate,
    Defect,
}

/// The cooperation-dilemma game: the choices played so far.
#[derive(Clone, Debug, PartialEq, Eq)]
pub struct CooperationDilemma {
    /// Choices in play order.
    pub choices: Vec<CooperationDilemmaChoices>,
}

/// The choice a revealed string stands for, if any.
pub open spec fn dilemma_choice_of(s: Seq<char>) -> Option<CooperationDilemmaChoices> {
    if s == "cooperate"@ {
        Some(CooperationDilemmaChoices::Cooperate)
    } else if s == "defect"@ {
        Some(CooperationDilemmaChoices::Defect)
    } else {
        None
    }
}

/// The identity's credit for one round. Rounds that cannot be read credit
/// nobody; this rule never refuses to settle.
pub open spec fn dilemma_round_credit(r: GameRound, id: Seq<char>) -> Result<int, ()> {
    if r.reveals@.len() >= 2 {
        let a = dilemma_choice_of(r.reveals@[0].1@);
        let b = dilemma_choice_of(r.reveals@[1].1@);
        Ok(
            if a == Some(CooperationDilemmaChoices::Cooperate) && b == Some(
                CooperationDilemmaChoices::Cooperate,
            ) {
                (if r.reveals@[0].0@ == id {
                    50int
                } else {
                    0
                }) + (if r.reveals@[1].0@ == id {
                    50int
                } else {
                    0
                })
            } else if a == Some(CooperationDilemmaChoices::Cooperate) && b == Some(
                CooperationDilemmaChoices::Defect,
            ) {
                if r.reveals@[1].0@ == id {
                    100
                } else {
                    0
                }
            } else if a == Some(CooperationDilemmaChoices::Defect) && b == Some(
                CooperationDilemmaChoices::Cooperate,
            ) {
                if r.reveals@[0].0@ == id {
                    100
                } else {
                    0
                }
            } else {
                0
            },
        )
    } else if r.reveals@.len() == 1 {
        Ok(
            if r.reveals@[0].0@ == id {
                100
            } else {
                0
            },
        )
    } else {
        Ok(0)
    }
}

/// The per-round credit rule as a function value, for [`total_credit`].
pub open spec fn dilemma_credit_fn() -> spec_fn(GameRound, Seq<char>) -> Result<int, ()> {
    |r: GameRound, id: Seq<char>| dilemma_round_credit(r, id)
}

/// What settlement yields for the game: both players' accumulated credits.
pub open spec fn dilemma_settle(g: Game) -> Result<Seq<(String, u128)>, ContractError> {
    let t0r = total_credit(g.rounds@, g.players@[0].0@, dilemma_credit_fn());
    let t1r = total_credit(g.rounds@, g.players@[1].0@, dilemma_credit_fn());
    match (t0r, t1r) {
        (Ok(t0), Ok(t1)) => Ok(
            seq![(g.players@[0].0, t0 as u128), (g.players@[1].0, t1 as u128)],
        ),
        (Err(rid), _) => Err(ContractError::InvalidRevealChoice { game_id: g.id, round: rid }),
        (Ok(_), Err(rid)) => Err(ContractError::InvalidRevealChoice { game_id: g.id, round: rid }),
    }
}

impl CooperationDilemmaChoices {
    /// Read a revealed string as a choice.
    pub fn try_from(value: &str) -> (r: Option<CooperationDilemmaChoices>)
        ensures
            r == dilemma_choice_of(value@),
    {
        let v = value.to_owned();
        if v == "cooperate".to_owned() {
            Some(CooperationDilemmaChoices::Cooperate)
        } else if v == "defect".to_owned() {
            Some(CooperationDilemmaChoices::Defect)
        } else {
            None
        }
    }
}

impl CooperationDilemma {
    /// Whether a revealed value is a valid choice of this game.
    pub fn is_valid_reveal_choice(value: &String) -> (r: bool)
        ensures
            r == (dilemma_choice_of(value@) is Some),
    {
        CooperationDilemmaChoices::try_from(value.as_str()).is_some()
    }

    /// Settle the game: write both players' accumulated credits into its
    /// scores. This rule can always settle.
    pub fn calculate_rewards_and_winners(game: &mut Game) -> (r: Result<bool, ContractError>)
        requires
            old(game).wf(),
            old(game).players@.len() == 2,
        ensures
            match r {
                Ok(_) => {
                    &&& dilemma_settle(*old(game)) == Ok::<Seq<(String, u128)>, ContractError>(
                        final(game).scores@,
                    )
                    &&& final(game).id == old(game).id
                    &&& final(game).players@ == old(game).players@
                    &&& final(game).rounds@ == old(game).rounds@
                    &&& final(game).current_round == old(game).current_round
                    &&& final(game).status == old(game).status
                    &&& final(game).config == old(game).config
                    &&& final(game).creator == old(game).creator
                    &&& final(game).total_escrow == old(game).total_escrow
                    &&& final(game).player_escrow@ == old(game).player_escrow@
                },
                Err(e) => {
                    &&& *final(game) == *old(game)
                    &&& dilemma_settle(*old(game)) == Err::<Seq<(String, u128)>, ContractError>(e)
                },
            },
    {
        let ghost g0 = *game;
        let ghost p0 = game.players@[0].0@;
        let ghost p1 = game.players@[1].0@;
        proof {
            assert(g0.player_ids()[0] == p0 && g0.player_ids()[1] == p1);
            assert(p0 != p1);
        }
        let n = game.rounds.len();
        let mut t0: u128 = 0;
        let mut t1: u128 = 0;
        let mut i: usize = 0;
        while i < n
            invariant
                0 <= i <= n,
                *game == g0,
                g0.wf(),
                g0.players@.len() == 2,
                p0 == g0.players@[0].0@,
                p1 == g0.players@[1].0@,
                p0 != p1,
                n == g0.rounds@.len(),
                total_credit(g0.rounds@.take(i as int), p0, dilemma_credit_fn()) == Ok::<int, u64>(
                    t0 as int,
                ),
                total_credit(g0.rounds@.take(i as int), p1, dilemma_credit_fn()) == Ok::<int, u64>(
                    t1 as int,
                ),
                t0 <= 100 * i,
                t1 <= 100 * i,
            decreases n - i,
        {
            let ghost rd = g0.rounds@[i as int];
            let nrev = game.rounds[i].reveals.len();
            if nrev >= 2 {
                let c0 = CooperationDilemmaChoices::try_from(game.rounds[i].reveals[0].1.as_str());
                let c1 = CooperationDilemmaChoices::try_from(game.rounds[i].reveals[1].1.as_str());
                proof {
                    lemma_reveal_is_player(g0, i as int, 0);
                    lemma_reveal_is_player(g0, i as int, 1);
                    lemma_two_player_id(g0, rd.reveals@[0].0@);
                    lemma_two_player_id(g0, rd.reveals@[1].0@);
                    assert(rd.wf());
                    assert(rd.reveal_ids()[0] == rd.reveals@[0].0@);
                    assert(rd.reveal_ids()[1] == rd.reveals@[1].0@);
                    assert(rd.reveals@[0].0@ != rd.reveals@[1].0@);
                }
                match (c0, c1) {
                    (
                        Some(CooperationDilemmaChoices::Cooperate),
                        Some(CooperationDilemmaChoices::Cooperate),
                    ) => {
                        assert(dilemma_round_credit(rd, p0) == Ok::<int, ()>(50));
                        assert(dilemma_round_credit(rd, p1) == Ok::<int, ()>(50));
                        t0 = t0 + 50;
                        t1 = t1 + 50;
                    },
                    (
                        Some(CooperationDilemmaChoices::Cooperate),
                        Some(CooperationDilemmaChoices::Defect),
                    ) => {
                        if game.rounds[i].reveals[1].0 == game.players[0].0 {
                            assert(dilemma_round_credit(rd, p0) == Ok::<int, ()>(100));
                            assert(dilemma_round_credit(rd, p1) == Ok::<int, ()>(0));
                            t0 = t0 + 100;
                        } else {
                            assert(dilemma_round_credit(rd, p0) == Ok::<int, ()>(0));
                            assert(dilemma_round_credit(rd, p1) == Ok::<int, ()>(100));
                            t1 = t1 + 100;
                        }
                    },
                    (
                        Some(CooperationDilemmaChoices::Defect),
                        Some(CooperationDilemmaChoices::Cooperate),
                    ) => {
                        if game.rounds[i].reveals[0].0 == game.players[0].0 {
                            assert(dilemma_round_credit(rd, p0) == Ok::<int, ()>(100));
                            assert(dilemma_round_credit(rd, p1) == Ok::<int, ()>(0));
                            t0 = t0 + 100;
                        } else {
                            assert(dilemma_round_credit(rd, p0) == Ok::<int, ()>(0));
                            assert(dilemma_round_credit(rd, p1) == Ok::<int, ()>(100));
                            t1 = t1 + 100;
                        }
                    },
                    _ => {
                        assert(dilemma_round_credit(rd, p0) == Ok::<int, ()>(0));
                        assert(dilemma_round_credit(rd, p1) == Ok::<int, ()>(0));
                    },
                }
            } else if nrev == 1 {
                proof {
                    lemma_reveal_is_player(g0, i as int, 0);
                    lemma_two_player_id(g0, rd.reveals@[0].0@);
                }
                if game.rounds[i].reveals[0].0 == game.players[0].0 {
                    assert(dilemma_round_credit(rd, p0) == Ok::<int, ()>(100));
                    assert(dilemma_round_credit(rd, p1) == Ok::<int, ()>(0));
                    t0 = t0 + 100;
                } else {
                    assert(dilemma_round_credit(rd, p0) == Ok::<int, ()>(0));
                    assert(dilemma_round_credit(rd, p1) == Ok::<int, ()>(100));
                    t1 = t1 + 100;
                }
            } else {
                assert(dilemma_round_credit(rd, p0) == Ok::<int, ()>(0));
                assert(dilemma_round_credit(rd, p1) == Ok::<int, ()>(0));
            }
            proof {
                lemma_total_credit_step(g0.rounds@, p0, dilemma_credit_fn(), i as int);
                lemma_total_credit_step(g0.rounds@, p1, dilemma_credit_fn(), i as int);
            }
            i = i + 1;
        }
        proof {
            assert(g0.rounds@.take(n as int) =~= g0.rounds@);
        }
        let mut scores: Vec<(String, u128)> = Vec::new();
        scores.push((game.players[0].0.clone(), t0));
        scores.push((game.players[1].0.clone(), t1));
        game.scores = scores;
        proof {
            assert(game.scores@ =~= seq![(g0.players@[0].0, t0), (g0.players@[1].0, t1)]);
        }
        Ok(true)
    }
}

} // verus!
