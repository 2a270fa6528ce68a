//! The rock-paper-scissors scoring rule.
//!
//! A two-player game; each round both players commit to one of `rock`,
//! `paper` or `scissors` and reveal it. The winner of a round is credited
//! 100; a draw credits nobody; a round in which only one player revealed
//! credits that player 100. A revealed value that is not a valid choice
//! makes settlement fail for that round.

use vstd::prelude::*;

use crate::error::ContractError;
use crate::rewards::{lemma_total_credit_err_persists, lemma_total_credit_step, total_credit};
use crate::state::{lemma_reveal_is_player, lemma_two_player_id, Game, GameRound};

verus! {

/// One of the three playable choices.
#[derive(Clone, Copy, Debug, PartialEq, Eq, Structural)]
pub enum RockPaperScissorsChoices {
    Rock,
    Paper,
    Scissors,
}

/// Outcome of one round between the first and the second revealer.
#[derive(Clone, Copy, Debug, PartialEq, Eq, Structural)]
pub enum RockPaperScissorsWinner {
    Player1,
    Player2,
    Draw,
}

/// The rock-paper-scissors game: the choices played so far.
#[derive(Clone, Debug, PartialEq, Eq)]
pub struct RockPaperScissors {
    /// Choices in play order.
    pub choices: Vec<RockPaperScissorsChoices>,
}

/// The choice a revealed string stands for, if any.
pub open spec fn rps_choice_of(s: Seq<char>) -> Option<RockPaperScissorsChoices> {
    if s == "rock"@ {
        Some(RockPaperScissorsChoices::Rock)
    } else if s == "paper"@ {
        Some(RockPaperScissorsChoices::Paper)
    } else if s == "scissors"@ {
        Some(RockPaperScissorsChoices::Scissors)
    } else {
        None
    }
}

/// Who wins one round: rock beats scissors, scissors beats paper, paper
/// beats rock; equal choices draw.
pub open spec fn rps_winner(
    a: RockPaperScissorsChoices,
    b: RockPaperScissorsChoices,
) -> RockPaperScissorsWinner {
    match (a, b) {
        (RockPaperScissorsChoices::Rock, RockPaperScissorsChoices::Scissors)
            => RockPaperScissorsWinner::Player1,
        (RockPaperScissorsChoices::Paper, RockPaperScissorsChoices::Rock)
            => RockPaperScissorsWinner::Player1,
        (RockPaperScissorsChoices::Scissors, RockPaperScissorsChoices::Paper)
            => RockPaperScissorsWinner::Player1,
        (RockPaperScissorsChoices::Scissors, RockPaperScissorsChoices::Rock)
            => RockPaperScissorsWinner::Player2,
        (RockPaperScissorsChoices::Rock, RockPaperScissorsChoices::Paper)
            => RockPaperScissorsWinner::Player2,
        (RockPaperScissorsChoices::Paper, RockPaperScissorsChoices::Scissors)
            => RockPaperScissorsWinner::Player2,
        _ => RockPaperScissorsWinner::Draw,
    }
}

/// The identity's credit for one round: 100 to the round's winner, 100 to a
/// lone revealer, otherwise 0; unscorable when a revealed value of a fully
/// revealed round is not a valid choice.
pub open spec fn rps_round_credit(r: GameRound, id: Seq<char>) -> Result<int, ()> {
    if r.reveals@.len() >= 2 {
        match (rps_choice_of(r.reveals@[0].1@), rps_choice_of(r.reveals@[1].1@)) {
            (Some(a), Some(b)) => Ok(
                {
                    let w = rps_winner(a, b);
                    if (w is Player1) && r.reveals@[0].0@ == id {
                        100
                    } else if (w is Player2) && r.reveals@[1].0@ == id {
                        100
                    } else {
                        0
                    }
                },
            ),
            _ => Err(()),
        }
    } else if r.reveals@.len() == 1 {
        Ok(
            if r.reveals@[0].0@ == id {
                100
            } else {
                0
            },
        )
    } else {
        Ok(0)
    }
}

/// The per-round credit rule as a function value, for [`total_credit`].
pub open spec fn rps_credit_fn() -> spec_fn(GameRound, Seq<char>) -> Result<int, ()> {
    |r: GameRound, id: Seq<char>| rps_round_credit(r, id)
}

/// What settlement yields for the game: both players' accumulated credits,
/// or an invalid-choice error naming the first unscorable round.
pub open spec fn rps_settle(g: Game) -> Result<Seq<(String, u128)>, ContractError> {
    let t0r = total_credit(g.rounds@, g.players@[0].0@, rps_credit_fn());
    let t1r = total_credit(g.rounds@, g.players@[1].0@, rps_credit_fn());
    match (t0r, t1r) {
        (Ok(t0), Ok(t1)) => Ok(
            seq![(g.players@[0].0, t0 as u128), (g.players@[1].0, t1 as u128)],
        ),
        (Err(rid), _) => Err(ContractError::InvalidRevealChoice { game_id: g.id, round: rid }),
        (Ok(_), Err(rid)) => Err(ContractError::InvalidRevealChoice { game_id: g.id, round: rid }),
    }
}

impl RockPaperScissorsChoices {
    /// Read a revealed string as a choice.
    pub fn try_from(value: &str) -> (r: Option<RockPaperScissorsChoices>)
        ensures
            r == rps_choice_of(value@),
    {
        let v = value.to_owned();
        if v == "rock".to_owned() {
            Some(RockPaperScissorsChoices::Rock)
        } else if v == "paper".to_owned() {
            Some(RockPaperScissorsChoices::Paper)
        } else if v == "scissors".to_owned() {
            Some(RockPaperScissorsChoices::Scissors)
        } else {
            None
        }
    }
}

impl RockPaperScissors {
    /// The winner between the first and the second choice.
    pub fn determine_winner(
        p1_choice: &RockPaperScissorsChoices,
        p2_choice: &RockPaperScissorsChoices,
    ) -> (w: RockPaperScissorsWinner)
        ensures
            w == rps_winner(*p1_choice, *p2_choice),
    {
        match (p1_choice, p2_choice) {
            (RockPaperScissorsChoices::Rock, RockPaperScissorsChoices::Scissors)
                => RockPaperScissorsWinner::Player1,
            (RockPaperScissorsChoices::Paper, RockPaperScissorsChoices::Rock)
                => RockPaperScissorsWinner::Player1,
            (RockPaperScissorsChoices::Scissors, RockPaperScissorsChoices::Paper)
                => RockPaperScissorsWinner::Player1,
            (RockPaperScissorsChoices::Scissors, RockPaperScissorsChoices::Rock)
                => RockPaperScissorsWinner::Player2,
            (RockPaperScissorsChoices::Rock, RockPaperScissorsChoices::Paper)
                => RockPaperScissorsWinner::Player2,
            (RockPaperScissorsChoices::Paper, RockPaperScissorsChoices::Scissors)
                => RockPaperScissorsWinner::Player2,
            _ => RockPaperScissorsWinner::Draw,
        }
    }

    /// Whether a revealed value is a valid choice of this game.
    pub fn is_valid_reveal_choice(value: &String) -> (r: bool)
        ensures
            r == (rps_choice_of(value@) is Some),
    {
        RockPaperScissorsChoices::try_from(value.as_str()).is_some()
    }

    /// Settle the game: write both players' accumulated credits into its
    /// scores, or fail on the first round with an invalid revealed choice
    /// and leave the game unchanged.
    pub fn calculate_rewards_and_winners(game: &mut Game) -> (r: Result<bool, ContractError>)
        requires
            old(game).wf(),
            old(game).players@.len() == 2,
        ensures
            match r {
                Ok(_) => {
                    &&& rps_settle(*old(game)) == Ok::<Seq<(String, u128)>, ContractError>(
                        final(game).scores@,
                    )
                    &&& final(game).id == old(game).id
                    &&& final(game).players@ == old(game).players@
                    &&& final(game).rounds@ == old(game).rounds@
                    &&& final(game).current_round == old(game).current_round
                    &&& final(game).status == old(game).status
                    &&& final(game).config == old(game).config
                    &&& final(game).creator == old(game).creator
                    &&& final(game).total_escrow == old(game).total_escrow
                    &&& final(game).player_escrow@ == old(game).player_escrow@
                },
                Err(e) => {
                    &&& *final(game) == *old(game)
                    &&& rps_settle(*old(game)) == Err::<Seq<(String, u128)>, ContractError>(e)
                },
            },
    {
        let ghost g0 = *game;
        let ghost p0 = game.players@[0].0@;
        let ghost p1 = game.players@[1].0@;
        proof {
            assert(g0.player_ids()[0] == p0 && g0.player_ids()[1] == p1);
            assert(p0 != p1);
        }
        let n = game.rounds.len();
        let mut t0: u128 = 0;
        let mut t1: u128 = 0;
        let mut i: usize = 0;
        while i < n
            invariant
                0 <= i <= n,
                *game == g0,
                g0.wf(),
                g0.players@.len() == 2,
                p0 == g0.players@[0].0@,
                p1 == g0.players@[1].0@,
                p0 != p1,
                n == g0.rounds@.len(),
                total_credit(g0.rounds@.take(i as int), p0, rps_credit_fn()) == Ok::<int, u64>(
                    t0 as int,
                ),
                total_credit(g0.rounds@.take(i as int), p1, rps_credit_fn()) == Ok::<int, u64>(
                    t1 as int,
                ),
                t0 <= 100 * i,
                t1 <= 100 * i,
            decreases n - i,
        {
            let ghost rd = g0.rounds@[i as int];
            let nrev = game.rounds[i].reveals.len();
            if nrev >= 2 {
                let c0 = RockPaperScissorsChoices::try_from(game.rounds[i].reveals[0].1.as_str());
                let c1 = RockPaperScissorsChoices::try_from(game.rounds[i].reveals[1].1.as_str());
                if c0.is_none() || c1.is_none() {
                    proof {
                        assert(rps_round_credit(rd, p0) is Err);
                        assert(rps_round_credit(rd, p1) is Err);
                        lemma_total_credit_step(g0.rounds@, p0, rps_credit_fn(), i as int);
                        lemma_total_credit_step(g0.rounds@, p1, rps_credit_fn(), i as int);
                        lemma_total_credit_err_persists(g0.rounds@, p0, rps_credit_fn(), i as int + 1);
                        lemma_total_credit_err_persists(g0.rounds@, p1, rps_credit_fn(), i as int + 1);
                    }
                    let round_id = game.rounds[i].id;
                    return Err(ContractError::InvalidRevealChoice { game_id: game.id, round: round_id });
                }
                let w = RockPaperScissors::determine_winner(&c0.unwrap(), &c1.unwrap());
                proof {
                    lemma_reveal_is_player(g0, i as int, 0);
                    lemma_reveal_is_player(g0, i as int, 1);
                    lemma_two_player_id(g0, rd.reveals@[0].0@);
                    lemma_two_player_id(g0, rd.reveals@[1].0@);
                }
                match w {
                    RockPaperScissorsWinner::Player1 => {
                        if game.rounds[i].reveals[0].0 == game.players[0].0 {
                            assert(rps_round_credit(rd, p0) == Ok::<int, ()>(100));
                            assert(rps_round_credit(rd, p1) == Ok::<int, ()>(0));
                            t0 = t0 + 100;
                        } else {
                            assert(rps_round_credit(rd, p0) == Ok::<int, ()>(0));
                            assert(rps_round_credit(rd, p1) == Ok::<int, ()>(100));
                            t1 = t1 + 100;
                        }
                    },
                    RockPaperScissorsWinner::Player2 => {
                        if game.rounds[i].reveals[1].0 == game.players[0].0 {
                            assert(rps_round_credit(rd, p0) == Ok::<int, ()>(100));
                            assert(rps_round_credit(rd, p1) == Ok::<int, ()>(0));
                            t0 = t0 + 100;
                        } else {
                            assert(rps_round_credit(rd, p0) == Ok::<int, ()>(0));
                            assert(rps_round_credit(rd, p1) == Ok::<int, ()>(100));
                            t1 = t1 + 100;
                        }
                    },
                    RockPaperScissorsWinner::Draw => {
                        assert(rps_round_credit(rd, p0) == Ok::<int, ()>(0));
                        assert(rps_round_credit(rd, p1) == Ok::<int, ()>(0));
                    },
                }
            } else if nrev == 1 {
                proof {
                    lemma_reveal_is_player(g0, i as int, 0);
                    lemma_two_player_id(g0, rd.reveals@[0].0@);
                }
                if game.rounds[i].reveals[0].0 == game.players[0].0 {
                    assert(rps_round_credit(rd, p0) == Ok::<int, ()>(100));
                    assert(rps_round_credit(rd, p1) == Ok::<int, ()>(0));
                    t0 = t0 + 100;
                } else {
                    assert(rps_round_credit(rd, p0) == Ok::<int, ()>(0));
                    assert(rps_round_credit(rd, p1) == Ok::<int, ()>(100));
                    t1 = t1 + 100;
                }
            } else {
                assert(rps_round_credit(rd, p0) == Ok::<int, ()>(0));
                assert(rps_round_credit(rd, p1) == Ok::<int, ()>(0));
            }
            proof {
                lemma_total_credit_step(g0.rounds@, p0, rps_credit_fn(), i as int);
                lemma_total_credit_step(g0.rounds@, p1, rps_credit_fn(), i as int);
            }
            i = i + 1;
        }
        proof {
            assert(g0.rounds@.take(n as int) =~= g0.rounds@);
        }
        let mut scores: Vec<(String, u128)> = Vec::new();
        scores.push((game.players[0].0.clone(), t0));
        scores.push((game.players[1].0.clone(), t1));
        game.scores = scores;
        proof {
            assert(game.scores@ =~= seq![(g0.players@[0].0, t0), (g0.players@[1].0, t1)]);
        }
        Ok(true)
    }
}

} // verus!
