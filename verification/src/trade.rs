//! The trade-gains scoring rule.
//!
//! A two-player game; each round both players commit to a stake written as
//! a decimal numeral. When the two stakes together stay within the cap of
//! 10, each player is credited ten times their own stake; when they exceed
//! it, the configured policy decides between crediting nothing and refusing
//! to settle. A round in which only one player revealed credits that player
//! 100; an unreadable stake makes settlement fail for that round.

use vstd::prelude::*;

use crate::decimal::{parse_u64, parse_u64_of};
use crate::error::ContractError;
use crate::rewards::{
    lemma_total_credit_err_persists, lemma_total_credit_step, total_credit, OverCapPolicy,
};
use crate::state::{lemma_reveal_is_player, lemma_two_player_id, Game, GameRound};

verus! {

/// A stake between 0 and 255, as revealed by a player.
#[derive(Clone, Copy, Debug, PartialEq, Eq, Structural)]
pub struct TradeGainsChoice(pub u8);

/// The trade-gains game.
#[derive(Clone, Copy, Debug, PartialEq, Eq, Structural)]
pub struct TradeGains;

/// The stake a revealed string stands for, if it reads as a decimal
/// numeral no larger than 255.
pub open spec fn trade_choice_of(s: Seq<char>) -> Option<u8> {
    match parse_u64_of(s) {
        Some(v) => if v <= 255 {
            Some(v as u8)
        } else {
            None
        },
        None => None,
    }
}

/// The identity's credit for one round, under the given over-cap policy.
pub open spec fn trade_round_credit(r: GameRound, id: Seq<char>, over_cap: OverCapPolicy) -> Result<
    int,
    (),
> {
    if r.reveals@.len() >= 2 {
        match (trade_choice_of(r.reveals@[0].1@), trade_choice_of(r.reveals@[1].1@)) {
            (Some(a), Some(b)) => {
                if a + b > 10 {
                    match over_cap {
                        OverCapPolicy::NoReward => Ok(0),
                        OverCapPolicy::Foul => Err(()),
                    }
                } else {
                    Ok(
                        (if r.reveals@[0].0@ == id {
                            a * 10
                        } else {
                            0int
                        }) + (if r.reveals@[1].0@ == id {
                            b * 10
                        } else {
                            0int
                        }),
                    )
                }
            },
            _ => Err(()),
        }
    } else if r.reveals@.len() == 1 {
        Ok(
            if r.reveals@[0].0@ == id {
                100
            } else {
                0
            },
        )
    } else {
        Ok(0)
    }
}

/// The per-round credit rule as a function value, for [`total_credit`].
pub open spec fn trade_credit_fn(over_cap: OverCapPolicy) -> spec_fn(
    GameRound,
    Seq<char>,
) -> Result<int, ()> {
    |r: GameRound, id: Seq<char>| trade_round_credit(r, id, over_cap)
}

/// What settlement yields for the game: both players' accumulated credits,
/// or an invalid-choice error naming the first unscorable round.
pub open spec fn trade_settle(g: Game, over_cap: OverCapPolicy) -> Result<
    Seq<(String, u128)>,
    ContractError,
> {
    let t0r = total_credit(g.rounds@, g.players@[0].0@, trade_credit_fn(over_cap));
    let t1r = total_credit(g.rounds@, g.players@[1].0@, trade_credit_fn(over_cap));
    match (t0r, t1r) {
        (Ok(t0), Ok(t1)) => Ok(
            seq![(g.players@[0].0, t0 as u128), (g.players@[1].0, t1 as u128)],
        ),
        (Err(rid), _) => Err(ContractError::InvalidRevealChoice { game_id: g.id, round: rid }),
        (Ok(_), Err(rid)) => Err(ContractError::InvalidRevealChoice { game_id: g.id, round: rid }),
    }
}

impl TradeGainsChoice {
    /// Read a revealed string as a stake.
    pub fn try_from(value: &str) -> (r: Option<TradeGainsChoice>)
        ensures
            r == match trade_choice_of(value@) {
                Some(c) => Some(TradeGainsChoice(c)),
                None => None::<TradeGainsChoice>,
            },
    {
        match parse_u64(value) {
            Some(v) => if v <= 255 {
                Some(TradeGainsChoice(v as u8))
            } else {
                None
            },
            None => None,
        }
    }
}

impl TradeGains {
    /// Whether a revealed value is a valid choice of this game: a numeral
    /// between 0 and 10.
    pub fn is_valid_reveal_choice(value: &String) -> (r: bool)
        ensures
            r == match trade_choice_of(value@) {
                Some(c) => c <= 10,
                None => false,
            },
    {
        match TradeGainsChoice::try_from(value.as_str()) {
            Some(c) => c.0 <= 10,
            None => false,
        }
    }

    /// Settle the game under the given over-cap policy: write both players'
    /// accumulated credits into its scores, or fail on the first round that
    /// cannot be scored and leave the game unchanged.
    pub fn calculate_rewards_and_winners(game: &mut Game, over_cap: OverCapPolicy) -> (r: Result<
        bool,
        ContractError,
    >)
        requires
            old(game).wf(),
            old(game).players@.len() == 2,
        ensures
            match r {
                Ok(_) => {
                    &&& trade_settle(*old(game), over_cap) == Ok::<
                        Seq<(String, u128)>,
                        ContractError,
                    >(final(game).scores@)
                    &&& final(game).id == old(game).id
                    &&& final(game).players@ == old(game).players@
                    &&& final(game).rounds@ == old(game).rounds@
                    &&& final(game).current_round == old(game).current_round
                    &&& final(game).status == old(game).status
                    &&& final(game).config == old(game).config
                    &&& final(game).creator == old(game).creator
                    &&& final(game).total_escrow == old(game).total_escrow
                    &&& final(game).player_escrow@ == old(game).player_escrow@
                },
                Err(e) => {
                    &&& *final(game) == *old(game)
                    &&& trade_settle(*old(game), over_cap) == Err::<
                        Seq<(String, u128)>,
                        ContractError,
                    >(e)
                },
            },
    {
        let ghost g0 = *game;
        let ghost p0 = game.players@[0].0@;
        let ghost p1 = game.players@[1].0@;
        proof {
            assert(g0.player_ids()[0] == p0 && g0.player_ids()[1] == p1);
            assert(p0 != p1);
        }
        let n = game.rounds.len();
        let mut t0: u128 = 0;
        let mut t1: u128 = 0;
        let mut i: usize = 0;
        while i < n
            invariant
                0 <= i <= n,
                *game == g0,
                g0.wf(),
                g0.players@.len() == 2,
                p0 == g0.players@[0].0@,
                p1 == g0.players@[1].0@,
                p0 != p1,
                n == g0.rounds@.len(),
                total_credit(g0.rounds@.take(i as int), p0, trade_credit_fn(over_cap)) == Ok::<
                    int,
                    u64,
                >(t0 as int),
                total_credit(g0.rounds@.take(i as int), p1, trade_credit_fn(over_cap)) == Ok::<
                    int,
                    u64,
                >(t1 as int),
                t0 <= 100 * i,
                t1 <= 100 * i,
            decreases n - i,
        {
            let ghost rd = g0.rounds@[i as int];
            let nrev = game.rounds[i].reveals.len();
            if nrev >= 2 {
                let c0 = TradeGainsChoice::try_from(game.rounds[i].reveals[0].1.as_str());
                let c1 = TradeGainsChoice::try_from(game.rounds[i].reveals[1].1.as_str());
                let scorable = match (c0, c1) {
                    (Some(a), Some(b)) => {
                        if (a.0 as u64) + (b.0 as u64) > 10 {
                            matches!(over_cap, OverCapPolicy::NoReward)
                        } else {
                            true
                        }
                    },
                    _ => false,
                };
                if !scorable {
                    proof {
                        assert(trade_round_credit(rd, p0, over_cap) is Err);
                        assert(trade_round_credit(rd, p1, over_cap) is Err);
                        lemma_total_credit_step(g0.rounds@, p0, trade_credit_fn(over_cap), i as int);
                        lemma_total_credit_step(g0.rounds@, p1, trade_credit_fn(over_cap), i as int);
                        lemma_total_credit_err_persists(
                            g0.rounds@,
                            p0,
                            trade_credit_fn(over_cap),
                            i as int + 1,
                        );
                        lemma_total_credit_err_persists(
                            g0.rounds@,
                            p1,
                            trade_credit_fn(over_cap),
                            i as int + 1,
                        );
                    }
                    let round_id = game.rounds[i].id;
                    return Err(
                        ContractError::InvalidRevealChoice { game_id: game.id, round: round_id },
                    );
                }
                match (c0, c1) {
                    (Some(a), Some(b)) => {
                        proof {
                            lemma_reveal_is_player(g0, i as int, 0);
                            lemma_reveal_is_player(g0, i as int, 1);
                            lemma_two_player_id(g0, rd.reveals@[0].0@);
                            lemma_two_player_id(g0, rd.reveals@[1].0@);
                            assert(rd.wf());
                            assert(rd.reveal_ids()[0] == rd.reveals@[0].0@);
                            assert(rd.reveal_ids()[1] == rd.reveals@[1].0@);
                            assert(rd.reveals@[0].0@ != rd.reveals@[1].0@);
                        }
                        if (a.0 as u64) + (b.0 as u64) > 10 {
                            assert(trade_round_credit(rd, p0, over_cap) == Ok::<int, ()>(0));
                            assert(trade_round_credit(rd, p1, over_cap) == Ok::<int, ()>(0));
                        } else {
                            let ca: u128 = (a.0 as u128) * 10;
                            let cb: u128 = (b.0 as u128) * 10;
                            if game.rounds[i].reveals[0].0 == game.players[0].0 {
                                assert(trade_round_credit(rd, p0, over_cap) == Ok::<int, ()>(
                                    a.0 * 10,
                                ));
                                assert(trade_round_credit(rd, p1, over_cap) == Ok::<int, ()>(
                                    b.0 * 10,
                                ));
                                t0 = t0 + ca;
                                t1 = t1 + cb;
                            } else {
                                assert(trade_round_credit(rd, p0, over_cap) == Ok::<int, ()>(
                                    b.0 * 10,
                                ));
                                assert(trade_round_credit(rd, p1, over_cap) == Ok::<int, ()>(
                                    a.0 * 10,
                                ));
                                t0 = t0 + cb;
                                t1 = t1 + ca;
                            }
                        }
                    },
                    _ => {
                        assert(false);
                    },
                }
            } else if nrev == 1 {
                proof {
                    lemma_reveal_is_player(g0, i as int, 0);
                    lemma_two_player_id(g0, rd.reveals@[0].0@);
                }
                if game.rounds[i].reveals[0].0 == game.players[0].0 {
                    assert(trade_round_credit(rd, p0, over_cap) == Ok::<int, ()>(100));
                    assert(trade_round_credit(rd, p1, over_cap) == Ok::<int, ()>(0));
                    t0 = t0 + 100;
                } else {
                    assert(trade_round_credit(rd, p0, over_cap) == Ok::<int, ()>(0));
                    assert(trade_round_credit(rd, p1, over_cap) == Ok::<int, ()>(100));
                    t1 = t1 + 100;
                }
            } else {
                assert(trade_round_credit(rd, p0, over_cap) == Ok::<int, ()>(0));
                assert(trade_round_credit(rd, p1, over_cap) == Ok::<int, ()>(0));
            }
            proof {
                lemma_total_credit_step(g0.rounds@, p0, trade_credit_fn(over_cap), i as int);
                lemma_total_credit_step(g0.rounds@, p1, trade_credit_fn(over_cap), i as int);
            }
            i = i + 1;
        }
        proof {
            assert(g0.rounds@.take(n as int) =~= g0.rounds@);
        }
        let mut scores: Vec<(String, u128)> = Vec::new();
        scores.push((game.players[0].0.clone(), t0));
        scores.push((game.players[1].0.clone(), t1));
        game.scores = scores;
        proof {
            assert(game.scores@ =~= seq![(g0.players@[0].0, t0), (g0.players@[1].0, t1)]);
        }
        Ok(true)
    }
}

} // verus!
