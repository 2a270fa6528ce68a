//! The pluggable scoring rule that settles a finished game.
//!
//! The engine is configured with one rule when it is instantiated. The
//! default rule is a no-op that leaves the score mapping empty; the others
//! are the concrete two-player rules of the games built on the engine.

use vstd::prelude::*;

use crate::error::ContractError;
use crate::state::{Game, GameRound};

verus! {

/// What a trade-gains game does in a round whose combined choices exceed
/// the cap: silently credit nothing, or refuse to settle the game at all.
#[derive(Clone, Copy, Debug, PartialEq, Eq, Structural)]
pub enum OverCapPolicy {
    /// Neither player is credited for the round.
    NoReward,
    /// Settlement fails with an invalid-choice error for the round.
    Foul,
}

/// The scoring rule a game contract plugs into the engine.
#[derive(Clone, Copy, Debug, PartialEq, Eq, Structural)]
pub enum RewardRule {
    /// Leave the scores empty; settlement always succeeds.
    NoOp,
    /// Rock beats scissors, scissors beats paper, paper beats rock.
    RockPaperScissors,
    /// Mutual cooperation pays both, unilateral defection pays the defector.
    CooperationDilemma,
    /// Each player is credited ten times their chosen stake, unless the
    /// stakes together exceed the cap.
    TradeGains { over_cap: OverCapPolicy },
    /// The higher revealed score wins; a tie splits the credit.
    Asteroid,
}

/// The identity's accumulated credit over a sequence of rounds, given a
/// per-round credit rule, or the number of the first round the rule cannot
/// score.
pub open spec fn total_credit(
    rounds: Seq<GameRound>,
    id: Seq<char>,
    credit: spec_fn(GameRound, Seq<char>) -> Result<int, ()>,
) -> Result<int, u64>
    decreases rounds.len(),
{
    if rounds.len() == 0 {
        Ok(0)
    } else {
        match total_credit(rounds.drop_last(), id, credit) {
            Err(e) => Err(e),
            Ok(t) => match credit(rounds.last(), id) {
                Err(_) => Err(rounds.last().id),
                Ok(c) => Ok(t + c),
            },
        }
    }
}

/// Accumulating one more round extends the total by that round's credit.
pub proof fn lemma_total_credit_step(
    rounds: Seq<GameRound>,
    id: Seq<char>,
    credit: spec_fn(GameRound, Seq<char>) -> Result<int, ()>,
    m: int,
)
    requires
        0 <= m < rounds.len(),
    ensures
        total_credit(rounds.take(m + 1), id, credit) == match total_credit(
            rounds.take(m),
            id,
            credit,
        ) {
            Err(e) => Err::<int, u64>(e),
            Ok(t) => match credit(rounds[m], id) {
                Err(_) => Err::<int, u64>(rounds[m].id),
                Ok(c) => Ok::<int, u64>(t + c),
            },
        },
{
    assert(rounds.take(m + 1).drop_last() =~= rounds.take(m));
    assert(rounds.take(m + 1).last() == rounds[m]);
}

/// Once a prefix of the rounds cannot be scored, the whole sequence cannot,
/// and for the same round.
pub proof fn lemma_total_credit_err_persists(
    rounds: Seq<GameRound>,
    id: Seq<char>,
    credit: spec_fn(GameRound, Seq<char>) -> Result<int, ()>,
    m: int,
)
    requires
        0 <= m <= rounds.len(),
        total_credit(rounds.take(m), id, credit) is Err,
    ensures
        total_credit(rounds, id, credit) == total_credit(rounds.take(m), id, credit),
    decreases rounds.len() - m,
{
    if m < rounds.len() {
        lemma_total_credit_step(rounds, id, credit, m);
        lemma_total_credit_err_persists(rounds, id, credit, m + 1);
    } else {
        assert(rounds.take(m) =~= rounds);
    }
}

/// What a rule asks of a game before it can settle it: the concrete rules
/// are two-player, and the asteroid rule scores the first round.
pub open spec fn rule_applicable(rule: RewardRule, g: Game) -> bool {
    match rule {
        RewardRule::NoOp => true,
        RewardRule::Asteroid => g.players@.len() == 2 && g.rounds@.len() >= 1,
        _ => g.players@.len() == 2,
    }
}

/// What settling the game under the rule yields: the score mapping to be
/// written, or the error that refuses settlement. The no-op rule keeps the
/// scores as they are.
pub open spec fn settle_result(g: Game, rule: RewardRule) -> Result<
    Seq<(String, u128)>,
    ContractError,
> {
    match rule {
        RewardRule::NoOp => Ok(g.scores@),
        RewardRule::RockPaperScissors => crate::rock_paper_scissors::rps_settle(g),
        RewardRule::CooperationDilemma => crate::dilemma::dilemma_settle(g),
        RewardRule::TradeGains { over_cap } => crate::trade::trade_settle(g, over_cap),
        RewardRule::Asteroid => crate::asteroid::asteroid_settle(g),
    }
}

/// Settle the game under the rule: write the rule's score mapping into the
/// game's scores, overwriting rather than merging, or fail and leave the
/// game unchanged. The default rule is a no-op that always succeeds.
pub fn calculate_rewards_and_winners(game: &mut Game, rule: RewardRule) -> (r: Result<
    bool,
    ContractError,
>)
    requires
        old(game).wf(),
        rule_applicable(rule, *old(game)),
    ensures
        match r {
            Ok(_) => {
                &&& settle_result(*old(game), rule) == Ok::<Seq<(String, u128)>, ContractError>(
                    final(game).scores@,
                )
                &&& final(game).id == old(game).id
                &&& final(game).players@ == old(game).players@
                &&& final(game).rounds@ == old(game).rounds@
                &&& final(game).current_round == old(game).current_round
                &&& final(game).status == old(game).status
                &&& final(game).config == old(game).config
                &&& final(game).creator == old(game).creator
                &&& final(game).total_escrow == old(game).total_escrow
                &&& final(game).player_escrow@ == old(game).player_escrow@
            },
            Err(e) => {
                &&& *final(game) == *old(game)
                &&& settle_result(*old(game), rule) == Err::<Seq<(String, u128)>, ContractError>(e)
            },
        },
{
    match rule {
        RewardRule::NoOp => Ok(true),
        RewardRule::RockPaperScissors => crate::rock_paper_scissors::RockPaperScissors::calculate_rewards_and_winners(
            game,
        ),
        RewardRule::CooperationDilemma => crate::dilemma::CooperationDilemma::calculate_rewards_and_winners(
            game,
        ),
        RewardRule::TradeGains { over_cap } => crate::trade::TradeGains::calculate_rewards_and_winners(
            game,
            over_cap,
        ),
        RewardRule::Asteroid => crate::asteroid::Asteroid::calculate_rewards_and_winners(game),
    }
}

} // verus!
