//! Engine-wide properties, stated and proved once over the specifications
//! that the operations' own contracts use.

use vstd::prelude::*;
use vstd::seq_lib::seq_to_set_is_finite;
use vstd::set_lib::lemma_len_subset;

use crate::commitment::commit_digest;
use crate::error::ContractError;
use crate::execute::{commit_error, commit_updates, reveal_error};
use crate::state::Game;
use crate::store::GameStore;

verus! {

/// A well-formed game never holds more players than its capacity allows.
pub proof fn lemma_player_capacity(g: Game)
    requires
        g.wf(),
    ensures
        g.players@.len() <= g.max_players_eff(),
        g.players@.len() <= 255,
{
}

/// A sequence of distinct identities drawn from another sequence is no
/// longer than that sequence.
proof fn lemma_distinct_ids_at_most(a: Seq<Seq<char>>, b: Seq<Seq<char>>)
    requires
        a.no_duplicates(),
        forall|i: int| 0 <= i < a.len() ==> b.contains(#[trigger] a[i]),
    ensures
        a.len() <= b.len(),
{
    a.unique_seq_to_set();
    b.lemma_cardinality_of_set();
    broadcast use seq_to_set_is_finite;

    assert(a.to_set().subset_of(b.to_set())) by {
        assert forall|x: Seq<char>| a.to_set().contains(x) implies b.to_set().contains(x) by {
            assert(a.contains(x));
            assert(b.contains(x));
        };
    }
    lemma_len_subset(a.to_set(), b.to_set());
}

/// In every round of a well-formed game, the reveals never outnumber the
/// commits, and the commits never outnumber the players.
pub proof fn lemma_round_counts(g: Game, i: int)
    requires
        g.wf(),
        0 <= i < g.rounds@.len(),
    ensures
        g.rounds@[i].reveals@.len() <= g.rounds@[i].commits@.len(),
        g.rounds@[i].commits@.len() <= g.players@.len(),
{
    let r = g.rounds@[i];
    assert(r.wf());
    assert forall|k: int| 0 <= k < r.reveal_ids().len() implies r.commit_ids().contains(
        #[trigger] r.reveal_ids()[k],
    ) by {
        assert(r.has_commit_by(r.reveals@[k].0@));
    };
    lemma_distinct_ids_at_most(r.reveal_ids(), r.commit_ids());
    assert forall|k: int| 0 <= k < r.commit_ids().len() implies g.player_ids().contains(
        #[trigger] r.commit_ids()[k],
    ) by {
        assert(g.has_player(g.rounds@[i].commits@[k].0@));
    };
    lemma_distinct_ids_at_most(r.commit_ids(), g.player_ids());
}

/// Round trip of the commit-reveal protocol: a player who committed the
/// digest of a value and nonce, and then reveals that same value and nonce
/// while the round accepts reveals, is always accepted — the engine finds
/// the commit, recomputes the same digest, and the two match.
pub proof fn lemma_commit_then_reveal(
    s0: GameStore,
    s1: GameStore,
    caller: String,
    game_id: u64,
    value: String,
    digest: String,
    amount: Option<u128>,
    nonce: u64,
    t_commit: u64,
    t_reveal: u64,
)
    requires
        s0.wf(),
        s1.wf(),
        digest@ == commit_digest(value@, nonce),
        commit_error(s0, caller, game_id, t_commit) is None,
        commit_updates(s0, s1, caller, game_id, digest, amount),
        ({
            let g = s1.game_at(game_id);
            let r = g.rounds@[g.current_round - 1];
            r.status is Committed || r.expiry_or_max() <= t_reveal
        }),
    ensures
        reveal_error(s1, caller, game_id, value, nonce, t_reveal) is None,
{
    let g0 = s0.game_at(game_id);
    let g1 = s1.game_at(game_id);
    let ri = g0.current_round - 1;
    let r0 = g0.rounds@[ri];
    let r1 = g1.rounds@[ri];
    assert(g0.wf());
    assert(r0.wf());
    assert(g1.wf());
    assert(r1.wf());
    if g1.config.skip_reveal {
    } else {
        // the caller had no reveal before the commit, and the commit step
        // leaves the reveals unchanged
        assert(!r0.has_commit_by(caller@));
        assert(!r1.has_reveal_by(caller@)) by {
            if r1.has_reveal_by(caller@) {
                let k = choose|k: int|
                    0 <= k < r1.reveal_ids().len() && r1.reveal_ids()[k] == caller@;
                assert(r1.reveals@[k].0@ == caller@);
                assert(r0.reveals@[k].0@ == caller@);
                assert(r0.has_commit_by(r0.reveals@[k].0@));
            }
        }
        // the commit is found, and it holds exactly the recomputed digest
        let n0 = r0.commits@.len() as int;
        assert(r1.commits@ == r0.commits@.push((caller, digest, amount)));
        assert(r1.commits@[n0].0@ == caller@);
        assert(r1.commit_ids()[n0] == caller@);
        assert(r1.has_commit_by(caller@));
        let k = r1.commit_index_of(caller@);
        assert(0 <= k < r1.commits@.len() && r1.commits@[k].0@ == caller@);
        assert(r1.commit_ids()[k] == caller@);
        assert(k == n0) by {
            if k != n0 {
                assert(r0.commits@[k].0@ == caller@);
                assert(r0.commit_ids()[k] == caller@);
                assert(r0.has_commit_by(caller@));
            }
        }
        assert(r1.commit_digest_of(caller@) == digest@);
    }
}

/// The other direction of the round trip: a reveal whose recomputed digest
/// differs from the stored commit is always refused with a reveal-mismatch
/// error, and with that error alone.
pub proof fn lemma_reveal_mismatch(
    s: GameStore,
    caller: String,
    game_id: u64,
    value: String,
    nonce: u64,
    now: u64,
)
    requires
        s.wf(),
        s.has_game(game_id),
        !s.game_at(game_id).config.skip_reveal,
        s.game_at(game_id).status is InProgress,
        ({
            let g = s.game_at(game_id);
            let r = g.rounds@[g.current_round - 1];
            &&& r.status is Committed || r.expiry_or_max() <= now
            &&& !r.has_reveal_by(caller@)
            &&& !r.has_commit_by(caller@) || r.commit_digest_of(caller@) != commit_digest(
                value@,
                nonce,
            )
        }),
    ensures
        reveal_error(s, caller, game_id, value, nonce, now) == Some(
            ContractError::RoundRevealMismatch {
                game_id,
                round: s.game_at(game_id).current_round,
            },
        ),
{
}

} // verus!
