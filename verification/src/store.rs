//! The game store: every game record of one engine instance, the monotonic
//! game-id counter, ownership and the leaderboard.
//!
//! Games are kept in creation order and keyed by their id, which equals
//! their position; the counter equals the number of games created, so ids
//! are unique and strictly increasing. Ended games are never deleted.

use vstd::prelude::*;

use crate::rewards::RewardRule;
use crate::state::{Game, GameMetadata};

verus! {

/// The durable state of one engine instance.
#[derive(Clone, Debug, PartialEq, Eq)]
pub struct GameStore {
    /// Identity that instantiated the engine; may end any game.
    pub owner: String,
    /// Further identities with the owner's privileges.
    pub admins: Vec<String>,
    /// Contract-wide settings.
    pub metadata: GameMetadata,
    /// The scoring rule games of this engine settle with.
    pub rule: RewardRule,
    /// The id the next created game receives; equals the games created.
    pub next_game_id: u64,
    /// Every game ever created, in creation order, keyed by id.
    pub games: Vec<Game>,
    /// Leaderboard rows: external tag, identity, cumulative score.
    pub leaderboard: Vec<(String, String, u128)>,
}

impl GameStore {
    /// The identities holding the admin role.
    pub open spec fn admin_ids(self) -> Seq<Seq<char>> {
        Seq::new(self.admins@.len(), |i: int| self.admins@[i]@)
    }

    /// Whether the identity is the owner or an admin.
    pub open spec fn is_admin_id(self, id: Seq<char>) -> bool {
        id == self.owner@ || self.admin_ids().contains(id)
    }

    /// Whether the store holds a game with this id.
    pub open spec fn has_game(self, game_id: u64) -> bool {
        game_id < self.games@.len()
    }

    /// The game with this id; meaningful under `has_game`.
    pub open spec fn game_at(self, game_id: u64) -> Game {
        self.games@[game_id as int]
    }

    /// Store invariant: the counter equals the number of games, each game
    /// is keyed by its position and is itself well-formed.
    pub open spec fn wf(self) -> bool {
        &&& self.next_game_id == self.games@.len()
        &&& forall|i: int| 0 <= i < self.games@.len() ==> (#[trigger] self.games@[i]).id == i
        &&& forall|i: int| 0 <= i < self.games@.len() ==> (#[trigger] self.games@[i]).wf()
    }

    /// A fresh store with no games, no admins and an empty leaderboard.
    pub fn new(owner: String, metadata: GameMetadata, rule: RewardRule) -> (s: GameStore)
        ensures
            s.owner == owner,
            s.metadata == metadata,
            s.rule == rule,
            s.admins@.len() == 0,
            s.next_game_id == 0,
            s.games@.len() == 0,
            s.leaderboard@.len() == 0,
            s.wf(),
    {
        GameStore {
            owner,
            admins: Vec::new(),
            metadata,
            rule,
            next_game_id: 0,
            games: Vec::new(),
            leaderboard: Vec::new(),
        }
    }

    /// Whether the caller holds the owner or admin role.
    pub fn is_admin(&self, caller: &String) -> (r: bool)
        ensures
            r == self.is_admin_id(caller@),
    {
        if *caller == self.owner {
            return true;
        }
        let n = self.admins.len();
        let mut i: usize = 0;
        while i < n
            invariant
                0 <= i <= n,
                n == self.admins@.len(),
                caller@ != self.owner@,
                forall|j: int| 0 <= j < i ==> self.admins@[j]@ != caller@,
            decreases n - i,
        {
            if self.admins[i] == *caller {
                assert(self.admin_ids()[i as int] == caller@);
                return true;
            }
            i = i + 1;
        }
        assert(forall|j: int| 0 <= j < self.admin_ids().len() ==> self.admin_ids()[j] != caller@);
        false
    }
}

/// The base engine: the lifecycle with the default no-op scoring rule.
pub struct BaseContract;

impl BaseContract {
    /// A fresh store that settles games with the no-op rule.
    pub fn instantiate(owner: String, metadata: GameMetadata) -> (s: GameStore)
        ensures
            s.owner == owner,
            s.metadata == metadata,
            s.rule is NoOp,
            s.admins@.len() == 0,
            s.next_game_id == 0,
            s.games@.len() == 0,
            s.leaderboard@.len() == 0,
            s.wf(),
    {
        GameStore::new(owner, metadata, RewardRule::NoOp)
    }
}

} // verus!
