//! The data model: games, rounds, their configuration and well-formedness.
//!
//! A `Game` moves forward through the statuses `Created -> Ready ->
//! InProgress -> RoundsFinished -> Ended` and never backward. While it is in
//! progress it holds one `GameRound` per opened round, numbered from 1;
//! `current_round` equals the number of rounds opened so far and never
//! exceeds the configured round limit.

use vstd::prelude::*;

verus! {

/// Phase of a game's lifecycle, ordered; see [`status_rank`].
#[derive(Clone, Copy, Debug, PartialEq, Eq, Structural)]
pub enum GameStatus {
    Created,
    Ready,
    InProgress,
    RoundsFinished,
    Ended,
}

/// Phase of a single round.
#[derive(Clone, Copy, Debug, PartialEq, Eq, Structural)]
pub enum GameRoundStatus {
    Pending,
    Committed,
    Revealed,
    Ended,
}

/// Immutable per-game settings, fixed at creation.
#[derive(Clone, Debug, PartialEq, Eq)]
pub struct GameConfig {
    /// Fee pulled into escrow from each joining player, if set.
    pub game_joining_fee: Option<u128>,
    /// Minimum deposit demanded of a player (currently not enforced).
    pub min_deposit: u128,
    /// Player capacity; `None` means the built-in cap of 255.
    pub max_players: Option<u8>,
    /// Player count at which the game becomes `Ready`.
    pub min_players: u8,
    /// Lifetime of a round in logical-clock ticks, if rounds expire at all.
    pub round_expiry_duration: Option<u64>,
    /// Number of rounds the game is played over.
    pub max_rounds: u8,
    /// Optional multiplier applied by game-specific scoring rules.
    pub round_reward_multiplier: Option<u64>,
    /// Whether play proceeds in fixed turn order.
    pub has_turns: bool,
    /// Whether reveals are skipped and commits are trusted directly.
    pub skip_reveal: bool,
    /// Whether the creator is entered as the first player at creation.
    pub auto_join_creator: bool,
}

/// One commit-reveal round of a game.
#[derive(Clone, Debug, PartialEq, Eq)]
pub struct GameRound {
    /// Round number, starting at 1.
    pub id: u64,
    /// Absolute clock tick at which the round expires, if any.
    pub expires_at: Option<u64>,
    /// One entry per committing player: identity, committed digest, optional amount.
    pub commits: Vec<(String, String, Option<u128>)>,
    /// One entry per revealing player: identity, revealed value.
    pub reveals: Vec<(String, String)>,
    /// Phase of this round.
    pub status: GameRoundStatus,
}

/// A game record: players, rounds, status, escrow and final scores.
#[derive(Clone, Debug, PartialEq, Eq)]
pub struct Game {
    /// Unique, monotonically assigned identifier.
    pub id: u64,
    /// Joined players in join order: identity and external tag.
    pub players: Vec<(String, String)>,
    /// Rounds opened so far, in order; round `i` (0-based) has id `i + 1`.
    pub rounds: Vec<GameRound>,
    /// Number of rounds opened so far; 0 before the game starts.
    pub current_round: u64,
    /// Lifecycle phase.
    pub status: GameStatus,
    /// Immutable settings.
    pub config: GameConfig,
    /// Identity of the creator.
    pub creator: String,
    /// Total funds held in escrow for this game.
    pub total_escrow: u128,
    /// Per-player escrow contributions, in collection order.
    pub player_escrow: Vec<(String, u128)>,
    /// Final per-player scores; written exactly once, at settlement.
    pub scores: Vec<(String, u128)>,
}

/// Contract-wide settings fixed when the engine is instantiated.
#[derive(Clone, Debug, PartialEq, Eq)]
pub struct GameMetadata {
    /// Base URL of the hosting service.
    pub base_url: String,
    /// URL of the artwork shown for games of this contract.
    pub image_url: String,
    /// Identity of the external token ledger that holds the escrowed funds.
    pub token_contract: String,
}

/// Rank of a status along the forward-only lifecycle order.
pub open spec fn status_rank(s: GameStatus) -> int {
    match s {
        GameStatus::Created => 0,
        GameStatus::Ready => 1,
        GameStatus::InProgress => 2,
        GameStatus::RoundsFinished => 3,
        GameStatus::Ended => 4,
    }
}

/// Sum of the amounts recorded in a per-player escrow sequence.
pub open spec fn escrow_sum(s: Seq<(String, u128)>) -> int
    decreases s.len(),
{
    if s.len() == 0 {
        0
    } else {
        escrow_sum(s.drop_last()) + s.last().1
    }
}

impl GameRound {
    /// The identities that have committed, in commit order.
    pub open spec fn commit_ids(self) -> Seq<Seq<char>> {
        Seq::new(self.commits@.len(), |i: int| self.commits@[i].0@)
    }

    /// The identities that have revealed, in reveal order.
    pub open spec fn reveal_ids(self) -> Seq<Seq<char>> {
        Seq::new(self.reveals@.len(), |i: int| self.reveals@[i].0@)
    }

    /// Whether the identity has a commit in this round.
    pub open spec fn has_commit_by(self, id: Seq<char>) -> bool {
        self.commit_ids().contains(id)
    }

    /// Whether the identity has a reveal in this round.
    pub open spec fn has_reveal_by(self, id: Seq<char>) -> bool {
        self.reveal_ids().contains(id)
    }

    /// Index of the identity's commit; meaningful under `has_commit_by`.
    pub open spec fn commit_index_of(self, id: Seq<char>) -> int {
        choose|i: int| 0 <= i < self.commits@.len() && self.commits@[i].0@ == id
    }

    /// The digest the identity committed; meaningful under `has_commit_by`.
    pub open spec fn commit_digest_of(self, id: Seq<char>) -> Seq<char> {
        self.commits@[self.commit_index_of(id)].1@
    }

    /// The round's expiry tick, or the largest tick when it never expires.
    pub open spec fn expiry_or_max(self) -> int {
        match self.expires_at {
            Some(e) => e as int,
            None => u64::MAX as int,
        }
    }

    /// Round bookkeeping invariant: at most one commit and one reveal per
    /// identity, and every reveal corresponds to a prior commit.
    pub open spec fn wf(self) -> bool {
        &&& self.commit_ids().no_duplicates()
        &&& self.reveal_ids().no_duplicates()
        &&& forall|i: int|
            0 <= i < self.reveals@.len() ==> self.has_commit_by(#[trigger] self.reveals@[i].0@)
    }
}

impl Game {
    /// The identities of the joined players, in join order.
    pub open spec fn player_ids(self) -> Seq<Seq<char>> {
        Seq::new(self.players@.len(), |i: int| self.players@[i].0@)
    }

    /// Whether the identity has joined this game.
    pub open spec fn has_player(self, id: Seq<char>) -> bool {
        self.player_ids().contains(id)
    }

    /// Player capacity: the configured bound, or 255 when none is set.
    pub open spec fn max_players_eff(self) -> int {
        match self.config.max_players {
            Some(m) => m as int,
            None => u8::MAX as int,
        }
    }

    /// Largest round number this game can open. A configured `max_rounds`
    /// of 0 still admits the one round that starting the game opens.
    pub open spec fn round_limit(self) -> int {
        if self.config.max_rounds == 0 {
            1
        } else {
            self.config.max_rounds as int
        }
    }

    /// Game invariant: distinct players within capacity, rounds numbered
    /// 1 upward with `current_round` equal to the number of opened rounds,
    /// commits only by players, escrow consistent, scores only once ended.
    pub open spec fn wf(self) -> bool {
        &&& self.player_ids().no_duplicates()
        &&& self.players@.len() <= self.max_players_eff()
        &&& self.rounds@.len() == self.current_round
        &&& self.current_round <= self.round_limit()
        &&& (self.status is Created || self.status is Ready) ==> self.current_round == 0
        &&& (self.status is InProgress || self.status is RoundsFinished) ==> self.current_round
            >= 1
        &&& forall|i: int| 0 <= i < self.rounds@.len() ==> (#[trigger] self.rounds@[i]).id == i + 1
        &&& forall|i: int| 0 <= i < self.rounds@.len() ==> (#[trigger] self.rounds@[i]).wf()
        &&& forall|i: int, j: int|
            0 <= i < self.rounds@.len() && 0 <= j < self.rounds@[i].commits@.len() ==> self.has_player(
                #[trigger] self.rounds@[i].commits@[j].0@,
            )
        &&& self.total_escrow == escrow_sum(self.player_escrow@)
        &&& !(self.status is Ended) ==> self.scores@.len() == 0
    }
}

/// In a well-formed game every reveal was made by a joined player: the
/// reveal corresponds to a commit, and commits are made by players only.
pub proof fn lemma_reveal_is_player(g: Game, i: int, k: int)
    requires
        g.wf(),
        0 <= i < g.rounds@.len(),
        0 <= k < g.rounds@[i].reveals@.len(),
    ensures
        g.has_player(g.rounds@[i].reveals@[k].0@),
{
    let r = g.rounds@[i];
    assert(r.wf());
    let id = r.reveals@[k].0@;
    assert(r.has_commit_by(id));
    let j = choose|j: int| 0 <= j < r.commit_ids().len() && r.commit_ids()[j] == id;
    assert(r.commits@[j].0@ == id);
    assert(g.has_player(g.rounds@[i].commits@[j].0@));
}

/// In a two-player game a joined identity is the first or the second player.
pub proof fn lemma_two_player_id(g: Game, id: Seq<char>)
    requires
        g.has_player(id),
        g.players@.len() == 2,
    ensures
        id == g.players@[0].0@ || id == g.players@[1].0@,
{
    let k = choose|k: int| 0 <= k < g.player_ids().len() && g.player_ids()[k] == id;
    assert(g.players@[k].0@ == id);
}

/// What a freshly opened round looks like: the given number and expiry,
/// no commits, no reveals, `Pending`.
pub open spec fn is_fresh_round(r: GameRound, id: u64, expires_at: Option<u64>) -> bool {
    &&& r.id == id
    &&& r.expires_at == expires_at
    &&& r.commits@.len() == 0
    &&& r.reveals@.len() == 0
    &&& r.status is Pending
}

/// Appending a contribution grows the escrow sum by exactly its amount.
pub proof fn lemma_escrow_sum_push(s: Seq<(String, u128)>, p: (String, u128))
    ensures
        escrow_sum(s.push(p)) == escrow_sum(s) + p.1,
{
    assert(s.push(p).drop_last() =~= s);
}

/// What a freshly created game looks like: empty except for the creator
/// auto-joined as first player when the configuration asks for that and
/// capacity allows.
pub open spec fn is_new_game(g: Game, id: u64, config: GameConfig, creator: String) -> bool {
    &&& g.id == id
    &&& g.config == config
    &&& g.creator == creator
    &&& g.rounds@.len() == 0
    &&& g.current_round == 0
    &&& g.total_escrow == 0
    &&& g.player_escrow@.len() == 0
    &&& g.scores@.len() == 0
    &&& if config.auto_join_creator && g.max_players_eff() >= 1 {
        &&& g.players@.len() == 1
        &&& g.players@[0].0 == creator
        &&& g.status == (if config.min_players <= 1 {
            GameStatus::Ready
        } else {
            GameStatus::Created
        })
    } else {
        g.players@.len() == 0 && g.status is Created
    }
}

impl GameRound {
    /// A fresh round in the `Pending` phase with no commits or reveals.
    pub fn new(id: u64, expires_at: Option<u64>) -> (r: GameRound)
        ensures
            r.id == id,
            r.expires_at == expires_at,
            r.commits@.len() == 0,
            r.reveals@.len() == 0,
            r.status is Pending,
            is_fresh_round(r, id, expires_at),
            r.wf(),
    {
        GameRound {
            id,
            expires_at,
            commits: Vec::new(),
            reveals: Vec::new(),
            status: GameRoundStatus::Pending,
        }
    }
}

impl Game {
    /// A fresh game in the `Created` phase. When the configuration asks for
    /// it and capacity allows, the creator is entered as the first player
    /// with an empty tag, which may already make the game `Ready`.
    pub fn new(id: u64, config: GameConfig, creator: String) -> (g: Game)
        ensures
            g.id == id,
            g.config == config,
            g.creator == creator,
            g.rounds@.len() == 0,
            g.current_round == 0,
            g.total_escrow == 0,
            g.player_escrow@.len() == 0,
            g.scores@.len() == 0,
            if config.auto_join_creator && g.max_players_eff() >= 1 {
                &&& g.players@.len() == 1
                &&& g.players@[0].0 == creator
                &&& g.status == (if config.min_players <= 1 {
                    GameStatus::Ready
                } else {
                    GameStatus::Created
                })
            } else {
                g.players@.len() == 0 && g.status is Created
            },
            is_new_game(g, id, config, creator),
            g.wf(),
    {
        let auto_join = config.auto_join_creator
            && match config.max_players {
            Some(m) => m >= 1,
            None => true,
        };
        let mut players: Vec<(String, String)> = Vec::new();
        let mut status = GameStatus::Created;
        if auto_join {
            players.push((creator.clone(), String::new()));
            if config.min_players <= 1 {
                status = GameStatus::Ready;
            }
        }
        let g = Game {
            id,
            players,
            rounds: Vec::new(),
            current_round: 0,
            status,
            config,
            creator,
            total_escrow: 0,
            player_escrow: Vec::new(),
            scores: Vec::new(),
        };
        g
    }
}

impl Default for GameConfig {
    /// The stock configuration: five players at most, two to start,
    /// three rounds that expire 100 ticks after they open, no joining fee.
    fn default() -> (c: GameConfig)
        ensures
            c.game_joining_fee is None,
            c.min_deposit == 0,
            c.max_players == Some(5u8),
            c.min_players == 2,
            c.round_expiry_duration == Some(100u64),
            c.max_rounds == 3,
            c.round_reward_multiplier is None,
            !c.has_turns,
            !c.skip_reveal,
            !c.auto_join_creator,
    {
        GameConfig {
            game_joining_fee: None,
            min_deposit: 0,
            max_players: Some(5),
            min_players: 2,
            round_expiry_duration: Some(100),
            max_rounds: 3,
            round_reward_multiplier: None,
            has_turns: false,
            skip_reveal: false,
            auto_join_creator: false,
        }
    }
}

impl GameConfig {
    /// The stock configuration with a joining fee set.
    pub fn default_with_join_fee(fee: u128) -> (c: GameConfig)
        ensures
            c == (GameConfig { game_joining_fee: Some(fee), ..GameConfig::spec_default() }),
    {
        let mut c = GameConfig::default();
        c.game_joining_fee = Some(fee);
        c
    }

    /// The stock configuration, as a specification value.
    pub open spec fn spec_default() -> GameConfig {
        GameConfig {
            game_joining_fee: None,
            min_deposit: 0,
            max_players: Some(5u8),
            min_players: 2,
            round_expiry_duration: Some(100u64),
            max_rounds: 3,
            round_reward_multiplier: None,
            has_turns: false,
            skip_reveal: false,
            auto_join_creator: false,
        }
    }
}

} // verus!
