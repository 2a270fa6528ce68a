use game_lifecycle::commitment::hash_commitment;
use game_lifecycle::decimal::parse_u64;
use game_lifecycle::error::ContractError;
use game_lifecycle::execute::{
    commit_round, commit_round_as_admin, create_game, end_game, join_game, reveal_round,
    start_game,
};
use game_lifecycle::lifecycle::{execute, query, QueryReply};
use game_lifecycle::msg::{ExecuteMsg, ExecuteReply, QueryMsg};
use game_lifecycle::query::{get_game_by_id, get_game_status, get_games_count};
use game_lifecycle::rewards::RewardRule;
use game_lifecycle::state::{GameConfig, GameMetadata, GameStatus};
use game_lifecycle::store::{BaseContract, GameStore};
use sha2::Digest;

fn base_store() -> GameStore {
    BaseContract::instantiate(
        "owner".to_string(),
        GameMetadata {
            base_url: "https://example.com".to_string(),
            image_url: "https://example.com/image.png".to_string(),
            token_contract: "p2e_token".to_string(),
        },
    )
}

fn asteroid_store() -> GameStore {
    GameStore::new(
        "owner".to_string(),
        GameMetadata {
            base_url: "https://example.com".to_string(),
            image_url: "https://example.com/image.png".to_string(),
            token_contract: "p2e_token".to_string(),
        },
        RewardRule::Asteroid,
    )
}

fn sha_hex(value: &str, nonce: u64) -> String {
    let mut hasher = sha2::Sha256::new();
    hasher.update(value.as_bytes());
    hasher.update(nonce.to_be_bytes());
    hex::encode(hasher.finalize())
}

/// Two-player game in progress, both committed the given values.
fn started_pair(
    store: &mut GameStore,
    max_rounds: u8,
    now: u64,
    v1: &str,
    v2: &str,
    nonce: u64,
) -> u64 {
    let p1 = "player_1".to_string();
    let p2 = "player_2".to_string();
    let mut config = GameConfig::default();
    config.max_players = Some(2);
    config.max_rounds = max_rounds;
    let game_id = create_game(store, &p1, config);
    join_game(store, &p1, game_id, p1.clone()).unwrap();
    join_game(store, &p2, game_id, p2.clone()).unwrap();
    start_game(store, &p1, game_id, now).unwrap();
    commit_round(store, &p1, game_id, sha_hex(v1, nonce), None, now).unwrap();
    commit_round(store, &p2, game_id, sha_hex(v2, nonce), None, now).unwrap();
    game_id
}

#[test]
fn commitment_digest_matches_reference_encoding() {
    // the library's digest is sha256(value bytes || big-endian nonce), hex
    let d = hash_commitment("rock", 123);
    assert_eq!(d, sha_hex("rock", 123));
    assert_eq!(d.len(), 64);
    assert_ne!(hash_commitment("rock", 124), d);
    assert_ne!(hash_commitment("paper", 123), d);
}

#[test]
fn query_get_game_is_idempotent() {
    let mut store = base_store();
    let p1 = "player_1".to_string();
    let game_id = create_game(&mut store, &p1, GameConfig::default());

    let first = get_game_by_id(&store, game_id);
    let second = get_game_by_id(&store, game_id);
    assert_eq!(first, second);

    let missing_first = get_game_by_id(&store, 42);
    let missing_second = get_game_by_id(&store, 42);
    assert_eq!(missing_first, missing_second);
}

#[test]
fn scenario_full_game_reaches_ended_with_scores() {
    let mut store = GameStore::new(
        "owner".to_string(),
        GameMetadata {
            base_url: "https://example.com".to_string(),
            image_url: "https://example.com/image.png".to_string(),
            token_contract: "p2e_token".to_string(),
        },
        RewardRule::RockPaperScissors,
    );
    let p1 = "player_1".to_string();
    let p2 = "player_2".to_string();
    let now: u64 = 50;
    let nonce = 99u64;
    let game_id = started_pair(&mut store, 1, now, "rock", "paper", nonce);

    reveal_round(&mut store, &p1, game_id, "rock".to_string(), nonce, now).unwrap();
    reveal_round(&mut store, &p2, game_id, "paper".to_string(), nonce, now).unwrap();

    assert_eq!(get_game_status(&store, game_id), Ok(GameStatus::RoundsFinished));

    let payouts = end_game(&mut store, &p1, game_id).unwrap();
    assert!(!payouts.is_empty());
    assert_eq!(get_game_status(&store, game_id), Ok(GameStatus::Ended));
    let game = get_game_by_id(&store, game_id).unwrap();
    assert!(!game.scores.is_empty());
}

#[test]
fn scenario_third_join_fails_with_full() {
    let mut store = base_store();
    let p1 = "player_1".to_string();
    let p2 = "player_2".to_string();
    let p3 = "player_3".to_string();
    let mut config = GameConfig::default();
    config.max_players = Some(2);
    // keep the game in the joining phase when it fills, so that capacity is
    // what refuses the third join
    config.min_players = 3;
    let game_id = create_game(&mut store, &p1, config);
    join_game(&mut store, &p1, game_id, p1.clone()).unwrap();
    join_game(&mut store, &p2, game_id, p2.clone()).unwrap();

    let res = join_game(&mut store, &p3, game_id, p3.clone());
    assert_eq!(res, Err(ContractError::GameFull { game_id }));
}

#[test]
fn scenario_reveal_with_wrong_nonce_fails_and_changes_nothing() {
    let mut store = base_store();
    let p1 = "player_1".to_string();
    let now: u64 = 50;
    let game_id = started_pair(&mut store, 1, now, "rock", "paper", 99);

    let res = reveal_round(&mut store, &p1, game_id, "rock".to_string(), 100, now);
    assert_eq!(
        res,
        Err(ContractError::RoundRevealMismatch { game_id, round: 1 })
    );
    let game = get_game_by_id(&store, game_id).unwrap();
    assert!(game.rounds[0].reveals.is_empty());
}

#[test]
fn scenario_commit_after_expiry_fails_with_expired() {
    let mut store = base_store();
    let p1 = "player_1".to_string();
    let p2 = "player_2".to_string();
    let mut config = GameConfig::default();
    config.max_players = Some(2);
    config.max_rounds = 1;
    config.round_expiry_duration = Some(10);
    let game_id = create_game(&mut store, &p1, config);
    join_game(&mut store, &p1, game_id, p1.clone()).unwrap();
    join_game(&mut store, &p2, game_id, p2.clone()).unwrap();
    start_game(&mut store, &p1, game_id, 100).unwrap();

    // the round expires at tick 110; committing at that tick is refused
    let res = commit_round(&mut store, &p1, game_id, sha_hex("rock", 1), None, 110);
    assert_eq!(res, Err(ContractError::RoundExpired { game_id, round: 1 }));
}

#[test]
fn scenario_end_game_authorization() {
    let mut store = base_store();
    let p1 = "player_1".to_string();
    let p2 = "player_2".to_string();
    let owner = "owner".to_string();
    let now: u64 = 50;
    let mut config = GameConfig::default();
    config.max_players = Some(2);
    config.max_rounds = 2;
    let game_id = create_game(&mut store, &p1, config);
    join_game(&mut store, &p1, game_id, p1.clone()).unwrap();
    join_game(&mut store, &p2, game_id, p2.clone()).unwrap();
    start_game(&mut store, &p1, game_id, now).unwrap();
    assert_eq!(get_game_status(&store, game_id), Ok(GameStatus::InProgress));

    // a non-admin cannot close a game whose rounds are not finished
    let res = end_game(&mut store, &p1, game_id);
    assert!(matches!(res, Err(ContractError::CannotCloseGame { .. })));
    assert_eq!(get_game_status(&store, game_id), Ok(GameStatus::InProgress));

    // the owner can close it in any phase
    end_game(&mut store, &owner, game_id).unwrap();
    assert_eq!(get_game_status(&store, game_id), Ok(GameStatus::Ended));
}

#[test]
fn commit_round_as_admin_requires_the_role() {
    let mut store = base_store();
    let p1 = "player_1".to_string();
    let p2 = "player_2".to_string();
    let owner = "owner".to_string();
    let now: u64 = 50;
    let mut config = GameConfig::default();
    config.max_players = Some(2);
    config.max_rounds = 1;
    let game_id = create_game(&mut store, &p1, config);
    join_game(&mut store, &p1, game_id, p1.clone()).unwrap();
    join_game(&mut store, &p2, game_id, p2.clone()).unwrap();
    start_game(&mut store, &p1, game_id, now).unwrap();

    let res = commit_round_as_admin(
        &mut store,
        &p2,
        game_id,
        &p1,
        sha_hex("rock", 5),
        None,
        now,
    );
    assert_eq!(res, Err(ContractError::Unauthorized {}));

    commit_round_as_admin(&mut store, &owner, game_id, &p1, sha_hex("rock", 5), None, now)
        .unwrap();
    let game = get_game_by_id(&store, game_id).unwrap();
    assert_eq!(game.rounds[0].commits.len(), 1);
    assert_eq!(game.rounds[0].commits[0].0, "player_1".to_string());
}

#[test]
fn skip_reveal_mode_accepts_any_reveal_without_state_change() {
    let mut store = base_store();
    let p1 = "player_1".to_string();
    let p2 = "player_2".to_string();
    let now: u64 = 50;
    let mut config = GameConfig::default();
    config.max_players = Some(2);
    config.max_rounds = 1;
    config.skip_reveal = true;
    let game_id = create_game(&mut store, &p1, config);
    join_game(&mut store, &p1, game_id, p1.clone()).unwrap();
    join_game(&mut store, &p2, game_id, p2.clone()).unwrap();
    start_game(&mut store, &p1, game_id, now).unwrap();

    let before = get_game_by_id(&store, game_id).unwrap().clone();
    reveal_round(&mut store, &p1, game_id, "anything".to_string(), 1, now).unwrap();
    let after = get_game_by_id(&store, game_id).unwrap();
    assert_eq!(&before, after);
}

#[test]
fn duplicate_submissions_are_rejected() {
    let mut store = base_store();
    let p1 = "player_1".to_string();
    let p2 = "player_2".to_string();
    let now: u64 = 50;
    let game_id = started_pair(&mut store, 2, now, "rock", "paper", 3);

    // a second commit by the same player
    let res = commit_round(&mut store, &p1, game_id, sha_hex("paper", 3), None, now);
    assert_eq!(
        res,
        Err(ContractError::RoundAlreadyCommitted { game_id, player: "player_1".to_string() })
    );

    // joining twice
    let g2 = create_game(&mut store, &p1, GameConfig::default());
    join_game(&mut store, &p1, g2, p1.clone()).unwrap();
    let res = join_game(&mut store, &p1, g2, p1.clone());
    assert_eq!(
        res,
        Err(ContractError::PlayerAlreadyJoined { game_id: g2, player: "player_1".to_string() })
    );

    // a second reveal by the same player
    reveal_round(&mut store, &p1, game_id, "rock".to_string(), 3, now).unwrap();
    let res = reveal_round(&mut store, &p1, game_id, "rock".to_string(), 3, now);
    assert_eq!(
        res,
        Err(ContractError::RoundAlreadyCommitted { game_id, player: "player_1".to_string() })
    );

    // the second player is still accepted
    reveal_round(&mut store, &p2, game_id, "paper".to_string(), 3, now).unwrap();
}

#[test]
fn asteroid_higher_score_wins_and_ties_split() {
    let mut store = asteroid_store();
    let p1 = "player_1".to_string();
    let p2 = "player_2".to_string();
    let now: u64 = 50;
    let game_id = started_pair(&mut store, 1, now, "7", "3", 5);
    reveal_round(&mut store, &p1, game_id, "7".to_string(), 5, now).unwrap();
    reveal_round(&mut store, &p2, game_id, "3".to_string(), 5, now).unwrap();
    let payouts = end_game(&mut store, &p1, game_id).unwrap();
    assert_eq!(
        payouts,
        vec![("player_1".to_string(), 100), ("player_2".to_string(), 0)]
    );

    let game_id = started_pair(&mut store, 1, now, "5", "5", 6);
    reveal_round(&mut store, &p1, game_id, "5".to_string(), 6, now).unwrap();
    reveal_round(&mut store, &p2, game_id, "5".to_string(), 6, now).unwrap();
    let payouts = end_game(&mut store, &p1, game_id).unwrap();
    assert_eq!(
        payouts,
        vec![("player_1".to_string(), 50), ("player_2".to_string(), 50)]
    );
}

#[test]
fn decimal_parser_reads_numerals_like_std() {
    for s in ["0", "5", "10", "255", "256", "+7", "18446744073709551615", "007"] {
        assert_eq!(parse_u64(s), s.parse::<u64>().ok(), "numeral {s}");
    }
    for s in ["", "+", "++1", "abc", "-1", "1.5", " 1", "18446744073709551616"] {
        assert_eq!(parse_u64(s), None, "numeral {s}");
        assert_eq!(s.parse::<u64>().ok(), None, "std numeral {s}");
    }
}

#[test]
fn dispatcher_routes_commands_and_queries() {
    let mut store = base_store();
    let p1 = "player_1".to_string();
    let p2 = "player_2".to_string();
    let now: u64 = 50;

    let mut config = GameConfig::default();
    config.max_players = Some(2);
    config.max_rounds = 1;
    let reply = execute(&mut store, &p1, now, ExecuteMsg::CreateGame { config }).unwrap();
    let game_id = match reply {
        ExecuteReply::GameCreated { game_id } => game_id,
        other => panic!("unexpected reply {other:?}"),
    };

    execute(
        &mut store,
        &p1,
        now,
        ExecuteMsg::JoinGame { game_id, telegram_id: "1".to_string() },
    )
    .unwrap();
    execute(
        &mut store,
        &p2,
        now,
        ExecuteMsg::JoinGame { game_id, telegram_id: "2".to_string() },
    )
    .unwrap();
    execute(&mut store, &p1, now, ExecuteMsg::StartGame { game_id }).unwrap();
    execute(
        &mut store,
        &p1,
        now,
        ExecuteMsg::CommitRound { game_id, value: sha_hex("a", 1), amount: None },
    )
    .unwrap();
    execute(
        &mut store,
        &p2,
        now,
        ExecuteMsg::CommitRound { game_id, value: sha_hex("b", 1), amount: None },
    )
    .unwrap();
    execute(
        &mut store,
        &p1,
        now,
        ExecuteMsg::RevealRound { game_id, value: "a".to_string(), nonce: 1 },
    )
    .unwrap();

    match query(&store, QueryMsg::GetCurrentRound { game_id }).unwrap() {
        QueryReply::CurrentRound(n) => assert_eq!(n, 1),
        other => panic!("unexpected reply {other:?}"),
    }
    match query(&store, QueryMsg::GetGamesCount {}).unwrap() {
        QueryReply::GamesCount(n) => assert_eq!(n, get_games_count(&store)),
        other => panic!("unexpected reply {other:?}"),
    }
    match query(&store, QueryMsg::GetGameStatus { game_id }).unwrap() {
        QueryReply::Status(s) => assert_eq!(s, GameStatus::InProgress),
        other => panic!("unexpected reply {other:?}"),
    }
}

#[test]
fn auto_join_creator_enters_the_creator() {
    let mut store = base_store();
    let creator = "creator".to_string();
    let mut config = GameConfig::default();
    config.auto_join_creator = true;
    config.min_players = 1;
    let game_id = create_game(&mut store, &creator, config);
    let game = get_game_by_id(&store, game_id).unwrap();
    assert_eq!(game.players.len(), 1);
    assert_eq!(game.players[0].0, "creator".to_string());
    assert_eq!(game.status, GameStatus::Ready);
}

#[test]
fn wrong_phase_operations_are_rejected() {
    let mut store = base_store();
    let p1 = "player_1".to_string();
    let game_id = create_game(&mut store, &p1, GameConfig::default());

    // starting before the game is ready
    let res = start_game(&mut store, &p1, game_id, 10);
    assert_eq!(res, Err(ContractError::GameNotInReadyState { game_id }));

    // committing before any round is open
    let res = commit_round(&mut store, &p1, game_id, sha_hex("x", 1), None, 10);
    assert_eq!(
        res,
        Err(ContractError::PlayerNotInGame { game_id, player: "player_1".to_string() })
    );

    // operations on a game that does not exist
    let res = join_game(&mut store, &p1, 9, "tag".to_string());
    assert_eq!(res, Err(ContractError::NotFound { game_id: 9 }));

    // a joined player committing before any round is open
    join_game(&mut store, &p1, game_id, "tag".to_string()).unwrap();
    let res = commit_round(&mut store, &p1, game_id, sha_hex("x", 1), None, 10);
    assert_eq!(res, Err(ContractError::RoundNotFound { game_id, round: 0 }));

    // joining once the game has left the joining phase
    let p2 = "player_2".to_string();
    let p3 = "player_3".to_string();
    join_game(&mut store, &p2, game_id, "tag2".to_string()).unwrap();
    start_game(&mut store, &p1, game_id, 10).unwrap();
    let res = join_game(&mut store, &p3, game_id, "tag3".to_string());
    assert_eq!(res, Err(ContractError::GameNotInCreatedState { game_id }));
}

#[test]
fn reveal_gate_requires_all_commits_or_expiry() {
    let mut store = base_store();
    let p1 = "player_1".to_string();
    let p2 = "player_2".to_string();
    let now: u64 = 50;
    let mut config = GameConfig::default();
    config.max_players = Some(2);
    config.max_rounds = 1;
    let game_id = create_game(&mut store, &p1, config);
    join_game(&mut store, &p1, game_id, p1.clone()).unwrap();
    join_game(&mut store, &p2, game_id, p2.clone()).unwrap();
    start_game(&mut store, &p1, game_id, now).unwrap();
    commit_round(&mut store, &p1, game_id, sha_hex("rock", 2), None, now).unwrap();

    // only one of two players has committed and the round has not expired
    let res = reveal_round(&mut store, &p1, game_id, "rock".to_string(), 2, now);
    assert_eq!(res, Err(ContractError::RoundNotCommitted { game_id, round: 1 }));
}
