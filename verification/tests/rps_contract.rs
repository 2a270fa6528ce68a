use game_lifecycle::error::ContractError;
use game_lifecycle::execute::{commit_round, create_game, end_game, join_game, reveal_round, start_game};
use game_lifecycle::query::{get_game_by_id, get_games_count};
use game_lifecycle::rewards::RewardRule;
use game_lifecycle::rock_paper_scissors::{
    RockPaperScissors, RockPaperScissorsChoices, RockPaperScissorsWinner,
};
use game_lifecycle::state::{GameConfig, GameMetadata, GameStatus};
use game_lifecycle::store::GameStore;
use sha2::Digest;

fn rps_store() -> GameStore {
    GameStore::new(
        "owner".to_string(),
        GameMetadata {
            base_url: "https://example.com".to_string(),
            image_url: "https://example.com/image.png".to_string(),
            token_contract: "p2e_token".to_string(),
        },
        RewardRule::RockPaperScissors,
    )
}

fn rps_hash(value: &str, nonce: u64) -> String {
    let mut hasher = sha2::Sha256::new();
    hasher.update(value.as_bytes());
    hasher.update(nonce.to_be_bytes());
    hex::encode(hasher.finalize())
}

#[test]
fn rock_paper_scissors_contract_initialization() {
    let store = rps_store();
    assert_eq!(store.owner, "owner".to_string());
    assert_eq!(store.metadata.token_contract, "p2e_token".to_string());
    assert_eq!(store.next_game_id, 0);
    assert!(store.games.is_empty());
    assert!(store.admins.is_empty());
}

#[test]
fn rock_paper_scissors_contract_create_game() {
    let mut store = rps_store();
    let p1 = "player_1".to_string();

    let game_id = create_game(&mut store, &p1, GameConfig::default_with_join_fee(100));

    assert_eq!(get_games_count(&store), 1);

    let game = get_game_by_id(&store, game_id).unwrap();
    assert_eq!(game.id, 0);
    assert_eq!(game.config.game_joining_fee, Some(100));
}

#[test]
fn rock_paper_scissors_contract_join_game_basic() {
    let mut store = rps_store();
    let p1 = "player_1".to_string();
    let p2 = "player_2".to_string();

    let game_id = create_game(&mut store, &p1, GameConfig::default());

    join_game(&mut store, &p1, game_id, "1234567890".to_string()).unwrap();
    join_game(&mut store, &p2, game_id, "0987654321".to_string()).unwrap();
}

#[test]
fn rock_paper_scissors_contract_join_game_with_allowance() {
    let mut store = rps_store();
    let p1 = "player_1".to_string();
    let p2 = "player_2".to_string();

    let game_id = create_game(&mut store, &p1, GameConfig::default_with_join_fee(100));

    let fee1 = join_game(&mut store, &p1, game_id, "1234567890".to_string())
        .unwrap()
        .unwrap();
    let fee2 = join_game(&mut store, &p2, game_id, "0987654321".to_string())
        .unwrap()
        .unwrap();

    assert_eq!(fee1.payer, "player_1".to_string());
    assert_eq!(fee1.amount, 100);
    assert_eq!(fee2.payer, "player_2".to_string());
    assert_eq!(fee2.amount, 100);

    let game = get_game_by_id(&store, game_id).unwrap();
    assert_eq!(game.total_escrow, 200);
    assert_eq!(
        game.player_escrow,
        vec![("player_1".to_string(), 100), ("player_2".to_string(), 100)]
    );
}

#[test]
fn rock_paper_scissors_contract_cannot_join_max_players() {
    let mut store = rps_store();
    let p1 = "player_1".to_string();
    let p2 = "player_2".to_string();
    let p3 = "player_3".to_string();

    let mut config = GameConfig::default();
    config.max_players = Some(2);
    let game_id = create_game(&mut store, &p1, config);

    join_game(&mut store, &p1, game_id, p1.clone()).unwrap();
    join_game(&mut store, &p2, game_id, p2.clone()).unwrap();

    let res = join_game(&mut store, &p3, game_id, p3.clone());
    assert!(res.is_err());
}

#[test]
fn rock_paper_scissors_contract_basic_game_flow() {
    let mut store = rps_store();
    let p1 = "player_1".to_string();
    let p2 = "player_2".to_string();
    let now: u64 = 1000;

    let mut config = GameConfig::default();
    config.max_players = Some(2);
    config.max_rounds = 1;
    let game_id = create_game(&mut store, &p1, config);

    join_game(&mut store, &p1, game_id, p1.clone()).unwrap();
    join_game(&mut store, &p2, game_id, p2.clone()).unwrap();

    start_game(&mut store, &p1, game_id, now).unwrap();

    let nonce = 123u64;
    let rock_hash = rps_hash("rock", nonce);
    let paper_hash = rps_hash("paper", nonce);

    commit_round(&mut store, &p1, game_id, rock_hash, Some(100), now).unwrap();
    commit_round(&mut store, &p2, game_id, paper_hash, Some(100), now).unwrap();

    reveal_round(&mut store, &p1, game_id, "rock".to_string(), nonce, now).unwrap();
    reveal_round(&mut store, &p2, game_id, "paper".to_string(), nonce, now).unwrap();

    let game = get_game_by_id(&store, game_id).unwrap();
    assert_eq!(game.status, GameStatus::RoundsFinished);

    let payouts = end_game(&mut store, &p1, game_id).unwrap();
    assert_eq!(
        payouts,
        vec![("player_1".to_string(), 0), ("player_2".to_string(), 100)]
    );
}

#[test]
fn rock_paper_scissors_player_choice_winner_calculation() {
    let choice_a = RockPaperScissorsChoices::Rock;
    let choice_b = RockPaperScissorsChoices::Paper;

    let winner = RockPaperScissors::determine_winner(&choice_a, &choice_b);
    assert_eq!(winner, RockPaperScissorsWinner::Player2);

    let choice_a = RockPaperScissorsChoices::Rock;
    let choice_b = RockPaperScissorsChoices::Scissors;

    let winner = RockPaperScissors::determine_winner(&choice_a, &choice_b);
    assert_eq!(winner, RockPaperScissorsWinner::Player1);

    let choice_a = RockPaperScissorsChoices::Paper;
    let choice_b = RockPaperScissorsChoices::Rock;

    let winner = RockPaperScissors::determine_winner(&choice_a, &choice_b);
    assert_eq!(winner, RockPaperScissorsWinner::Player1);

    let choice_a = RockPaperScissorsChoices::Rock;
    let choice_b = RockPaperScissorsChoices::Rock;

    let winner = RockPaperScissors::determine_winner(&choice_a, &choice_b);
    assert_eq!(winner, RockPaperScissorsWinner::Draw);
}

#[test]
fn rock_paper_scissors_invalid_reveal_fails_settlement() {
    let mut store = rps_store();
    let p1 = "player_1".to_string();
    let p2 = "player_2".to_string();
    let now: u64 = 1000;

    let mut config = GameConfig::default();
    config.max_players = Some(2);
    config.max_rounds = 1;
    let game_id = create_game(&mut store, &p1, config);

    join_game(&mut store, &p1, game_id, p1.clone()).unwrap();
    join_game(&mut store, &p2, game_id, p2.clone()).unwrap();
    start_game(&mut store, &p1, game_id, now).unwrap();

    let nonce = 7u64;
    commit_round(&mut store, &p1, game_id, rps_hash("lizard", nonce), None, now).unwrap();
    commit_round(&mut store, &p2, game_id, rps_hash("paper", nonce), None, now).unwrap();
    reveal_round(&mut store, &p1, game_id, "lizard".to_string(), nonce, now).unwrap();
    reveal_round(&mut store, &p2, game_id, "paper".to_string(), nonce, now).unwrap();

    let res = end_game(&mut store, &p1, game_id);
    assert_eq!(
        res,
        Err(ContractError::InvalidRevealChoice { game_id: 0, round: 1 })
    );
    let game = get_game_by_id(&store, game_id).unwrap();
    assert_eq!(game.status, GameStatus::RoundsFinished);
    assert!(game.scores.is_empty());
}
