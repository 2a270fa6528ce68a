use game_lifecycle::dilemma::{CooperationDilemma, CooperationDilemmaChoices};
use game_lifecycle::execute::{commit_round, create_game, end_game, join_game, reveal_round, start_game};
use game_lifecycle::query::{get_game_by_id, get_games_count};
use game_lifecycle::rewards::RewardRule;
use game_lifecycle::state::{GameConfig, GameMetadata};
use game_lifecycle::store::GameStore;
use sha2::Digest;

fn dilemma_store() -> GameStore {
    GameStore::new(
        "owner".to_string(),
        GameMetadata {
            base_url: "https://example.com".to_string(),
            image_url: "https://example.com/image.png".to_string(),
            token_contract: "p2e_token".to_string(),
        },
        RewardRule::CooperationDilemma,
    )
}

fn dilemma_hash(value: &str, nonce: u64) -> String {
    let mut hasher = sha2::Sha256::new();
    hasher.update(value.as_bytes());
    hasher.update(nonce.to_be_bytes());
    hex::encode(hasher.finalize())
}

#[test]
fn dilemma_contract_initialization() {
    let store = dilemma_store();
    assert_eq!(store.owner, "owner".to_string());
    assert_eq!(store.next_game_id, 0);
    assert!(store.games.is_empty());
}

#[test]
fn dilemma_contract_create_game() {
    let mut store = dilemma_store();
    let p1 = "player_1".to_string();

    let game_id = create_game(&mut store, &p1, GameConfig::default_with_join_fee(100));

    assert_eq!(get_games_count(&store), 1);

    let game = get_game_by_id(&store, game_id).unwrap();
    assert_eq!(game.id, 0);
    assert_eq!(game.config.game_joining_fee, Some(100));
}

#[test]
fn dilemma_contract_join_game_basic() {
    let mut store = dilemma_store();
    let p1 = "player_1".to_string();
    let p2 = "player_2".to_string();

    let game_id = create_game(&mut store, &p1, GameConfig::default());

    join_game(&mut store, &p1, game_id, "1234567890".to_string()).unwrap();
    join_game(&mut store, &p2, game_id, "0987654321".to_string()).unwrap();
}

#[test]
fn dilemma_contract_join_game_with_allowance() {
    let mut store = dilemma_store();
    let p1 = "player_1".to_string();
    let p2 = "player_2".to_string();

    let game_id = create_game(&mut store, &p1, GameConfig::default_with_join_fee(100));

    let fee1 = join_game(&mut store, &p1, game_id, "1234567890".to_string())
        .unwrap()
        .unwrap();
    let fee2 = join_game(&mut store, &p2, game_id, "0987654321".to_string())
        .unwrap()
        .unwrap();

    assert_eq!(fee1.amount, 100);
    assert_eq!(fee2.amount, 100);

    let game = get_game_by_id(&store, game_id).unwrap();
    assert_eq!(game.total_escrow, 200);
}

#[test]
fn dilemma_mutual_cooperation_pays_both() {
    let mut store = dilemma_store();
    let p1 = "player_1".to_string();
    let p2 = "player_2".to_string();
    let now: u64 = 1000;

    let mut config = GameConfig::default();
    config.max_players = Some(2);
    config.max_rounds = 1;
    let game_id = create_game(&mut store, &p1, config);

    join_game(&mut store, &p1, game_id, p1.clone()).unwrap();
    join_game(&mut store, &p2, game_id, p2.clone()).unwrap();
    start_game(&mut store, &p1, game_id, now).unwrap();

    let nonce = 11u64;
    commit_round(&mut store, &p1, game_id, dilemma_hash("cooperate", nonce), None, now).unwrap();
    commit_round(&mut store, &p2, game_id, dilemma_hash("cooperate", nonce), None, now).unwrap();
    reveal_round(&mut store, &p1, game_id, "cooperate".to_string(), nonce, now).unwrap();
    reveal_round(&mut store, &p2, game_id, "cooperate".to_string(), nonce, now).unwrap();

    let payouts = end_game(&mut store, &p1, game_id).unwrap();
    assert_eq!(
        payouts,
        vec![("player_1".to_string(), 50), ("player_2".to_string(), 50)]
    );
}

#[test]
fn dilemma_defection_pays_the_defector() {
    let mut store = dilemma_store();
    let p1 = "player_1".to_string();
    let p2 = "player_2".to_string();
    let now: u64 = 1000;

    let mut config = GameConfig::default();
    config.max_players = Some(2);
    config.max_rounds = 1;
    let game_id = create_game(&mut store, &p1, config);

    join_game(&mut store, &p1, game_id, p1.clone()).unwrap();
    join_game(&mut store, &p2, game_id, p2.clone()).unwrap();
    start_game(&mut store, &p1, game_id, now).unwrap();

    let nonce = 12u64;
    commit_round(&mut store, &p1, game_id, dilemma_hash("cooperate", nonce), None, now).unwrap();
    commit_round(&mut store, &p2, game_id, dilemma_hash("defect", nonce), None, now).unwrap();
    reveal_round(&mut store, &p1, game_id, "cooperate".to_string(), nonce, now).unwrap();
    reveal_round(&mut store, &p2, game_id, "defect".to_string(), nonce, now).unwrap();

    let payouts = end_game(&mut store, &p1, game_id).unwrap();
    assert_eq!(
        payouts,
        vec![("player_1".to_string(), 0), ("player_2".to_string(), 100)]
    );
}

#[test]
fn dilemma_choice_parsing() {
    assert_eq!(
        CooperationDilemmaChoices::try_from("cooperate"),
        Some(CooperationDilemmaChoices::Cooperate)
    );
    assert_eq!(
        CooperationDilemmaChoices::try_from("defect"),
        Some(CooperationDilemmaChoices::Defect)
    );
    assert_eq!(CooperationDilemmaChoices::try_from("betray"), None);
    assert!(CooperationDilemma::is_valid_reveal_choice(&"cooperate".to_string()));
    assert!(!CooperationDilemma::is_valid_reveal_choice(&"betray".to_string()));
}
