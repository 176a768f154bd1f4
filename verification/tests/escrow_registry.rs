use contracts_oracle::escrow::{EscrowContract, MatchState};
use contracts_oracle::types::Platform;

const PLAYER1: &str = "GPLAYERONEXXXXXXXXXXXXXXXXXXXXXXXXXXXXXXXXXXXXXXXXXXXXX";
const PLAYER2: &str = "GPLAYERTWOXXXXXXXXXXXXXXXXXXXXXXXXXXXXXXXXXXXXXXXXXXXXX";
const TOKEN: &str = "CTOKENXXXXXXXXXXXXXXXXXXXXXXXXXXXXXXXXXXXXXXXXXXXXXXXXX";

fn setup() -> (EscrowContract, String, String, String) {
    (EscrowContract::new(), PLAYER1.to_string(), PLAYER2.to_string(), TOKEN.to_string())
}

/// get_match_count increments correctly
#[test]
fn test_get_match_count_increments_correctly() {
    let (mut client, player1, player2, token) = setup();

    // Initial count should be 0
    let count = client.get_match_count();
    assert_eq!(count, 0);

    // Create first match
    client.create_match(player1.clone(), player2.clone(), 100, token.clone(), b"game_1".to_vec(), Platform::Lichess);
    let count = client.get_match_count();
    assert_eq!(count, 1);

    // Create second match
    client.create_match(player1.clone(), player2.clone(), 100, token.clone(), b"game_2".to_vec(), Platform::Lichess);
    let count = client.get_match_count();
    assert_eq!(count, 2);

    // Create third match
    client.create_match(player1.clone(), player2.clone(), 100, token.clone(), b"game_3".to_vec(), Platform::Lichess);
    let count = client.get_match_count();
    assert_eq!(count, 3);

    // Create fourth match
    client.create_match(player1.clone(), player2.clone(), 100, token.clone(), b"game_4".to_vec(), Platform::Lichess);
    let count = client.get_match_count();
    assert_eq!(count, 4);
}

#[test]
fn created_match_is_pending_with_next_id() {
    let (mut client, player1, player2, token) = setup();
    let first = client.create_match(player1.clone(), player2.clone(), 100_000_000, token.clone(), b"abc123xyz".to_vec(), Platform::Lichess);
    let second = client.create_match(player2.clone(), player1.clone(), 5, token.clone(), b"g2".to_vec(), Platform::ChessDotCom);
    assert_eq!(first, 0);
    assert_eq!(second, 1);
    let m = client.get_match(0).unwrap();
    assert_eq!(m.id, 0);
    assert_eq!(m.state, MatchState::Pending);
    assert!(!m.player1_deposited);
    assert!(!m.player2_deposited);
    assert_eq!(m.stake_amount, 100_000_000);
    assert_eq!(m.game_id, b"abc123xyz".to_vec());
    assert_eq!(m.player1, PLAYER1);
    assert_eq!(client.get_match(1).unwrap().platform, Platform::ChessDotCom);
    assert!(client.get_match(2).is_none());
}
