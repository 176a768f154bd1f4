use contracts_oracle::errors::Error;
use contracts_oracle::host::{
    HostEffect, OracleEvent, INSTANCE_TTL_THRESHOLD, MATCH_TTL_LEDGERS, MAX_BATCH_SIZE,
};
use contracts_oracle::oracle::OracleContract;
use contracts_oracle::types::{BatchResultEntry, DataKey, Platform, ResultEntry, Winner};

const ADMIN: &str = "GADMINADDRESSXXXXXXXXXXXXXXXXXXXXXXXXXXXXXXXXXXXXXXXXXXX";
const NEW_ADMIN: &str = "GNEWADMINADDRESSXXXXXXXXXXXXXXXXXXXXXXXXXXXXXXXXXXXXXXXX";

fn instance_ttl() -> HostEffect<ResultEntry> {
    HostEffect::ExtendInstanceTtl { threshold: INSTANCE_TTL_THRESHOLD, extend_to: MATCH_TTL_LEDGERS }
}

fn auth(address: &str) -> HostEffect<ResultEntry> {
    HostEffect::RequireAuth { address: address.to_string() }
}

fn result_ttl(match_id: u64) -> HostEffect<ResultEntry> {
    HostEffect::ExtendResultTtl { match_id, threshold: MATCH_TTL_LEDGERS, extend_to: MATCH_TTL_LEDGERS }
}

fn initialized() -> OracleContract {
    let mut c = OracleContract::new();
    c.initialize(ADMIN.to_string()).unwrap();
    c
}

fn entry(game_id: &[u8], platform: Platform, result: Winner, ledger: u32, submitter: &str) -> ResultEntry {
    ResultEntry {
        game_id: game_id.to_vec(),
        platform,
        result,
        submitted_ledger: ledger,
        submitter: submitter.to_string(),
    }
}

fn batch_entry(match_id: u64, game_id: &[u8], result: Winner) -> BatchResultEntry {
    BatchResultEntry {
        match_id,
        game_id: game_id.to_vec(),
        platform: Platform::ChessDotCom,
        result,
    }
}

#[test]
fn constants_match_thirty_days_of_ledgers() {
    assert_eq!(MAX_BATCH_SIZE, 100);
    assert_eq!(MATCH_TTL_LEDGERS, 518_400);
    assert_eq!(INSTANCE_TTL_THRESHOLD, 259_200);
}

#[test]
fn initialize_sets_admin_once() {
    let mut c = OracleContract::new();
    assert!(!c.is_initialized());
    assert_eq!(c.initialize(ADMIN.to_string()), Ok(()));
    assert_eq!(
        c.effects().clone(),
        vec![
            instance_ttl(),
            HostEffect::SetAdmin { admin: ADMIN.to_string() },
            HostEffect::Publish { event: OracleEvent::Initialized { admin: ADMIN.to_string() } },
        ]
    );
    assert!(c.is_initialized());
    assert_eq!(c.effects().clone(), vec![instance_ttl()]);
    assert_eq!(c.initialize(NEW_ADMIN.to_string()), Err(Error::AlreadyInitialized));
    assert_eq!(c.effects().clone(), vec![instance_ttl()]);
    // The first admin stays: its authorization is the one demanded.
    assert_eq!(c.has_result_admin(1), Ok(false));
    assert_eq!(c.effects()[1], auth(ADMIN));
}

#[test]
fn submit_result_then_get_result_returns_entry() {
    let mut c = initialized();
    c.set_ledger_sequence(1234);
    assert_eq!(c.submit_result(7, b"abc123xyz".to_vec(), Platform::Lichess, Winner::Player1), Ok(()));
    let expected = entry(b"abc123xyz", Platform::Lichess, Winner::Player1, 1234, ADMIN);
    assert_eq!(
        c.effects().clone(),
        vec![
            instance_ttl(),
            auth(ADMIN),
            HostEffect::SetResult { match_id: 7, entry: expected.clone() },
            result_ttl(7),
            HostEffect::Publish { event: OracleEvent::ResultSubmitted { match_id: 7, result: Winner::Player1 } },
        ]
    );
    assert!(c.has_result(7));
    assert!(!c.has_result(8));
    assert_eq!(c.get_result(7), Ok(expected));
    assert_eq!(c.effects().clone(), vec![instance_ttl(), result_ttl(7)]);
}

#[test]
fn submit_result_requires_initialization() {
    let mut c = OracleContract::new();
    assert_eq!(
        c.submit_result(1, b"g".to_vec(), Platform::Lichess, Winner::Draw),
        Err(Error::Unauthorized)
    );
    assert_eq!(c.effects().clone(), vec![instance_ttl()]);
    assert!(!c.has_result(1));
}

#[test]
fn submit_result_rejected_while_paused() {
    let mut c = initialized();
    assert_eq!(c.pause(), Ok(()));
    assert_eq!(
        c.effects().clone(),
        vec![
            instance_ttl(),
            auth(ADMIN),
            HostEffect::SetPaused { paused: true },
            HostEffect::Publish { event: OracleEvent::Paused },
        ]
    );
    assert!(c.is_paused());
    assert_eq!(
        c.submit_result(1, b"g".to_vec(), Platform::Lichess, Winner::Draw),
        Err(Error::ContractPaused)
    );
    // The pause check comes before the admin's authorization.
    assert_eq!(c.effects().clone(), vec![instance_ttl()]);
    assert!(!c.has_result(1));
    assert_eq!(c.unpause(), Ok(()));
    assert_eq!(c.effects()[3], HostEffect::Publish { event: OracleEvent::Unpaused });
    assert!(!c.is_paused());
    assert_eq!(c.submit_result(1, b"g".to_vec(), Platform::Lichess, Winner::Draw), Ok(()));
}

#[test]
fn pause_is_checked_before_initialization() {
    let mut c = OracleContract::new();
    c.restore_paused(true);
    assert_eq!(
        c.submit_result(1, b"g".to_vec(), Platform::Lichess, Winner::Draw),
        Err(Error::ContractPaused)
    );
    assert_eq!(c.delete_result(1), Err(Error::ContractPaused));
    assert_eq!(c.submit_batch_results(vec![]), Err(Error::ContractPaused));
}

#[test]
fn submit_result_rejects_empty_game_id() {
    let mut c = initialized();
    assert_eq!(
        c.submit_result(1, Vec::new(), Platform::Lichess, Winner::Draw),
        Err(Error::InvalidGameId)
    );
    assert_eq!(c.effects().clone(), vec![instance_ttl(), auth(ADMIN)]);
    assert!(!c.has_result(1));
}

#[test]
fn submit_result_rejects_second_submission() {
    let mut c = initialized();
    c.submit_result(1, b"first".to_vec(), Platform::Lichess, Winner::Player2).unwrap();
    assert_eq!(
        c.submit_result(1, b"second".to_vec(), Platform::ChessDotCom, Winner::Draw),
        Err(Error::AlreadySubmitted)
    );
    // Already-submitted is checked before the game id.
    assert_eq!(
        c.submit_result(1, Vec::new(), Platform::ChessDotCom, Winner::Draw),
        Err(Error::AlreadySubmitted)
    );
    assert_eq!(c.get_result(1).unwrap().game_id, b"first".to_vec());
    assert_eq!(c.get_result(1).unwrap().result, Winner::Player2);
}

#[test]
fn get_result_of_unknown_match_is_not_found() {
    let mut c = initialized();
    assert_eq!(c.get_result(42), Err(Error::ResultNotFound));
    assert_eq!(c.effects().clone(), vec![instance_ttl()]);
}

#[test]
fn has_result_admin_matches_has_result() {
    let mut c = OracleContract::new();
    assert_eq!(c.has_result_admin(3), Err(Error::Unauthorized));
    c.initialize(ADMIN.to_string()).unwrap();
    assert_eq!(c.has_result_admin(3), Ok(false));
    assert_eq!(c.effects().clone(), vec![instance_ttl(), auth(ADMIN)]);
    c.submit_result(3, b"g3".to_vec(), Platform::Lichess, Winner::Draw).unwrap();
    assert_eq!(c.has_result_admin(3), Ok(true));
    assert!(c.has_result(3));
}

#[test]
fn delete_result_removes_only_that_match() {
    let mut c = initialized();
    assert_eq!(c.delete_result(5), Err(Error::ResultNotFound));
    assert_eq!(c.effects().clone(), vec![instance_ttl(), auth(ADMIN)]);
    c.submit_result(5, b"g5".to_vec(), Platform::Lichess, Winner::Player1).unwrap();
    c.submit_result(6, b"g6".to_vec(), Platform::Lichess, Winner::Player2).unwrap();
    assert_eq!(c.delete_result(5), Ok(()));
    assert_eq!(
        c.effects().clone(),
        vec![
            instance_ttl(),
            auth(ADMIN),
            HostEffect::RemoveResult { match_id: 5 },
            HostEffect::Publish { event: OracleEvent::ResultDeleted { match_id: 5 } },
        ]
    );
    assert!(!c.has_result(5));
    assert_eq!(c.get_result(5), Err(Error::ResultNotFound));
    assert!(c.has_result(6));
    // A deleted match can be submitted again.
    assert_eq!(c.submit_result(5, b"g5b".to_vec(), Platform::ChessDotCom, Winner::Draw), Ok(()));
}

#[test]
fn delete_result_requires_initialization() {
    let mut c = OracleContract::new();
    assert_eq!(c.delete_result(1), Err(Error::Unauthorized));
}

#[test]
fn update_admin_rotates_admin() {
    let mut c = OracleContract::new();
    assert_eq!(c.update_admin(NEW_ADMIN.to_string()), Err(Error::Unauthorized));
    c.initialize(ADMIN.to_string()).unwrap();
    assert_eq!(c.update_admin(NEW_ADMIN.to_string()), Ok(()));
    assert_eq!(
        c.effects().clone(),
        vec![
            instance_ttl(),
            auth(ADMIN),
            HostEffect::SetAdmin { admin: NEW_ADMIN.to_string() },
            HostEffect::Publish {
                event: OracleEvent::AdminRotated {
                    old_admin: ADMIN.to_string(),
                    new_admin: NEW_ADMIN.to_string(),
                },
            },
        ]
    );
    c.set_ledger_sequence(99);
    c.submit_result(1, b"g1".to_vec(), Platform::Lichess, Winner::Draw).unwrap();
    assert_eq!(c.effects()[1], auth(NEW_ADMIN));
    assert_eq!(c.get_result(1), Ok(entry(b"g1", Platform::Lichess, Winner::Draw, 99, NEW_ADMIN)));
}

#[test]
fn pause_and_unpause_require_initialization() {
    let mut c = OracleContract::new();
    assert_eq!(c.pause(), Err(Error::Unauthorized));
    assert_eq!(c.unpause(), Err(Error::Unauthorized));
    assert!(!c.is_paused());
}

#[test]
fn batch_submission_records_every_entry() {
    let mut c = initialized();
    c.set_ledger_sequence(500);
    let entries = vec![
        batch_entry(1, b"g1", Winner::Player1),
        batch_entry(2, b"g2", Winner::Player2),
        batch_entry(3, b"g3", Winner::Draw),
    ];
    assert_eq!(c.submit_batch_results(entries), Ok(()));
    let effects = c.effects().clone();
    assert_eq!(effects.len(), 2 + 3 * 3 + 1);
    assert_eq!(effects[0], instance_ttl());
    assert_eq!(effects[1], auth(ADMIN));
    assert_eq!(
        effects[2],
        HostEffect::SetResult {
            match_id: 1,
            entry: entry(b"g1", Platform::ChessDotCom, Winner::Player1, 500, ADMIN),
        }
    );
    assert_eq!(effects[3], result_ttl(1));
    assert_eq!(
        effects[4],
        HostEffect::Publish { event: OracleEvent::ResultSubmitted { match_id: 1, result: Winner::Player1 } }
    );
    assert_eq!(effects[11], HostEffect::Publish { event: OracleEvent::BatchSubmitted { count: 3 } });
    assert_eq!(c.get_result(2), Ok(entry(b"g2", Platform::ChessDotCom, Winner::Player2, 500, ADMIN)));
    assert_eq!(c.get_result(3), Ok(entry(b"g3", Platform::ChessDotCom, Winner::Draw, 500, ADMIN)));
}

#[test]
fn empty_batch_succeeds() {
    let mut c = initialized();
    assert_eq!(c.submit_batch_results(vec![]), Ok(()));
    assert_eq!(
        c.effects().clone(),
        vec![
            instance_ttl(),
            auth(ADMIN),
            HostEffect::Publish { event: OracleEvent::BatchSubmitted { count: 0 } },
        ]
    );
}

#[test]
fn batch_of_more_than_one_hundred_is_too_large() {
    let mut c = initialized();
    let full: Vec<BatchResultEntry> = (0..100).map(|i| batch_entry(i, b"g", Winner::Draw)).collect();
    assert_eq!(c.submit_batch_results(full), Ok(()));
    let over: Vec<BatchResultEntry> = (200..301).map(|i| batch_entry(i, b"g", Winner::Draw)).collect();
    assert_eq!(c.submit_batch_results(over), Err(Error::BatchTooLarge));
    assert!(!c.has_result(200));
}

#[test]
fn batch_with_duplicate_is_rejected_without_writes() {
    let mut c = initialized();
    let entries = vec![
        batch_entry(1, b"g1", Winner::Player1),
        batch_entry(2, b"g2", Winner::Player2),
        batch_entry(1, b"g1b", Winner::Draw),
    ];
    assert_eq!(c.submit_batch_results(entries), Err(Error::BatchDuplicateEntry));
    assert_eq!(c.effects().clone(), vec![instance_ttl(), auth(ADMIN)]);
    assert!(!c.has_result(1));
    assert!(!c.has_result(2));
}

#[test]
fn batch_with_empty_game_id_is_rejected_without_writes() {
    let mut c = initialized();
    let entries = vec![batch_entry(1, b"g1", Winner::Player1), batch_entry(2, b"", Winner::Player2)];
    assert_eq!(c.submit_batch_results(entries), Err(Error::InvalidGameId));
    assert!(!c.has_result(1));
}

#[test]
fn batch_with_existing_result_is_rejected_without_writes() {
    let mut c = initialized();
    c.submit_result(2, b"old".to_vec(), Platform::Lichess, Winner::Draw).unwrap();
    let entries = vec![batch_entry(1, b"g1", Winner::Player1), batch_entry(2, b"g2", Winner::Player2)];
    assert_eq!(c.submit_batch_results(entries), Err(Error::AlreadySubmitted));
    assert!(!c.has_result(1));
    assert_eq!(c.get_result(2).unwrap().game_id, b"old".to_vec());
}

#[test]
fn batch_reports_first_failing_entry() {
    let mut c = initialized();
    c.submit_result(9, b"old".to_vec(), Platform::Lichess, Winner::Draw).unwrap();
    // Entry 0 duplicates entry 2; entry 1 has an empty game id: entry 0 is checked first.
    let entries = vec![
        batch_entry(4, b"g4", Winner::Player1),
        batch_entry(5, b"", Winner::Player2),
        batch_entry(4, b"g4", Winner::Draw),
    ];
    assert_eq!(c.submit_batch_results(entries), Err(Error::BatchDuplicateEntry));
    // Within one entry the game id is checked before duplicates and existing results.
    let entries = vec![batch_entry(9, b"", Winner::Player1), batch_entry(9, b"x", Winner::Draw)];
    assert_eq!(c.submit_batch_results(entries), Err(Error::InvalidGameId));
    // Duplicates are checked before existing results.
    let entries = vec![batch_entry(9, b"a", Winner::Player1), batch_entry(9, b"b", Winner::Draw)];
    assert_eq!(c.submit_batch_results(entries), Err(Error::BatchDuplicateEntry));
}

#[test]
fn batch_requires_initialization() {
    let mut c = OracleContract::new();
    assert_eq!(c.submit_batch_results(vec![batch_entry(1, b"g", Winner::Draw)]), Err(Error::Unauthorized));
}

#[test]
fn restored_ledger_state_is_read() {
    let mut c = OracleContract::new();
    c.restore_admin(ADMIN.to_string());
    c.restore_result(11, entry(b"g11", Platform::Lichess, Winner::Player2, 3, ADMIN));
    assert!(c.is_initialized());
    assert_eq!(c.get_result(11), Ok(entry(b"g11", Platform::Lichess, Winner::Player2, 3, ADMIN)));
    assert_eq!(c.ledger_sequence(), 0);
}

#[test]
fn event_topics() {
    assert_eq!(OracleEvent::Initialized { admin: ADMIN.to_string() }.topics(), ("oracle", "init"));
    assert_eq!(
        OracleEvent::ResultSubmitted { match_id: 1, result: Winner::Draw }.topics(),
        ("oracle", "result")
    );
    assert_eq!(OracleEvent::BatchSubmitted { count: 1 }.topics(), ("oracle", "batch"));
    assert_eq!(OracleEvent::ResultDeleted { match_id: 1 }.topics(), ("oracle", "deleted"));
    assert_eq!(
        OracleEvent::AdminRotated { old_admin: ADMIN.to_string(), new_admin: NEW_ADMIN.to_string() }
            .topics(),
        ("admin", "admin_rot")
    );
    assert_eq!(OracleEvent::Paused.topics(), ("admin", "paused"));
    assert_eq!(OracleEvent::Unpaused.topics(), ("admin", "unpaused"));
}

#[test]
fn effect_storage_keys() {
    assert_eq!(instance_ttl().storage_key(), None);
    assert_eq!(auth(ADMIN).storage_key(), None);
    assert_eq!(HostEffect::<ResultEntry>::SetAdmin { admin: ADMIN.to_string() }.storage_key(), Some(DataKey::Admin));
    assert_eq!(HostEffect::<ResultEntry>::SetPaused { paused: true }.storage_key(), Some(DataKey::Paused));
    assert_eq!(HostEffect::<ResultEntry>::RemoveResult { match_id: 4 }.storage_key(), Some(DataKey::Result(4)));
    assert_eq!(result_ttl(8).storage_key(), Some(DataKey::Result(8)));
    assert_eq!(
        HostEffect::<ResultEntry>::Publish { event: OracleEvent::Paused }.storage_key(),
        None
    );
}

#[test]
fn game_id_bytes_are_kept_as_given() {
    let mut c = initialized();
    let raw = vec![0xff, 0x00, 0xfe, b'a'];
    assert_eq!(c.submit_result(1, raw.clone(), Platform::Lichess, Winner::Player1), Ok(()));
    assert_eq!(c.get_result(1).unwrap().game_id, raw);
}

#[test]
fn admin_gate_decides_whether_results_are_read() {
    let mut c = OracleContract::new();
    assert!(!c.passes_admin_gate(true));
    assert!(!c.passes_admin_gate(false));
    c.restore_admin(ADMIN.to_string());
    assert!(c.passes_admin_gate(true));
    c.restore_paused(true);
    assert!(!c.passes_admin_gate(true));
    assert!(c.passes_admin_gate(false));
}

#[test]
fn batch_reads_follow_validation_order() {
    let mut c = OracleContract::new();
    let entries = vec![batch_entry(1, b"g1", Winner::Draw), batch_entry(2, b"g2", Winner::Draw)];
    assert_eq!(c.batch_reads(&entries), Vec::<u64>::new());
    c.restore_admin(ADMIN.to_string());
    assert_eq!(c.batch_reads(&entries), vec![1, 2]);
    let stops = vec![
        batch_entry(1, b"g1", Winner::Draw),
        batch_entry(2, b"", Winner::Draw),
        batch_entry(3, b"g3", Winner::Draw),
    ];
    assert_eq!(c.batch_reads(&stops), vec![1]);
    let dup = vec![batch_entry(4, b"g4", Winner::Draw), batch_entry(4, b"g4", Winner::Draw)];
    assert_eq!(c.batch_reads(&dup), Vec::<u64>::new());
    let over: Vec<BatchResultEntry> = (0..101).map(|i| batch_entry(i, b"g", Winner::Draw)).collect();
    assert_eq!(c.batch_reads(&over), Vec::<u64>::new());
    c.restore_paused(true);
    assert_eq!(c.batch_reads(&entries), Vec::<u64>::new());
}

#[test]
fn stored_result_persists_across_other_calls() {
    let mut c = initialized();
    c.set_ledger_sequence(3);
    c.submit_result(1, b"keep".to_vec(), Platform::Lichess, Winner::Player2).unwrap();
    let kept = entry(b"keep", Platform::Lichess, Winner::Player2, 3, ADMIN);
    let _ = c.submit_result(1, b"other".to_vec(), Platform::ChessDotCom, Winner::Draw);
    let _ = c.submit_batch_results(vec![batch_entry(1, b"x", Winner::Draw)]);
    let _ = c.submit_batch_results(vec![batch_entry(2, b"y", Winner::Draw)]);
    let _ = c.delete_result(2);
    let _ = c.update_admin(NEW_ADMIN.to_string());
    let _ = c.pause();
    let _ = c.unpause();
    let _ = c.initialize(ADMIN.to_string());
    assert_eq!(c.get_result(1), Ok(kept));
}

#[test]
fn batch_records_what_single_submissions_record() {
    let entries = vec![
        batch_entry(1, b"g1", Winner::Player1),
        batch_entry(2, b"g2", Winner::Player2),
    ];
    let mut batched = initialized();
    batched.set_ledger_sequence(8);
    batched.submit_batch_results(entries.clone()).unwrap();
    let mut single = initialized();
    single.set_ledger_sequence(8);
    for e in entries.clone() {
        assert_eq!(single.submit_result(e.match_id, e.game_id, e.platform, e.result), Ok(()));
    }
    for e in entries {
        assert_eq!(batched.get_result(e.match_id), single.get_result(e.match_id));
    }
}
