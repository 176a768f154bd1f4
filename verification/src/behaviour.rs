//! What each entry point of the oracle does, for every state and argument,
//! stated directly over the ledger storage, the arguments and the result.

use vstd::prelude::*;

use crate::errors::Error;
use crate::host::{spec_storage_key, spec_topics, HostEffect, OracleEvent};
use crate::laws::{
    distinct_match_ids, lemma_batch_results_entry, lemma_batch_results_other,
    lemma_validated_batch, not_in_batch, same_storage,
};
use crate::oracle::{
    batch_effects, batch_record, duplicated_later, entry_rejection, first_rejection_from,
    record_effects, spec_delete_result, spec_get_result, spec_has_result, spec_has_result_admin,
    spec_initialize, spec_is_initialized, spec_pause, spec_submit_batch_results,
    spec_submit_result, spec_unpause, spec_update_admin, OracleState,
};
use crate::types::{BatchRecord, DataKey, Platform, ResultRecord, Winner};

verus! {

/// The request that opens every invocation: extend the instance's time to
/// live to 518 400 ledgers when it is below 259 200.
pub open spec fn opening_request() -> HostEffect<ResultRecord> {
    HostEffect::ExtendInstanceTtl { threshold: 259_200u32, extend_to: 518_400u32 }
}

/// The time-to-live request for a stored result: 518 400 ledgers.
pub open spec fn keep_alive_request(match_id: u64) -> HostEffect<ResultRecord> {
    HostEffect::ExtendResultTtl { match_id, threshold: 518_400u32, extend_to: 518_400u32 }
}

/// The batch can be recorded: the contract is running and initialized, the
/// batch has at most 100 entries, no two with the same match id, none with
/// an empty game id, and none for a match that already has a result.
pub open spec fn batch_acceptable(s: OracleState, entries: Seq<BatchRecord>) -> bool {
    &&& !s.paused
    &&& s.admin is Some
    &&& entries.len() <= 100
    &&& distinct_match_ids(entries)
    &&& forall|i: int| 0 <= i < entries.len() ==> (#[trigger] entries[i]).game_id.len() > 0
    &&& forall|i: int| 0 <= i < entries.len() ==> !s.results.contains_key(#[trigger] entries[i].match_id)
}

// ---------------------------------------------------------------------------
// Lemmas on batch validation
// ---------------------------------------------------------------------------

/// A batch whose entries from `i` on are all acceptable passes validation
/// from `i` on.
pub proof fn lemma_acceptable_passes_from(s: OracleState, entries: Seq<BatchRecord>, i: nat)
    requires
        batch_acceptable(s, entries),
        i <= entries.len(),
    ensures
        first_rejection_from(s.results, entries, i) is None,
    decreases entries.len() - i,
{
    if i < entries.len() {
        let k = i as int;
        assert(entries[k].game_id.len() > 0);
        assert(!s.results.contains_key(entries[k].match_id));
        assert(!duplicated_later(entries, k)) by {
            if duplicated_later(entries, k) {
                let j = choose|j: int| k < j < entries.len() && #[trigger] entries[j].match_id
                    == entries[k].match_id;
                assert(entries[k].match_id != entries[j].match_id);
            }
        }
        assert(entry_rejection(s.results, entries, k) is None);
        lemma_acceptable_passes_from(s, entries, i + 1);
    }
}

/// A rejection found from `i` on is the rejection of some entry from `i` on.
pub proof fn lemma_rejection_has_witness(
    results: Map<u64, ResultRecord>,
    entries: Seq<BatchRecord>,
    i: nat,
    e: Error,
)
    requires
        first_rejection_from(results, entries, i) == Some(e),
    ensures
        exists|k: int| i <= k < entries.len() && #[trigger] entry_rejection(results, entries, k) == Some(e),
    decreases entries.len() - i,
{
    if i < entries.len() {
        match entry_rejection(results, entries, i as int) {
            Some(x) => {
                assert(entry_rejection(results, entries, i as int) == Some(e));
            },
            None => {
                lemma_rejection_has_witness(results, entries, i + 1, e);
            },
        }
    }
}

/// The host requests that record a batch: three for each entry, in order.
pub proof fn lemma_batch_effects_shape(
    entries: Seq<BatchRecord>,
    ledger_sequence: u32,
    admin: String,
)
    ensures
        batch_effects(entries, ledger_sequence, admin).len() == 3 * entries.len(),
        forall|i: int|
            #![trigger entries[i]]
            0 <= i < entries.len() ==> {
                let fx = batch_effects(entries, ledger_sequence, admin);
                &&& fx[3 * i] == HostEffect::SetResult {
                    match_id: entries[i].match_id,
                    entry: ResultRecord {
                        game_id: entries[i].game_id,
                        platform: entries[i].platform,
                        result: entries[i].result,
                        submitted_ledger: ledger_sequence,
                        submitter: admin,
                    },
                }
                &&& fx[3 * i + 1] == keep_alive_request(entries[i].match_id)
                &&& fx[3 * i + 2] == HostEffect::<ResultRecord>::Publish {
                    event: OracleEvent::ResultSubmitted {
                        match_id: entries[i].match_id,
                        result: entries[i].result,
                    },
                }
            },
    decreases entries.len(),
{
    if entries.len() > 0 {
        let prefix = entries.drop_last();
        lemma_batch_effects_shape(prefix, ledger_sequence, admin);
        let last = entries.last();
        let fx = batch_effects(entries, ledger_sequence, admin);
        let px = batch_effects(prefix, ledger_sequence, admin);
        let rx = record_effects(last.match_id, batch_record(last, ledger_sequence, admin));
        assert(fx == px + rx);
        assert forall|i: int| #![trigger entries[i]] 0 <= i < entries.len() implies {
            &&& fx[3 * i] == HostEffect::SetResult {
                match_id: entries[i].match_id,
                entry: ResultRecord {
                    game_id: entries[i].game_id,
                    platform: entries[i].platform,
                    result: entries[i].result,
                    submitted_ledger: ledger_sequence,
                    submitter: admin,
                },
            }
            &&& fx[3 * i + 1] == keep_alive_request(entries[i].match_id)
            &&& fx[3 * i + 2] == HostEffect::<ResultRecord>::Publish {
                event: OracleEvent::ResultSubmitted {
                    match_id: entries[i].match_id,
                    result: entries[i].result,
                },
            }
        } by {
            if i < prefix.len() {
                assert(prefix[i] == entries[i]);
            } else {
                assert(entries[i] == last);
            }
        }
    }
}

// ---------------------------------------------------------------------------
// Laws
// ---------------------------------------------------------------------------

/// `initialize(admin)` succeeds exactly on a contract without an admin, and
/// then records `admin` and publishes `Initialized`; otherwise it fails with
/// `AlreadyInitialized`. Nothing else changes.
pub proof fn law_initialize_behaviour(s: OracleState, admin: String)
    ensures
        ({
            let after = spec_initialize(s, admin).0;
            let r = spec_initialize(s, admin).1;
            &&& s.admin is Some ==> r == Err::<(), Error>(Error::AlreadyInitialized) && same_storage(after, s)
                && after.effects == seq![opening_request()]
            &&& s.admin is None ==> r == Ok::<(), Error>(()) && after.admin == Some(admin)
                && after.paused == s.paused && after.results == s.results && after.ledger_sequence
                == s.ledger_sequence && after.effects == seq![
                opening_request(),
                HostEffect::SetAdmin { admin },
                HostEffect::Publish { event: OracleEvent::Initialized { admin } },
            ]
        }),
{
}

/// `submit_result` fails with `ContractPaused` while paused, then with
/// `Unauthorized` without an admin, then with `AlreadySubmitted` when the
/// match has a result, then with `InvalidGameId` when the game id is empty,
/// and otherwise succeeds. On success it stores, under the match id, the
/// given game id, platform and winner, the current ledger sequence number and
/// the admin as submitter, and touches nothing else; on failure the storage
/// stays as it was.
pub proof fn law_submit_result_behaviour(
    s: OracleState,
    match_id: u64,
    game_id: Seq<u8>,
    platform: Platform,
    result: Winner,
)
    ensures
        ({
            let after = spec_submit_result(s, match_id, game_id, platform, result).0;
            let r = spec_submit_result(s, match_id, game_id, platform, result).1;
            let stored = ResultRecord {
                game_id,
                platform,
                result,
                submitted_ledger: s.ledger_sequence,
                submitter: s.admin->0,
            };
            &&& s.paused ==> r == Err::<(), Error>(Error::ContractPaused)
            &&& !s.paused && s.admin is None ==> r == Err::<(), Error>(Error::Unauthorized)
            &&& !s.paused && s.admin is Some && s.results.contains_key(match_id) ==> r == Err::<
                (),
                Error,
            >(Error::AlreadySubmitted)
            &&& !s.paused && s.admin is Some && !s.results.contains_key(match_id) && game_id.len()
                == 0 ==> r == Err::<(), Error>(Error::InvalidGameId)
            &&& !s.paused && s.admin is Some && !s.results.contains_key(match_id) && game_id.len()
                > 0 ==> r == Ok::<(), Error>(())
            &&& r is Err ==> same_storage(after, s)
            &&& r is Ok ==> {
                &&& after.results == s.results.insert(match_id, stored)
                &&& after.admin == s.admin && after.paused == s.paused
                &&& after.ledger_sequence == s.ledger_sequence
                &&& after.effects == seq![
                    opening_request(),
                    HostEffect::RequireAuth { address: s.admin->0 },
                    HostEffect::SetResult { match_id, entry: stored },
                    keep_alive_request(match_id),
                    HostEffect::Publish { event: OracleEvent::ResultSubmitted { match_id, result } },
                ]
            }
        }),
{
}

/// A result accepted by `submit_result` at ledger sequence number `n` reads
/// back through `get_result` field by field: the submitted game id,
/// platform and winner, `submitted_ledger == n`, and the admin as submitter.
pub proof fn law_submitted_fields_read_back(
    s: OracleState,
    match_id: u64,
    game_id: Seq<u8>,
    platform: Platform,
    result: Winner,
)
    requires
        spec_submit_result(s, match_id, game_id, platform, result).1 is Ok,
    ensures
        ({
            let after = spec_submit_result(s, match_id, game_id, platform, result).0;
            let read = spec_get_result(after, match_id).1;
            &&& read is Ok
            &&& read->Ok_0.game_id == game_id
            &&& read->Ok_0.platform == platform
            &&& read->Ok_0.result == result
            &&& read->Ok_0.submitted_ledger == s.ledger_sequence
            &&& s.admin == Some(read->Ok_0.submitter)
        }),
{
}

/// `submit_batch_results` succeeds exactly when the batch is acceptable
/// (running, initialized, at most 100 entries, distinct match ids, no empty
/// game id, no match already recorded). Each failure names a reason that
/// holds: `ContractPaused` while paused, `Unauthorized` without an admin,
/// `BatchTooLarge` above 100 entries, `InvalidGameId` only when an entry's
/// game id is empty, `BatchDuplicateEntry` only when two entries share a
/// match id, `AlreadySubmitted` only when an entry's match already has a
/// result. On failure the storage stays as it was; on success every entry
/// reads back field by field, recorded at the current ledger by the admin,
/// and the host requests are one authorization, three requests per entry in
/// order, and the `BatchSubmitted` event with the number of entries.
pub proof fn law_submit_batch_results_behaviour(s: OracleState, entries: Seq<BatchRecord>)
    ensures
        ({
            let after = spec_submit_batch_results(s, entries).0;
            let r = spec_submit_batch_results(s, entries).1;
            &&& r is Ok <==> batch_acceptable(s, entries)
            &&& s.paused ==> r == Err::<(), Error>(Error::ContractPaused)
            &&& !s.paused && s.admin is None ==> r == Err::<(), Error>(Error::Unauthorized)
            &&& !s.paused && s.admin is Some && entries.len() > 100 ==> r == Err::<(), Error>(
                Error::BatchTooLarge,
            )
            &&& r == Err::<(), Error>(Error::InvalidGameId) ==> exists|i: int|
                0 <= i < entries.len() && (#[trigger] entries[i]).game_id.len() == 0
            &&& r == Err::<(), Error>(Error::BatchDuplicateEntry) ==> !distinct_match_ids(entries)
            &&& r == Err::<(), Error>(Error::AlreadySubmitted) ==> exists|i: int|
                0 <= i < entries.len() && s.results.contains_key(#[trigger] entries[i].match_id)
            &&& r is Err ==> same_storage(after, s)
            &&& r is Ok ==> {
                &&& after.admin == s.admin && after.paused == s.paused
                &&& after.ledger_sequence == s.ledger_sequence
                &&& forall|i: int|
                    0 <= i < entries.len() ==> spec_get_result(after, (#[trigger] entries[i]).match_id).1
                        == Ok::<ResultRecord, Error>(
                        ResultRecord {
                            game_id: entries[i].game_id,
                            platform: entries[i].platform,
                            result: entries[i].result,
                            submitted_ledger: s.ledger_sequence,
                            submitter: s.admin->0,
                        },
                    )
                &&& forall|key: u64|
                    not_in_batch(entries, key) ==> #[trigger] after.results.contains_key(key)
                        == s.results.contains_key(key) && after.results[key] == s.results[key]
                &&& after.effects.len() == 3 * entries.len() + 3
                &&& after.effects[0] == opening_request()
                &&& after.effects[1] == HostEffect::<ResultRecord>::RequireAuth { address: s.admin->0 }
                &&& forall|i: int|
                    #![trigger entries[i]]
                    0 <= i < entries.len() ==> {
                        &&& after.effects[3 * i + 2] == HostEffect::SetResult {
                            match_id: entries[i].match_id,
                            entry: ResultRecord {
                                game_id: entries[i].game_id,
                                platform: entries[i].platform,
                                result: entries[i].result,
                                submitted_ledger: s.ledger_sequence,
                                submitter: s.admin->0,
                            },
                        }
                        &&& after.effects[3 * i + 3] == keep_alive_request(entries[i].match_id)
                        &&& after.effects[3 * i + 4] == HostEffect::<ResultRecord>::Publish {
                            event: OracleEvent::ResultSubmitted {
                                match_id: entries[i].match_id,
                                result: entries[i].result,
                            },
                        }
                    }
                &&& after.effects[3 * entries.len() as int + 2] == HostEffect::<ResultRecord>::Publish {
                    event: OracleEvent::BatchSubmitted { count: entries.len() as u32 },
                }
            }
        }),
{
    let r = spec_submit_batch_results(s, entries).1;
    let after = spec_submit_batch_results(s, entries).0;
    if batch_acceptable(s, entries) {
        lemma_acceptable_passes_from(s, entries, 0);
    }
    if r is Ok {
        let admin = s.admin->0;
        lemma_validated_batch(s.results, entries);
        assert forall|i: int| 0 <= i < entries.len() implies spec_get_result(
            after,
            (#[trigger] entries[i]).match_id,
        ).1 == Ok::<ResultRecord, Error>(
            ResultRecord {
                game_id: entries[i].game_id,
                platform: entries[i].platform,
                result: entries[i].result,
                submitted_ledger: s.ledger_sequence,
                submitter: admin,
            },
        ) by {
            lemma_batch_results_entry(s.results, entries, s.ledger_sequence, admin, i);
        }
        assert forall|key: u64| not_in_batch(entries, key) implies #[trigger] after.results.contains_key(
            key,
        ) == s.results.contains_key(key) && after.results[key] == s.results[key] by {
            lemma_batch_results_other(s.results, entries, s.ledger_sequence, admin, key);
        }
        lemma_batch_effects_shape(entries, s.ledger_sequence, admin);
        let fx = batch_effects(entries, s.ledger_sequence, admin);
        let head = seq![opening_request(), HostEffect::<ResultRecord>::RequireAuth { address: admin }];
        let tail = seq![
            HostEffect::<ResultRecord>::Publish {
                event: OracleEvent::BatchSubmitted { count: entries.len() as u32 },
            },
        ];
        assert(after.effects =~= head + fx + tail);
        assert forall|i: int| #![trigger entries[i]] 0 <= i < entries.len() implies {
            &&& after.effects[3 * i + 2] == fx[3 * i]
            &&& after.effects[3 * i + 3] == fx[3 * i + 1]
            &&& after.effects[3 * i + 4] == fx[3 * i + 2]
        } by {}
    }
    if !s.paused && s.admin is Some && entries.len() <= 100 {
        match first_rejection_from(s.results, entries, 0) {
            Some(e) => {
                lemma_rejection_has_witness(s.results, entries, 0, e);
                let k = choose|k: int| 0 <= k < entries.len() && #[trigger] entry_rejection(
                    s.results,
                    entries,
                    k,
                ) == Some(e);
                if e == Error::BatchDuplicateEntry && entries[k].game_id.len() > 0 {
                    assert(duplicated_later(entries, k));
                    let j = choose|j: int| k < j < entries.len() && #[trigger] entries[j].match_id
                        == entries[k].match_id;
                    assert(entries[k].match_id == entries[j].match_id);
                }
            },
            None => {},
        }
    }
}

/// `get_result` returns exactly the stored result of the match, or
/// `ResultNotFound` when there is none; it changes no storage, and on success
/// asks to keep the result alive.
pub proof fn law_get_result_behaviour(s: OracleState, match_id: u64)
    ensures
        ({
            let after = spec_get_result(s, match_id).0;
            let r = spec_get_result(s, match_id).1;
            &&& s.results.contains_key(match_id) ==> r == Ok::<ResultRecord, Error>(s.results[match_id])
                && after.effects == seq![opening_request(), keep_alive_request(match_id)]
            &&& !s.results.contains_key(match_id) ==> r == Err::<ResultRecord, Error>(
                Error::ResultNotFound,
            ) && after.effects == seq![opening_request()]
            &&& same_storage(after, s)
        }),
{
}

/// `has_result` is `true` exactly when a result is stored for the match, that
/// is, exactly when `get_result` succeeds; `has_result_admin` gives the same
/// answer once the contract has an admin, whose authorization it demands,
/// and `Unauthorized` before. Neither changes the storage.
pub proof fn law_has_result_behaviour(s: OracleState, match_id: u64)
    ensures
        spec_has_result(s, match_id).1 == s.results.contains_key(match_id),
        spec_has_result(s, match_id).1 == spec_get_result(s, match_id).1 is Ok,
        spec_has_result(s, match_id).0.effects == seq![opening_request()],
        same_storage(spec_has_result(s, match_id).0, s),
        s.admin is None ==> spec_has_result_admin(s, match_id).1 == Err::<bool, Error>(
            Error::Unauthorized,
        ) && spec_has_result_admin(s, match_id).0.effects == seq![opening_request()],
        s.admin is Some ==> spec_has_result_admin(s, match_id).1 == Ok::<bool, Error>(
            s.results.contains_key(match_id),
        ) && spec_has_result_admin(s, match_id).0.effects == seq![
            opening_request(),
            HostEffect::RequireAuth { address: s.admin->0 },
        ],
        same_storage(spec_has_result_admin(s, match_id).0, s),
{
}

/// `delete_result` fails with `ContractPaused` while paused, then with
/// `Unauthorized` without an admin, then with `ResultNotFound` when no result
/// is stored; otherwise it succeeds, removes exactly that result and
/// publishes `ResultDeleted`.
pub proof fn law_delete_result_behaviour(s: OracleState, match_id: u64)
    ensures
        ({
            let after = spec_delete_result(s, match_id).0;
            let r = spec_delete_result(s, match_id).1;
            &&& s.paused ==> r == Err::<(), Error>(Error::ContractPaused)
            &&& !s.paused && s.admin is None ==> r == Err::<(), Error>(Error::Unauthorized)
            &&& !s.paused && s.admin is Some && !s.results.contains_key(match_id) ==> r == Err::<
                (),
                Error,
            >(Error::ResultNotFound)
            &&& !s.paused && s.admin is Some && s.results.contains_key(match_id) ==> {
                &&& r == Ok::<(), Error>(())
                &&& after.results == s.results.remove(match_id)
                &&& !after.results.contains_key(match_id)
                &&& after.admin == s.admin && after.paused == s.paused
                &&& after.ledger_sequence == s.ledger_sequence
                &&& after.effects == seq![
                    opening_request(),
                    HostEffect::RequireAuth { address: s.admin->0 },
                    HostEffect::RemoveResult { match_id },
                    HostEffect::Publish { event: OracleEvent::ResultDeleted { match_id } },
                ]
            }
            &&& r is Err ==> same_storage(after, s)
        }),
{
}

/// `update_admin(new_admin)` succeeds exactly when the contract has an admin,
/// demands that admin's authorization, makes `new_admin` the admin and
/// publishes `AdminRotated` from the old admin to the new one; without an
/// admin it fails with `Unauthorized`.
pub proof fn law_update_admin_behaviour(s: OracleState, new_admin: String)
    ensures
        ({
            let after = spec_update_admin(s, new_admin).0;
            let r = spec_update_admin(s, new_admin).1;
            &&& s.admin is None ==> r == Err::<(), Error>(Error::Unauthorized) && same_storage(after, s)
            &&& s.admin is Some ==> {
                &&& r == Ok::<(), Error>(())
                &&& after.admin == Some(new_admin)
                &&& after.paused == s.paused && after.results == s.results
                &&& after.ledger_sequence == s.ledger_sequence
                &&& after.effects == seq![
                    opening_request(),
                    HostEffect::RequireAuth { address: s.admin->0 },
                    HostEffect::SetAdmin { admin: new_admin },
                    HostEffect::Publish {
                        event: OracleEvent::AdminRotated { old_admin: s.admin->0, new_admin },
                    },
                ]
            }
        }),
{
}

/// On every contract with an admin, `pause` succeeds and leaves it paused,
/// and `unpause` succeeds and leaves it not paused, whatever the flag was
/// before; both demand the admin's authorization, write the flag and publish
/// their event, and neither touches the admin or the results. Without an
/// admin both fail with `Unauthorized` and change nothing.
pub proof fn law_pause_unpause_behaviour(s: OracleState)
    ensures
        s.admin is Some ==> {
            &&& spec_pause(s).1 == Ok::<(), Error>(())
            &&& spec_pause(s).0.paused
            &&& spec_unpause(s).1 == Ok::<(), Error>(())
            &&& !spec_unpause(s).0.paused
            &&& spec_pause(s).0.admin == s.admin && spec_pause(s).0.results == s.results
            &&& spec_unpause(s).0.admin == s.admin && spec_unpause(s).0.results == s.results
            &&& spec_pause(s).0.ledger_sequence == s.ledger_sequence
            &&& spec_unpause(s).0.ledger_sequence == s.ledger_sequence
            &&& spec_pause(s).0.effects == seq![
                opening_request(),
                HostEffect::RequireAuth { address: s.admin->0 },
                HostEffect::SetPaused { paused: true },
                HostEffect::Publish { event: OracleEvent::Paused },
            ]
            &&& spec_unpause(s).0.effects == seq![
                opening_request(),
                HostEffect::RequireAuth { address: s.admin->0 },
                HostEffect::SetPaused { paused: false },
                HostEffect::Publish { event: OracleEvent::Unpaused },
            ]
        },
        s.admin is None ==> {
            &&& spec_pause(s).1 == Err::<(), Error>(Error::Unauthorized)
            &&& spec_unpause(s).1 == Err::<(), Error>(Error::Unauthorized)
            &&& same_storage(spec_pause(s).0, s)
            &&& same_storage(spec_unpause(s).0, s)
        },
{
}

/// `is_initialized` answers whether the contract has an admin and changes
/// no storage.
pub proof fn law_is_initialized_behaviour(s: OracleState)
    ensures
        spec_is_initialized(s).1 == s.admin is Some,
        spec_is_initialized(s).0.effects == seq![opening_request()],
        same_storage(spec_is_initialized(s).0, s),
{
}

/// Results and deletions are published under the topic `oracle` with
/// `result`, `batch` and `deleted`, initialization under `oracle` / `init`;
/// the admin's actions under `admin` with `admin_rot`, `paused` and
/// `unpaused`, whatever the events carry.
pub proof fn law_event_topics(
    admin: String,
    old_admin: String,
    new_admin: String,
    match_id: u64,
    result: Winner,
    count: u32,
)
    ensures
        spec_topics(OracleEvent::Initialized { admin }) == ("oracle"@, "init"@),
        spec_topics(OracleEvent::ResultSubmitted { match_id, result }) == ("oracle"@, "result"@),
        spec_topics(OracleEvent::BatchSubmitted { count }) == ("oracle"@, "batch"@),
        spec_topics(OracleEvent::ResultDeleted { match_id }) == ("oracle"@, "deleted"@),
        spec_topics(OracleEvent::AdminRotated { old_admin, new_admin }) == ("admin"@, "admin_rot"@),
        spec_topics(OracleEvent::Paused) == ("admin"@, "paused"@),
        spec_topics(OracleEvent::Unpaused) == ("admin"@, "unpaused"@),
{
}

/// The admin and the pause flag are written under `Admin` and `Paused`; a
/// match's result is written, removed and kept alive under
/// `Result(match_id)`; the other requests name no key.
pub proof fn law_storage_keys(
    admin: String,
    paused: bool,
    match_id: u64,
    entry: ResultRecord,
    threshold: u32,
    extend_to: u32,
    event: OracleEvent,
)
    ensures
        spec_storage_key(HostEffect::<ResultRecord>::SetAdmin { admin }) == Some(DataKey::Admin),
        spec_storage_key(HostEffect::<ResultRecord>::SetPaused { paused }) == Some(DataKey::Paused),
        spec_storage_key(HostEffect::SetResult { match_id, entry }) == Some(DataKey::Result(match_id)),
        spec_storage_key(HostEffect::<ResultRecord>::RemoveResult { match_id }) == Some(
            DataKey::Result(match_id),
        ),
        spec_storage_key(HostEffect::<ResultRecord>::ExtendResultTtl { match_id, threshold, extend_to })
            == Some(DataKey::Result(match_id)),
        spec_storage_key(HostEffect::<ResultRecord>::ExtendInstanceTtl { threshold, extend_to })
            is None,
        spec_storage_key(HostEffect::<ResultRecord>::RequireAuth { address: admin }) is None,
        spec_storage_key(HostEffect::<ResultRecord>::Publish { event }) is None,
{
}

} // verus!
