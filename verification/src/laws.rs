//! Properties of the oracle that span its entry points, proved over the
//! transition functions that specify them.

use vstd::prelude::*;

use crate::errors::Error;
use crate::host::{auth_effect, instance_ttl_effect, MAX_BATCH_SIZE};
use crate::oracle::{
    authorized, batch_effects, batch_record, batch_results, duplicated_later, entry_rejection,
    first_rejection_from, opened, recorded_entry, spec_delete_result, spec_get_result,
    spec_has_result, spec_has_result_admin, spec_initialize, spec_is_initialized, spec_pause,
    spec_submit_batch_results, spec_submit_result, spec_unpause, spec_update_admin,
    submit_rejection, OracleState,
};
use crate::types::{BatchRecord, Platform, ResultRecord, Winner};

verus! {

/// Two states hold the same ledger storage and run at the same ledger.
pub open spec fn same_storage(a: OracleState, b: OracleState) -> bool {
    &&& a.admin == b.admin
    &&& a.paused == b.paused
    &&& a.results == b.results
    &&& a.ledger_sequence == b.ledger_sequence
}

/// No two entries of the batch share a match id.
pub open spec fn distinct_match_ids(entries: Seq<BatchRecord>) -> bool {
    forall|a: int, b: int|
        0 <= a < b < entries.len() ==> #[trigger] entries[a].match_id != #[trigger] entries[b].match_id
}

/// No entry of the batch has the match id `key`.
pub open spec fn not_in_batch(entries: Seq<BatchRecord>, key: u64) -> bool {
    forall|i: int| 0 <= i < entries.len() ==> #[trigger] entries[i].match_id != key
}

// ---------------------------------------------------------------------------
// Lemmas on the batch
// ---------------------------------------------------------------------------

/// A batch that passes validation from position `i` on has no rejected entry
/// from `i` on.
pub proof fn lemma_no_rejection_from(
    results: Map<u64, ResultRecord>,
    entries: Seq<BatchRecord>,
    i: nat,
    k: int,
)
    requires
        first_rejection_from(results, entries, i) is None,
        i <= k < entries.len(),
    ensures
        entry_rejection(results, entries, k) is None,
    decreases k - i,
{
    if k > i {
        lemma_no_rejection_from(results, entries, i + 1, k);
    }
}

/// A batch that passes validation holds distinct match ids, none of them
/// already recorded, and no empty game id.
pub proof fn lemma_validated_batch(results: Map<u64, ResultRecord>, entries: Seq<BatchRecord>)
    requires
        first_rejection_from(results, entries, 0) is None,
    ensures
        distinct_match_ids(entries),
        forall|i: int| 0 <= i < entries.len() ==> !results.contains_key(#[trigger] entries[i].match_id),
        forall|i: int| 0 <= i < entries.len() ==> (#[trigger] entries[i]).game_id.len() > 0,
{
    assert forall|a: int, b: int| 0 <= a < b < entries.len() implies #[trigger] entries[a].match_id
        != #[trigger] entries[b].match_id by {
        lemma_no_rejection_from(results, entries, 0, a);
        assert(!duplicated_later(entries, a));
    }
    assert forall|i: int| 0 <= i < entries.len() implies !results.contains_key(
        #[trigger] entries[i].match_id,
    ) by {
        lemma_no_rejection_from(results, entries, 0, i);
    }
    assert forall|i: int| 0 <= i < entries.len() implies (#[trigger] entries[i]).game_id.len() > 0 by {
        lemma_no_rejection_from(results, entries, 0, i);
    }
}

/// After a batch with distinct match ids is recorded, entry `i` is stored
/// under its match id.
pub proof fn lemma_batch_results_entry(
    results: Map<u64, ResultRecord>,
    entries: Seq<BatchRecord>,
    ledger_sequence: u32,
    admin: String,
    i: int,
)
    requires
        distinct_match_ids(entries),
        0 <= i < entries.len(),
    ensures
        batch_results(results, entries, ledger_sequence, admin).contains_key(entries[i].match_id),
        batch_results(results, entries, ledger_sequence, admin)[entries[i].match_id]
            == batch_record(entries[i], ledger_sequence, admin),
    decreases entries.len(),
{
    let last = entries.last();
    if i < entries.len() - 1 {
        let prefix = entries.drop_last();
        assert(prefix[i] == entries[i]);
        assert(distinct_match_ids(prefix)) by {
            assert forall|a: int, b: int| 0 <= a < b < prefix.len() implies #[trigger] prefix[a].match_id
                != #[trigger] prefix[b].match_id by {
                assert(prefix[a] == entries[a]);
                assert(prefix[b] == entries[b]);
            }
        }
        lemma_batch_results_entry(results, prefix, ledger_sequence, admin, i);
        assert(entries[i].match_id != entries[entries.len() - 1].match_id);
    }
}

/// Recording a batch leaves every match id outside the batch as it was.
pub proof fn lemma_batch_results_other(
    results: Map<u64, ResultRecord>,
    entries: Seq<BatchRecord>,
    ledger_sequence: u32,
    admin: String,
    key: u64,
)
    requires
        not_in_batch(entries, key),
    ensures
        batch_results(results, entries, ledger_sequence, admin).contains_key(key)
            == results.contains_key(key),
        batch_results(results, entries, ledger_sequence, admin)[key] == results[key],
    decreases entries.len(),
{
    if entries.len() > 0 {
        let prefix = entries.drop_last();
        assert(not_in_batch(prefix, key)) by {
            assert forall|i: int| 0 <= i < prefix.len() implies #[trigger] prefix[i].match_id != key by {
                assert(prefix[i] == entries[i]);
            }
        }
        lemma_batch_results_other(results, prefix, ledger_sequence, admin, key);
        assert(entries[entries.len() - 1].match_id != key);
    }
}

// ---------------------------------------------------------------------------
// Laws
// ---------------------------------------------------------------------------

/// A result that `submit_result` accepted is what `get_result` then returns:
/// the game id, platform and winner that were submitted, the ledger sequence
/// number of the submission, and the admin as submitter; `has_result` then
/// answers `true`.
pub proof fn law_submitted_result_is_readable(
    s: OracleState,
    match_id: u64,
    game_id: Seq<u8>,
    platform: Platform,
    result: Winner,
)
    requires
        spec_submit_result(s, match_id, game_id, platform, result).1 is Ok,
    ensures
        ({
            let after = spec_submit_result(s, match_id, game_id, platform, result).0;
            &&& s.admin is Some
            &&& spec_get_result(after, match_id).1 == Ok::<ResultRecord, Error>(
                recorded_entry(game_id, platform, result, s.ledger_sequence, s.admin->0),
            )
            &&& spec_has_result(after, match_id).1
        }),
{
}

/// `submit_result` fails with exactly the first error of its documented list
/// that applies (paused, not initialized, already submitted, empty game id),
/// and succeeds when none applies.
pub proof fn law_submit_result_errors(
    s: OracleState,
    match_id: u64,
    game_id: Seq<u8>,
    platform: Platform,
    result: Winner,
)
    ensures
        spec_submit_result(s, match_id, game_id, platform, result).1 == match submit_rejection(
            s,
            match_id,
            game_id,
        ) {
            Some(e) => Err::<(), Error>(e),
            None => Ok(()),
        },
{
}

/// No result can be submitted, singly or in a batch, nor deleted, while the
/// contract is paused: the invocation fails with `ContractPaused` and the
/// storage stays as it was.
pub proof fn law_paused_blocks_writes(
    s: OracleState,
    match_id: u64,
    game_id: Seq<u8>,
    platform: Platform,
    result: Winner,
    entries: Seq<BatchRecord>,
)
    requires
        s.paused,
    ensures
        spec_submit_result(s, match_id, game_id, platform, result).1 == Err::<(), Error>(
            Error::ContractPaused,
        ),
        same_storage(spec_submit_result(s, match_id, game_id, platform, result).0, s),
        spec_submit_batch_results(s, entries).1 == Err::<(), Error>(Error::ContractPaused),
        same_storage(spec_submit_batch_results(s, entries).0, s),
        spec_delete_result(s, match_id).1 == Err::<(), Error>(Error::ContractPaused),
        same_storage(spec_delete_result(s, match_id).0, s),
{
}

/// The contract can be initialized once: afterwards it reports itself
/// initialized, and every further `initialize` fails with
/// `AlreadyInitialized` and keeps the first admin.
pub proof fn law_initialize_once(s: OracleState, first: String, second: String)
    ensures
        ({
            let s1 = spec_initialize(s, first).0;
            let s2 = spec_initialize(s1, second).0;
            &&& spec_is_initialized(s1).1
            &&& s.admin is None ==> s1.admin == Some(first)
            &&& spec_initialize(s1, second).1 == Err::<(), Error>(Error::AlreadyInitialized)
            &&& same_storage(s2, s1)
        }),
{
}

/// A recorded result is never overwritten: whatever `submit_result` or
/// `submit_batch_results` is asked, the result stored under a match id that
/// already has one stays the same.
pub proof fn law_results_are_not_overwritten(
    s: OracleState,
    match_id: u64,
    game_id: Seq<u8>,
    platform: Platform,
    result: Winner,
    entries: Seq<BatchRecord>,
)
    requires
        s.results.contains_key(match_id),
    ensures
        spec_submit_result(s, match_id, game_id, platform, result).1 is Err,
        spec_submit_result(s, match_id, game_id, platform, result).0.results == s.results,
        spec_submit_batch_results(s, entries).0.results.contains_key(match_id),
        spec_submit_batch_results(s, entries).0.results[match_id] == s.results[match_id],
{
    if spec_submit_batch_results(s, entries).1 is Ok {
        lemma_validated_batch(s.results, entries);
        assert(not_in_batch(entries, match_id));
        lemma_batch_results_other(s.results, entries, s.ledger_sequence, s.admin->0, match_id);
    }
}

/// `submit_batch_results` is all or nothing: when it fails the storage stays
/// as it was; when it succeeds every entry is readable through `get_result`
/// as submitted, recorded at the current ledger by the admin, and every other
/// match keeps its result.
pub proof fn law_batch_all_or_nothing(s: OracleState, entries: Seq<BatchRecord>)
    ensures
        spec_submit_batch_results(s, entries).1 is Err ==> same_storage(
            spec_submit_batch_results(s, entries).0,
            s,
        ),
        spec_submit_batch_results(s, entries).1 is Ok ==> {
            let after = spec_submit_batch_results(s, entries).0;
            &&& s.admin is Some
            &&& entries.len() <= MAX_BATCH_SIZE
            &&& distinct_match_ids(entries)
            &&& forall|i: int|
                0 <= i < entries.len() ==> spec_get_result(after, (#[trigger] entries[i]).match_id).1
                    == Ok::<ResultRecord, Error>(
                    batch_record(entries[i], s.ledger_sequence, s.admin->0),
                )
            &&& forall|key: u64|
                not_in_batch(entries, key) ==> #[trigger] after.results.contains_key(key)
                    == s.results.contains_key(key) && after.results[key] == s.results[key]
        },
{
    if spec_submit_batch_results(s, entries).1 is Ok {
        let admin = s.admin->0;
        let after = spec_submit_batch_results(s, entries).0;
        lemma_validated_batch(s.results, entries);
        assert forall|i: int| 0 <= i < entries.len() implies spec_get_result(
            after,
            (#[trigger] entries[i]).match_id,
        ).1 == Ok::<ResultRecord, Error>(batch_record(entries[i], s.ledger_sequence, admin)) by {
            lemma_batch_results_entry(s.results, entries, s.ledger_sequence, admin, i);
        }
        assert forall|key: u64| not_in_batch(entries, key) implies #[trigger] after.results.contains_key(
            key,
        ) == s.results.contains_key(key) && after.results[key] == s.results[key] by {
            lemma_batch_results_other(s.results, entries, s.ledger_sequence, admin, key);
        }
    }
}

/// After `delete_result` succeeds the match has no result (`has_result` is
/// `false`, `get_result` fails with `ResultNotFound`), and no other match is
/// touched.
pub proof fn law_deleted_result_is_gone(s: OracleState, match_id: u64, other: u64)
    requires
        spec_delete_result(s, match_id).1 is Ok,
        other != match_id,
    ensures
        ({
            let after = spec_delete_result(s, match_id).0;
            &&& !spec_has_result(after, match_id).1
            &&& spec_get_result(after, match_id).1 == Err::<ResultRecord, Error>(Error::ResultNotFound)
            &&& after.results.contains_key(other) == s.results.contains_key(other)
            &&& after.results[other] == s.results[other]
        }),
{
}

/// Once the contract is initialized, `has_result_admin` answers exactly as
/// `has_result` does.
pub proof fn law_has_result_admin_agrees(s: OracleState, match_id: u64)
    requires
        s.admin is Some,
    ensures
        spec_has_result_admin(s, match_id).1 == Ok::<bool, Error>(spec_has_result(s, match_id).1),
{
}

/// `pause` sets the flag and `unpause` clears it again; neither touches the
/// admin or the stored results, and after `unpause` results can be
/// submitted again as before the pause.
pub proof fn law_pause_then_unpause(
    s: OracleState,
    match_id: u64,
    game_id: Seq<u8>,
    platform: Platform,
    result: Winner,
)
    requires
        s.admin is Some,
    ensures
        ({
            let paused = spec_pause(s).0;
            let resumed = spec_unpause(paused).0;
            &&& paused.paused
            &&& !resumed.paused
            &&& paused.admin == s.admin && paused.results == s.results
            &&& resumed.admin == s.admin && resumed.results == s.results
            &&& !s.paused ==> spec_submit_result(resumed, match_id, game_id, platform, result)
                == spec_submit_result(s, match_id, game_id, platform, result)
        }),
{
    let paused = spec_pause(s).0;
    let resumed = spec_unpause(paused).0;
    if !s.paused {
        assert(opened(resumed) =~= opened(s));
    }
}

/// After `update_admin` succeeds, the new admin is the one whose
/// authorization every admin-gated entry point demands, and the one recorded
/// as submitter of new results.
pub proof fn law_admin_rotation(s: OracleState, new_admin: String)
    requires
        spec_update_admin(s, new_admin).1 is Ok,
    ensures
        ({
            let after = spec_update_admin(s, new_admin).0;
            &&& s.admin is Some
            &&& spec_update_admin(s, new_admin).0.effects[1] == auth_effect(s.admin->0)
            &&& after.admin == Some(new_admin)
            &&& spec_pause(after).0.effects[1] == auth_effect(new_admin)
            &&& after.results == s.results && after.paused == s.paused
        }),
{
}

/// Every entry point first extends the contract instance's time to live.
pub proof fn law_every_invocation_extends_instance_ttl(
    s: OracleState,
    admin: String,
    match_id: u64,
    game_id: Seq<u8>,
    platform: Platform,
    result: Winner,
    entries: Seq<BatchRecord>,
)
    ensures
        spec_initialize(s, admin).0.effects[0] == instance_ttl_effect(),
        spec_submit_result(s, match_id, game_id, platform, result).0.effects[0] == instance_ttl_effect(),
        spec_submit_batch_results(s, entries).0.effects[0] == instance_ttl_effect(),
        spec_get_result(s, match_id).0.effects[0] == instance_ttl_effect(),
        spec_has_result(s, match_id).0.effects[0] == instance_ttl_effect(),
        spec_has_result_admin(s, match_id).0.effects[0] == instance_ttl_effect(),
        spec_delete_result(s, match_id).0.effects[0] == instance_ttl_effect(),
        spec_update_admin(s, admin).0.effects[0] == instance_ttl_effect(),
        spec_pause(s).0.effects[0] == instance_ttl_effect(),
        spec_unpause(s).0.effects[0] == instance_ttl_effect(),
        spec_is_initialized(s).0.effects[0] == instance_ttl_effect(),
{
}

/// Every entry point that changes the storage, except `initialize`, succeeds
/// only with the admin's authorization, demanded right after the time-to-live
/// extension.
pub proof fn law_writes_demand_admin_auth(
    s: OracleState,
    new_admin: String,
    match_id: u64,
    game_id: Seq<u8>,
    platform: Platform,
    result: Winner,
    entries: Seq<BatchRecord>,
)
    ensures
        spec_submit_result(s, match_id, game_id, platform, result).1 is Ok ==> s.admin is Some
            && spec_submit_result(s, match_id, game_id, platform, result).0.effects[1]
            == auth_effect(s.admin->0),
        spec_submit_batch_results(s, entries).1 is Ok ==> s.admin is Some
            && spec_submit_batch_results(s, entries).0.effects[1] == auth_effect(s.admin->0),
        spec_delete_result(s, match_id).1 is Ok ==> s.admin is Some && spec_delete_result(
            s,
            match_id,
        ).0.effects[1] == auth_effect(s.admin->0),
        spec_update_admin(s, new_admin).1 is Ok ==> s.admin is Some && spec_update_admin(
            s,
            new_admin,
        ).0.effects[1] == auth_effect(s.admin->0),
        spec_pause(s).1 is Ok ==> s.admin is Some && spec_pause(s).0.effects[1] == auth_effect(
            s.admin->0,
        ),
        spec_unpause(s).1 is Ok ==> s.admin is Some && spec_unpause(s).0.effects[1] == auth_effect(
            s.admin->0,
        ),
{
    if spec_submit_batch_results(s, entries).1 is Ok {
        let admin = s.admin->0;
        let s1 = authorized(opened(s), admin);
        assert((s1.effects + batch_effects(entries, s.ledger_sequence, admin))[1] == s1.effects[1]);
    }
}

/// The read-only entry points leave the storage as it was.
pub proof fn law_reads_leave_storage_unchanged(s: OracleState, match_id: u64)
    ensures
        same_storage(spec_get_result(s, match_id).0, s),
        same_storage(spec_has_result(s, match_id).0, s),
        same_storage(spec_has_result_admin(s, match_id).0, s),
        same_storage(spec_is_initialized(s).0, s),
{
}

/// An invocation that fails leaves the storage as it was.
pub proof fn law_failures_leave_storage_unchanged(
    s: OracleState,
    admin: String,
    match_id: u64,
    game_id: Seq<u8>,
    platform: Platform,
    result: Winner,
    entries: Seq<BatchRecord>,
)
    ensures
        spec_initialize(s, admin).1 is Err ==> same_storage(spec_initialize(s, admin).0, s),
        spec_submit_result(s, match_id, game_id, platform, result).1 is Err ==> same_storage(
            spec_submit_result(s, match_id, game_id, platform, result).0,
            s,
        ),
        spec_submit_batch_results(s, entries).1 is Err ==> same_storage(
            spec_submit_batch_results(s, entries).0,
            s,
        ),
        spec_get_result(s, match_id).1 is Err ==> same_storage(spec_get_result(s, match_id).0, s),
        spec_has_result_admin(s, match_id).1 is Err ==> same_storage(
            spec_has_result_admin(s, match_id).0,
            s,
        ),
        spec_delete_result(s, match_id).1 is Err ==> same_storage(spec_delete_result(s, match_id).0, s),
        spec_update_admin(s, admin).1 is Err ==> same_storage(spec_update_admin(s, admin).0, s),
        spec_pause(s).1 is Err ==> same_storage(spec_pause(s).0, s),
        spec_unpause(s).1 is Err ==> same_storage(spec_unpause(s).0, s),
{
}


// ---------------------------------------------------------------------------
// Sequences of invocations
// ---------------------------------------------------------------------------

/// An invocation of an entry point, with its arguments.
pub enum Call {
    Initialize(String),
    SubmitResult(u64, Seq<u8>, Platform, Winner),
    SubmitBatchResults(Seq<BatchRecord>),
    GetResult(u64),
    HasResult(u64),
    HasResultAdmin(u64),
    DeleteResult(u64),
    UpdateAdmin(String),
    Pause,
    Unpause,
    IsInitialized,
}

/// The state after one invocation.
pub open spec fn step(s: OracleState, c: Call) -> OracleState {
    match c {
        Call::Initialize(admin) => spec_initialize(s, admin).0,
        Call::SubmitResult(match_id, game_id, platform, result) => spec_submit_result(
            s,
            match_id,
            game_id,
            platform,
            result,
        ).0,
        Call::SubmitBatchResults(entries) => spec_submit_batch_results(s, entries).0,
        Call::GetResult(match_id) => spec_get_result(s, match_id).0,
        Call::HasResult(match_id) => spec_has_result(s, match_id).0,
        Call::HasResultAdmin(match_id) => spec_has_result_admin(s, match_id).0,
        Call::DeleteResult(match_id) => spec_delete_result(s, match_id).0,
        Call::UpdateAdmin(admin) => spec_update_admin(s, admin).0,
        Call::Pause => spec_pause(s).0,
        Call::Unpause => spec_unpause(s).0,
        Call::IsInitialized => spec_is_initialized(s).0,
    }
}

/// The state after the invocations, in order.
pub open spec fn run(s: OracleState, calls: Seq<Call>) -> OracleState
    decreases calls.len(),
{
    if calls.len() == 0 {
        s
    } else {
        step(run(s, calls.drop_last()), calls.last())
    }
}

/// The single submission of a batch entry.
pub open spec fn submit_call(e: BatchRecord) -> Call {
    Call::SubmitResult(e.match_id, e.game_id, e.platform, e.result)
}

/// The single submissions of the batch entries, in order.
pub open spec fn submit_calls(entries: Seq<BatchRecord>) -> Seq<Call> {
    entries.map_values(|e: BatchRecord| submit_call(e))
}

/// One invocation other than deleting `match_id` keeps its stored result.
pub proof fn lemma_step_keeps_result(s: OracleState, c: Call, match_id: u64)
    requires
        s.results.contains_key(match_id),
        c != Call::DeleteResult(match_id),
    ensures
        step(s, c).results.contains_key(match_id),
        step(s, c).results[match_id] == s.results[match_id],
{
    match c {
        Call::SubmitBatchResults(entries) => {
            law_results_are_not_overwritten(
                s,
                match_id,
                Seq::empty(),
                Platform::Lichess,
                Winner::Draw,
                entries,
            );
        },
        _ => {},
    }
}

/// A stored result reads back unchanged after any sequence of invocations
/// that does not delete it.
pub proof fn law_stored_result_persists(s: OracleState, calls: Seq<Call>, match_id: u64)
    requires
        s.results.contains_key(match_id),
        forall|i: int| 0 <= i < calls.len() ==> #[trigger] calls[i] != Call::DeleteResult(match_id),
    ensures
        run(s, calls).results.contains_key(match_id),
        run(s, calls).results[match_id] == s.results[match_id],
        spec_get_result(run(s, calls), match_id).1 == Ok::<ResultRecord, Error>(s.results[match_id]),
    decreases calls.len(),
{
    if calls.len() > 0 {
        let prefix = calls.drop_last();
        assert forall|i: int| 0 <= i < prefix.len() implies #[trigger] prefix[i] != Call::DeleteResult(
            match_id,
        ) by {
            assert(prefix[i] == calls[i]);
        }
        law_stored_result_persists(s, prefix, match_id);
        assert(calls.last() == calls[calls.len() - 1]);
        lemma_step_keeps_result(run(s, prefix), calls.last(), match_id);
    }
}

/// Submitting the first `n` entries of a validated batch one by one
/// succeeds for each of them and records what the batch records.
pub proof fn lemma_sequential_prefix(s: OracleState, entries: Seq<BatchRecord>, n: nat)
    requires
        spec_submit_batch_results(s, entries).1 is Ok,
        n <= entries.len(),
    ensures
        ({
            let t = run(s, submit_calls(entries.take(n as int)));
            &&& t.admin == s.admin && t.paused == s.paused && t.ledger_sequence == s.ledger_sequence
            &&& t.results == batch_results(s.results, entries.take(n as int), s.ledger_sequence, s.admin->0)
        }),
        forall|i: int|
            0 <= i < n ==> (#[trigger] spec_submit_result(
                run(s, submit_calls(entries.take(i))),
                entries[i].match_id,
                entries[i].game_id,
                entries[i].platform,
                entries[i].result,
            )).1 == Ok::<(), Error>(()),
    decreases n,
{
    let admin = s.admin->0;
    lemma_validated_batch(s.results, entries);
    if n == 0 {
        assert(submit_calls(entries.take(0)) =~= Seq::<Call>::empty());
        assert(entries.take(0) =~= Seq::<BatchRecord>::empty());
    } else {
        let m = (n - 1) as nat;
        lemma_sequential_prefix(s, entries, m);
        let prev = entries.take(m as int);
        let cur = entries.take(n as int);
        let t = run(s, submit_calls(prev));
        let e = entries[m as int];
        assert(submit_calls(cur).drop_last() =~= submit_calls(prev));
        assert(submit_calls(cur).last() == submit_call(e));
        assert(cur.drop_last() =~= prev);
        assert(cur.last() == e);
        assert(not_in_batch(prev, e.match_id)) by {
            assert forall|i: int| 0 <= i < prev.len() implies #[trigger] prev[i].match_id != e.match_id by {
                assert(prev[i] == entries[i]);
            }
        }
        lemma_batch_results_other(s.results, prev, s.ledger_sequence, admin, e.match_id);
        assert(!t.results.contains_key(e.match_id));
        assert(spec_submit_result(t, e.match_id, e.game_id, e.platform, e.result).1 == Ok::<(), Error>(()));
        assert forall|i: int| 0 <= i < n implies (#[trigger] spec_submit_result(
            run(s, submit_calls(entries.take(i))),
            entries[i].match_id,
            entries[i].game_id,
            entries[i].platform,
            entries[i].result,
        )).1 == Ok::<(), Error>(()) by {
            if i == m {
                assert(entries.take(i) == prev);
            }
        }
    }
}

/// A batch that `submit_batch_results` accepts records exactly what the same
/// entries submitted one by one with `submit_result`, in order, record; and
/// each of those single submissions succeeds.
pub proof fn law_batch_is_sequential_submits(s: OracleState, entries: Seq<BatchRecord>)
    requires
        spec_submit_batch_results(s, entries).1 is Ok,
    ensures
        run(s, submit_calls(entries)).results == spec_submit_batch_results(s, entries).0.results,
        forall|i: int|
            0 <= i < entries.len() ==> (#[trigger] spec_submit_result(
                run(s, submit_calls(entries.take(i))),
                entries[i].match_id,
                entries[i].game_id,
                entries[i].platform,
                entries[i].result,
            )).1 == Ok::<(), Error>(()),
{
    lemma_sequential_prefix(s, entries, entries.len());
    assert(entries.take(entries.len() as int) =~= entries);
}

} // verus!
