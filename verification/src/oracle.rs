//! The oracle contract: its ledger state and the rules of its entry points.
//!
//! Each entry point is one invocation of the contract. It reads the ledger
//! state held in [`OracleContract`], decides, updates that state and records,
//! in order, what it asks of the ledger host (see [`HostEffect`]). The
//! specification of every entry point is a transition function on
//! [`OracleState`] that returns the next state and the entry point's result.

use vstd::prelude::*;

use crate::errors::Error;
use crate::host::{
    auth_effect, instance_ttl_effect, result_ttl_effect, HostEffect, OracleEvent,
    INSTANCE_TTL_THRESHOLD, MATCH_TTL_LEDGERS, MAX_BATCH_SIZE,
};
use crate::types::{BatchRecord, BatchResultEntry, Platform, ResultEntry, ResultRecord, Winner};
use std::collections::HashMap;

verus! {

broadcast use vstd::std_specs::hash::group_hash_axioms;

/// The abstract state of the oracle: its ledger storage, the current ledger
/// sequence number, and the host requests of the latest invocation.
#[verifier::ext_equal]
pub struct OracleState {
    /// Instance storage `Admin`; `None` until the contract is initialized.
    pub admin: Option<String>,
    /// Instance storage `Paused`; an absent flag reads as `false`.
    pub paused: bool,
    /// Persistent storage `Result(match_id)`.
    pub results: Map<u64, ResultRecord>,
    /// The ledger sequence number of the current invocation.
    pub ledger_sequence: u32,
    /// What the latest invocation asked of the host, in order.
    pub effects: Seq<HostEffect<ResultRecord>>,
}

// ---------------------------------------------------------------------------
// Transition functions
// ---------------------------------------------------------------------------

/// The state when an invocation starts: its only host request so far is the
/// extension of the instance's time to live.
pub open spec fn opened(s: OracleState) -> OracleState {
    OracleState { effects: seq![instance_ttl_effect()], ..s }
}

/// `s` with an authorization demand on `admin` appended to its host requests.
pub open spec fn authorized(s: OracleState, admin: String) -> OracleState {
    OracleState { effects: s.effects.push(auth_effect(admin)), ..s }
}

/// The entry that the oracle records for a submitted result.
pub open spec fn recorded_entry(
    game_id: Seq<u8>,
    platform: Platform,
    result: Winner,
    ledger_sequence: u32,
    submitter: String,
) -> ResultRecord {
    ResultRecord { game_id, platform, result, submitted_ledger: ledger_sequence, submitter }
}

/// The host requests that record one result.
pub open spec fn record_effects(match_id: u64, entry: ResultRecord) -> Seq<HostEffect<ResultRecord>> {
    seq![
        HostEffect::SetResult { match_id, entry },
        result_ttl_effect(match_id),
        HostEffect::Publish { event: OracleEvent::ResultSubmitted { match_id, result: entry.result } },
    ]
}

/// The transition of `initialize`: the next state and the result.
pub open spec fn spec_initialize(s: OracleState, admin: String) -> (OracleState, Result<(), Error>) {
    let s0 = opened(s);
    if s.admin is Some {
        (s0, Err(Error::AlreadyInitialized))
    } else {
        (
            OracleState {
                admin: Some(admin),
                effects: s0.effects + seq![
                    HostEffect::SetAdmin { admin },
                    HostEffect::Publish { event: OracleEvent::Initialized { admin } },
                ],
                ..s0
            },
            Ok(()),
        )
    }
}

/// The error with which `submit_result` rejects its arguments, if any, in the
/// order in which the checks are made.
pub open spec fn submit_rejection(s: OracleState, match_id: u64, game_id: Seq<u8>) -> Option<Error> {
    if s.paused {
        Some(Error::ContractPaused)
    } else if s.admin is None {
        Some(Error::Unauthorized)
    } else if s.results.contains_key(match_id) {
        Some(Error::AlreadySubmitted)
    } else if game_id.len() == 0 {
        Some(Error::InvalidGameId)
    } else {
        None
    }
}

/// The transition of `submit_result`: the next state and the result.
pub open spec fn spec_submit_result(
    s: OracleState,
    match_id: u64,
    game_id: Seq<u8>,
    platform: Platform,
    result: Winner,
) -> (OracleState, Result<(), Error>) {
    let s0 = opened(s);
    if s.paused {
        (s0, Err(Error::ContractPaused))
    } else if s.admin is None {
        (s0, Err(Error::Unauthorized))
    } else {
        let admin = s.admin->0;
        let s1 = authorized(s0, admin);
        if s.results.contains_key(match_id) {
            (s1, Err(Error::AlreadySubmitted))
        } else if game_id.len() == 0 {
            (s1, Err(Error::InvalidGameId))
        } else {
            let entry = recorded_entry(game_id, platform, result, s.ledger_sequence, admin);
            (
                OracleState {
                    results: s.results.insert(match_id, entry),
                    effects: s1.effects + record_effects(match_id, entry),
                    ..s1
                },
                Ok(()),
            )
        }
    }
}

/// Whether another entry after position `i` of the batch has the match id of
/// entry `i`.
pub open spec fn duplicated_later(entries: Seq<BatchRecord>, i: int) -> bool {
    exists|j: int| i < j < entries.len() && #[trigger] entries[j].match_id == entries[i].match_id
}

/// The error with which the batch validation rejects entry `i`, if any.
pub open spec fn entry_rejection(
    results: Map<u64, ResultRecord>,
    entries: Seq<BatchRecord>,
    i: int,
) -> Option<Error> {
    if entries[i].game_id.len() == 0 {
        Some(Error::InvalidGameId)
    } else if duplicated_later(entries, i) {
        Some(Error::BatchDuplicateEntry)
    } else if results.contains_key(entries[i].match_id) {
        Some(Error::AlreadySubmitted)
    } else {
        None
    }
}

/// The first rejection among entries `i..` of the batch, in order.
pub open spec fn first_rejection_from(
    results: Map<u64, ResultRecord>,
    entries: Seq<BatchRecord>,
    i: nat,
) -> Option<Error>
    decreases entries.len() - i,
{
    if i >= entries.len() {
        None
    } else {
        match entry_rejection(results, entries, i as int) {
            Some(e) => Some(e),
            None => first_rejection_from(results, entries, i + 1),
        }
    }
}

/// The entry that the oracle records for a batch entry.
pub open spec fn batch_record(e: BatchRecord, ledger_sequence: u32, admin: String) -> ResultRecord {
    recorded_entry(e.game_id, e.platform, e.result, ledger_sequence, admin)
}

/// `results` after recording the batch entries in order.
pub open spec fn batch_results(
    results: Map<u64, ResultRecord>,
    entries: Seq<BatchRecord>,
    ledger_sequence: u32,
    admin: String,
) -> Map<u64, ResultRecord>
    decreases entries.len(),
{
    if entries.len() == 0 {
        results
    } else {
        let last = entries.last();
        batch_results(results, entries.drop_last(), ledger_sequence, admin).insert(
            last.match_id,
            batch_record(last, ledger_sequence, admin),
        )
    }
}

/// The host requests that record the batch entries in order.
pub open spec fn batch_effects(
    entries: Seq<BatchRecord>,
    ledger_sequence: u32,
    admin: String,
) -> Seq<HostEffect<ResultRecord>>
    decreases entries.len(),
{
    if entries.len() == 0 {
        Seq::empty()
    } else {
        let last = entries.last();
        batch_effects(entries.drop_last(), ledger_sequence, admin) + record_effects(
            last.match_id,
            batch_record(last, ledger_sequence, admin),
        )
    }
}

/// The error with which `submit_batch_results` rejects its arguments, if any.
pub open spec fn batch_rejection(s: OracleState, entries: Seq<BatchRecord>) -> Option<Error> {
    if s.paused {
        Some(Error::ContractPaused)
    } else if s.admin is None {
        Some(Error::Unauthorized)
    } else if entries.len() > MAX_BATCH_SIZE {
        Some(Error::BatchTooLarge)
    } else {
        first_rejection_from(s.results, entries, 0)
    }
}

/// The transition of `submit_batch_results`: the next state and the result.
pub open spec fn spec_submit_batch_results(s: OracleState, entries: Seq<BatchRecord>) -> (
    OracleState,
    Result<(), Error>,
) {
    let s0 = opened(s);
    if s.paused {
        (s0, Err(Error::ContractPaused))
    } else if s.admin is None {
        (s0, Err(Error::Unauthorized))
    } else {
        let admin = s.admin->0;
        let s1 = authorized(s0, admin);
        if entries.len() > MAX_BATCH_SIZE {
            (s1, Err(Error::BatchTooLarge))
        } else {
            match first_rejection_from(s.results, entries, 0) {
                Some(e) => (s1, Err(e)),
                None => (
                    OracleState {
                        results: batch_results(s.results, entries, s.ledger_sequence, admin),
                        effects: s1.effects + batch_effects(entries, s.ledger_sequence, admin)
                            + seq![
                            HostEffect::Publish {
                                event: OracleEvent::BatchSubmitted { count: entries.len() as u32 },
                            },
                        ],
                        ..s1
                    },
                    Ok(()),
                ),
            }
        }
    }
}

/// The transition of `get_result`: the next state and the result.
pub open spec fn spec_get_result(s: OracleState, match_id: u64) -> (
    OracleState,
    Result<ResultRecord, Error>,
) {
    let s0 = opened(s);
    if s.results.contains_key(match_id) {
        (
            OracleState { effects: s0.effects.push(result_ttl_effect(match_id)), ..s0 },
            Ok(s.results[match_id]),
        )
    } else {
        (s0, Err(Error::ResultNotFound))
    }
}

/// The transition of `has_result`: the next state and the result.
pub open spec fn spec_has_result(s: OracleState, match_id: u64) -> (OracleState, bool) {
    (opened(s), s.results.contains_key(match_id))
}

/// The transition of `has_result_admin`: the next state and the result.
pub open spec fn spec_has_result_admin(s: OracleState, match_id: u64) -> (
    OracleState,
    Result<bool, Error>,
) {
    let s0 = opened(s);
    match s.admin {
        None => (s0, Err(Error::Unauthorized)),
        Some(admin) => (authorized(s0, admin), Ok(s.results.contains_key(match_id))),
    }
}

/// The transition of `delete_result`: the next state and the result.
pub open spec fn spec_delete_result(s: OracleState, match_id: u64) -> (
    OracleState,
    Result<(), Error>,
) {
    let s0 = opened(s);
    if s.paused {
        (s0, Err(Error::ContractPaused))
    } else {
        match s.admin {
            None => (s0, Err(Error::Unauthorized)),
            Some(admin) => {
                let s1 = authorized(s0, admin);
                if !s.results.contains_key(match_id) {
                    (s1, Err(Error::ResultNotFound))
                } else {
                    (
                        OracleState {
                            results: s.results.remove(match_id),
                            effects: s1.effects + seq![
                                HostEffect::RemoveResult { match_id },
                                HostEffect::Publish { event: OracleEvent::ResultDeleted { match_id } },
                            ],
                            ..s1
                        },
                        Ok(()),
                    )
                }
            },
        }
    }
}

/// The transition of `update_admin`: the next state and the result.
pub open spec fn spec_update_admin(s: OracleState, new_admin: String) -> (
    OracleState,
    Result<(), Error>,
) {
    let s0 = opened(s);
    match s.admin {
        None => (s0, Err(Error::Unauthorized)),
        Some(old_admin) => {
            let s1 = authorized(s0, old_admin);
            (
                OracleState {
                    admin: Some(new_admin),
                    effects: s1.effects + seq![
                        HostEffect::SetAdmin { admin: new_admin },
                        HostEffect::Publish { event: OracleEvent::AdminRotated { old_admin, new_admin } },
                    ],
                    ..s1
                },
                Ok(()),
            )
        },
    }
}

/// The transition of `pause` (`paused == true`) and `unpause` (`paused == false`).
pub open spec fn spec_set_paused(s: OracleState, paused: bool) -> (OracleState, Result<(), Error>) {
    let s0 = opened(s);
    match s.admin {
        None => (s0, Err(Error::Unauthorized)),
        Some(admin) => {
            let s1 = authorized(s0, admin);
            let event = if paused {
                OracleEvent::Paused
            } else {
                OracleEvent::Unpaused
            };
            (
                OracleState {
                    paused,
                    effects: s1.effects + seq![
                        HostEffect::SetPaused { paused },
                        HostEffect::Publish { event },
                    ],
                    ..s1
                },
                Ok(()),
            )
        },
    }
}

/// The transition of `pause`: the next state and the result.
pub open spec fn spec_pause(s: OracleState) -> (OracleState, Result<(), Error>) {
    spec_set_paused(s, true)
}

/// The transition of `unpause`: the next state and the result.
pub open spec fn spec_unpause(s: OracleState) -> (OracleState, Result<(), Error>) {
    spec_set_paused(s, false)
}

/// The transition of `is_initialized`: the next state and the result.
pub open spec fn spec_is_initialized(s: OracleState) -> (OracleState, bool) {
    (opened(s), s.admin is Some)
}

/// The values of the batch entries.
pub open spec fn batch_view(entries: Seq<BatchResultEntry>) -> Seq<BatchRecord> {
    entries.map_values(|e: BatchResultEntry| e@)
}

/// The value of an entry point's result that holds a stored entry.
pub open spec fn entry_result_view(r: Result<ResultEntry, Error>) -> Result<ResultRecord, Error> {
    match r {
        Ok(e) => Ok(e@),
        Err(e) => Err(e),
    }
}

// ---------------------------------------------------------------------------
// The contract
// ---------------------------------------------------------------------------

/// The oracle contract together with its ledger state.
pub struct OracleContract {
    admin: Option<String>,
    paused: bool,
    results: HashMap<u64, ResultEntry>,
    ledger_sequence: u32,
    effects: Vec<HostEffect<ResultEntry>>,
}

impl View for OracleContract {
    type V = OracleState;

    closed spec fn view(&self) -> OracleState {
        OracleState {
            admin: self.admin,
            paused: self.paused,
            results: self.results@.map_values(|e: ResultEntry| e@),
            ledger_sequence: self.ledger_sequence,
            effects: self.effects@.map_values(|h: HostEffect<ResultEntry>| h@),
        }
    }
}

impl OracleContract {
    /// A contract on an empty ledger at sequence number 0.
    pub fn new() -> (c: Self)
        ensures
            c@ == (OracleState {
                admin: None,
                paused: false,
                results: Map::empty(),
                ledger_sequence: 0,
                effects: Seq::empty(),
            }),
    {
        let c = OracleContract {
            admin: None,
            paused: false,
            results: HashMap::new(),
            ledger_sequence: 0,
            effects: Vec::new(),
        };
        assert(c@.results =~= Map::empty());
        assert(c@.effects =~= Seq::empty());
        c
    }

    /// Sets the ledger sequence number that the next invocations run at.
    pub fn set_ledger_sequence(&mut self, sequence: u32)
        ensures
            final(self)@ == (OracleState { ledger_sequence: sequence, ..old(self)@ }),
    {
        self.ledger_sequence = sequence;
    }

    /// Loads the stored admin into the ledger state.
    pub fn restore_admin(&mut self, admin: String)
        ensures
            final(self)@ == (OracleState { admin: Some(admin), ..old(self)@ }),
    {
        self.admin = Some(admin);
    }

    /// Loads the stored pause flag into the ledger state.
    pub fn restore_paused(&mut self, paused: bool)
        ensures
            final(self)@ == (OracleState { paused, ..old(self)@ }),
    {
        self.paused = paused;
    }

    /// Loads a stored match result into the ledger state.
    pub fn restore_result(&mut self, match_id: u64, entry: ResultEntry)
        ensures
            final(self)@ == (OracleState {
                results: old(self)@.results.insert(match_id, entry@),
                ..old(self)@
            }),
    {
        self.store(match_id, entry);
    }

    /// What the latest invocation asked of the host, in order.
    pub fn effects(&self) -> (e: &Vec<HostEffect<ResultEntry>>)
        ensures
            e@.map_values(|h: HostEffect<ResultEntry>| h@) == self@.effects,
    {
        &self.effects
    }

    /// Whether the pause flag is set.
    pub fn is_paused(&self) -> (p: bool)
        ensures
            p == self@.paused,
    {
        self.paused
    }

    /// The ledger sequence number that invocations run at.
    pub fn ledger_sequence(&self) -> (n: u32)
        ensures
            n == self@.ledger_sequence,
    {
        self.ledger_sequence
    }

    /// Whether an invocation gets past the pause check (when `checks_pause`)
    /// and the admin check, and so goes on to read stored results.
    pub fn passes_admin_gate(&self, checks_pause: bool) -> (b: bool)
        ensures
            b == ((!checks_pause || !self@.paused) && self@.admin is Some),
    {
        (!checks_pause || !self.paused) && self.admin.is_some()
    }

    /// The match ids whose stored results `submit_batch_results(entries)`
    /// reads, in the order it reads them, as far as they follow from the
    /// entries alone: none when the pause check, the admin check or the size
    /// check fails; otherwise the ids of the entries in order, up to the first
    /// entry with an empty game id or a later duplicate. The validation stops
    /// at the first of these ids that already has a result.
    pub fn batch_reads(&self, entries: &Vec<BatchResultEntry>) -> (ids: Vec<u64>)
        ensures
            ({
                let es = batch_view(entries@);
                if self@.paused || self@.admin is None || es.len() > MAX_BATCH_SIZE {
                    ids@.len() == 0
                } else {
                    &&& ids@.len() <= es.len()
                    &&& forall|k: int|
                        0 <= k < ids@.len() ==> #[trigger] ids@[k] == es[k].match_id && es[k].game_id.len() > 0
                            && !duplicated_later(es, k)
                    &&& ids@.len() < es.len() ==> (es[ids@.len() as int].game_id.len() == 0
                        || duplicated_later(es, ids@.len() as int))
                }
            }),
    {
        let mut ids: Vec<u64> = Vec::new();
        if !self.passes_admin_gate(true) || entries.len() > MAX_BATCH_SIZE as usize {
            return ids;
        }
        let ghost es = batch_view(entries@);
        let len = entries.len();
        let mut i: usize = 0;
        while i < len
            invariant
                len == entries@.len(),
                es == batch_view(entries@),
                es.len() == len,
                !self@.paused && self@.admin is Some && len <= MAX_BATCH_SIZE,
                i <= len,
                ids@.len() == i,
                forall|k: int|
                    0 <= k < i ==> #[trigger] ids@[k] == es[k].match_id && es[k].game_id.len() > 0
                        && !duplicated_later(es, k),
            decreases len - i,
        {
            assert(es[i as int] == entries@[i as int]@);
            if entries[i].game_id.len() == 0 || Self::has_later_duplicate(entries, i) {
                return ids;
            }
            let ghost before = ids@;
            assert(es[i as int].game_id.len() > 0);
            assert(!duplicated_later(es, i as int));
            ids.push(entries[i].match_id);
            assert(ids@[i as int] == es[i as int].match_id);
            assert forall|k: int| 0 <= k <= i implies #[trigger] ids@[k] == es[k].match_id && es[k].game_id.len()
                > 0 && !duplicated_later(es, k) by {
                if k < i {
                    assert(ids@[k] == before[k]);
                }
            }
            i += 1;
        }
        ids
    }

    /// Appends a host request to the current invocation's.
    fn record(&mut self, effect: HostEffect<ResultEntry>)
        ensures
            final(self)@ == (OracleState { effects: old(self)@.effects.push(effect@), ..old(self)@ }),
    {
        self.effects.push(effect);
        assert(self@.effects =~= old(self)@.effects.push(effect@));
    }

    /// Stores a result under a match id.
    fn store(&mut self, match_id: u64, entry: ResultEntry)
        ensures
            final(self)@ == (OracleState {
                results: old(self)@.results.insert(match_id, entry@),
                ..old(self)@
            }),
    {
        self.results.insert(match_id, entry);
        assert(self@.results =~= old(self)@.results.insert(match_id, entry@));
    }

    /// Removes the result of a match id.
    fn erase(&mut self, match_id: u64)
        ensures
            final(self)@ == (OracleState {
                results: old(self)@.results.remove(match_id),
                ..old(self)@
            }),
    {
        self.results.remove(&match_id);
        assert(self@.results =~= old(self)@.results.remove(match_id));
    }

    /// Whether a result is stored for the match id.
    fn stored(&self, match_id: u64) -> (b: bool)
        ensures
            b == self@.results.contains_key(match_id),
    {
        self.results.contains_key(&match_id)
    }

    /// Starts an invocation: forgets the host requests of the previous one and
    /// extends the instance's time to live, so that `Admin` and `Paused`
    /// never expire.
    fn extend_instance_ttl(&mut self)
        ensures
            final(self)@ == opened(old(self)@),
    {
        self.effects = Vec::new();
        assert(self@.effects =~= Seq::empty());
        self.record(
            HostEffect::ExtendInstanceTtl {
                threshold: INSTANCE_TTL_THRESHOLD,
                extend_to: MATCH_TTL_LEDGERS,
            },
        );
        assert(self@.effects =~= seq![instance_ttl_effect()]);
    }

    /// Reads the stored admin and demands its authorization.
    fn require_admin(&mut self) -> (r: Result<String, Error>)
        ensures
            match old(self)@.admin {
                None => r == Err::<String, Error>(Error::Unauthorized) && final(self)@ == old(self)@,
                Some(admin) => r == Ok::<String, Error>(admin) && final(self)@ == authorized(
                    old(self)@,
                    admin,
                ),
            },
    {
        match &self.admin {
            None => Err(Error::Unauthorized),
            Some(admin) => {
                let admin = admin.clone();
                self.record(HostEffect::RequireAuth { address: admin.clone() });
                Ok(admin)
            },
        }
    }

    /// Initialize with a trusted admin (the off-chain oracle service).
    ///
    /// # Errors
    /// - [`Error::AlreadyInitialized`]: the contract has already been initialized.
    pub fn initialize(&mut self, admin: String) -> (r: Result<(), Error>)
        ensures
            final(self)@ == spec_initialize(old(self)@, admin).0,
            r == spec_initialize(old(self)@, admin).1,
    {
        self.extend_instance_ttl();
        if self.admin.is_some() {
            return Err(Error::AlreadyInitialized);
        }
        self.admin = Some(admin.clone());
        self.record(HostEffect::SetAdmin { admin: admin.clone() });
        self.record(HostEffect::Publish { event: OracleEvent::Initialized { admin } });
        Ok(())
    }

    /// Admin submits a verified match result on-chain.
    /// No result can be submitted while the contract is paused.
    ///
    /// # Errors
    /// - [`Error::ContractPaused`]: the contract is paused.
    /// - [`Error::Unauthorized`]: the contract has not been initialized.
    /// - [`Error::AlreadySubmitted`]: a result for `match_id` has already been recorded.
    /// - [`Error::InvalidGameId`]: `game_id` is empty.
    pub fn submit_result(
        &mut self,
        match_id: u64,
        game_id: Vec<u8>,
        platform: Platform,
        result: Winner,
    ) -> (r: Result<(), Error>)
        ensures
            final(self)@ == spec_submit_result(old(self)@, match_id, game_id@, platform, result).0,
            r == spec_submit_result(old(self)@, match_id, game_id@, platform, result).1,
    {
        self.extend_instance_ttl();
        if self.paused {
            return Err(Error::ContractPaused);
        }
        let admin = match self.require_admin() {
            Ok(admin) => admin,
            Err(e) => return Err(e),
        };
        if self.stored(match_id) {
            return Err(Error::AlreadySubmitted);
        }
        if game_id.len() == 0 {
            return Err(Error::InvalidGameId);
        }
        let entry = ResultEntry {
            game_id,
            platform,
            result,
            submitted_ledger: self.ledger_sequence,
            submitter: admin,
        };
        self.store(match_id, entry.clone());
        self.record(HostEffect::SetResult { match_id, entry });
        self.record(
            HostEffect::ExtendResultTtl {
                match_id,
                threshold: MATCH_TTL_LEDGERS,
                extend_to: MATCH_TTL_LEDGERS,
            },
        );
        self.record(HostEffect::Publish { event: OracleEvent::ResultSubmitted { match_id, result } });
        Ok(())
    }

    /// Whether an entry after position `i` has the match id of entry `i`.
    fn has_later_duplicate(entries: &Vec<BatchResultEntry>, i: usize) -> (b: bool)
        requires
            i < entries@.len(),
        ensures
            b == duplicated_later(batch_view(entries@), i as int),
    {
        let ghost es = batch_view(entries@);
        let len = entries.len();
        let mut j = i + 1;
        while j < len
            invariant
                len == entries@.len(),
                es == batch_view(entries@),
                i < j <= len,
                forall|k: int| i < k < j ==> es[k].match_id != es[i as int].match_id,
            decreases len - j,
        {
            if entries[j].match_id == entries[i].match_id {
                assert(es[j as int].match_id == es[i as int].match_id);
                return true;
            }
            j += 1;
        }
        false
    }

    /// Validates every batch entry before anything is written; returns the
    /// first rejection, in order.
    fn batch_rejection_of(&self, entries: &Vec<BatchResultEntry>) -> (r: Option<Error>)
        ensures
            r == first_rejection_from(self@.results, batch_view(entries@), 0),
    {
        let ghost es = batch_view(entries@);
        let len = entries.len();
        let mut i: usize = 0;
        while i < len
            invariant
                len == entries@.len(),
                es == batch_view(entries@),
                i <= len,
                first_rejection_from(self@.results, es, 0) == first_rejection_from(
                    self@.results,
                    es,
                    i as nat,
                ),
            decreases len - i,
        {
            let entry = &entries[i];
            assert(es[i as int] == entry@);
            if entry.game_id.len() == 0 {
                return Some(Error::InvalidGameId);
            }
            // Duplicates inside the batch (quadratic; fine for at most 100 entries).
            if Self::has_later_duplicate(entries, i) {
                return Some(Error::BatchDuplicateEntry);
            }
            if self.stored(entry.match_id) {
                return Some(Error::AlreadySubmitted);
            }
            i += 1;
        }
        None
    }

    /// Records every batch entry in order, submitted by `admin`.
    fn record_batch(&mut self, entries: &Vec<BatchResultEntry>, admin: &String)
        ensures
            final(self)@ == (OracleState {
                results: batch_results(
                    old(self)@.results,
                    batch_view(entries@),
                    old(self)@.ledger_sequence,
                    *admin,
                ),
                effects: old(self)@.effects + batch_effects(
                    batch_view(entries@),
                    old(self)@.ledger_sequence,
                    *admin,
                ),
                ..old(self)@
            }),
    {
        let ghost s0 = self@;
        let ghost es = batch_view(entries@);
        let len = entries.len();
        let mut i: usize = 0;
        while i < len
            invariant
                len == entries@.len(),
                es == batch_view(entries@),
                i <= len,
                self@ == (OracleState {
                    results: batch_results(s0.results, es.take(i as int), s0.ledger_sequence, *admin),
                    effects: s0.effects + batch_effects(
                        es.take(i as int),
                        s0.ledger_sequence,
                        *admin,
                    ),
                    ..s0
                }),
            decreases len - i,
        {
            let e = &entries[i];
            assert(es[i as int] == e@);
            let game_id = e.game_id.clone();
            assert(game_id@ =~= e.game_id@);
            let entry = ResultEntry {
                game_id,
                platform: e.platform,
                result: e.result,
                submitted_ledger: self.ledger_sequence,
                submitter: admin.clone(),
            };
            let ghost prefix = es.take(i as int);
            self.store(e.match_id, entry.clone());
            self.record(HostEffect::SetResult { match_id: e.match_id, entry });
            self.record(
                HostEffect::ExtendResultTtl {
                    match_id: e.match_id,
                    threshold: MATCH_TTL_LEDGERS,
                    extend_to: MATCH_TTL_LEDGERS,
                },
            );
            self.record(
                HostEffect::Publish {
                    event: OracleEvent::ResultSubmitted { match_id: e.match_id, result: e.result },
                },
            );
            proof {
                let next = es.take(i + 1);
                assert(next.drop_last() =~= prefix);
                assert(next.last() == es[i as int]);
                assert(self@.effects =~= s0.effects + batch_effects(
                    next,
                    s0.ledger_sequence,
                    *admin,
                ));
            }
            i += 1;
        }
        assert(es.take(len as int) =~= es);
    }

    /// Submit results for several matches atomically: every entry is validated
    /// before anything is written (all or nothing). At most
    /// [`MAX_BATCH_SIZE`] entries are accepted.
    ///
    /// # Errors
    /// - [`Error::ContractPaused`]: the contract is paused.
    /// - [`Error::Unauthorized`]: the contract has not been initialized.
    /// - [`Error::BatchTooLarge`]: `entries` holds more than 100 entries.
    /// - [`Error::InvalidGameId`]: an entry has an empty `game_id`.
    /// - [`Error::BatchDuplicateEntry`]: two entries share a `match_id`.
    /// - [`Error::AlreadySubmitted`]: a result for an entry's `match_id` already exists.
    pub fn submit_batch_results(&mut self, entries: Vec<BatchResultEntry>) -> (r: Result<(), Error>)
        ensures
            final(self)@ == spec_submit_batch_results(old(self)@, batch_view(entries@)).0,
            r == spec_submit_batch_results(old(self)@, batch_view(entries@)).1,
    {
        self.extend_instance_ttl();
        if self.paused {
            return Err(Error::ContractPaused);
        }
        let admin = match self.require_admin() {
            Ok(admin) => admin,
            Err(e) => return Err(e),
        };
        let len = entries.len();
        if len > MAX_BATCH_SIZE as usize {
            return Err(Error::BatchTooLarge);
        }
        match self.batch_rejection_of(&entries) {
            Some(e) => return Err(e),
            None => {},
        }
        self.record_batch(&entries, &admin);
        self.record(HostEffect::Publish { event: OracleEvent::BatchSubmitted { count: len as u32 } });
        Ok(())
    }

    /// Retrieve the stored result for a match. The result's time to live is
    /// extended on every read, so that results in use do not expire.
    ///
    /// # Errors
    /// - [`Error::ResultNotFound`]: no result has been submitted for `match_id`.
    pub fn get_result(&mut self, match_id: u64) -> (r: Result<ResultEntry, Error>)
        ensures
            final(self)@ == spec_get_result(old(self)@, match_id).0,
            entry_result_view(r) == spec_get_result(old(self)@, match_id).1,
    {
        self.extend_instance_ttl();
        let entry = match self.results.get(&match_id) {
            None => return Err(Error::ResultNotFound),
            Some(entry) => entry.clone(),
        };
        self.record(
            HostEffect::ExtendResultTtl {
                match_id,
                threshold: MATCH_TTL_LEDGERS,
                extend_to: MATCH_TTL_LEDGERS,
            },
        );
        Ok(entry)
    }

    /// Check whether a result has been submitted for a match.
    pub fn has_result(&mut self, match_id: u64) -> (b: bool)
        ensures
            final(self)@ == spec_has_result(old(self)@, match_id).0,
            b == spec_has_result(old(self)@, match_id).1,
    {
        self.extend_instance_ttl();
        self.stored(match_id)
    }

    /// Admin-gated variant of [`OracleContract::has_result`] for private
    /// tournaments: it answers the same but demands the admin's authorization,
    /// so that no third party can probe whether a result has been submitted.
    ///
    /// # Errors
    /// - [`Error::Unauthorized`]: the contract has not been initialized.
    pub fn has_result_admin(&mut self, match_id: u64) -> (r: Result<bool, Error>)
        ensures
            final(self)@ == spec_has_result_admin(old(self)@, match_id).0,
            r == spec_has_result_admin(old(self)@, match_id).1,
    {
        self.extend_instance_ttl();
        match self.require_admin() {
            Ok(_) => {},
            Err(e) => return Err(e),
        }
        Ok(self.stored(match_id))
    }

    /// Admin removes a previously submitted result from persistent storage and
    /// publishes an `oracle / deleted` event with the match id.
    ///
    /// # Errors
    /// - [`Error::ContractPaused`]: the contract is paused.
    /// - [`Error::Unauthorized`]: the contract has not been initialized.
    /// - [`Error::ResultNotFound`]: no result exists for `match_id`.
    pub fn delete_result(&mut self, match_id: u64) -> (r: Result<(), Error>)
        ensures
            final(self)@ == spec_delete_result(old(self)@, match_id).0,
            r == spec_delete_result(old(self)@, match_id).1,
    {
        self.extend_instance_ttl();
        if self.paused {
            return Err(Error::ContractPaused);
        }
        match self.require_admin() {
            Ok(_) => {},
            Err(e) => return Err(e),
        }
        if !self.stored(match_id) {
            return Err(Error::ResultNotFound);
        }
        self.erase(match_id);
        self.record(HostEffect::RemoveResult { match_id });
        self.record(HostEffect::Publish { event: OracleEvent::ResultDeleted { match_id } });
        Ok(())
    }

    /// Rotate the admin to a new address; demands the current admin's
    /// authorization and publishes an `admin / admin_rot` event with
    /// `(old_admin, new_admin)`.
    ///
    /// # Errors
    /// - [`Error::Unauthorized`]: the contract has not been initialized.
    pub fn update_admin(&mut self, new_admin: String) -> (r: Result<(), Error>)
        ensures
            final(self)@ == spec_update_admin(old(self)@, new_admin).0,
            r == spec_update_admin(old(self)@, new_admin).1,
    {
        self.extend_instance_ttl();
        let old_admin = match self.require_admin() {
            Ok(admin) => admin,
            Err(e) => return Err(e),
        };
        self.admin = Some(new_admin.clone());
        self.record(HostEffect::SetAdmin { admin: new_admin.clone() });
        self.record(HostEffect::Publish { event: OracleEvent::AdminRotated { old_admin, new_admin } });
        Ok(())
    }

    /// Sets the pause flag after the admin's authorization.
    fn set_paused(&mut self, paused: bool) -> (r: Result<(), Error>)
        ensures
            final(self)@ == spec_set_paused(old(self)@, paused).0,
            r == spec_set_paused(old(self)@, paused).1,
    {
        self.extend_instance_ttl();
        match self.require_admin() {
            Ok(_) => {},
            Err(e) => return Err(e),
        }
        self.paused = paused;
        self.record(HostEffect::SetPaused { paused });
        let event = if paused {
            OracleEvent::Paused
        } else {
            OracleEvent::Unpaused
        };
        self.record(HostEffect::Publish { event });
        Ok(())
    }

    /// Pause the oracle (admin only): blocks result submissions and deletions
    /// while paused.
    ///
    /// # Errors
    /// - [`Error::Unauthorized`]: the contract has not been initialized.
    pub fn pause(&mut self) -> (r: Result<(), Error>)
        ensures
            final(self)@ == spec_pause(old(self)@).0,
            r == spec_pause(old(self)@).1,
    {
        self.set_paused(true)
    }

    /// Returns true if the contract has been initialized.
    pub fn is_initialized(&mut self) -> (b: bool)
        ensures
            final(self)@ == spec_is_initialized(old(self)@).0,
            b == spec_is_initialized(old(self)@).1,
    {
        self.extend_instance_ttl();
        self.admin.is_some()
    }

    /// Unpause the oracle (admin only); publishes an `admin / unpaused` event.
    ///
    /// # Errors
    /// - [`Error::Unauthorized`]: the contract has not been initialized.
    pub fn unpause(&mut self) -> (r: Result<(), Error>)
        ensures
            final(self)@ == spec_unpause(old(self)@).0,
            r == spec_unpause(old(self)@).1,
    {
        self.set_paused(false)
    }
}

} // verus!
