//! What an invocation of the oracle asks of the ledger host: storage writes,
//! time-to-live extensions, authorization checks and published events.

use vstd::prelude::*;

use crate::types::{DataKey, ResultEntry, ResultRecord, Winner};

verus! {

/// Maximum number of entries accepted in a single batch submission.
pub const MAX_BATCH_SIZE: u32 = 100;

/// Time to live of a match result, in ledgers (about 30 days at 5 s per ledger).
pub const MATCH_TTL_LEDGERS: u32 = 518_400;

/// Instance storage is extended when its time to live drops below this many ledgers.
pub const INSTANCE_TTL_THRESHOLD: u32 = MATCH_TTL_LEDGERS / 2;

/// An event that the oracle publishes.
#[derive(Clone, Debug, PartialEq, Eq)]
pub enum OracleEvent {
    /// Topics `("oracle", "init")`, data: the admin.
    Initialized { admin: String },
    /// Topics `("oracle", "result")`, data: `(match_id, result)`.
    ResultSubmitted { match_id: u64, result: Winner },
    /// Topics `("oracle", "batch")`, data: the number of entries.
    BatchSubmitted { count: u32 },
    /// Topics `("oracle", "deleted")`, data: the match id.
    ResultDeleted { match_id: u64 },
    /// Topics `("admin", "admin_rot")`, data: `(old_admin, new_admin)`.
    AdminRotated { old_admin: String, new_admin: String },
    /// Topics `("admin", "paused")`, no data.
    Paused,
    /// Topics `("admin", "unpaused")`, no data.
    Unpaused,
}

/// One request of an invocation to the ledger host, in the order the
/// invocation makes it. `E` is the stored entry: a [`ResultEntry`] in
/// executable code, its [`ResultRecord`] value in specifications.
#[derive(Clone, Debug, PartialEq, Eq)]
pub enum HostEffect<E> {
    /// Extend the contract instance's time to live to `extend_to` ledgers
    /// when it is below `threshold`.
    ExtendInstanceTtl { threshold: u32, extend_to: u32 },
    /// The invocation must be authorized by `address`; the host aborts it otherwise.
    RequireAuth { address: String },
    /// Instance storage: `Admin := admin`.
    SetAdmin { admin: String },
    /// Instance storage: `Paused := paused`.
    SetPaused { paused: bool },
    /// Persistent storage: `Result(match_id) := entry`.
    SetResult { match_id: u64, entry: E },
    /// Persistent storage: remove `Result(match_id)`.
    RemoveResult { match_id: u64 },
    /// Extend the time to live of `Result(match_id)` to `extend_to` ledgers
    /// when it is below `threshold`.
    ExtendResultTtl { match_id: u64, threshold: u32, extend_to: u32 },
    /// Publish an event.
    Publish { event: OracleEvent },
}

impl View for HostEffect<ResultEntry> {
    type V = HostEffect<ResultRecord>;

    open spec fn view(&self) -> HostEffect<ResultRecord> {
        match *self {
            HostEffect::ExtendInstanceTtl { threshold, extend_to } => HostEffect::ExtendInstanceTtl {
                threshold,
                extend_to,
            },
            HostEffect::RequireAuth { address } => HostEffect::RequireAuth { address },
            HostEffect::SetAdmin { admin } => HostEffect::SetAdmin { admin },
            HostEffect::SetPaused { paused } => HostEffect::SetPaused { paused },
            HostEffect::SetResult { match_id, entry } => HostEffect::SetResult {
                match_id,
                entry: entry@,
            },
            HostEffect::RemoveResult { match_id } => HostEffect::RemoveResult { match_id },
            HostEffect::ExtendResultTtl { match_id, threshold, extend_to } => HostEffect::ExtendResultTtl {
                match_id,
                threshold,
                extend_to,
            },
            HostEffect::Publish { event } => HostEffect::Publish { event },
        }
    }
}

/// The instance time-to-live extension that opens every invocation.
pub open spec fn instance_ttl_effect() -> HostEffect<ResultRecord> {
    HostEffect::ExtendInstanceTtl { threshold: INSTANCE_TTL_THRESHOLD, extend_to: MATCH_TTL_LEDGERS }
}

/// The time-to-live extension of a stored result.
pub open spec fn result_ttl_effect(match_id: u64) -> HostEffect<ResultRecord> {
    HostEffect::ExtendResultTtl { match_id, threshold: MATCH_TTL_LEDGERS, extend_to: MATCH_TTL_LEDGERS }
}

/// The authorization demand on `address`.
pub open spec fn auth_effect(address: String) -> HostEffect<ResultRecord> {
    HostEffect::RequireAuth { address }
}

/// The storage key that an effect reads or writes, if any.
pub open spec fn spec_storage_key<E>(effect: HostEffect<E>) -> Option<DataKey> {
    match effect {
        HostEffect::ExtendInstanceTtl { .. } => None,
        HostEffect::RequireAuth { .. } => None,
        HostEffect::SetAdmin { .. } => Some(DataKey::Admin),
        HostEffect::SetPaused { .. } => Some(DataKey::Paused),
        HostEffect::SetResult { match_id, .. } => Some(DataKey::Result(match_id)),
        HostEffect::RemoveResult { match_id } => Some(DataKey::Result(match_id)),
        HostEffect::ExtendResultTtl { match_id, .. } => Some(DataKey::Result(match_id)),
        HostEffect::Publish { .. } => None,
    }
}

/// The two topics under which an event is published.
pub open spec fn spec_topics(event: OracleEvent) -> (Seq<char>, Seq<char>) {
    match event {
        OracleEvent::Initialized { .. } => ("oracle"@, "init"@),
        OracleEvent::ResultSubmitted { .. } => ("oracle"@, "result"@),
        OracleEvent::BatchSubmitted { .. } => ("oracle"@, "batch"@),
        OracleEvent::ResultDeleted { .. } => ("oracle"@, "deleted"@),
        OracleEvent::AdminRotated { .. } => ("admin"@, "admin_rot"@),
        OracleEvent::Paused => ("admin"@, "paused"@),
        OracleEvent::Unpaused => ("admin"@, "unpaused"@),
    }
}

impl OracleEvent {
    /// The two topics under which this event is published.
    pub fn topics(&self) -> (t: (&'static str, &'static str))
        ensures
            (t.0@, t.1@) == spec_topics(*self),
    {
        match self {
            OracleEvent::Initialized { .. } => ("oracle", "init"),
            OracleEvent::ResultSubmitted { .. } => ("oracle", "result"),
            OracleEvent::BatchSubmitted { .. } => ("oracle", "batch"),
            OracleEvent::ResultDeleted { .. } => ("oracle", "deleted"),
            OracleEvent::AdminRotated { .. } => ("admin", "admin_rot"),
            OracleEvent::Paused => ("admin", "paused"),
            OracleEvent::Unpaused => ("admin", "unpaused"),
        }
    }
}

impl<E> HostEffect<E> {
    /// The storage key that this effect reads or writes, if any.
    pub fn storage_key(&self) -> (key: Option<DataKey>)
        ensures
            key == spec_storage_key(*self),
    {
        match self {
            HostEffect::ExtendInstanceTtl { .. } => None,
            HostEffect::RequireAuth { .. } => None,
            HostEffect::SetAdmin { .. } => Some(DataKey::Admin),
            HostEffect::SetPaused { .. } => Some(DataKey::Paused),
            HostEffect::SetResult { match_id, .. } => Some(DataKey::Result(*match_id)),
            HostEffect::RemoveResult { match_id } => Some(DataKey::Result(*match_id)),
            HostEffect::ExtendResultTtl { match_id, .. } => Some(DataKey::Result(*match_id)),
            HostEffect::Publish { .. } => None,
        }
    }
}

} // verus!
