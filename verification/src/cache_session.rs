//! Cache sessions: a job's access to its project's build cache.

use vstd::prelude::*;

use crate::document::{number_at, numbers_by_pointer};
use crate::domain::{
    identity, is_identity, is_optional_timestamp, is_timestamp, is_version, optional_timestamp, timestamp, version,
    EntityKind, MutationDisposition, StoreError, StoreInputError, StoreOperation,
};
use crate::hash::sha256_of;
use crate::lease::{currency, current_states_are_not_expired, current_state, is_current_state, load, loaded, require_current, LeaseAccess, LeaseRow};
use crate::text::{same_bytes, same_text};

verus! {

/// Whether a cache session is open.
#[derive(Clone, Copy, Debug, PartialEq, Eq, Structural)]
pub enum CacheSessionState {
    /// Stored as `active`.
    Active,
    /// Stored as `revoked`.
    Revoked,
    /// Stored as `expired`.
    Expired,
}

/// The stored name of the state of a cache session.
pub open spec fn cache_session_state_text(value: CacheSessionState) -> Seq<char> {
    match value {
        CacheSessionState::Active => "active"@,
        CacheSessionState::Revoked => "revoked"@,
        CacheSessionState::Expired => "expired"@,
    }
}

/// No two values share a stored name.
pub proof fn cache_session_state_text_names_one_value(a: CacheSessionState, b: CacheSessionState)
    ensures
        cache_session_state_text(a) == cache_session_state_text(b) ==> a == b,
{
    reveal_strlit("active");
    reveal_strlit("revoked");
    reveal_strlit("expired");
    assert("active"@.len() == 6);
    assert("revoked"@.len() == 7);
    assert("expired"@.len() == 7);
    assert("revoked"@[0] == 'r');
    assert("expired"@[0] == 'e');
}

/// Names the state of a cache session as the database stores it.
pub fn cache_session_state(value: CacheSessionState) -> (text: &'static str)
    ensures
        text@ == cache_session_state_text(value),
{
    match value {
        CacheSessionState::Active => "active",
        CacheSessionState::Revoked => "revoked",
        CacheSessionState::Expired => "expired",
    }
}

/// Reads the state of a cache session back from its stored name; any other text is unreadable.
pub fn parse_state(text: &str) -> (result: Result<CacheSessionState, StoreError>)
    ensures
        forall|value: CacheSessionState|
            result == Ok::<CacheSessionState, StoreError>(value)
                <==> text@ == #[trigger] cache_session_state_text(value),
        result is Err ==> result == Err::<CacheSessionState, StoreError>(StoreError::Unavailable),
{
    proof {
        assert forall|a: CacheSessionState, b: CacheSessionState|
            #[trigger] cache_session_state_text(a) == #[trigger] cache_session_state_text(b)
            implies a == b by {
            cache_session_state_text_names_one_value(a, b);
        }
    }
    let result = if same_text(text, "active") {
        Ok(CacheSessionState::Active)
    } else if same_text(text, "revoked") {
        Ok(CacheSessionState::Revoked)
    } else if same_text(text, "expired") {
        Ok(CacheSessionState::Expired)
    } else {
        Err(StoreError::Unavailable)
    };
    assert(result matches Ok(value) ==> text@ == cache_session_state_text(value));
    result
}

/// Where in a build's policy the lifetime of cache entries stands.
pub const CACHE_SECONDS_POINTER: &'static str = "/project/policy/retention/cache_seconds";

/// What a session allows.
#[derive(Clone, Copy, Debug, PartialEq, Eq, Structural)]
pub struct CachePermissions {
    /// Reading.
    pub read: bool,
    /// Writing.
    pub write: bool,
}

/// What is done to a cache.
#[derive(Clone, Copy, Debug, PartialEq, Eq, Structural)]
pub enum CacheOperation {
    /// Reading.
    Read,
    /// Writing.
    Write,
}

impl CachePermissions {
    /// Whether an operation is allowed.
    pub open spec fn spec_allows(self, operation: CacheOperation) -> bool {
        match operation {
            CacheOperation::Read => self.read,
            CacheOperation::Write => self.write,
        }
    }

    /// Whether an operation is allowed.
    pub fn allows(self, operation: CacheOperation) -> (allowed: bool)
        ensures
            allowed == self.spec_allows(operation),
    {
        match operation {
            CacheOperation::Read => self.read,
            CacheOperation::Write => self.write,
        }
    }
}

/// What is refused as no cache session.
pub open spec fn not_a_session() -> StoreError {
    StoreError::InvalidInput {
        operation: StoreOperation::BeginCacheSession,
        source: StoreInputError::InvalidCacheSession,
    }
}

/// The refusal of what is no cache session.
pub fn invalid_cache() -> (error: StoreError)
    ensures
        error == not_a_session(),
{
    StoreError::InvalidInput {
        operation: StoreOperation::BeginCacheSession,
        source: StoreInputError::InvalidCacheSession,
    }
}

/// Whether a lease in this state still backs a cache session.
pub fn current_lease_state(value: &str) -> (current: bool)
    ensures
        current == is_current_state(value@),
{
    current_state(value)
}

/// A number of a session as the database holds it.
pub fn session_number(value: u64) -> (result: Result<i64, StoreError>)
    ensures
        result == (if value <= i64::MAX {
            Ok::<i64, StoreError>(value as i64)
        } else {
            Err(not_a_session())
        }),
{
    if value <= i64::MAX as u64 {
        Ok(value as i64)
    } else {
        Err(invalid_cache())
    }
}

/// A count as the database holds it.
pub fn unsigned(value: i64) -> (result: Result<u64, StoreError>)
    ensures
        result == (if value >= 0 {
            Ok::<u64, StoreError>(value as u64)
        } else {
            Err(StoreError::Unavailable)
        }),
{
    if value >= 0 {
        Ok(value as u64)
    } else {
        Err(StoreError::Unavailable)
    }
}

/// Whether a time some seconds later can be told.
pub open spec fn has_later(value: i64, seconds: u64) -> bool {
    seconds * 1000 <= i64::MAX && 0 <= value + seconds * 1000 <= i64::MAX
}

/// The time some seconds later.
pub fn add_seconds(value: i64, seconds: u64) -> (result: Result<i64, StoreError>)
    ensures
        result == (if has_later(value, seconds) {
            Ok::<i64, StoreError>((value + seconds * 1000) as i64)
        } else {
            Err(not_a_session())
        }),
{
    let duration: i64 = session_number(seconds)?;
    match duration.checked_mul(1000) {
        None => Err(invalid_cache()),
        Some(duration) => match value.checked_add(duration) {
            None => Err(invalid_cache()),
            Some(later) => if later >= 0 {
                Ok(later)
            } else {
                Err(invalid_cache())
            },
        },
    }
}

/// Whether a span is a positive number of whole seconds.
pub open spec fn is_whole_seconds(start: i64, end: i64) -> bool {
    0 < end - start <= i64::MAX && (end - start) % 1000 == 0
}

/// The whole seconds from a start to an end; a span that is none is unreadable.
pub fn retention_seconds(start: i64, retention_until_millis: i64) -> (result: Result<u64, StoreError>)
    ensures
        result == (if is_whole_seconds(start, retention_until_millis) {
            Ok::<u64, StoreError>(((retention_until_millis - start) / 1000) as u64)
        } else {
            Err(StoreError::Unavailable)
        }),
{
    match retention_until_millis.checked_sub(start) {
        None => Err(StoreError::Unavailable),
        Some(difference) => {
            if difference <= 0 {
                return Err(StoreError::Unavailable);
            }
            let span: u64 = difference as u64;
            if span % 1000 != 0 {
                return Err(StoreError::Unavailable);
            }
            Ok(span / 1000)
        },
    }
}

/// A lifetime that was added to a time is read back from the two times.
pub proof fn lifetimes_are_read_back(start: i64, seconds: u64)
    requires
        seconds > 0,
        has_later(start, seconds),
    ensures
        is_whole_seconds(start, (start + seconds * 1000) as i64),
        ((start + seconds * 1000) as i64 - start) / 1000 == seconds,
{
}

/// The lifetime of cache entries under a build's policy.
pub fn policy_retention_seconds(policy: &serde_json::Value) -> (result: Result<u64, StoreError>)
    ensures
        result == (if numbers_by_pointer(*policy).contains_key(CACHE_SECONDS_POINTER@) {
            Ok::<u64, StoreError>(numbers_by_pointer(*policy)[CACHE_SECONDS_POINTER@])
        } else {
            Err(not_a_session())
        }),
{
    match number_at(policy, CACHE_SECONDS_POINTER) {
        Some(seconds) => Ok(seconds),
        None => Err(invalid_cache()),
    }
}

/// The cache policy of a session.
pub struct CacheNamespacePolicy {
    /// The namespace it reads and writes.
    pub namespace: String,
    /// What it allows.
    pub permissions: CachePermissions,
    /// How much its project may store.
    pub quota_bytes: u64,
    /// How long entries are kept.
    pub retention_seconds: u64,
}

/// What a job may do in a namespace, as its project and its specification have it.
pub struct SelectedNamespace {
    /// The namespace.
    pub namespace: String,
    /// What is allowed there.
    pub permissions: CachePermissions,
    /// How much its project may store.
    pub quota_bytes: u64,
}

/// The cache policy of a session, given how long entries are kept: there is none where the project and the
/// specification of the job do not allow what is asked for.
pub fn select_policy(selected: Option<SelectedNamespace>, retention_seconds: Result<u64, StoreError>) -> (result:
    Result<CacheNamespacePolicy, StoreError>)
    ensures
        result == (match (selected, retention_seconds) {
            (None, _) => Err::<CacheNamespacePolicy, StoreError>(not_a_session()),
            (Some(_), Err(error)) => Err(error),
            (Some(selected), Ok(retention_seconds)) => Ok(
                CacheNamespacePolicy {
                    namespace: selected.namespace,
                    permissions: selected.permissions,
                    quota_bytes: selected.quota_bytes,
                    retention_seconds,
                },
            ),
        }),
{
    match selected {
        None => Err(invalid_cache()),
        Some(selected) => match retention_seconds {
            Err(error) => Err(error),
            Ok(retention_seconds) => Ok(
                CacheNamespacePolicy {
                    namespace: selected.namespace,
                    permissions: selected.permissions,
                    quota_bytes: selected.quota_bytes,
                    retention_seconds,
                },
            ),
        },
    }
}

/// The cache policy of a session under the policy of its build.
pub fn load_policy(selected: Option<SelectedNamespace>, policy: &serde_json::Value) -> (result: Result<
    CacheNamespacePolicy,
    StoreError,
>)
    ensures
        result == (match selected {
            None => Err::<CacheNamespacePolicy, StoreError>(not_a_session()),
            Some(selected) => if numbers_by_pointer(*policy).contains_key(CACHE_SECONDS_POINTER@) {
                Ok(
                    CacheNamespacePolicy {
                        namespace: selected.namespace,
                        permissions: selected.permissions,
                        quota_bytes: selected.quota_bytes,
                        retention_seconds: numbers_by_pointer(*policy)[CACHE_SECONDS_POINTER@],
                    },
                )
            } else {
                Err(not_a_session())
            },
        }),
{
    let retention_seconds = policy_retention_seconds(policy);
    select_policy(selected, retention_seconds)
}

/// A session as the database holds it.
pub struct CacheSessionRow {
    /// The session.
    pub id: u128,
    /// Its project.
    pub project_id: u128,
    /// Its build.
    pub build_id: u128,
    /// Its job.
    pub job_id: u128,
    /// Its lease.
    pub lease_id: u128,
    /// Its namespace.
    pub namespace: String,
    /// Whether that is the name of a namespace.
    pub namespace_is_valid: bool,
    /// What it allows.
    pub permissions: CachePermissions,
    /// How much its project may store.
    pub quota_bytes: i64,
    /// Whether it is open.
    pub state: String,
    /// Its scope.
    pub scope_id: String,
    /// Its agent.
    pub agent_id: u128,
    /// Epoch of the agent's registration.
    pub registration_epoch: i64,
    /// When it began.
    pub created_at_millis: i64,
    /// When it runs out.
    pub expires_at_millis: i64,
    /// Until when its entries are kept.
    pub retention_until_millis: i64,
    /// When it was revoked.
    pub revoked_at_millis: Option<i64>,
    /// Whether its lease is held.
    pub lease_current: bool,
}

/// A session.
pub struct CacheSessionRecord {
    /// The session.
    pub id: u128,
    /// Its scope.
    pub scope_id: String,
    /// Its project.
    pub project_id: u128,
    /// Its build.
    pub build_id: u128,
    /// Its job.
    pub job_id: u128,
    /// Its agent.
    pub agent_id: u128,
    /// Epoch of the agent's registration.
    pub registration_epoch: u64,
    /// Its lease.
    pub lease_id: u128,
    /// Its policy.
    pub policy: CacheNamespacePolicy,
    /// Whether it is open.
    pub state: CacheSessionState,
    /// When it began.
    pub created_at: i64,
    /// When it runs out.
    pub expires_at: i64,
    /// Until when its entries are kept.
    pub retention_until: i64,
    /// When it was revoked.
    pub revoked_at: Option<i64>,
    /// Whether its lease is held.
    pub lease_current: bool,
}

/// Whether a session can be read.
pub open spec fn is_readable(row: CacheSessionRow) -> bool {
    &&& is_identity(row.id) && is_identity(row.project_id) && is_identity(row.build_id) && is_identity(row.job_id)
    &&& is_identity(row.agent_id) && is_identity(row.lease_id)
    &&& row.namespace_is_valid
    &&& is_version(row.registration_epoch)
    &&& row.quota_bytes >= 0
    &&& is_timestamp(row.created_at_millis) && is_timestamp(row.expires_at_millis)
    &&& is_timestamp(row.retention_until_millis) && is_optional_timestamp(row.revoked_at_millis)
    &&& is_whole_seconds(row.created_at_millis, row.retention_until_millis)
    &&& exists|state: CacheSessionState| row.state@ == #[trigger] cache_session_state_text(state)
}

/// Whether a session is what its row says.
pub open spec fn is_session_of(record: CacheSessionRecord, row: CacheSessionRow) -> bool {
    &&& record.id == row.id
    &&& record.scope_id@ == row.scope_id@
    &&& record.project_id == row.project_id
    &&& record.build_id == row.build_id
    &&& record.job_id == row.job_id
    &&& record.agent_id == row.agent_id
    &&& record.registration_epoch == row.registration_epoch
    &&& record.lease_id == row.lease_id
    &&& record.policy.namespace@ == row.namespace@
    &&& record.policy.permissions == row.permissions
    &&& record.policy.quota_bytes == row.quota_bytes
    &&& record.policy.retention_seconds * 1000 == row.retention_until_millis - row.created_at_millis
    &&& row.state@ == cache_session_state_text(record.state)
    &&& record.created_at == row.created_at_millis
    &&& record.expires_at == row.expires_at_millis
    &&& record.retention_until == row.retention_until_millis
    &&& record.revoked_at == row.revoked_at_millis
    &&& record.lease_current == row.lease_current
}

/// Reads a session.
pub fn decode(row: CacheSessionRow) -> (result: Result<CacheSessionRecord, StoreError>)
    ensures
        match result {
            Ok(record) => is_readable(row) && is_session_of(record, row),
            Err(error) => error == StoreError::Unavailable && !is_readable(row),
        },
{
    if !row.namespace_is_valid {
        return Err(StoreError::Unavailable);
    }
    let state = parse_state(row.state.as_str())?;
    assert(row.state@ == cache_session_state_text(state));
    let created_at: i64 = timestamp(row.created_at_millis)?;
    let lifetime: u64 = retention_seconds(created_at, row.retention_until_millis)?;
    Ok(
        CacheSessionRecord {
            id: identity(row.id)?,
            scope_id: row.scope_id,
            project_id: identity(row.project_id)?,
            build_id: identity(row.build_id)?,
            job_id: identity(row.job_id)?,
            agent_id: identity(row.agent_id)?,
            registration_epoch: version(row.registration_epoch)?,
            lease_id: identity(row.lease_id)?,
            policy: CacheNamespacePolicy {
                namespace: row.namespace,
                permissions: row.permissions,
                quota_bytes: unsigned(row.quota_bytes)?,
                retention_seconds: lifetime,
            },
            state,
            created_at,
            expires_at: timestamp(row.expires_at_millis)?,
            retention_until: timestamp(row.retention_until_millis)?,
            revoked_at: optional_timestamp(row.revoked_at_millis)?,
            lease_current: row.lease_current,
        },
    )
}

/// Checks the size of a page of sessions.
pub fn list_limit(limit: u16, maximum: u16) -> (result: Result<i64, StoreError>)
    ensures
        result == (if limit == 0 || limit > maximum {
            Err::<i64, StoreError>(
                StoreError::InvalidInput {
                    operation: StoreOperation::ListCacheSessions,
                    source: StoreInputError::InvalidCacheSession,
                },
            )
        } else {
            Ok(limit as i64)
        }),
{
    if limit == 0 || limit > maximum {
        return Err(
            StoreError::InvalidInput {
                operation: StoreOperation::ListCacheSessions,
                source: StoreInputError::InvalidCacheSession,
            },
        );
    }
    Ok(limit as i64)
}

/// Reads a session, where there is one.
pub fn read(row: Option<CacheSessionRow>) -> (result: Result<CacheSessionRecord, StoreError>)
    ensures
        match row {
            None => result matches Err(error) && error == (StoreError::NotFound { entity: EntityKind::CacheSession }),
            Some(row) => match result {
                Ok(record) => is_readable(row) && is_session_of(record, row),
                Err(error) => error == StoreError::Unavailable && !is_readable(row),
            },
        },
{
    match row {
        Some(row) => decode(row),
        None => Err(StoreError::NotFound { entity: EntityKind::CacheSession }),
    }
}

/// Whether a session was read from a readable row.
pub open spec fn is_session_read(record: CacheSessionRecord, row: CacheSessionRow) -> bool {
    is_readable(row) && is_session_of(record, row)
}

/// Reads a page of the sessions of a build: its size must be allowed, and one that cannot be read fails the page.
pub fn list(limit: u16, maximum: u16, rows: Vec<CacheSessionRow>) -> (result: Result<
    Vec<CacheSessionRecord>,
    StoreError,
>)
    ensures
        if limit == 0 || limit > maximum {
            result matches Err(error) && error == (StoreError::InvalidInput {
                operation: StoreOperation::ListCacheSessions,
                source: StoreInputError::InvalidCacheSession,
            })
        } else {
            match result {
                Ok(sessions) => sessions@.len() == rows@.len() && forall|i: int|
                    0 <= i < rows@.len() ==> is_session_read(#[trigger] sessions@[i], rows@[i]),
                Err(error) => error == StoreError::Unavailable && exists|i: int|
                    0 <= i < rows@.len() && !is_readable(#[trigger] rows@[i]),
            }
        },
{
    match list_limit(limit, maximum) {
        Ok(_) => {},
        Err(error) => {
            return Err(error);
        },
    }
    let ghost fetched = rows@;
    let mut remaining = rows;
    let mut sessions: Vec<CacheSessionRecord> = Vec::new();
    while remaining.len() > 0
        invariant
            0 < limit <= maximum,
            fetched == rows@,
            sessions@.len() + remaining@.len() == fetched.len(),
            remaining@ == fetched.skip(sessions@.len() as int),
            forall|i: int| 0 <= i < sessions@.len() ==> is_session_read(#[trigger] sessions@[i], fetched[i]),
        decreases remaining@.len(),
    {
        let ghost at = sessions@.len() as int;
        let row = remaining.remove(0);
        assert(row == fetched[at]);
        match decode(row) {
            Ok(session) => {
                sessions.push(session);
            },
            Err(error) => {
                assert(!is_readable(rows@[at]));
                return Err(error);
            },
        }
        assert(remaining@ =~= fetched.skip(sessions@.len() as int));
    }
    Ok(sessions)
}

/// A request for a session.
pub struct BeginCacheSession {
    /// The lease and who presents it.
    pub lease: LeaseAccess,
    /// The job.
    pub job_id: u128,
    /// Number of its attempt.
    pub attempt: u64,
    /// When the session begins.
    pub created_at: i64,
    /// When it is to run out.
    pub expires_at: i64,
}

/// What a session is written as.
pub struct SessionWrite {
    /// When it runs out.
    pub expires_at: i64,
    /// Until when its entries are kept.
    pub retention_until: i64,
    /// How much its project may store.
    pub quota_bytes: i64,
    /// Epoch of the agent's registration.
    pub registration_epoch: i64,
}

/// How a session begins.
pub enum SessionStart {
    /// The same request opened it before.
    Replay(CacheSessionRecord),
    /// Open it.
    Open(SessionWrite),
}

/// Whether a held lease is for the job and attempt of a request.
pub open spec fn lease_verdict(request: BeginCacheSession, lease: LeaseRow) -> Result<(), StoreError> {
    match currency(lease, request.lease, request.created_at) {
        Err(error) => Err(error),
        Ok(()) => if lease.job_id != request.job_id {
            Err(StoreError::Fenced { lease: request.lease.lease_id })
        } else if !is_version(lease.attempt_number) {
            Err(StoreError::Unavailable)
        } else if lease.attempt_number != request.attempt {
            Err(StoreError::Fenced { lease: request.lease.lease_id })
        } else {
            Ok(())
        },
    }
}

/// Requires that a held lease is for the job and attempt of a request.
pub fn require_lease(request: &BeginCacheSession, lease: &LeaseRow) -> (result: Result<(), StoreError>)
    ensures
        result == lease_verdict(*request, *lease),
{
    match require_current(lease, &request.lease, request.created_at) {
        Ok(()) => {},
        Err(error) => {
            return Err(error);
        },
    }
    if lease.job_id != request.job_id {
        return Err(StoreError::Fenced { lease: request.lease.lease_id });
    }
    let attempt: u64 = version(lease.attempt_number)?;
    if attempt != request.attempt {
        return Err(StoreError::Fenced { lease: request.lease.lease_id });
    }
    Ok(())
}

/// Whether a session on record is the one that a policy and a request ask for.
pub open spec fn is_same_session(row: CacheSessionRow, policy: CacheNamespacePolicy, job_id: u128) -> bool {
    row.namespace@ == policy.namespace@ && row.permissions == policy.permissions && row.job_id == job_id
}

/// When a new session runs out: with its lease at the latest.
pub open spec fn session_end(request: BeginCacheSession, lease: LeaseRow) -> i64 {
    if request.expires_at <= lease.expires_at_millis {
        request.expires_at
    } else {
        lease.expires_at_millis
    }
}

/// What opening a session comes to, where the lease is held for its job.
pub open spec fn opening(request: BeginCacheSession, lease: LeaseRow, policy: CacheNamespacePolicy) -> Result<
    (),
    StoreError,
> {
    if !has_later(request.created_at, policy.retention_seconds) || !is_timestamp(session_end(request, lease)) {
        Err(not_a_session())
    } else if !is_identity(lease.project_id) {
        Err(StoreError::Unavailable)
    } else if policy.quota_bytes > i64::MAX || request.lease.registration_epoch > i64::MAX {
        Err(not_a_session())
    } else {
        Ok(())
    }
}

/// Whether a session begins as it should under a lease that is held: the same request is repeated, one that asks
/// for something else under the same key is a conflict, and else the session is opened.
pub open spec fn is_session_start(
    result: Result<SessionStart, StoreError>,
    request: BeginCacheSession,
    lease: LeaseRow,
    policy: Result<CacheNamespacePolicy, StoreError>,
    existing: Option<CacheSessionRow>,
) -> bool {
    match lease_verdict(request, lease) {
        Err(error) => result matches Err(reported) && reported == error,
        Ok(()) => match policy {
            Err(error) => result matches Err(reported) && reported == error,
            Ok(policy) => match existing {
                Some(row) => if !is_same_session(row, policy, request.job_id) {
                    result matches Err(error) && error == (StoreError::Conflict { entity: EntityKind::CacheSession })
                } else if is_readable(row) {
                    result matches Ok(SessionStart::Replay(record)) && is_session_of(record, row)
                } else {
                    result matches Err(error) && error == StoreError::Unavailable
                },
                None => match opening(request, lease, policy) {
                    Err(error) => result matches Err(reported) && reported == error,
                    Ok(()) => result matches Ok(SessionStart::Open(write)) && write.expires_at == session_end(
                        request,
                        lease,
                    ) && write.retention_until == request.created_at + policy.retention_seconds * 1000
                        && write.quota_bytes == policy.quota_bytes && write.registration_epoch
                        == request.lease.registration_epoch,
                },
            },
        },
    }
}

/// Begins a session under a lease that was loaded; `policy` is what loading the policy gave.
pub fn begin_held(
    request: &BeginCacheSession,
    lease: &LeaseRow,
    policy: &Result<CacheNamespacePolicy, StoreError>,
    existing: Option<CacheSessionRow>,
) -> (result: Result<SessionStart, StoreError>)
    ensures
        is_session_start(result, *request, *lease, *policy, existing),
{
    match require_lease(request, lease) {
        Ok(()) => {},
        Err(error) => {
            return Err(error);
        },
    }
    let policy = match policy {
        Ok(policy) => policy,
        Err(error) => {
            return Err(*error);
        },
    };
    match existing {
        Some(row) => {
            if !same_text(row.namespace.as_str(), policy.namespace.as_str()) || row.permissions != policy.permissions
                || row.job_id != request.job_id {
                return Err(StoreError::Conflict { entity: EntityKind::CacheSession });
            }
            match decode(row) {
                Ok(record) => Ok(SessionStart::Replay(record)),
                Err(error) => Err(error),
            }
        },
        None => {
            let retention_until: i64 = add_seconds(request.created_at, policy.retention_seconds)?;
            let expires_at: i64 = if request.expires_at <= lease.expires_at_millis {
                request.expires_at
            } else {
                lease.expires_at_millis
            };
            if expires_at < 0 {
                return Err(invalid_cache());
            }
            let _project: u128 = identity(lease.project_id)?;
            let quota_bytes: i64 = session_number(policy.quota_bytes)?;
            let registration_epoch: i64 = session_number(request.lease.registration_epoch)?;
            Ok(SessionStart::Open(SessionWrite { expires_at, retention_until, quota_bytes, registration_epoch }))
        },
    }
}

/// Begins a session: `validated` is the verdict on the request by itself, and the caller has to hold the lease. A
/// new session never outlives that.
pub fn begin(
    validated: Result<(), StoreError>,
    request: &BeginCacheSession,
    lease: Option<LeaseRow>,
    policy: &Result<CacheNamespacePolicy, StoreError>,
    existing: Option<CacheSessionRow>,
) -> (result: Result<SessionStart, StoreError>)
    ensures
        match validated {
            Err(error) => result matches Err(reported) && reported == error,
            Ok(()) => match loaded(
                lease,
                request.lease,
                StoreOperation::BeginCacheSession,
                sha256_of(request.lease.fence@),
            ) {
                Err(error) => result matches Err(reported) && reported == error,
                Ok(lease) => is_session_start(result, *request, lease, *policy, existing),
            },
        },
{
    match validated {
        Ok(()) => {},
        Err(error) => {
            return Err(error);
        },
    }
    match load(lease, &request.lease, StoreOperation::BeginCacheSession) {
        Ok(lease) => begin_held(request, &lease, policy, existing),
        Err(error) => Err(error),
    }
}

/// A session never outlives the lease it was opened under.
pub proof fn sessions_end_with_their_lease(request: BeginCacheSession, lease: LeaseRow)
    ensures
        session_end(request, lease) <= lease.expires_at_millis,
        session_end(request, lease) <= request.expires_at,
{
}

/// What revoking a session comes to, where the lease is held. `can_be_revoked` says whether a session
/// in its state can be.
pub open spec fn revocation(
    row: Option<(u128, Seq<char>)>,
    job_id: u128,
    lease_id: u128,
    can_be_revoked: bool,
) -> Result<MutationDisposition, StoreError> {
    match row {
        None => Err(StoreError::NotFound { entity: EntityKind::CacheSession }),
        Some((session_job, state)) => if session_job != job_id {
            Err(StoreError::Fenced { lease: lease_id })
        } else if state == cache_session_state_text(CacheSessionState::Revoked) {
            Ok(MutationDisposition::Replayed)
        } else if state != cache_session_state_text(CacheSessionState::Active) && state != cache_session_state_text(
            CacheSessionState::Expired,
        ) {
            Err(StoreError::Unavailable)
        } else if !can_be_revoked {
            Err(StoreError::Conflict { entity: EntityKind::CacheSession })
        } else {
            Ok(MutationDisposition::Applied)
        },
    }
}

/// The job and the state of a session that was found.
pub open spec fn found_session(row: Option<(u128, String)>) -> Option<(u128, Seq<char>)> {
    match row {
        Some((session_job, state)) => Some((session_job, state@)),
        None => None,
    }
}

/// Decides a revocation under a lease that is held: revoking twice is a repetition.
pub fn revoke_held(row: &Option<(u128, String)>, job_id: u128, lease_id: u128, can_be_revoked: bool) -> (result: Result<
    MutationDisposition,
    StoreError,
>)
    ensures
        result == revocation(
            found_session(*row),
            job_id,
            lease_id,
            can_be_revoked,
        ),
{
    match row {
        None => Err(StoreError::NotFound { entity: EntityKind::CacheSession }),
        Some((session_job, state)) => {
            if *session_job != job_id {
                return Err(StoreError::Fenced { lease: lease_id });
            }
            match parse_state(state.as_str()) {
                Err(_) => {
                    assert(state@ != cache_session_state_text(CacheSessionState::Active));
                    assert(state@ != cache_session_state_text(CacheSessionState::Revoked));
                    assert(state@ != cache_session_state_text(CacheSessionState::Expired));
                    Err(StoreError::Unavailable)
                },
                Ok(parsed) => {
                    assert(state@ == cache_session_state_text(parsed));
                    proof {
                        cache_session_state_text_names_one_value(parsed, CacheSessionState::Revoked);
                    }
                    if parsed == CacheSessionState::Revoked {
                        return Ok(MutationDisposition::Replayed);
                    }
                    if !can_be_revoked {
                        return Err(StoreError::Conflict { entity: EntityKind::CacheSession });
                    }
                    Ok(MutationDisposition::Applied)
                },
            }
        },
    }
}

/// Decides a revocation: the caller has to hold the lease.
pub fn revoke(
    lease: Option<LeaseRow>,
    access: &LeaseAccess,
    revoked_at: i64,
    row: &Option<(u128, String)>,
    job_id: u128,
    can_be_revoked: bool,
) -> (result: Result<MutationDisposition, StoreError>)
    ensures
        result == (match loaded(lease, *access, StoreOperation::RevokeCacheSession, sha256_of(access.fence@)) {
            Err(error) => Err::<MutationDisposition, StoreError>(error),
            Ok(lease) => match currency(lease, *access, revoked_at) {
                Err(error) => Err(error),
                Ok(()) => revocation(found_session(*row), job_id, access.lease_id, can_be_revoked),
            },
        }),
{
    let lease = match load(lease, access, StoreOperation::RevokeCacheSession) {
        Ok(lease) => lease,
        Err(error) => {
            return Err(error);
        },
    };
    match require_current(&lease, access, revoked_at) {
        Ok(()) => revoke_held(row, job_id, access.lease_id, can_be_revoked),
        Err(error) => Err(error),
    }
}

/// What authorising reads of a session, its lease and its registration.
pub struct AuthorizationRow {
    /// The project.
    pub project_id: u128,
    /// The namespace.
    pub namespace: String,
    /// What the session allows.
    pub permissions: CachePermissions,
    /// Digest of its credential.
    pub credential_hash: Vec<u8>,
    /// How much the project may store.
    pub quota_bytes: i64,
    /// Whether it is open.
    pub state: String,
    /// When it began.
    pub created_at_millis: i64,
    /// When it runs out.
    pub expires_at_millis: i64,
    /// Until when its entries are kept.
    pub retention_until_millis: i64,
    /// State of its lease.
    pub lease_state: String,
    /// When its lease runs out.
    pub lease_expires_at_millis: i64,
    /// Whether its registration was revoked.
    pub registration_revoked: bool,
    /// When its registration runs out.
    pub registration_expires_at_millis: i64,
}

/// Whether a session is open, and so are the lease and the registration behind it.
pub open spec fn is_backed(row: AuthorizationRow, now: i64) -> bool {
    &&& row.state@ == "active"@
    &&& now < row.expires_at_millis
    &&& is_current_state(row.lease_state@)
    &&& now < row.lease_expires_at_millis
    &&& !row.registration_revoked
    &&& now < row.registration_expires_at_millis
}

/// Whether a session lets the holder of a credential do something in a namespace.
pub open spec fn is_allowed(
    row: AuthorizationRow,
    namespace: Seq<char>,
    operation: CacheOperation,
    presented_digest: Seq<u8>,
    now: i64,
) -> bool {
    &&& is_backed(row, now)
    &&& row.namespace@ == namespace
    &&& row.permissions.spec_allows(operation)
    &&& row.credential_hash@ == presented_digest
}

/// What an authorised caller may do.
pub struct CacheAuthorization {
    /// The project.
    pub project_id: u128,
    /// The policy.
    pub policy: CacheNamespacePolicy,
    /// Until when entries are kept.
    pub retention_until: i64,
}

/// The answer to a request for authorisation.
pub enum CacheAuthorizationOutcome {
    /// Allowed.
    Authorized(CacheAuthorization),
    /// Not allowed.
    Rejected,
}

/// Whether the numbers of an authorisation can be read.
pub open spec fn is_readable_authorization(row: AuthorizationRow) -> bool {
    &&& is_identity(row.project_id)
    &&& row.quota_bytes >= 0
    &&& is_timestamp(row.created_at_millis)
    &&& is_whole_seconds(row.created_at_millis, row.retention_until_millis)
    &&& is_timestamp(row.retention_until_millis)
}

/// Authorises an operation on a cache: an unknown session, and one that does not allow it now, is
/// rejected without saying why.
pub fn authorize(
    row: Option<AuthorizationRow>,
    namespace: String,
    operation: CacheOperation,
    presented_digest: &[u8],
    now: i64,
) -> (result: Result<CacheAuthorizationOutcome, StoreError>)
    ensures
        match row {
            None => result matches Ok(CacheAuthorizationOutcome::Rejected),
            Some(row) => if row.credential_hash@.len() != 32 {
                result matches Err(error) && error == StoreError::Unavailable
            } else if !is_allowed(row, namespace@, operation, presented_digest@, now) {
                result matches Ok(CacheAuthorizationOutcome::Rejected)
            } else if !is_readable_authorization(row) {
                result matches Err(error) && error == StoreError::Unavailable
            } else {
                result matches Ok(CacheAuthorizationOutcome::Authorized(granted)) && granted.project_id
                    == row.project_id && granted.policy.namespace@ == namespace@ && granted.policy.permissions
                    == row.permissions && granted.policy.quota_bytes == row.quota_bytes
                    && granted.policy.retention_seconds * 1000 == row.retention_until_millis - row.created_at_millis
                    && granted.retention_until == row.retention_until_millis
            },
        },
{
    let row = match row {
        Some(row) => row,
        None => {
            return Ok(CacheAuthorizationOutcome::Rejected);
        },
    };
    if row.credential_hash.len() != 32 {
        return Err(StoreError::Unavailable);
    }
    let allowed = same_text(row.state.as_str(), "active") && same_text(row.namespace.as_str(), namespace.as_str())
        && row.permissions.allows(operation) && same_bytes(row.credential_hash.as_slice(), presented_digest) && now
        < row.expires_at_millis && current_lease_state(row.lease_state.as_str()) && now < row.lease_expires_at_millis
        && !row.registration_revoked && now < row.registration_expires_at_millis;
    if !allowed {
        return Ok(CacheAuthorizationOutcome::Rejected);
    }
    let project_id: u128 = identity(row.project_id)?;
    let quota_bytes: u64 = unsigned(row.quota_bytes)?;
    let created_at: i64 = timestamp(row.created_at_millis)?;
    let lifetime: u64 = retention_seconds(created_at, row.retention_until_millis)?;
    let retention_until: i64 = timestamp(row.retention_until_millis)?;
    Ok(
        CacheAuthorizationOutcome::Authorized(
            CacheAuthorization {
                project_id,
                policy: CacheNamespacePolicy {
                    namespace,
                    permissions: row.permissions,
                    quota_bytes,
                    retention_seconds: lifetime,
                },
                retention_until,
            },
        ),
    )
}

/// A session that is not backed lets nobody do anything, and it is never backed again once its time,
/// its lease's or its registration's is up.
pub proof fn unbacked_sessions_stay_closed(
    row: AuthorizationRow,
    namespace: Seq<char>,
    operation: CacheOperation,
    presented_digest: Seq<u8>,
    earlier: i64,
    later: i64,
)
    requires
        earlier <= later,
        !is_backed(row, earlier),
    ensures
        !is_allowed(row, namespace, operation, presented_digest, later),
{
}

/// A session is used exactly with its own credential, in its own namespace, for what it permits, while it is active
/// and it, its lease and the registration behind it last and are held.
pub proof fn backed_sessions_are_open(
    row: AuthorizationRow,
    namespace: Seq<char>,
    operation: CacheOperation,
    presented_digest: Seq<u8>,
    now: i64,
)
    ensures
        is_allowed(row, namespace, operation, presented_digest, now) <==> row.state@ == "active"@ && now
            < row.expires_at_millis && (row.lease_state@ == "active"@ || row.lease_state@ == "cancellation_requested"@
            || row.lease_state@ == "drain_requested"@) && now < row.lease_expires_at_millis && !row.registration_revoked
            && now < row.registration_expires_at_millis && row.namespace@ == namespace && row.credential_hash@
            == presented_digest && (operation == CacheOperation::Read ==> row.permissions.read) && (operation
            == CacheOperation::Write ==> row.permissions.write),
{
}

/// A session is begun exactly under the held lease of its job and its attempt.
pub proof fn sessions_are_begun_under_a_held_lease(request: BeginCacheSession, lease: LeaseRow)
    requires
        lease.attempt_number > 0,
    ensures
        lease_verdict(request, lease) is Ok <==> !lease.expired && request.created_at < lease.expires_at_millis && (
        lease.state@ == "active"@ || lease.state@ == "cancellation_requested"@ || lease.state@ == "drain_requested"@)
            && lease.job_id == request.job_id && lease.attempt_number == request.attempt,
        lease_verdict(request, lease) matches Err(error) ==> error == (if lease.expired || lease.state@ == "expired"@
            || request.created_at >= lease.expires_at_millis {
            StoreError::Expired { lease: request.lease.lease_id }
        } else {
            StoreError::Fenced { lease: request.lease.lease_id }
        }),
{
    current_states_are_not_expired();
}

/// A new session lasts as long as was asked for, but no longer than its lease; what it writes is kept as long as its
/// namespace says, within the quota of its namespace.
pub proof fn new_sessions_last_as_asked(
    result: Result<SessionStart, StoreError>,
    request: BeginCacheSession,
    lease: LeaseRow,
    policy: CacheNamespacePolicy,
)
    requires
        is_session_start(result, request, lease, Ok(policy), None),
        lease_verdict(request, lease) is Ok,
        lease.project_id != 0,
        policy.quota_bytes <= i64::MAX,
        request.lease.registration_epoch <= i64::MAX,
        request.created_at >= 0,
        request.expires_at >= 0,
        lease.expires_at_millis >= 0,
        request.created_at + policy.retention_seconds * 1000 <= i64::MAX,
    ensures
        result matches Ok(SessionStart::Open(write)) && write.expires_at <= lease.expires_at_millis && write.expires_at
            <= request.expires_at && (write.expires_at == request.expires_at || write.expires_at
            == lease.expires_at_millis) && write.retention_until == request.created_at + policy.retention_seconds * 1000
            && write.quota_bytes == policy.quota_bytes && write.registration_epoch == request.lease.registration_epoch,
{
}

/// A session that is begun again is the one on record exactly where it is of the same job, in the same namespace and
/// with the same permissions; otherwise it is a conflict.
pub proof fn sessions_are_begun_once(
    result: Result<SessionStart, StoreError>,
    request: BeginCacheSession,
    lease: LeaseRow,
    policy: CacheNamespacePolicy,
    row: CacheSessionRow,
)
    requires
        is_session_start(result, request, lease, Ok(policy), Some(row)),
        lease_verdict(request, lease) is Ok,
        is_readable(row),
    ensures
        row.job_id == request.job_id && row.namespace@ == policy.namespace@ && row.permissions == policy.permissions ==> (
        result matches Ok(SessionStart::Replay(record)) && record.id == row.id && record.job_id == row.job_id
            && record.expires_at == row.expires_at_millis && record.policy.permissions == row.permissions
            && record.policy.quota_bytes == row.quota_bytes),
        !(row.job_id == request.job_id && row.namespace@ == policy.namespace@ && row.permissions == policy.permissions)
            ==> (result matches Err(error) && error == (StoreError::Conflict { entity: EntityKind::CacheSession })),
{
}

/// A session is revoked exactly by the job it belongs to, once; revoking it again changes nothing.
pub proof fn sessions_are_revoked_by_their_job(
    session_job: u128,
    state: Seq<char>,
    job_id: u128,
    lease_id: u128,
    can_be_revoked: bool,
)
    ensures
        session_job != job_id ==> revocation(Some((session_job, state)), job_id, lease_id, can_be_revoked) == Err::<
            MutationDisposition,
            StoreError,
        >(StoreError::Fenced { lease: lease_id }),
        session_job == job_id && state == "revoked"@ ==> revocation(
            Some((session_job, state)),
            job_id,
            lease_id,
            can_be_revoked,
        ) == Ok::<MutationDisposition, StoreError>(MutationDisposition::Replayed),
        session_job == job_id && (state == "active"@ || state == "expired"@) ==> revocation(
            Some((session_job, state)),
            job_id,
            lease_id,
            can_be_revoked,
        ) == (if can_be_revoked {
            Ok::<MutationDisposition, StoreError>(MutationDisposition::Applied)
        } else {
            Err(StoreError::Conflict { entity: EntityKind::CacheSession })
        }),
        revocation(None, job_id, lease_id, can_be_revoked) == Err::<MutationDisposition, StoreError>(
            StoreError::NotFound { entity: EntityKind::CacheSession },
        ),
{
    cache_session_state_text_names_one_value(CacheSessionState::Active, CacheSessionState::Revoked);
    cache_session_state_text_names_one_value(CacheSessionState::Expired, CacheSessionState::Revoked);
}

/// A time is put off by whole seconds, where the result is a time that can be stored.
pub proof fn times_are_put_off_by_seconds(value: i64, seconds: u64)
    requires
        value >= 0,
    ensures
        has_later(value, seconds) <==> value + seconds * 1000 <= i64::MAX,
{
}

/// A session is read as it is on record.
pub proof fn sessions_are_read_as_recorded(record: CacheSessionRecord, row: CacheSessionRow)
    requires
        is_session_of(record, row),
    ensures
        record.id == row.id && record.job_id == row.job_id && record.build_id == row.build_id && record.project_id
            == row.project_id && record.lease_id == row.lease_id && record.agent_id == row.agent_id,
        record.policy.namespace@ == row.namespace@ && record.policy.permissions == row.permissions
            && record.policy.quota_bytes == row.quota_bytes,
        record.created_at == row.created_at_millis && record.expires_at == row.expires_at_millis
            && record.retention_until == row.retention_until_millis && record.revoked_at == row.revoked_at_millis,
        record.state == CacheSessionState::Active <==> row.state@ == "active"@,
        record.state == CacheSessionState::Revoked <==> row.state@ == "revoked"@,
        record.state == CacheSessionState::Expired <==> row.state@ == "expired"@,
        record.lease_current == row.lease_current,
{
    cache_session_state_text_names_one_value(record.state, CacheSessionState::Active);
    cache_session_state_text_names_one_value(record.state, CacheSessionState::Revoked);
    cache_session_state_text_names_one_value(record.state, CacheSessionState::Expired);
}

/// A session is read exactly from a row whose identities are set, whose times are no earlier than the Unix epoch,
/// whose epoch counts from one, whose state is known, and which is kept for a positive whole number of seconds.
pub proof fn sound_sessions_are_read(row: CacheSessionRow)
    ensures
        is_readable(row) <==> row.id != 0 && row.project_id != 0 && row.build_id != 0 && row.job_id != 0 && row.agent_id
            != 0 && row.lease_id != 0 && row.namespace_is_valid && row.registration_epoch > 0 && row.quota_bytes >= 0
            && row.created_at_millis >= 0 && row.expires_at_millis >= 0 && row.retention_until_millis >= 0 && (
        row.revoked_at_millis is None || row.revoked_at_millis->Some_0 >= 0) && row.created_at_millis
            < row.retention_until_millis && (row.retention_until_millis - row.created_at_millis) % 1000 == 0 && (row.state@
            == "active"@ || row.state@ == "revoked"@ || row.state@ == "expired"@),
{
    assert(cache_session_state_text(CacheSessionState::Active) == "active"@);
    assert(cache_session_state_text(CacheSessionState::Revoked) == "revoked"@);
    assert(cache_session_state_text(CacheSessionState::Expired) == "expired"@);
}

/// An authorization is read exactly from a row that names a project and is kept for a positive whole number of seconds
/// from a time no earlier than the Unix epoch.
pub proof fn sound_authorizations_are_read(row: AuthorizationRow)
    ensures
        is_readable_authorization(row) <==> row.project_id != 0 && row.quota_bytes >= 0 && row.created_at_millis >= 0
            && row.created_at_millis < row.retention_until_millis && (row.retention_until_millis - row.created_at_millis)
            % 1000 == 0,
{
}

/// Lifetimes are kept in whole seconds: a positive number of thousands of milliseconds that fits a column.
pub proof fn lifetimes_are_whole_seconds(start: i64, end: i64)
    ensures
        is_whole_seconds(start, end) <==> start < end && end - start <= i64::MAX && (end - start) % 1000 == 0,
{
}

/// A session is read with the lifetime that lies between its start and the end of its retention.
pub proof fn sessions_are_read_with_their_lifetime(record: CacheSessionRecord, row: CacheSessionRow)
    requires
        is_session_read(record, row),
    ensures
        is_readable(row),
        record.created_at + record.policy.retention_seconds * 1000 == record.retention_until,
        record.policy.retention_seconds > 0,
        record.id == row.id && record.id != 0,
{
}

/// A session is opened exactly where its times and numbers can be stored and its lease names a project. A lease
/// without one is reported as unavailable, anything else as an invalid session.
pub proof fn storable_sessions_are_opened(request: BeginCacheSession, lease: LeaseRow, policy: CacheNamespacePolicy)
    ensures
        opening(request, lease, policy) is Ok <==> policy.retention_seconds * 1000 <= i64::MAX && 0 <= request.created_at
            + policy.retention_seconds * 1000 <= i64::MAX && request.expires_at >= 0 && lease.expires_at_millis >= 0
            && lease.project_id != 0 && policy.quota_bytes <= i64::MAX && request.lease.registration_epoch <= i64::MAX,
        opening(request, lease, policy) == Err::<(), StoreError>(StoreError::Unavailable) <==> policy.retention_seconds
            * 1000 <= i64::MAX && 0 <= request.created_at + policy.retention_seconds * 1000 <= i64::MAX
            && request.expires_at >= 0 && lease.expires_at_millis >= 0 && lease.project_id == 0,
        opening(request, lease, policy) matches Err(error) ==> error == StoreError::Unavailable || error == (
        StoreError::InvalidInput {
            operation: StoreOperation::BeginCacheSession,
            source: StoreInputError::InvalidCacheSession,
        }),
{
}

/// Whoever may not begin a session learns why: from the lease, from the policy, from a session that was begun
/// otherwise or cannot be read, or from what cannot be stored, in this order.
pub proof fn refused_sessions_say_why(
    result: Result<SessionStart, StoreError>,
    request: BeginCacheSession,
    lease: LeaseRow,
    policy: Result<CacheNamespacePolicy, StoreError>,
    existing: Option<CacheSessionRow>,
)
    requires
        is_session_start(result, request, lease, policy, existing),
    ensures
        lease_verdict(request, lease) matches Err(error) ==> result == Err::<SessionStart, StoreError>(error),
        lease_verdict(request, lease) is Ok && policy is Err ==> result == Err::<SessionStart, StoreError>(policy->Err_0),
        lease_verdict(request, lease) is Ok && policy is Ok && existing is Some && is_same_session(
            existing->Some_0,
            policy->Ok_0,
            request.job_id,
        ) && !is_readable(existing->Some_0) ==> result == Err::<SessionStart, StoreError>(StoreError::Unavailable),
        lease_verdict(request, lease) is Ok && policy is Ok && existing is Some && !is_same_session(
            existing->Some_0,
            policy->Ok_0,
            request.job_id,
        ) ==> result == Err::<SessionStart, StoreError>(StoreError::Conflict { entity: EntityKind::CacheSession }),
        lease_verdict(request, lease) is Ok && policy is Ok && existing is None && opening(request, lease, policy->Ok_0)
            is Err ==> result == Err::<SessionStart, StoreError>(opening(request, lease, policy->Ok_0)->Err_0),
        result is Ok ==> lease_verdict(request, lease) is Ok && policy is Ok,
{
}

/// A lease of the right job whose attempt cannot be read makes the session unavailable, and so does a stored session
/// in a state that is not known.
pub proof fn damaged_sessions_are_unavailable(
    request: BeginCacheSession,
    lease: LeaseRow,
    state: Seq<char>,
    lease_id: u128,
    can_be_revoked: bool,
)
    requires
        state != "active"@ && state != "revoked"@ && state != "expired"@,
    ensures
        currency(lease, request.lease, request.created_at) is Ok && lease.job_id == request.job_id && lease.attempt_number
            <= 0 ==> lease_verdict(request, lease) == Err::<(), StoreError>(StoreError::Unavailable),
        revocation(Some((request.job_id, state)), request.job_id, lease_id, can_be_revoked) == Err::<
            MutationDisposition,
            StoreError,
        >(StoreError::Unavailable),
{
}

/// A session is looked up with its job and its state.
pub proof fn sessions_are_found_with_their_state(session_job: u128, state: String)
    ensures
        found_session(Some((session_job, state))) == Some((session_job, state@)),
        found_session(None) is None,
{
}

} // verus!
