//! Entries of a build cache: blobs, action results, and the quota they count against.

use vstd::prelude::*;

use crate::cache_session::{
    current_lease_state, session_number, unsigned, CacheOperation, CachePermissions,
};
use crate::domain::{is_timestamp, timestamp, StoreError, StoreInputError, StoreOperation};
use crate::lease::is_current_state;
use crate::text::{same_bytes, same_text};

verus! {

/// What is refused as no cache data.
pub open spec fn not_cache_data(operation: StoreOperation) -> StoreError {
    StoreError::InvalidInput { operation, source: StoreInputError::InvalidCacheData }
}

/// The refusal of what is no cache data.
pub fn invalid_cache_data(operation: StoreOperation) -> (error: StoreError)
    ensures
        error == not_cache_data(operation),
{
    StoreError::InvalidInput { operation, source: StoreInputError::InvalidCacheData }
}

/// What access to data reads of a session, its lease and its registration.
pub struct DataAuthorizationRow {
    /// The project.
    pub project_id: u128,
    /// The scope.
    pub scope_id: String,
    /// What the session allows.
    pub permissions: CachePermissions,
    /// Digest of its credential.
    pub credential_hash: Vec<u8>,
    /// How much the project may store.
    pub quota_bytes: i64,
    /// Whether it is open.
    pub state: String,
    /// When it runs out.
    pub session_expires_at_millis: i64,
    /// Until when entries are kept.
    pub retention_until_millis: i64,
    /// State of its lease.
    pub lease_state: String,
    /// When its lease runs out.
    pub lease_expires_at_millis: i64,
    /// Whether its registration was revoked.
    pub registration_revoked: bool,
    /// When its registration runs out.
    pub registration_expires_at_millis: i64,
    /// The namespace.
    pub namespace: String,
}

/// Where an authorised caller's entries go.
pub struct DataScope {
    /// The scope.
    pub scope_id: String,
    /// The project.
    pub project_id: u128,
    /// How much the project may store.
    pub quota_bytes: u64,
    /// Until when entries are kept.
    pub retention_until: i64,
}

/// Whether permissions cover an operation; without one, whether they cover anything.
pub open spec fn covers(permissions: CachePermissions, operation: Option<CacheOperation>) -> bool {
    match operation {
        Some(operation) => permissions.spec_allows(operation),
        None => permissions.read || permissions.write,
    }
}

/// What access to data comes to, given the digest of the presented credential.
pub open spec fn data_verdict(
    row: Option<DataAuthorizationRow>,
    namespace: Seq<char>,
    presented_digest: Seq<u8>,
    operation: Option<CacheOperation>,
    now: i64,
) -> Result<(), StoreError> {
    match row {
        None => Err(StoreError::CredentialRejected),
        Some(row) => if row.state@ != "active"@ || row.namespace@ != namespace || !covers(row.permissions, operation) {
            Err(StoreError::CredentialRejected)
        } else if row.credential_hash@.len() != 32 {
            Err(StoreError::Unavailable)
        } else if row.credential_hash@ != presented_digest || now >= row.session_expires_at_millis
            || !is_current_state(row.lease_state@) || now >= row.lease_expires_at_millis || row.registration_revoked
            || now >= row.registration_expires_at_millis {
            Err(StoreError::CredentialRejected)
        } else if row.quota_bytes < 0 || !is_timestamp(row.retention_until_millis) {
            Err(StoreError::Unavailable)
        } else {
            Ok(())
        },
    }
}

/// Opens the scope of a session to the holder of its credential.
pub fn authorize_data(
    row: Option<DataAuthorizationRow>,
    namespace: &str,
    presented_digest: &[u8],
    operation: Option<CacheOperation>,
    now: i64,
) -> (result: Result<DataScope, StoreError>)
    ensures
        match data_verdict(row, namespace@, presented_digest@, operation, now) {
            Err(error) => result matches Err(reported) && reported == error,
            Ok(()) => result matches Ok(scope) && scope.scope_id == row->Some_0.scope_id && scope.project_id
                == row->Some_0.project_id && scope.quota_bytes == row->Some_0.quota_bytes && scope.retention_until
                == row->Some_0.retention_until_millis,
        },
{
    let row = match row {
        Some(row) => row,
        None => {
            return Err(StoreError::CredentialRejected);
        },
    };
    let permitted = match operation {
        Some(operation) => row.permissions.allows(operation),
        None => row.permissions.read || row.permissions.write,
    };
    if !same_text(row.state.as_str(), "active") || !same_text(row.namespace.as_str(), namespace) || !permitted {
        return Err(StoreError::CredentialRejected);
    }
    if row.credential_hash.len() != 32 {
        return Err(StoreError::Unavailable);
    }
    if !same_bytes(row.credential_hash.as_slice(), presented_digest) || now >= row.session_expires_at_millis
        || !current_lease_state(row.lease_state.as_str()) || now >= row.lease_expires_at_millis
        || row.registration_revoked || now >= row.registration_expires_at_millis {
        return Err(StoreError::CredentialRejected);
    }
    let quota_bytes: u64 = unsigned(row.quota_bytes)?;
    let retention_until: i64 = timestamp(row.retention_until_millis)?;
    Ok(DataScope { scope_id: row.scope_id, project_id: row.project_id, quota_bytes, retention_until })
}

/// Nobody writes with permissions to read only, and nobody reads with permissions to write only.
pub proof fn permissions_are_kept(
    row: DataAuthorizationRow,
    namespace: Seq<char>,
    presented_digest: Seq<u8>,
    operation: CacheOperation,
    now: i64,
)
    ensures
        data_verdict(Some(row), namespace, presented_digest, Some(operation), now) is Ok ==> row.permissions.spec_allows(
            operation,
        ),
{
}

/// Whether a list holds a text.
pub open spec fn lists(list: Seq<String>, text: Seq<char>) -> bool {
    exists|i: int| 0 <= i < list.len() && (#[trigger] list[i])@ == text
}

fn holds(list: &Vec<String>, count: usize, text: &str) -> (found: bool)
    requires
        count <= list@.len(),
    ensures
        found == lists(list@.subrange(0, count as int), text@),
{
    let ghost part = list@.subrange(0, count as int);
    let mut i: usize = 0;
    while i < count
        invariant
            i <= count <= list@.len(),
            part == list@.subrange(0, count as int),
            forall|k: int| 0 <= k < i ==> (#[trigger] part[k])@ != text@,
        decreases count - i,
    {
        assert(part[i as int] == list@[i as int]);
        if same_text(list[i].as_str(), text) {
            return true;
        }
        i += 1;
    }
    false
}

/// Whether a blob is reported as missing: it is not present, and no blob before it has its key.
pub open spec fn is_reported(keys: Seq<String>, present: Seq<String>, index: int) -> bool {
    !lists(present, keys[index]@) && !lists(keys.subrange(0, index), keys[index]@)
}

/// The blobs that are reported as missing among the first `count`, in order.
pub open spec fn missing_among(keys: Seq<String>, present: Seq<String>, count: nat) -> Seq<usize>
    decreases count,
{
    if count == 0 {
        Seq::empty()
    } else if is_reported(keys, present, count - 1) {
        missing_among(keys, present, (count - 1) as nat).push((count - 1) as usize)
    } else {
        missing_among(keys, present, (count - 1) as nat)
    }
}

/// Finds the blobs that are missing, each once and in order: `scope` is what authorising the caller gave,
/// `are_blobs` says whether all that were asked for are valid, `keys` are their keys, and `present` those that
/// exist.
pub fn find_missing_blobs(
    scope: &Result<DataScope, StoreError>,
    are_blobs: bool,
    keys: &Vec<String>,
    present: &Vec<String>,
) -> (result: Result<Vec<usize>, StoreError>)
    ensures
        match *scope {
            Err(refusal) => result matches Err(error) && error == refusal,
            Ok(_) => if !are_blobs {
                result matches Err(error) && error == not_cache_data(StoreOperation::ReadCacheBlob)
            } else {
                result matches Ok(missing) && missing@ == missing_among(keys@, present@, keys@.len())
            },
        },
{
    match scope {
        Ok(_) => {},
        Err(error) => {
            return Err(*error);
        },
    }
    if !are_blobs {
        return Err(invalid_cache_data(StoreOperation::ReadCacheBlob));
    }
    let mut missing: Vec<usize> = Vec::new();
    let mut i: usize = 0;
    while i < keys.len()
        invariant
            i <= keys@.len(),
            missing@ == missing_among(keys@, present@, i as nat),
        decreases keys@.len() - i,
    {
        assert(present@.subrange(0, present@.len() as int) =~= present@);
        let key = keys[i].as_str();
        if !holds(present, present.len(), key) && !holds(keys, i, key) {
            missing.push(i);
        }
        i += 1;
    }
    Ok(missing)
}

/// A blob that is reported as missing is not present.
pub proof fn missing_blobs_are_absent(keys: Seq<String>, present: Seq<String>, count: nat, at: int)
    requires
        count <= keys.len() <= usize::MAX,
        0 <= at < missing_among(keys, present, count).len(),
    ensures
        missing_among(keys, present, count)[at] < count,
        !lists(present, keys[missing_among(keys, present, count)[at] as int]@),
    decreases count,
{
    let shorter = missing_among(keys, present, (count - 1) as nat);
    if at < shorter.len() {
        missing_blobs_are_absent(keys, present, (count - 1) as nat, at);
    }
}

/// Missing blobs are reported in order, and no key is reported twice.
pub proof fn missing_keys_are_distinct(keys: Seq<String>, present: Seq<String>, count: nat, a: int, b: int)
    requires
        count <= keys.len() <= usize::MAX,
        0 <= a < b < missing_among(keys, present, count).len(),
    ensures
        missing_among(keys, present, count)[a] < missing_among(keys, present, count)[b],
        keys[missing_among(keys, present, count)[a] as int]@ != keys[missing_among(keys, present, count)[b] as int]@,
    decreases count,
{
    let all = missing_among(keys, present, count);
    let shorter = missing_among(keys, present, (count - 1) as nat);
    if b < shorter.len() {
        missing_keys_are_distinct(keys, present, (count - 1) as nat, a, b);
    } else {
        missing_blobs_are_absent(keys, present, (count - 1) as nat, a);
        assert(all[b] == count - 1);
        let before = keys.subrange(0, count - 1);
        assert(before[all[a] as int] == keys[all[a] as int]);
    }
}

/// A blob that is not present is reported under its key, if not at its own place then at an earlier
/// one.
pub proof fn absent_blobs_are_reported(keys: Seq<String>, present: Seq<String>, count: nat, index: int)
    requires
        0 <= index < count <= keys.len() <= usize::MAX,
        !lists(present, keys[index]@),
    ensures
        exists|at: int|
            #![trigger missing_among(keys, present, count)[at]]
            0 <= at < missing_among(keys, present, count).len() && keys[missing_among(
                keys,
                present,
                count,
            )[at] as int]@ == keys[index]@,
    decreases count, index,
{
    let all = missing_among(keys, present, count);
    let shorter = missing_among(keys, present, (count - 1) as nat);
    if index < count - 1 {
        absent_blobs_are_reported(keys, present, (count - 1) as nat, index);
        let at = choose|at: int|
            #![trigger shorter[at]]
            0 <= at < shorter.len() && keys[shorter[at] as int]@ == keys[index]@;
        assert(all[at] == shorter[at]);
    } else if is_reported(keys, present, index) {
        assert(all[all.len() - 1] == index);
    } else {
        let before = keys.subrange(0, index);
        let earlier = choose|k: int| 0 <= k < before.len() && (#[trigger] before[k])@ == keys[index]@;
        assert(before[earlier] == keys[earlier]);
        absent_blobs_are_reported(keys, present, count, earlier);
    }
}

/// Whether some more bytes stay within a quota.
pub open spec fn quota_verdict(used: i64, additional: u64, quota_bytes: u64) -> Result<bool, StoreError> {
    if used < 0 {
        Err(StoreError::Unavailable)
    } else {
        Ok(used + additional <= quota_bytes)
    }
}

/// Whether some more bytes stay within a quota, besides those that are used.
pub fn quota_allows(used: i64, additional: u64, quota_bytes: u64) -> (result: Result<bool, StoreError>)
    ensures
        result == quota_verdict(used, additional, quota_bytes),
{
    let used: u64 = unsigned(used)?;
    match used.checked_add(additional) {
        Some(total) => Ok(total <= quota_bytes),
        None => Ok(false),
    }
}

/// A blob on record under the key of the one that is offered.
#[derive(Clone, Copy, Debug, PartialEq, Eq, Structural)]
pub struct ExistingBlob {
    /// Whether it is the same blob.
    pub is_same: bool,
    /// Whether its content has arrived.
    pub published: bool,
}

/// What is done with a blob that is offered.
#[derive(Clone, Copy, Debug, PartialEq, Eq, Structural)]
pub enum BlobPreparation {
    /// Its content is there.
    AlreadyPresent,
    /// It was reserved before; its content is still to come.
    Resume,
    /// Reserve it, charging this many bytes.
    Reserve { charged_bytes: i64 },
    /// There is no room for it.
    QuotaExceeded,
}

/// What offering a blob comes to, once its caller is authorised. `is_object` says whether blob and scope
/// name an object.
pub open spec fn preparation(
    is_object: bool,
    existing: Option<ExistingBlob>,
    used: i64,
    size_bytes: u64,
    quota_bytes: u64,
) -> Result<BlobPreparation, StoreError> {
    if !is_object {
        Err(not_cache_data(StoreOperation::PublishCacheBlob))
    } else {
        match existing {
            Some(existing) => if !existing.is_same {
                Err(StoreError::Unavailable)
            } else if existing.published {
                Ok(BlobPreparation::AlreadyPresent)
            } else {
                Ok(BlobPreparation::Resume)
            },
            None => match quota_verdict(used, size_bytes, quota_bytes) {
                Err(error) => Err(error),
                Ok(false) => Ok(BlobPreparation::QuotaExceeded),
                Ok(true) => if size_bytes <= i64::MAX {
                    Ok(BlobPreparation::Reserve { charged_bytes: size_bytes as i64 })
                } else {
                    Err(crate::cache_session::not_a_session())
                },
            },
        }
    }
}

/// What offering a blob comes to: `is_blob` says whether it is valid, and `scope` is what authorising its caller
/// gave.
pub open spec fn offer(
    is_blob: bool,
    scope: Result<DataScope, StoreError>,
    is_object: bool,
    existing: Option<ExistingBlob>,
    used: i64,
    size_bytes: u64,
) -> Result<BlobPreparation, StoreError> {
    if !is_blob {
        Err(not_cache_data(StoreOperation::PublishCacheBlob))
    } else {
        match scope {
            Err(error) => Err(error),
            Ok(scope) => preparation(is_object, existing, used, size_bytes, scope.quota_bytes),
        }
    }
}

/// Decides what is done with a blob that is offered.
pub fn prepare_blob(
    is_blob: bool,
    scope: &Result<DataScope, StoreError>,
    is_object: bool,
    existing: Option<ExistingBlob>,
    used: i64,
    size_bytes: u64,
) -> (result: Result<BlobPreparation, StoreError>)
    ensures
        result == offer(is_blob, *scope, is_object, existing, used, size_bytes),
{
    if !is_blob {
        return Err(invalid_cache_data(StoreOperation::PublishCacheBlob));
    }
    let quota_bytes: u64 = match scope {
        Ok(scope) => scope.quota_bytes,
        Err(error) => {
            return Err(*error);
        },
    };
    if !is_object {
        return Err(invalid_cache_data(StoreOperation::PublishCacheBlob));
    }
    match existing {
        Some(existing) => {
            if !existing.is_same {
                return Err(StoreError::Unavailable);
            }
            if existing.published {
                Ok(BlobPreparation::AlreadyPresent)
            } else {
                Ok(BlobPreparation::Resume)
            }
        },
        None => {
            let room = quota_allows(used, size_bytes, quota_bytes)?;
            if !room {
                return Ok(BlobPreparation::QuotaExceeded);
            }
            let charged_bytes: i64 = session_number(size_bytes)?;
            Ok(BlobPreparation::Reserve { charged_bytes })
        },
    }
}

/// What came of publishing to a cache.
#[derive(Clone, Copy, Debug, PartialEq, Eq, Structural)]
pub enum CachePublicationOutcome {
    /// It was published now.
    Published,
    /// It was published before.
    AlreadyPresent,
    /// Something else is there, or something it needs is not.
    Conflict,
    /// There is no room for it.
    QuotaExceeded,
}

/// What publishing a blob comes to: it has to be reserved, and to be the one that was reserved.
pub open spec fn blob_publication(existing: Option<ExistingBlob>) -> CachePublicationOutcome {
    match existing {
        Some(existing) if existing.is_same => if existing.published {
            CachePublicationOutcome::AlreadyPresent
        } else {
            CachePublicationOutcome::Published
        },
        _ => CachePublicationOutcome::Conflict,
    }
}

/// Decides the publication of a blob: `is_blob` says whether it is valid, and `scope` is what authorising its
/// caller gave.
pub fn publish_blob(is_blob: bool, scope: &Result<DataScope, StoreError>, existing: Option<ExistingBlob>) -> (result:
    Result<CachePublicationOutcome, StoreError>)
    ensures
        result == (if !is_blob {
            Err::<CachePublicationOutcome, StoreError>(not_cache_data(StoreOperation::PublishCacheBlob))
        } else {
            match *scope {
                Err(error) => Err(error),
                Ok(_) => Ok(blob_publication(existing)),
            }
        }),
{
    if !is_blob {
        return Err(invalid_cache_data(StoreOperation::PublishCacheBlob));
    }
    match scope {
        Ok(_) => {},
        Err(error) => {
            return Err(*error);
        },
    }
    match existing {
        None => Ok(CachePublicationOutcome::Conflict),
        Some(existing) => {
            if !existing.is_same {
                return Ok(CachePublicationOutcome::Conflict);
            }
            if existing.published {
                Ok(CachePublicationOutcome::AlreadyPresent)
            } else {
                Ok(CachePublicationOutcome::Published)
            }
        },
    }
}

/// What an action result that is published is, by itself.
#[derive(Clone, Copy, Debug, PartialEq, Eq, Structural)]
pub struct OfferedAction {
    /// Whether it is valid.
    pub is_valid: bool,
    /// Whether it is the result of the action that it is published for.
    pub is_for_action: bool,
    /// Its length on the wire.
    pub wire_size_bytes: u64,
}

/// Checks an action result before it is published: it has to be valid, to be the result of the action
/// it is published for, and not to be empty on the wire.
pub fn check_action(offered: OfferedAction) -> (result: Result<(), StoreError>)
    ensures
        result == (if is_publishable(offered) {
            Ok::<(), StoreError>(())
        } else {
            Err(not_cache_data(StoreOperation::PublishCacheAction))
        }),
{
    if !offered.is_valid {
        return Err(invalid_cache_data(StoreOperation::PublishCacheAction));
    }
    if !offered.is_for_action || offered.wire_size_bytes == 0 {
        return Err(invalid_cache_data(StoreOperation::PublishCacheAction));
    }
    Ok(())
}

/// Whether an action result can be published.
pub open spec fn is_publishable(offered: OfferedAction) -> bool {
    offered.is_valid && offered.is_for_action && offered.wire_size_bytes > 0
}

/// What publishing an action result comes to, once it was checked and its caller is authorised.
/// `existing_is_same` speaks of a result on record, and `bundle_rows` of the output bundle it refers to,
/// where there is one.
pub open spec fn action_publication(
    existing_is_same: Option<bool>,
    bundle_rows: Option<u64>,
    used: i64,
    wire_size_bytes: u64,
    quota_bytes: u64,
) -> Result<CachePublicationOutcome, StoreError> {
    match existing_is_same {
        Some(true) => Ok(CachePublicationOutcome::AlreadyPresent),
        Some(false) => Ok(CachePublicationOutcome::Conflict),
        None => if bundle_rows == Some(0u64) {
            Ok(CachePublicationOutcome::Conflict)
        } else {
            match quota_verdict(used, wire_size_bytes, quota_bytes) {
                Err(error) => Err(error),
                Ok(false) => Ok(CachePublicationOutcome::QuotaExceeded),
                Ok(true) => if wire_size_bytes <= i64::MAX {
                    Ok(CachePublicationOutcome::Published)
                } else {
                    Err(crate::cache_session::not_a_session())
                },
            }
        },
    }
}

/// What publishing an action result comes to: `scope` is what authorising its caller gave.
pub open spec fn action_offer(
    offered: OfferedAction,
    scope: Result<DataScope, StoreError>,
    existing_is_same: Option<bool>,
    bundle_rows: Option<u64>,
    used: i64,
) -> Result<CachePublicationOutcome, StoreError> {
    if !is_publishable(offered) {
        Err(not_cache_data(StoreOperation::PublishCacheAction))
    } else {
        match scope {
            Err(error) => Err(error),
            Ok(scope) => action_publication(
                existing_is_same,
                bundle_rows,
                used,
                offered.wire_size_bytes,
                scope.quota_bytes,
            ),
        }
    }
}

/// Decides the publication of an action result: the result of an action is fixed once it is published,
/// and it may only refer to a bundle that is there.
pub fn publish_action(
    offered: OfferedAction,
    scope: &Result<DataScope, StoreError>,
    existing_is_same: Option<bool>,
    bundle_rows: Option<u64>,
    used: i64,
) -> (result: Result<CachePublicationOutcome, StoreError>)
    ensures
        result == action_offer(offered, *scope, existing_is_same, bundle_rows, used),
{
    match check_action(offered) {
        Ok(()) => {},
        Err(error) => {
            return Err(error);
        },
    }
    let quota_bytes: u64 = match scope {
        Ok(scope) => scope.quota_bytes,
        Err(error) => {
            return Err(*error);
        },
    };
    match existing_is_same {
        Some(is_same) => {
            if !is_same {
                return Ok(CachePublicationOutcome::Conflict);
            }
            return Ok(CachePublicationOutcome::AlreadyPresent);
        },
        None => {},
    }
    match bundle_rows {
        Some(rows) => {
            if rows == 0 {
                return Ok(CachePublicationOutcome::Conflict);
            }
        },
        None => {},
    }
    let room = quota_allows(used, offered.wire_size_bytes, quota_bytes)?;
    if !room {
        return Ok(CachePublicationOutcome::QuotaExceeded);
    }
    let _charged: i64 = session_number(offered.wire_size_bytes)?;
    Ok(CachePublicationOutcome::Published)
}

/// Whatever is stored newly stays within the quota of its project, together with what is stored
/// already.
pub proof fn quotas_are_kept(
    is_object: bool,
    existing: Option<ExistingBlob>,
    existing_is_same: Option<bool>,
    bundle_rows: Option<u64>,
    used: i64,
    size_bytes: u64,
    quota_bytes: u64,
)
    ensures
        preparation(is_object, existing, used, size_bytes, quota_bytes) matches Ok(BlobPreparation::Reserve {
            charged_bytes,
        }) ==> charged_bytes == size_bytes && used + charged_bytes <= quota_bytes,
        action_publication(existing_is_same, bundle_rows, used, size_bytes, quota_bytes) == Ok::<
            CachePublicationOutcome,
            StoreError,
        >(CachePublicationOutcome::Published) ==> used + size_bytes <= quota_bytes,
{
}

/// What is on record of a blob after it was offered.
pub open spec fn stored_by_offer(existing: Option<ExistingBlob>, prepared: BlobPreparation) -> Option<ExistingBlob> {
    match prepared {
        BlobPreparation::Reserve { .. } => Some(ExistingBlob { is_same: true, published: false }),
        _ => existing,
    }
}

/// What is on record of a blob after it was published.
pub open spec fn stored_by_publication(
    existing: Option<ExistingBlob>,
    outcome: CachePublicationOutcome,
) -> Option<ExistingBlob> {
    match outcome {
        CachePublicationOutcome::Published => Some(ExistingBlob { is_same: true, published: true }),
        _ => existing,
    }
}

/// A blob that was taken when it was offered can be published, and is published once: from then on it is found
/// present, whether it is published or offered again.
pub proof fn prepared_blobs_are_published_once(
    existing: Option<ExistingBlob>,
    used: i64,
    size_bytes: u64,
    quota_bytes: u64,
    prepared: BlobPreparation,
    later_used: i64,
)
    requires
        preparation(true, existing, used, size_bytes, quota_bytes) == Ok::<BlobPreparation, StoreError>(prepared),
        prepared != BlobPreparation::QuotaExceeded,
    ensures
        ({
            let offered = stored_by_offer(existing, prepared);
            let outcome = blob_publication(offered);
            let published = stored_by_publication(offered, outcome);
            &&& outcome == CachePublicationOutcome::Published || outcome == CachePublicationOutcome::AlreadyPresent
            &&& outcome == CachePublicationOutcome::AlreadyPresent <==> prepared == BlobPreparation::AlreadyPresent
            &&& blob_publication(published) == CachePublicationOutcome::AlreadyPresent
            &&& preparation(true, published, later_used, size_bytes, quota_bytes) == Ok::<BlobPreparation, StoreError>(
                BlobPreparation::AlreadyPresent,
            )
        }),
{
}

/// The namespace of the session behind a credential: an unknown credential is rejected, a name that is none is no
/// cache data, and `scope` is what authorising the caller in that namespace gave.
pub fn resolve_namespace(namespace: Option<String>, is_valid: bool, scope: &Result<DataScope, StoreError>) -> (result:
    Result<String, StoreError>)
    ensures
        match namespace {
            None => result == Err::<String, StoreError>(StoreError::CredentialRejected),
            Some(namespace) => if !is_valid {
                result == Err::<String, StoreError>(not_cache_data(StoreOperation::ReadCacheBlob))
            } else {
                match *scope {
                    Err(refusal) => result == Err::<String, StoreError>(refusal),
                    Ok(_) => result == Ok::<String, StoreError>(namespace),
                }
            },
        },
{
    match namespace {
        None => Err(StoreError::CredentialRejected),
        Some(namespace) => {
            if !is_valid {
                return Err(invalid_cache_data(StoreOperation::ReadCacheBlob));
            }
            match scope {
                Ok(_) => Ok(namespace),
                Err(error) => Err(*error),
            }
        },
    }
}

/// Whether a blob is handed out: a valid one that is present, if blob and scope name an object. `scope` is what
/// authorising the caller gave.
pub fn read_blob(is_blob: bool, scope: &Result<DataScope, StoreError>, present: bool, is_object: bool) -> (result:
    Result<bool, StoreError>)
    ensures
        result == (if !is_blob {
            Err::<bool, StoreError>(not_cache_data(StoreOperation::ReadCacheBlob))
        } else {
            match *scope {
                Err(error) => Err(error),
                Ok(_) => if !present {
                    Ok(false)
                } else if is_object {
                    Ok(true)
                } else {
                    Err(not_cache_data(StoreOperation::ReadCacheBlob))
                },
            }
        }),
{
    if !is_blob {
        return Err(invalid_cache_data(StoreOperation::ReadCacheBlob));
    }
    match scope {
        Ok(_) => {},
        Err(error) => {
            return Err(*error);
        },
    }
    if !present {
        return Ok(false);
    }
    if !is_object {
        return Err(invalid_cache_data(StoreOperation::ReadCacheBlob));
    }
    Ok(true)
}

/// Hands out an action result that is on record, if it is valid. `scope` is what authorising the caller gave.
pub fn read_action<T>(scope: &Result<DataScope, StoreError>, stored: Option<T>, is_valid: bool) -> (result: Result<
    Option<T>,
    StoreError,
>)
    ensures
        match *scope {
            Err(refusal) => result == Err::<Option<T>, StoreError>(refusal),
            Ok(_) => if stored is Some && !is_valid {
                result == Err::<Option<T>, StoreError>(not_cache_data(StoreOperation::ReadCacheAction))
            } else {
                result == Ok::<Option<T>, StoreError>(stored)
            },
        },
{
    match scope {
        Ok(_) => {},
        Err(error) => {
            return Err(*error);
        },
    }
    match stored {
        None => Ok(None),
        Some(value) => if is_valid {
            Ok(Some(value))
        } else {
            Err(invalid_cache_data(StoreOperation::ReadCacheAction))
        },
    }
}

/// A job reaches the cache exactly with the credential of its active session, in that session's namespace, for what
/// the session permits, while the session, its lease and the registration behind it last and are held.
pub proof fn open_sessions_reach_their_namespace(
    row: DataAuthorizationRow,
    namespace: Seq<char>,
    presented_digest: Seq<u8>,
    operation: Option<CacheOperation>,
    now: i64,
)
    requires
        row.credential_hash@.len() == 32,
        row.quota_bytes >= 0,
        row.retention_until_millis >= 0,
    ensures
        data_verdict(Some(row), namespace, presented_digest, operation, now) == (if row.state@ == "active"@
            && row.namespace@ == namespace && (match operation {
            Some(CacheOperation::Read) => row.permissions.read,
            Some(CacheOperation::Write) => row.permissions.write,
            None => row.permissions.read || row.permissions.write,
        }) && row.credential_hash@ == presented_digest && now < row.session_expires_at_millis && (row.lease_state@
            == "active"@ || row.lease_state@ == "cancellation_requested"@ || row.lease_state@ == "drain_requested"@)
            && now < row.lease_expires_at_millis && !row.registration_revoked && now
            < row.registration_expires_at_millis {
            Ok::<(), StoreError>(())
        } else {
            Err(StoreError::CredentialRejected)
        }),
        data_verdict(None, namespace, presented_digest, operation, now) == Err::<(), StoreError>(
            StoreError::CredentialRejected,
        ),
{
}

/// Whether something still fits into a quota: with what is used already it takes up no more than that.
pub proof fn quotas_leave_room_for_what_fits(used: i64, additional: u64, quota_bytes: u64)
    requires
        used >= 0,
    ensures
        quota_verdict(used, additional, quota_bytes) == Ok::<bool, StoreError>(used + additional <= quota_bytes),
        quota_bytes >= used && additional == quota_bytes - used ==> quota_verdict(used, additional, quota_bytes) == Ok::<
            bool,
            StoreError,
        >(true),
{
}

/// What is done about a blob that is offered: a new one is reserved where the quota has room for it, and refused where
/// it has not; one that is there is not stored again, and one whose upload was broken off goes on.
pub proof fn offered_blobs_are_stored_within_the_quota(
    existing: Option<ExistingBlob>,
    used: i64,
    size_bytes: u64,
    quota_bytes: u64,
)
    requires
        used >= 0,
        size_bytes <= i64::MAX,
    ensures
        existing is None ==> preparation(true, existing, used, size_bytes, quota_bytes) == Ok::<
            BlobPreparation,
            StoreError,
        >(
            if used + size_bytes <= quota_bytes {
                BlobPreparation::Reserve { charged_bytes: size_bytes as i64 }
            } else {
                BlobPreparation::QuotaExceeded
            },
        ),
        existing matches Some(blob) ==> blob.is_same ==> preparation(true, existing, used, size_bytes, quota_bytes)
            == Ok::<BlobPreparation, StoreError>(
            if blob.published {
                BlobPreparation::AlreadyPresent
            } else {
                BlobPreparation::Resume
            },
        ),
        existing matches Some(blob) ==> !blob.is_same ==> preparation(true, existing, used, size_bytes, quota_bytes)
            == Err::<BlobPreparation, StoreError>(StoreError::Unavailable),
        preparation(false, existing, used, size_bytes, quota_bytes) is Err,
{
}

/// A blob becomes readable exactly once its own upload is done; another one in its place is a conflict.
pub proof fn uploaded_blobs_are_published(existing: ExistingBlob)
    ensures
        blob_publication(Some(existing)) == CachePublicationOutcome::Published <==> existing.is_same
            && !existing.published,
        blob_publication(Some(existing)) == CachePublicationOutcome::AlreadyPresent <==> existing.is_same
            && existing.published,
        blob_publication(Some(existing)) == CachePublicationOutcome::Conflict <==> !existing.is_same,
        blob_publication(None) == CachePublicationOutcome::Conflict,
{
}

/// The result of an action is published exactly where the action has none, every blob of it is there and the quota
/// has room; the same result again is there already, and another one is a conflict.
pub proof fn action_results_are_published_once(
    offered: OfferedAction,
    scope: DataScope,
    existing_is_same: Option<bool>,
    bundle_rows: Option<u64>,
    used: i64,
)
    requires
        used >= 0,
        offered.wire_size_bytes <= i64::MAX,
    ensures
        ({
            let outcome = action_offer(offered, Ok(scope), existing_is_same, bundle_rows, used);
            let offerable = offered.is_valid && offered.is_for_action && offered.wire_size_bytes > 0;
            &&& !offerable ==> outcome == Err::<CachePublicationOutcome, StoreError>(
                StoreError::InvalidInput {
                    operation: StoreOperation::PublishCacheAction,
                    source: StoreInputError::InvalidCacheData,
                },
            )
            &&& offerable && existing_is_same == Some(true) ==> outcome == Ok::<CachePublicationOutcome, StoreError>(
                CachePublicationOutcome::AlreadyPresent,
            )
            &&& offerable && existing_is_same == Some(false) ==> outcome == Ok::<CachePublicationOutcome, StoreError>(
                CachePublicationOutcome::Conflict,
            )
            &&& offerable && existing_is_same is None ==> outcome == Ok::<CachePublicationOutcome, StoreError>(
                if bundle_rows == Some(0u64) {
                    CachePublicationOutcome::Conflict
                } else if used + offered.wire_size_bytes <= scope.quota_bytes {
                    CachePublicationOutcome::Published
                } else {
                    CachePublicationOutcome::QuotaExceeded
                },
            )
        }),
{
}

/// A blob is offered in the scope of who offers it: its quota is that scope's, and who has no scope offers nothing.
pub proof fn blobs_are_offered_in_their_scope(
    scope: DataScope,
    refusal: StoreError,
    existing: Option<ExistingBlob>,
    used: i64,
    size_bytes: u64,
)
    ensures
        offer(true, Ok(scope), true, existing, used, size_bytes) == preparation(
            true,
            existing,
            used,
            size_bytes,
            scope.quota_bytes,
        ),
        offer(true, Err(refusal), true, existing, used, size_bytes) == Err::<BlobPreparation, StoreError>(refusal),
        offer(false, Ok(scope), true, existing, used, size_bytes) is Err,
{
}

/// What is stored for a cache and cannot be read is reported as unavailable: a credential whose digest does not have
/// its full length, a quota or an end of retention below zero, a sum of bytes below zero, or a blob that is stored
/// with other content.
pub proof fn damaged_caches_are_unavailable(
    row: DataAuthorizationRow,
    namespace: Seq<char>,
    presented_digest: Seq<u8>,
    operation: Option<CacheOperation>,
    now: i64,
    existing: ExistingBlob,
    used: i64,
    size_bytes: u64,
    quota_bytes: u64,
)
    ensures
        row.state@ == "active"@ && row.namespace@ == namespace && covers(row.permissions, operation)
            && row.credential_hash@.len() != 32 ==> data_verdict(Some(row), namespace, presented_digest, operation, now)
            == Err::<(), StoreError>(StoreError::Unavailable),
        data_verdict(Some(row), namespace, presented_digest, operation, now) is Ok ==> row.quota_bytes >= 0
            && row.retention_until_millis >= 0 && row.credential_hash@.len() == 32,
        data_verdict(Some(row), namespace, presented_digest, operation, now) matches Err(error) ==> error
            == StoreError::CredentialRejected || (error == StoreError::Unavailable && (row.credential_hash@.len() != 32
            || row.quota_bytes < 0 || row.retention_until_millis < 0)),
        used < 0 ==> quota_verdict(used, size_bytes, quota_bytes) == Err::<bool, StoreError>(StoreError::Unavailable),
        !existing.is_same ==> preparation(true, Some(existing), used, size_bytes, quota_bytes) == Err::<
            BlobPreparation,
            StoreError,
        >(StoreError::Unavailable),
{
}

/// A live credential whose quota or end of retention cannot be read is reported as unavailable.
pub proof fn damaged_quotas_are_unavailable(
    row: DataAuthorizationRow,
    operation: Option<CacheOperation>,
    now: i64,
)
    requires
        row.state@ == "active"@,
        covers(row.permissions, operation),
        row.credential_hash@.len() == 32,
        now < row.session_expires_at_millis,
        row.lease_state@ == "active"@,
        now < row.lease_expires_at_millis,
        !row.registration_revoked,
        now < row.registration_expires_at_millis,
    ensures
        data_verdict(Some(row), row.namespace@, row.credential_hash@, operation, now) == (if row.quota_bytes < 0
            || row.retention_until_millis < 0 {
            Err::<(), StoreError>(StoreError::Unavailable)
        } else {
            Ok(())
        }),
{
}

} // verus!
