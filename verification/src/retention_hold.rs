//! Holds that keep the result of a build beyond its deadlines.

use vstd::prelude::*;

use crate::build_query::BuildRetentionDeadlines;
use crate::domain::{
    identity, is_identity, is_optional_timestamp, is_timestamp, is_version, optional_timestamp, timestamp, version,
    EntityKind, MutationDisposition, StoreError,
};
use crate::identity_text::{hyphenated, identity_text};
use crate::mutation::{FactValue, Member, MutationFacts};
use crate::text::optional_text;

verus! {

/// State of a hold.
#[derive(Clone, Copy, Debug, PartialEq, Eq, Structural)]
pub enum RetentionHoldState {
    /// It keeps the result.
    Active,
    /// It was released.
    Released,
    /// It ran out.
    Expired,
}

/// The name of a state.
pub open spec fn hold_state_name(state: RetentionHoldState) -> &'static str {
    match state {
        RetentionHoldState::Active => "active",
        RetentionHoldState::Released => "released",
        RetentionHoldState::Expired => "expired",
    }
}

/// Names a state.
pub fn state_name(state: RetentionHoldState) -> (name: &'static str)
    ensures
        name == hold_state_name(state),
{
    match state {
        RetentionHoldState::Active => "active",
        RetentionHoldState::Released => "released",
        RetentionHoldState::Expired => "expired",
    }
}

/// What is kept of a build, as the database holds it.
pub struct BuildRetentionRow {
    /// The build.
    pub build_id: u128,
    /// How long its metadata is kept.
    pub metadata_deadline_millis: i64,
    /// How long its logs are kept.
    pub log_deadline_millis: i64,
    /// How long its artifacts are kept.
    pub artifact_deadline_millis: i64,
    /// How long its reports are kept.
    pub report_deadline_millis: i64,
    /// Whether its metadata is visible.
    pub metadata_visible: bool,
    /// Whether its logs are visible.
    pub logs_visible: bool,
    /// Whether its artifacts are visible.
    pub artifacts_visible: bool,
    /// Whether its reports are visible.
    pub reports_visible: bool,
}

/// A version of a hold, as the database holds it.
pub struct HoldRow {
    /// The build.
    pub build_id: u128,
    /// The version.
    pub version: i64,
    /// Why the result is kept.
    pub reason: String,
    /// Since when.
    pub created_at_millis: i64,
    /// Until when, where that is known.
    pub expires_at_millis: Option<i64>,
    /// When it ran out.
    pub expired_at_millis: Option<i64>,
    /// When it was released.
    pub released_at_millis: Option<i64>,
    /// Kind of actor that placed it.
    pub actor_kind: String,
    /// Who placed it.
    pub actor_identity: Option<String>,
    /// The request that placed it.
    pub request_identity: String,
    /// Kind of actor that released it.
    pub release_actor_kind: Option<String>,
    /// Who released it.
    pub release_actor_identity: Option<String>,
    /// The request that released it.
    pub release_request_identity: Option<String>,
}

/// Which parts of a build's result are visible.
#[derive(Clone, Copy, Debug, PartialEq, Eq, Structural)]
pub struct BuildResultVisibility {
    /// Its metadata.
    pub metadata: bool,
    /// Its logs.
    pub logs: bool,
    /// Its artifacts.
    pub artifacts: bool,
    /// Its reports.
    pub reports: bool,
}

/// The visible parts of a build's result.
pub open spec fn visible_parts(row: BuildRetentionRow) -> BuildResultVisibility {
    BuildResultVisibility {
        metadata: row.metadata_visible,
        logs: row.logs_visible,
        artifacts: row.artifacts_visible,
        reports: row.reports_visible,
    }
}

/// The visible parts of a build's result.
pub fn visibility(row: &BuildRetentionRow) -> (visibility: BuildResultVisibility)
    ensures
        visibility == visible_parts(*row),
{
    BuildResultVisibility {
        metadata: row.metadata_visible,
        logs: row.logs_visible,
        artifacts: row.artifacts_visible,
        reports: row.reports_visible,
    }
}

/// Whether the whole result is visible.
pub open spec fn is_complete(visibility: BuildResultVisibility) -> bool {
    visibility.metadata && visibility.logs && visibility.artifacts && visibility.reports
}

impl BuildResultVisibility {
    /// Whether the whole result is visible.
    pub fn complete(self) -> (complete: bool)
        ensures
            complete == is_complete(self),
    {
        self.metadata && self.logs && self.artifacts && self.reports
    }
}

/// Who asked for a change of a hold.
pub struct RetentionAuditIdentity {
    /// Kind of actor.
    pub actor_kind: String,
    /// The actor, where known.
    pub actor_identity: Option<String>,
    /// The request.
    pub request_identity: String,
}

/// A hold.
pub struct RetentionHold {
    /// The build.
    pub build_id: u128,
    /// Its version.
    pub version: u64,
    /// Why the result is kept.
    pub reason: String,
    /// Since when.
    pub created_at: i64,
    /// Until when, where that is known.
    pub expires_at: Option<i64>,
    /// When it was released.
    pub released_at: Option<i64>,
    /// Its state.
    pub state: RetentionHoldState,
    /// Who placed it.
    pub creation_audit: RetentionAuditIdentity,
    /// Who released it.
    pub release_audit: Option<RetentionAuditIdentity>,
}

/// How long a build's result is kept.
pub struct BuildResultRetentionState {
    /// The build.
    pub build_id: u128,
    /// How long the parts of its result are kept.
    pub deadlines: BuildRetentionDeadlines,
    /// Which parts are visible.
    pub visibility: BuildResultVisibility,
    /// The latest hold on it.
    pub hold: Option<RetentionHold>,
}

/// The state of a hold at some time.
pub open spec fn state_at(row: HoldRow, observed_at: i64) -> RetentionHoldState {
    if row.released_at_millis is Some {
        RetentionHoldState::Released
    } else if row.expired_at_millis is Some || (row.expires_at_millis matches Some(expiry) && expiry <= observed_at) {
        RetentionHoldState::Expired
    } else {
        RetentionHoldState::Active
    }
}

/// The state of a hold at some time.
pub fn hold_state(row: &HoldRow, observed_at: i64) -> (state: RetentionHoldState)
    ensures
        state == state_at(*row, observed_at),
{
    let ran_out = match row.expires_at_millis {
        Some(expiry) => expiry <= observed_at,
        None => false,
    };
    if row.released_at_millis.is_some() {
        RetentionHoldState::Released
    } else if row.expired_at_millis.is_some() || ran_out {
        RetentionHoldState::Expired
    } else {
        RetentionHoldState::Active
    }
}

/// When a hold ended, as far as that is on record.
pub open spec fn ended_at(row: HoldRow) -> Option<i64> {
    if row.released_at_millis is Some {
        row.released_at_millis
    } else {
        row.expired_at_millis
    }
}

/// When a hold ended, as far as that is on record.
pub fn terminal_transition_millis(row: &HoldRow) -> (ended: Option<i64>)
    ensures
        ended == ended_at(*row),
{
    match row.released_at_millis {
        Some(released_at) => Some(released_at),
        None => row.expired_at_millis,
    }
}

/// The statement that reads, and locks where asked to, what is kept of a build.
pub open spec fn build_state_statement(for_update: bool) -> Seq<char> {
    if for_update {
        "SELECT id AS build_id, FLOOR(EXTRACT(EPOCH FROM metadata_retention_until) * 1000)::BIGINT AS metadata_deadline_millis, FLOOR(EXTRACT(EPOCH FROM log_retention_until) * 1000)::BIGINT AS log_deadline_millis, FLOOR(EXTRACT(EPOCH FROM artifact_retention_until) * 1000)::BIGINT AS artifact_deadline_millis, FLOOR(EXTRACT(EPOCH FROM report_retention_until) * 1000)::BIGINT AS report_deadline_millis, metadata_visible, logs_visible, artifacts_visible, reports_visible FROM builds WHERE id = $1 FOR UPDATE"@
    } else {
        "SELECT id AS build_id, FLOOR(EXTRACT(EPOCH FROM metadata_retention_until) * 1000)::BIGINT AS metadata_deadline_millis, FLOOR(EXTRACT(EPOCH FROM log_retention_until) * 1000)::BIGINT AS log_deadline_millis, FLOOR(EXTRACT(EPOCH FROM artifact_retention_until) * 1000)::BIGINT AS artifact_deadline_millis, FLOOR(EXTRACT(EPOCH FROM report_retention_until) * 1000)::BIGINT AS report_deadline_millis, metadata_visible, logs_visible, artifacts_visible, reports_visible FROM builds WHERE id = $1"@
    }
}

/// The statement that reads, and locks where asked to, what is kept of a build.
pub fn build_state_sql(for_update: bool) -> (sql: &'static str)
    ensures
        sql@ == build_state_statement(for_update),
{
    if for_update {
        "SELECT id AS build_id, FLOOR(EXTRACT(EPOCH FROM metadata_retention_until) * 1000)::BIGINT AS metadata_deadline_millis, FLOOR(EXTRACT(EPOCH FROM log_retention_until) * 1000)::BIGINT AS log_deadline_millis, FLOOR(EXTRACT(EPOCH FROM artifact_retention_until) * 1000)::BIGINT AS artifact_deadline_millis, FLOOR(EXTRACT(EPOCH FROM report_retention_until) * 1000)::BIGINT AS report_deadline_millis, metadata_visible, logs_visible, artifacts_visible, reports_visible FROM builds WHERE id = $1 FOR UPDATE"
    } else {
        "SELECT id AS build_id, FLOOR(EXTRACT(EPOCH FROM metadata_retention_until) * 1000)::BIGINT AS metadata_deadline_millis, FLOOR(EXTRACT(EPOCH FROM log_retention_until) * 1000)::BIGINT AS log_deadline_millis, FLOOR(EXTRACT(EPOCH FROM artifact_retention_until) * 1000)::BIGINT AS artifact_deadline_millis, FLOOR(EXTRACT(EPOCH FROM report_retention_until) * 1000)::BIGINT AS report_deadline_millis, metadata_visible, logs_visible, artifacts_visible, reports_visible FROM builds WHERE id = $1"
    }
}

/// The statement that reads, and locks where asked to, the latest version of a build's hold.
pub open spec fn latest_hold_statement(for_update: bool) -> Seq<char> {
    if for_update {
        "SELECT build_id, version, reason, FLOOR(EXTRACT(EPOCH FROM created_at) * 1000)::BIGINT AS created_at_millis, FLOOR(EXTRACT(EPOCH FROM expires_at) * 1000)::BIGINT AS expires_at_millis, FLOOR(EXTRACT(EPOCH FROM expired_at) * 1000)::BIGINT AS expired_at_millis, FLOOR(EXTRACT(EPOCH FROM released_at) * 1000)::BIGINT AS released_at_millis, actor_kind, actor_identity, request_identity, release_actor_kind, release_actor_identity, release_request_identity FROM build_result_retention_holds WHERE build_id = $1 ORDER BY version DESC LIMIT 1 FOR UPDATE"@
    } else {
        "SELECT build_id, version, reason, FLOOR(EXTRACT(EPOCH FROM created_at) * 1000)::BIGINT AS created_at_millis, FLOOR(EXTRACT(EPOCH FROM expires_at) * 1000)::BIGINT AS expires_at_millis, FLOOR(EXTRACT(EPOCH FROM expired_at) * 1000)::BIGINT AS expired_at_millis, FLOOR(EXTRACT(EPOCH FROM released_at) * 1000)::BIGINT AS released_at_millis, actor_kind, actor_identity, request_identity, release_actor_kind, release_actor_identity, release_request_identity FROM build_result_retention_holds WHERE build_id = $1 ORDER BY version DESC LIMIT 1"@
    }
}

/// The statement that reads, and locks where asked to, the latest version of a build's hold.
pub fn latest_hold_sql(for_update: bool) -> (sql: &'static str)
    ensures
        sql@ == latest_hold_statement(for_update),
{
    if for_update {
        "SELECT build_id, version, reason, FLOOR(EXTRACT(EPOCH FROM created_at) * 1000)::BIGINT AS created_at_millis, FLOOR(EXTRACT(EPOCH FROM expires_at) * 1000)::BIGINT AS expires_at_millis, FLOOR(EXTRACT(EPOCH FROM expired_at) * 1000)::BIGINT AS expired_at_millis, FLOOR(EXTRACT(EPOCH FROM released_at) * 1000)::BIGINT AS released_at_millis, actor_kind, actor_identity, request_identity, release_actor_kind, release_actor_identity, release_request_identity FROM build_result_retention_holds WHERE build_id = $1 ORDER BY version DESC LIMIT 1 FOR UPDATE"
    } else {
        "SELECT build_id, version, reason, FLOOR(EXTRACT(EPOCH FROM created_at) * 1000)::BIGINT AS created_at_millis, FLOOR(EXTRACT(EPOCH FROM expires_at) * 1000)::BIGINT AS expires_at_millis, FLOOR(EXTRACT(EPOCH FROM expired_at) * 1000)::BIGINT AS expired_at_millis, FLOOR(EXTRACT(EPOCH FROM released_at) * 1000)::BIGINT AS released_at_millis, actor_kind, actor_identity, request_identity, release_actor_kind, release_actor_identity, release_request_identity FROM build_result_retention_holds WHERE build_id = $1 ORDER BY version DESC LIMIT 1"
    }
}

/// Whether the row of a build can be read.
pub open spec fn is_readable_build(row: BuildRetentionRow) -> bool {
    &&& is_identity(row.build_id)
    &&& is_timestamp(row.metadata_deadline_millis)
    &&& is_timestamp(row.log_deadline_millis)
    &&& is_timestamp(row.artifact_deadline_millis)
    &&& is_timestamp(row.report_deadline_millis)
}

/// Whether a version of a hold can be read: its release is on record with both actor and request, or with
/// neither.
pub open spec fn is_readable_hold(row: HoldRow) -> bool {
    &&& is_identity(row.build_id)
    &&& is_version(row.version)
    &&& is_timestamp(row.created_at_millis)
    &&& is_optional_timestamp(row.expires_at_millis)
    &&& is_optional_timestamp(row.released_at_millis)
    &&& row.release_actor_kind is Some == row.release_request_identity is Some
}

/// Whether the record of a placement is the one of a row.
pub open spec fn is_creation_of(audit: RetentionAuditIdentity, row: HoldRow) -> bool {
    &&& audit.actor_kind@ == row.actor_kind@
    &&& optional_text(audit.actor_identity) == optional_text(row.actor_identity)
    &&& audit.request_identity@ == row.request_identity@
}

/// Whether the record of a release is the one of a row.
pub open spec fn is_release_of(audit: Option<RetentionAuditIdentity>, row: HoldRow) -> bool {
    match audit {
        Some(audit) => {
            &&& optional_text(row.release_actor_kind) == Some(audit.actor_kind@)
            &&& optional_text(audit.actor_identity) == optional_text(row.release_actor_identity)
            &&& optional_text(row.release_request_identity) == Some(audit.request_identity@)
        },
        None => row.release_actor_kind is None,
    }
}

/// Whether a hold is the one of a row, seen at some time.
pub open spec fn is_hold_of(hold: RetentionHold, row: HoldRow, observed_at: i64) -> bool {
    &&& hold.build_id == row.build_id
    &&& hold.version == row.version
    &&& hold.reason@ == row.reason@
    &&& hold.created_at == row.created_at_millis
    &&& hold.expires_at == row.expires_at_millis
    &&& hold.released_at == row.released_at_millis
    &&& hold.state == state_at(row, observed_at)
    &&& is_creation_of(hold.creation_audit, row)
    &&& is_release_of(hold.release_audit, row)
}

/// Reads a hold, seen at some time.
pub fn project_hold(row: HoldRow, observed_at: i64) -> (result: Result<RetentionHold, StoreError>)
    ensures
        match result {
            Ok(hold) => is_readable_hold(row) && is_hold_of(hold, row, observed_at),
            Err(error) => error == StoreError::Unavailable && !is_readable_hold(row),
        },
{
    let state = hold_state(&row, observed_at);
    let build_id: u128 = identity(row.build_id)?;
    let hold_version: u64 = version(row.version)?;
    let created_at: i64 = timestamp(row.created_at_millis)?;
    let expires_at: Option<i64> = optional_timestamp(row.expires_at_millis)?;
    let released_at: Option<i64> = optional_timestamp(row.released_at_millis)?;
    let release_audit: Option<RetentionAuditIdentity> = match (row.release_actor_kind, row.release_request_identity) {
        (Some(actor_kind), Some(request_identity)) => Some(
            RetentionAuditIdentity { actor_kind, actor_identity: row.release_actor_identity, request_identity },
        ),
        (None, None) => None,
        _ => {
            return Err(StoreError::Unavailable);
        },
    };
    Ok(
        RetentionHold {
            build_id,
            version: hold_version,
            reason: row.reason,
            created_at,
            expires_at,
            released_at,
            state,
            creation_audit: RetentionAuditIdentity {
                actor_kind: row.actor_kind,
                actor_identity: row.actor_identity,
                request_identity: row.request_identity,
            },
            release_audit,
        },
    )
}

/// Whether the rows of a build and of its hold, where it has one, can be read.
pub open spec fn is_readable(build: BuildRetentionRow, hold: Option<HoldRow>) -> bool {
    &&& is_readable_build(build)
    &&& hold matches Some(hold) ==> is_readable_hold(hold)
}

/// Whether a state is the one of a build and its hold, seen at some time.
pub open spec fn is_state_of(
    state: BuildResultRetentionState,
    build: BuildRetentionRow,
    hold: Option<HoldRow>,
    observed_at: i64,
) -> bool {
    &&& state.build_id == build.build_id
    &&& state.deadlines == (BuildRetentionDeadlines {
        metadata: build.metadata_deadline_millis,
        logs: build.log_deadline_millis,
        artifacts: build.artifact_deadline_millis,
        reports: build.report_deadline_millis,
    })
    &&& state.visibility == visible_parts(build)
    &&& match (state.hold, hold) {
        (Some(hold), Some(row)) => is_hold_of(hold, row, observed_at),
        (None, None) => true,
        _ => false,
    }
}

/// Reads how long a build's result is kept, seen at some time.
pub fn project_state(build: &BuildRetentionRow, hold: Option<HoldRow>, observed_at: i64) -> (result: Result<
    BuildResultRetentionState,
    StoreError,
>)
    ensures
        match result {
            Ok(state) => is_readable(*build, hold) && is_state_of(state, *build, hold, observed_at),
            Err(error) => error == StoreError::Unavailable && !is_readable(*build, hold),
        },
{
    let build_id: u128 = identity(build.build_id)?;
    let metadata: i64 = timestamp(build.metadata_deadline_millis)?;
    let logs: i64 = timestamp(build.log_deadline_millis)?;
    let artifacts: i64 = timestamp(build.artifact_deadline_millis)?;
    let reports: i64 = timestamp(build.report_deadline_millis)?;
    let hold: Option<RetentionHold> = match hold {
        Some(row) => Some(project_hold(row, observed_at)?),
        None => None,
    };
    Ok(
        BuildResultRetentionState {
            build_id,
            deadlines: BuildRetentionDeadlines { metadata, logs, artifacts, reports },
            visibility: visibility(build),
            hold,
        },
    )
}

/// Reads how long a build's result is kept, where there is such a build.
pub fn read(build: Option<BuildRetentionRow>, hold: Option<HoldRow>, observed_at: i64) -> (result: Result<
    BuildResultRetentionState,
    StoreError,
>)
    ensures
        match build {
            None => result is Err && result->Err_0 == (StoreError::NotFound { entity: EntityKind::Build }),
            Some(build) => match result {
                Ok(state) => is_readable(build, hold) && is_state_of(state, build, hold, observed_at),
                Err(error) => error == StoreError::Unavailable && !is_readable(build, hold),
            },
        },
{
    match build {
        None => Err(StoreError::NotFound { entity: EntityKind::Build }),
        Some(build) => project_state(&build, hold, observed_at),
    }
}

/// The failure of a request that contradicts the latest hold.
pub open spec fn hold_conflict() -> StoreError {
    StoreError::Conflict { entity: EntityKind::RetentionHold }
}

/// The version that follows a stored one, as it is stored.
pub open spec fn following(stored: i64) -> Result<i64, StoreError> {
    if is_version(stored) && stored < i64::MAX {
        Ok((stored + 1) as i64)
    } else {
        Err(StoreError::Unavailable)
    }
}

fn follow(stored: i64) -> (result: Result<i64, StoreError>)
    ensures
        result == following(stored),
{
    if stored > 0 && stored < i64::MAX {
        Ok(stored + 1)
    } else {
        Err(StoreError::Unavailable)
    }
}

/// A request to place a hold.
pub struct PlaceBuildResultHold {
    /// The build.
    pub build_id: u128,
    /// Why its result is kept.
    pub reason: String,
    /// Until when, where that is known.
    pub expires_at: Option<i64>,
    /// Who asks, where known.
    pub actor_identity: Option<String>,
    /// The request.
    pub request_identity: String,
    /// When it was made.
    pub placed_at: i64,
}

/// The version under which a hold is placed. The whole result must be visible, and the latest hold must have
/// ended, on record no later than the new one starts.
pub open spec fn placement(build: Option<BuildRetentionRow>, latest: Option<HoldRow>, placed_at: i64) -> Result<
    i64,
    StoreError,
> {
    match build {
        None => Err(StoreError::NotFound { entity: EntityKind::Build }),
        Some(build) => if !is_complete(visible_parts(build)) {
            Err(hold_conflict())
        } else {
            match latest {
                None => Ok(1),
                Some(hold) => if state_at(hold, placed_at) == RetentionHoldState::Active || (ended_at(hold) matches Some(
                    end,
                ) && placed_at < end) {
                    Err(hold_conflict())
                } else {
                    following(hold.version)
                },
            }
        },
    }
}

/// Whether a row is a hold as it was asked for.
pub open spec fn is_placed(row: HoldRow, request: PlaceBuildResultHold, stored: i64) -> bool {
    &&& row.build_id == request.build_id
    &&& row.version == stored
    &&& row.reason@ == request.reason@
    &&& row.created_at_millis == request.placed_at
    &&& row.expires_at_millis == request.expires_at
    &&& row.expired_at_millis is None
    &&& row.released_at_millis is None
    &&& row.actor_kind@ == "unauthenticated_management"@
    &&& optional_text(row.actor_identity) == optional_text(request.actor_identity)
    &&& row.request_identity@ == request.request_identity@
    &&& row.release_actor_kind is None
    &&& row.release_actor_identity is None
    &&& row.release_request_identity is None
}

/// A changed hold.
pub struct RetentionHoldMutationOutcome {
    /// Whether it was changed now or before.
    pub disposition: MutationDisposition,
    /// How long the build's result is kept now.
    pub retention: BuildResultRetentionState,
}

fn copy_optional(text: &Option<String>) -> (copy: Option<String>)
    ensures
        optional_text(copy) == optional_text(*text),
{
    match text {
        Some(text) => Some(text.clone()),
        None => None,
    }
}

fn copy_hold(row: &HoldRow) -> (copy: HoldRow)
    ensures
        is_copy(copy, *row),
{
    HoldRow {
        build_id: row.build_id,
        version: row.version,
        reason: row.reason.clone(),
        created_at_millis: row.created_at_millis,
        expires_at_millis: row.expires_at_millis,
        expired_at_millis: row.expired_at_millis,
        released_at_millis: row.released_at_millis,
        actor_kind: row.actor_kind.clone(),
        actor_identity: copy_optional(&row.actor_identity),
        request_identity: row.request_identity.clone(),
        release_actor_kind: copy_optional(&row.release_actor_kind),
        release_actor_identity: copy_optional(&row.release_actor_identity),
        release_request_identity: copy_optional(&row.release_request_identity),
    }
}

/// Whether two rows say the same.
pub open spec fn is_copy(copy: HoldRow, row: HoldRow) -> bool {
    &&& copy.build_id == row.build_id
    &&& copy.version == row.version
    &&& copy.reason@ == row.reason@
    &&& copy.created_at_millis == row.created_at_millis
    &&& copy.expires_at_millis == row.expires_at_millis
    &&& copy.expired_at_millis == row.expired_at_millis
    &&& copy.released_at_millis == row.released_at_millis
    &&& copy.actor_kind@ == row.actor_kind@
    &&& optional_text(copy.actor_identity) == optional_text(row.actor_identity)
    &&& copy.request_identity@ == row.request_identity@
    &&& optional_text(copy.release_actor_kind) == optional_text(row.release_actor_kind)
    &&& optional_text(copy.release_actor_identity) == optional_text(row.release_actor_identity)
    &&& optional_text(copy.release_request_identity) == optional_text(row.release_request_identity)
}

/// Places a hold: gives the row to insert and what the build's retention is then. `validated` is the verdict
/// on the request by itself.
pub fn place(
    validated: Result<(), StoreError>,
    build: Option<BuildRetentionRow>,
    latest: &Option<HoldRow>,
    request: PlaceBuildResultHold,
) -> (result: Result<(HoldRow, RetentionHoldMutationOutcome), StoreError>)
    ensures
        match result {
            Ok(placed) => {
                &&& validated is Ok
                &&& placement(build, *latest, request.placed_at) matches Ok(stored) && is_placed(
                    placed.0,
                    request,
                    stored,
                )
                &&& placed.1.disposition == MutationDisposition::Applied
                &&& is_readable(build->Some_0, Some(placed.0))
                &&& is_state_of(placed.1.retention, build->Some_0, Some(placed.0), request.placed_at)
            },
            Err(error) => match validated {
                Err(verdict) => error == verdict,
                Ok(()) => match placement(build, *latest, request.placed_at) {
                    Err(refusal) => error == refusal,
                    Ok(_) => error == StoreError::Unavailable && !(is_readable_build(build->Some_0) && is_identity(
                        request.build_id,
                    ) && is_timestamp(request.placed_at) && is_optional_timestamp(request.expires_at)),
                },
            },
        },
{
    validated?;
    let build = match build {
        Some(build) => build,
        None => {
            return Err(StoreError::NotFound { entity: EntityKind::Build });
        },
    };
    if !visibility(&build).complete() {
        return Err(StoreError::Conflict { entity: EntityKind::RetentionHold });
    }
    let stored: i64 = match latest {
        None => 1,
        Some(hold) => {
            if hold_state(hold, request.placed_at) == RetentionHoldState::Active {
                return Err(StoreError::Conflict { entity: EntityKind::RetentionHold });
            }
            if let Some(end) = terminal_transition_millis(hold) {
                if request.placed_at < end {
                    return Err(StoreError::Conflict { entity: EntityKind::RetentionHold });
                }
            }
            follow(hold.version)?
        },
    };
    let row = HoldRow {
        build_id: request.build_id,
        version: stored,
        reason: request.reason,
        created_at_millis: request.placed_at,
        expires_at_millis: request.expires_at,
        expired_at_millis: None,
        released_at_millis: None,
        actor_kind: "unauthenticated_management".to_owned(),
        actor_identity: request.actor_identity,
        request_identity: request.request_identity,
        release_actor_kind: None,
        release_actor_identity: None,
        release_request_identity: None,
    };
    let copy = copy_hold(&row);
    let retention = project_state(&build, Some(copy), request.placed_at)?;
    Ok((row, RetentionHoldMutationOutcome { disposition: MutationDisposition::Applied, retention }))
}

/// A request to release a hold.
pub struct ReleaseBuildResultHold {
    /// The build.
    pub build_id: u128,
    /// The version to release.
    pub expected_version: u64,
    /// Who asks, where known.
    pub actor_identity: Option<String>,
    /// The request.
    pub request_identity: String,
    /// When it was made.
    pub released_at: i64,
}

/// Why a hold was not released.
#[derive(Clone, Copy, Debug, PartialEq, Eq, Structural)]
pub enum ReleaseBuildResultHoldError {
    /// The latest version is another one than expected.
    PreconditionFailed,
    /// The store refused.
    Store(StoreError),
}

/// The version under which a hold is released: it must be the expected one, be active, and have started.
pub open spec fn releasing(
    build: Option<BuildRetentionRow>,
    latest: Option<HoldRow>,
    expected_version: u64,
    released_at: i64,
) -> Result<i64, ReleaseBuildResultHoldError> {
    if build is None {
        Err(ReleaseBuildResultHoldError::Store(StoreError::NotFound { entity: EntityKind::Build }))
    } else {
        match latest {
            None => Err(ReleaseBuildResultHoldError::Store(StoreError::NotFound { entity: EntityKind::RetentionHold })),
            Some(hold) => if !is_version(hold.version) {
                Err(ReleaseBuildResultHoldError::Store(StoreError::Unavailable))
            } else if hold.version != expected_version {
                Err(ReleaseBuildResultHoldError::PreconditionFailed)
            } else if released_at < hold.created_at_millis || state_at(hold, released_at) != RetentionHoldState::Active {
                Err(ReleaseBuildResultHoldError::Store(hold_conflict()))
            } else {
                match following(hold.version) {
                    Ok(stored) => Ok(stored),
                    Err(error) => Err(ReleaseBuildResultHoldError::Store(error)),
                }
            },
        }
    }
}

/// Whether a row is the release of a hold.
pub open spec fn is_released(row: HoldRow, latest: HoldRow, request: ReleaseBuildResultHold, stored: i64) -> bool {
    &&& row.build_id == latest.build_id
    &&& row.version == stored
    &&& row.reason@ == latest.reason@
    &&& row.created_at_millis == latest.created_at_millis
    &&& row.expires_at_millis == latest.expires_at_millis
    &&& row.expired_at_millis == latest.expired_at_millis
    &&& row.released_at_millis == Some(request.released_at)
    &&& row.actor_kind@ == latest.actor_kind@
    &&& optional_text(row.actor_identity) == optional_text(latest.actor_identity)
    &&& row.request_identity@ == latest.request_identity@
    &&& optional_text(row.release_actor_kind) == Some("unauthenticated_management"@)
    &&& optional_text(row.release_actor_identity) == optional_text(request.actor_identity)
    &&& optional_text(row.release_request_identity) == Some(request.request_identity@)
}

/// Releases a hold: gives the row to insert and what the build's retention is then.
pub fn release(build: Option<BuildRetentionRow>, latest: Option<HoldRow>, request: ReleaseBuildResultHold) -> (result:
    Result<(HoldRow, RetentionHoldMutationOutcome), ReleaseBuildResultHoldError>)
    ensures
        match result {
            Ok(released) => {
                &&& releasing(build, latest, request.expected_version, request.released_at) matches Ok(stored)
                    && is_released(released.0, latest->Some_0, request, stored)
                &&& released.1.disposition == MutationDisposition::Applied
                &&& is_readable(build->Some_0, Some(released.0))
                &&& is_state_of(released.1.retention, build->Some_0, Some(released.0), request.released_at)
            },
            Err(error) => match releasing(build, latest, request.expected_version, request.released_at) {
                Err(refusal) => error == refusal,
                Ok(_) => {
                    &&& error == ReleaseBuildResultHoldError::Store(StoreError::Unavailable)
                    &&& !(is_readable_build(build->Some_0) && is_identity(latest->Some_0.build_id) && is_timestamp(
                        latest->Some_0.created_at_millis,
                    ) && is_optional_timestamp(latest->Some_0.expires_at_millis) && is_timestamp(request.released_at))
                },
            },
        },
{
    let build = match build {
        Some(build) => build,
        None => {
            return Err(ReleaseBuildResultHoldError::Store(StoreError::NotFound { entity: EntityKind::Build }));
        },
    };
    let hold = match latest {
        Some(hold) => hold,
        None => {
            return Err(ReleaseBuildResultHoldError::Store(StoreError::NotFound { entity: EntityKind::RetentionHold }));
        },
    };
    if hold.version <= 0 {
        return Err(ReleaseBuildResultHoldError::Store(StoreError::Unavailable));
    }
    if hold.version as u64 != request.expected_version {
        return Err(ReleaseBuildResultHoldError::PreconditionFailed);
    }
    if request.released_at < hold.created_at_millis || hold_state(&hold, request.released_at)
        != RetentionHoldState::Active {
        return Err(ReleaseBuildResultHoldError::Store(StoreError::Conflict { entity: EntityKind::RetentionHold }));
    }
    let stored: i64 = match follow(hold.version) {
        Ok(stored) => stored,
        Err(error) => {
            return Err(ReleaseBuildResultHoldError::Store(error));
        },
    };
    let row = HoldRow {
        version: stored,
        released_at_millis: Some(request.released_at),
        release_actor_kind: Some("unauthenticated_management".to_owned()),
        release_actor_identity: request.actor_identity,
        release_request_identity: Some(request.request_identity),
        ..hold
    };
    let copy = copy_hold(&row);
    match project_state(&build, Some(copy), request.released_at) {
        Ok(retention) => Ok(
            (row, RetentionHoldMutationOutcome { disposition: MutationDisposition::Applied, retention }),
        ),
        Err(error) => Err(ReleaseBuildResultHoldError::Store(error)),
    }
}

/// Turns a stored outcome into the answer to a repeated request.
pub fn replay(outcome: RetentionHoldMutationOutcome) -> (replayed: RetentionHoldMutationOutcome)
    ensures
        replayed.disposition == MutationDisposition::Replayed,
        replayed.retention == outcome.retention,
{
    RetentionHoldMutationOutcome { disposition: MutationDisposition::Replayed, retention: outcome.retention }
}

/// What the audit trail and the outbox are told of a changed hold.
pub fn facts(outcome: &RetentionHoldMutationOutcome, actor_identity: Option<String>) -> (result: Result<
    MutationFacts,
    StoreError,
>)
    ensures
        match (outcome.retention.hold, result) {
            (Some(hold), Ok(facts)) => {
                &&& facts.actor_kind@ == "unauthenticated_management"@
                &&& facts.actor_identity == actor_identity
                &&& facts.target_identity@ == hyphenated(outcome.retention.build_id)
                &&& facts.safe_metadata@ == seq![
                    (Member { name: "version", value: FactValue::Number(hold.version) }),
                    (Member { name: "state", value: FactValue::Word(hold_state_name(hold.state)) }),
                    (Member { name: "expires_at", value: FactValue::OptionalTime(hold.expires_at) }),
                ]
                &&& facts.outbox_payload@ == seq![
                    (Member { name: "build_id", value: FactValue::Identity(outcome.retention.build_id) }),
                    (Member { name: "version", value: FactValue::Number(hold.version) }),
                    (Member { name: "state", value: FactValue::Word(hold_state_name(hold.state)) }),
                ]
            },
            (None, Err(error)) => error == StoreError::Unavailable,
            _ => false,
        },
{
    match &outcome.retention.hold {
        None => Err(StoreError::Unavailable),
        Some(hold) => Ok(
            MutationFacts {
                actor_kind: "unauthenticated_management",
                actor_identity,
                target_identity: identity_text(outcome.retention.build_id),
                safe_metadata: vec![
                    Member { name: "version", value: FactValue::Number(hold.version) },
                    Member { name: "state", value: FactValue::Word(state_name(hold.state)) },
                    Member { name: "expires_at", value: FactValue::OptionalTime(hold.expires_at) },
                ],
                outbox_payload: vec![
                    Member { name: "build_id", value: FactValue::Identity(outcome.retention.build_id) },
                    Member { name: "version", value: FactValue::Number(hold.version) },
                    Member { name: "state", value: FactValue::Word(state_name(hold.state)) },
                ],
            },
        ),
    }
}

/// What the latest hold means to the deletion of a result.
pub enum HoldCheck {
    /// Nothing keeps the result.
    Inactive,
    /// The hold keeps it.
    Active,
    /// The hold has run out, which is to be put on record.
    Expire(HoldRow),
}

/// Whether a row is the record that a hold has run out.
pub open spec fn is_expiry(row: HoldRow, latest: HoldRow) -> bool {
    &&& row.build_id == latest.build_id
    &&& following(latest.version) == Ok::<i64, StoreError>(row.version)
    &&& row.reason@ == latest.reason@
    &&& row.created_at_millis == latest.created_at_millis
    &&& row.expires_at_millis == latest.expires_at_millis
    &&& row.expired_at_millis == latest.expires_at_millis
    &&& row.released_at_millis is None
    &&& row.actor_kind@ == latest.actor_kind@
    &&& optional_text(row.actor_identity) == optional_text(latest.actor_identity)
    &&& row.request_identity@ == latest.request_identity@
    &&& row.release_actor_kind is None
    &&& row.release_actor_identity is None
    &&& row.release_request_identity is None
}

/// Whether a hold has run out without that being on record.
pub open spec fn is_due(row: HoldRow, observed_at: i64) -> bool {
    &&& row.released_at_millis is None
    &&& row.expired_at_millis is None
    &&& row.expires_at_millis matches Some(expiry) && expiry <= observed_at
}

/// Decides what the latest hold means to the deletion of a result.
pub fn active_for_retention(latest: Option<HoldRow>, observed_at: i64) -> (result: Result<HoldCheck, StoreError>)
    ensures
        match latest {
            None => result == Ok::<HoldCheck, StoreError>(HoldCheck::Inactive),
            Some(hold) => if is_due(hold, observed_at) {
                match result {
                    Ok(check) => check matches HoldCheck::Expire(row) && is_expiry(row, hold),
                    Err(error) => error == StoreError::Unavailable && following(hold.version) is Err,
                }
            } else if state_at(hold, observed_at) == RetentionHoldState::Active {
                result == Ok::<HoldCheck, StoreError>(HoldCheck::Active)
            } else {
                result == Ok::<HoldCheck, StoreError>(HoldCheck::Inactive)
            },
        },
{
    let hold = match latest {
        None => {
            return Ok(HoldCheck::Inactive);
        },
        Some(hold) => hold,
    };
    if hold.released_at_millis.is_some() || hold.expired_at_millis.is_some() {
        return Ok(HoldCheck::Inactive);
    }
    let expires_at: i64 = match hold.expires_at_millis {
        None => {
            return Ok(HoldCheck::Active);
        },
        Some(expires_at) => expires_at,
    };
    if expires_at > observed_at {
        return Ok(HoldCheck::Active);
    }
    let stored: i64 = follow(hold.version)?;
    Ok(
        HoldCheck::Expire(
            HoldRow {
                version: stored,
                expired_at_millis: Some(expires_at),
                released_at_millis: None,
                release_actor_kind: None,
                release_actor_identity: None,
                release_request_identity: None,
                ..hold
            },
        ),
    )
}

/// A hold that has ended never becomes active again, however much later it is looked at.
pub proof fn ended_holds_stay_ended(row: HoldRow, earlier: i64, later: i64)
    requires
        earlier <= later,
        state_at(row, earlier) != RetentionHoldState::Active,
    ensures
        state_at(row, later) == state_at(row, earlier),
{
}

/// A hold is placed only where none is active, it is then active unless it is placed as run out, and no
/// other can be placed while it is.
pub proof fn holds_do_not_overlap(
    build: Option<BuildRetentionRow>,
    latest: HoldRow,
    request: PlaceBuildResultHold,
    stored: i64,
    row: HoldRow,
    later: i64,
)
    requires
        placement(build, Some(latest), request.placed_at) == Ok::<i64, StoreError>(stored),
        is_placed(row, request, stored),
        request.expires_at matches Some(expiry) ==> later < expiry,
        request.placed_at <= later,
    ensures
        state_at(latest, request.placed_at) != RetentionHoldState::Active,
        state_at(row, later) == RetentionHoldState::Active,
        placement(build, Some(row), later) == Err::<i64, StoreError>(hold_conflict()),
        row.version == latest.version + 1,
{
}

/// A released hold is released at every time, and cannot be released again.
pub proof fn holds_are_released_once(
    build: Option<BuildRetentionRow>,
    latest: HoldRow,
    request: ReleaseBuildResultHold,
    stored: i64,
    row: HoldRow,
    expected_version: u64,
    observed_at: i64,
)
    requires
        releasing(build, Some(latest), request.expected_version, request.released_at) == Ok::<
            i64,
            ReleaseBuildResultHoldError,
        >(stored),
        is_released(row, latest, request, stored),
    ensures
        row.version == latest.version + 1,
        state_at(row, observed_at) == RetentionHoldState::Released,
        releasing(build, Some(row), expected_version, observed_at) is Err,
{
}

/// That a hold has run out is put on record once, and the record says so at every time.
pub proof fn expiries_are_recorded_once(latest: HoldRow, row: HoldRow, earlier: i64, observed_at: i64)
    requires
        is_due(latest, earlier),
        is_expiry(row, latest),
    ensures
        row.version == latest.version + 1,
        !is_due(row, observed_at),
        state_at(row, observed_at) == RetentionHoldState::Expired,
{
}

/// A hold is active exactly from when it was placed until it is released, was found expired, or its expiry comes. A
/// release counts before an expiry.
pub proof fn holds_are_active_until_they_end(row: HoldRow, observed_at: i64)
    ensures
        state_at(row, observed_at) == RetentionHoldState::Active <==> row.released_at_millis is None
            && row.expired_at_millis is None && (row.expires_at_millis is None || observed_at
            < row.expires_at_millis->Some_0),
        state_at(row, observed_at) == RetentionHoldState::Released <==> row.released_at_millis is Some,
        state_at(row, observed_at) == RetentionHoldState::Expired <==> row.released_at_millis is None && (
        row.expired_at_millis is Some || (row.expires_at_millis is Some && row.expires_at_millis->Some_0
            <= observed_at)),
        is_due(row, observed_at) <==> row.released_at_millis is None && row.expired_at_millis is None
            && row.expires_at_millis is Some && row.expires_at_millis->Some_0 <= observed_at,
        ended_at(row) == (if row.released_at_millis is Some {
            row.released_at_millis
        } else {
            row.expired_at_millis
        }),
{
}

/// A hold is placed exactly on a build of which every part is still shown, where it has no hold that is active or
/// ends later. It gets the version behind the last one.
pub proof fn holds_are_placed_on_complete_results(build: BuildRetentionRow, latest: Option<HoldRow>, placed_at: i64)
    requires
        latest matches Some(hold) ==> 0 < hold.version < i64::MAX,
    ensures
        ({
            let shown = build.metadata_visible && build.logs_visible && build.artifacts_visible && build.reports_visible;
            let free = match latest {
                None => true,
                Some(hold) => if hold.released_at_millis is Some {
                    hold.released_at_millis->Some_0 <= placed_at
                } else if hold.expired_at_millis is Some {
                    hold.expired_at_millis->Some_0 <= placed_at
                } else {
                    hold.expires_at_millis is Some && hold.expires_at_millis->Some_0 <= placed_at
                },
            };
            placement(Some(build), latest, placed_at) == (if shown && free {
                Ok::<i64, StoreError>(
                    match latest {
                        None => 1,
                        Some(hold) => (hold.version + 1) as i64,
                    },
                )
            } else {
                Err(StoreError::Conflict { entity: EntityKind::RetentionHold })
            })
        }),
        placement(None, latest, placed_at) == Err::<i64, StoreError>(StoreError::NotFound { entity: EntityKind::Build }),
{
}

/// A hold is released exactly where it is active, under the version that the request names, and not before it was
/// placed. Under another version the request was made for another hold.
pub proof fn active_holds_are_released(
    build: BuildRetentionRow,
    hold: HoldRow,
    expected_version: u64,
    released_at: i64,
)
    requires
        0 < hold.version < i64::MAX,
    ensures
        releasing(Some(build), Some(hold), expected_version, released_at) is Ok <==> hold.version == expected_version
            && hold.created_at_millis <= released_at && hold.released_at_millis is None && hold.expired_at_millis is None
            && (hold.expires_at_millis is None || released_at < hold.expires_at_millis->Some_0),
        releasing(Some(build), Some(hold), expected_version, released_at) matches Ok(stored) ==> stored == hold.version
            + 1,
        hold.version != expected_version ==> releasing(Some(build), Some(hold), expected_version, released_at) == Err::<
            i64,
            ReleaseBuildResultHoldError,
        >(ReleaseBuildResultHoldError::PreconditionFailed),
        releasing(Some(build), Some(hold), expected_version, released_at) is Err && hold.version == expected_version
            ==> releasing(Some(build), Some(hold), expected_version, released_at) == Err::<
            i64,
            ReleaseBuildResultHoldError,
        >(
            ReleaseBuildResultHoldError::Store(StoreError::Conflict { entity: EntityKind::RetentionHold }),
        ),
        releasing(Some(build), None, expected_version, released_at) == Err::<i64, ReleaseBuildResultHoldError>(
            ReleaseBuildResultHoldError::Store(StoreError::NotFound { entity: EntityKind::RetentionHold }),
        ),
        releasing(None, Some(hold), expected_version, released_at) == Err::<i64, ReleaseBuildResultHoldError>(
            ReleaseBuildResultHoldError::Store(StoreError::NotFound { entity: EntityKind::Build }),
        ),
{
}

/// A placed hold says what was asked for and by whom, and is neither expired nor released.
pub proof fn placed_holds_say_what_was_asked(row: HoldRow, request: PlaceBuildResultHold, stored: i64)
    requires
        is_placed(row, request, stored),
    ensures
        row.build_id == request.build_id && row.version == stored,
        row.reason@ == request.reason@ && row.created_at_millis == request.placed_at,
        row.expires_at_millis == request.expires_at,
        row.expired_at_millis is None && row.released_at_millis is None,
        row.request_identity@ == request.request_identity@,
        optional_text(row.actor_identity) == optional_text(request.actor_identity),
        row.release_actor_kind is None && row.release_request_identity is None,
{
}

/// A released hold is the one before with its release: its reason, its times and who placed it stay.
pub proof fn released_holds_keep_their_reason(
    row: HoldRow,
    latest: HoldRow,
    request: ReleaseBuildResultHold,
    stored: i64,
)
    requires
        is_released(row, latest, request, stored),
    ensures
        row.build_id == latest.build_id && row.version == stored,
        row.reason@ == latest.reason@ && row.created_at_millis == latest.created_at_millis && row.expires_at_millis
            == latest.expires_at_millis,
        row.request_identity@ == latest.request_identity@ && row.actor_kind@ == latest.actor_kind@,
        row.released_at_millis == Some(request.released_at),
        optional_text(row.release_actor_identity) == optional_text(request.actor_identity),
        optional_text(row.release_request_identity) == Some(request.request_identity@),
{
}

/// An expired hold is the one before, found expired at its own expiry: it is not released.
pub proof fn expired_holds_end_at_their_expiry(row: HoldRow, latest: HoldRow)
    requires
        is_expiry(row, latest),
    ensures
        row.build_id == latest.build_id && row.version == latest.version + 1,
        row.expired_at_millis == latest.expires_at_millis && row.expires_at_millis == latest.expires_at_millis,
        row.released_at_millis is None && row.release_actor_kind is None,
        row.reason@ == latest.reason@ && row.created_at_millis == latest.created_at_millis,
{
}

/// What is said of a build is what is on record: the deadline and the visibility of each of its parts, and the state
/// of its hold.
pub proof fn retention_is_read_as_recorded(
    state: BuildResultRetentionState,
    build: BuildRetentionRow,
    hold: Option<HoldRow>,
    observed_at: i64,
)
    requires
        is_state_of(state, build, hold, observed_at),
    ensures
        state.build_id == build.build_id,
        state.deadlines.metadata == build.metadata_deadline_millis && state.deadlines.logs == build.log_deadline_millis,
        state.deadlines.artifacts == build.artifact_deadline_millis && state.deadlines.reports
            == build.report_deadline_millis,
        state.visibility.metadata == build.metadata_visible && state.visibility.logs == build.logs_visible,
        state.visibility.artifacts == build.artifacts_visible && state.visibility.reports == build.reports_visible,
        state.hold is Some <==> hold is Some,
        hold matches Some(row) ==> state.hold->Some_0.version == row.version && state.hold->Some_0.reason@ == row.reason@
            && state.hold->Some_0.created_at == row.created_at_millis && state.hold->Some_0.expires_at
            == row.expires_at_millis && state.hold->Some_0.released_at == row.released_at_millis && (
        state.hold->Some_0.state == RetentionHoldState::Active <==> row.released_at_millis is None
            && row.expired_at_millis is None && (row.expires_at_millis is None || observed_at
            < row.expires_at_millis->Some_0)),
{
}

/// The name of a hold's state says which it is.
pub proof fn hold_states_are_named()
    ensures
        hold_state_name(RetentionHoldState::Active) == "active",
        hold_state_name(RetentionHoldState::Released) == "released",
        hold_state_name(RetentionHoldState::Expired) == "expired",
{
}

/// Retention is read exactly from a build and a hold whose identities are set, whose times are no earlier than the
/// Unix epoch and whose version counts from one; a release is recorded with who asked for it and under which request,
/// or not at all.
pub proof fn sound_retention_is_read(build: BuildRetentionRow, hold: HoldRow)
    ensures
        is_readable(build, None) <==> build.build_id != 0 && build.metadata_deadline_millis >= 0
            && build.log_deadline_millis >= 0 && build.artifact_deadline_millis >= 0 && build.report_deadline_millis
            >= 0,
        is_readable(build, Some(hold)) <==> is_readable(build, None) && hold.build_id != 0 && hold.version > 0
            && hold.created_at_millis >= 0 && (hold.expires_at_millis is None || hold.expires_at_millis->Some_0 >= 0) && (
        hold.released_at_millis is None || hold.released_at_millis->Some_0 >= 0) && (hold.release_actor_kind is Some
            <==> hold.release_request_identity is Some),
{
}

/// A hold is read back as it was placed: with its reason and times, with who placed it and under which request, and
/// as never released.
pub proof fn placed_holds_are_read_back(
    hold: RetentionHold,
    row: HoldRow,
    request: PlaceBuildResultHold,
    stored: i64,
    observed_at: i64,
)
    requires
        is_placed(row, request, stored),
        is_hold_of(hold, row, observed_at),
    ensures
        hold.build_id == request.build_id && hold.version == stored,
        hold.reason@ == request.reason@,
        hold.created_at == request.placed_at && hold.expires_at == request.expires_at,
        hold.released_at is None && hold.release_audit is None,
        hold.creation_audit.actor_kind@ == "unauthenticated_management"@,
        optional_text(hold.creation_audit.actor_identity) == optional_text(request.actor_identity),
        hold.creation_audit.request_identity@ == request.request_identity@,
        row.release_actor_identity is None && row.release_request_identity is None && row.release_actor_kind is None,
{
}

/// A hold is read back as it was released: what was said when it was placed stands, and the release is told with its
/// time, who asked for it and under which request.
pub proof fn released_holds_are_read_back(
    before: RetentionHold,
    after: RetentionHold,
    latest: HoldRow,
    row: HoldRow,
    request: ReleaseBuildResultHold,
    stored: i64,
    earlier: i64,
    observed_at: i64,
)
    requires
        is_hold_of(before, latest, earlier),
        is_released(row, latest, request, stored),
        is_hold_of(after, row, observed_at),
    ensures
        after.build_id == before.build_id && after.version == stored,
        after.reason@ == before.reason@,
        after.created_at == before.created_at && after.expires_at == before.expires_at,
        after.creation_audit.actor_kind@ == before.creation_audit.actor_kind@,
        optional_text(after.creation_audit.actor_identity) == optional_text(before.creation_audit.actor_identity),
        after.creation_audit.request_identity@ == before.creation_audit.request_identity@,
        after.released_at == Some(request.released_at) && after.state == RetentionHoldState::Released,
        after.release_audit is Some,
        after.release_audit->Some_0.actor_kind@ == "unauthenticated_management"@,
        optional_text(after.release_audit->Some_0.actor_identity) == optional_text(request.actor_identity),
        after.release_audit->Some_0.request_identity@ == request.request_identity@,
        row.expired_at_millis == latest.expired_at_millis,
{
}

/// A hold is read back as it expired: what was said when it was placed stands, and nobody released it.
pub proof fn expired_holds_are_read_back(
    before: RetentionHold,
    after: RetentionHold,
    latest: HoldRow,
    row: HoldRow,
    earlier: i64,
    observed_at: i64,
)
    requires
        is_hold_of(before, latest, earlier),
        is_expiry(row, latest),
        latest.expires_at_millis is Some,
        is_hold_of(after, row, observed_at),
    ensures
        after.build_id == before.build_id && after.version == before.version + 1,
        after.reason@ == before.reason@,
        after.created_at == before.created_at && after.expires_at == before.expires_at,
        after.creation_audit.actor_kind@ == before.creation_audit.actor_kind@,
        optional_text(after.creation_audit.actor_identity) == optional_text(before.creation_audit.actor_identity),
        after.creation_audit.request_identity@ == before.creation_audit.request_identity@,
        after.released_at is None && after.state == RetentionHoldState::Expired && after.release_audit is None,
        row.expired_at_millis == latest.expires_at_millis,
        row.release_actor_identity is None && row.release_request_identity is None,
{
}

/// A hold of which a copy was made is the same hold: it is read alike at every time, and it ends when the copy does.
pub proof fn copied_holds_are_read_alike(
    copy: HoldRow,
    row: HoldRow,
    from_copy: RetentionHold,
    from_row: RetentionHold,
    observed_at: i64,
)
    requires
        is_copy(copy, row),
        is_hold_of(from_copy, copy, observed_at),
        is_hold_of(from_row, row, observed_at),
    ensures
        from_copy.build_id == from_row.build_id && from_copy.version == from_row.version,
        from_copy.reason@ == from_row.reason@,
        from_copy.created_at == from_row.created_at && from_copy.expires_at == from_row.expires_at,
        from_copy.released_at == from_row.released_at && from_copy.state == from_row.state,
        from_copy.creation_audit.actor_kind@ == from_row.creation_audit.actor_kind@,
        optional_text(from_copy.creation_audit.actor_identity) == optional_text(from_row.creation_audit.actor_identity),
        from_copy.creation_audit.request_identity@ == from_row.creation_audit.request_identity@,
        from_copy.release_audit is Some <==> from_row.release_audit is Some,
        from_copy.release_audit is Some ==> from_copy.release_audit->Some_0.actor_kind@
            == from_row.release_audit->Some_0.actor_kind@ && optional_text(from_copy.release_audit->Some_0.actor_identity)
            == optional_text(from_row.release_audit->Some_0.actor_identity)
            && from_copy.release_audit->Some_0.request_identity@ == from_row.release_audit->Some_0.request_identity@,
        copy.expired_at_millis == row.expired_at_millis && ended_at(copy) == ended_at(row),
{
}

/// A hold is told with who placed it and, once it was released, with who released it.
pub proof fn holds_are_told_with_their_audit(hold: RetentionHold, row: HoldRow, observed_at: i64)
    requires
        is_hold_of(hold, row, observed_at),
    ensures
        hold.build_id == row.build_id,
        hold.creation_audit.actor_kind@ == row.actor_kind@ && hold.creation_audit.request_identity@
            == row.request_identity@,
        optional_text(hold.creation_audit.actor_identity) == optional_text(row.actor_identity),
        hold.release_audit is Some <==> row.release_actor_kind is Some,
        hold.release_audit is Some ==> hold.release_audit->Some_0.actor_kind@ == row.release_actor_kind->Some_0@
            && row.release_request_identity is Some && hold.release_audit->Some_0.request_identity@
            == row.release_request_identity->Some_0@ && optional_text(hold.release_audit->Some_0.actor_identity)
            == optional_text(row.release_actor_identity),
{
}

/// Versions of a hold are counted on by one; one that is damaged, or the last that fits, is reported as unavailable.
pub proof fn versions_of_holds_are_counted_on(stored: i64)
    ensures
        0 < stored < i64::MAX ==> following(stored) == Ok::<i64, StoreError>((stored + 1) as i64),
        stored <= 0 || stored == i64::MAX ==> following(stored) == Err::<i64, StoreError>(StoreError::Unavailable),
{
}

/// A hold whose version cannot be read is not released: that is reported as unavailable.
pub proof fn damaged_holds_are_unavailable(
    build: BuildRetentionRow,
    hold: HoldRow,
    expected_version: u64,
    released_at: i64,
)
    ensures
        hold.version <= 0 ==> releasing(Some(build), Some(hold), expected_version, released_at) == Err::<
            i64,
            ReleaseBuildResultHoldError,
        >(ReleaseBuildResultHoldError::Store(StoreError::Unavailable)),
{
}

} // verus!
