//! Lifecycle states of jobs, attempts and builds, and their stored names.

use vstd::prelude::*;

use crate::domain::StoreError;
use crate::text::same_text;

verus! {

/// State of one job of an attempt.
#[derive(Clone, Copy, Debug, PartialEq, Eq, Structural)]
pub enum JobState {
    /// Stored as `blocked`.
    Blocked,
    /// Stored as `ready`.
    Ready,
    /// Stored as `leased`.
    Leased,
    /// Stored as `running`.
    Running,
    /// Stored as `cancelling`.
    Cancelling,
    /// Stored as `succeeded`.
    Succeeded,
    /// Stored as `failed`.
    Failed,
    /// Stored as `cancelled`.
    Cancelled,
    /// Stored as `skipped`.
    Skipped,
}

/// The stored name of a job state.
pub open spec fn job_state_text(value: JobState) -> Seq<char> {
    match value {
        JobState::Blocked => "blocked"@,
        JobState::Ready => "ready"@,
        JobState::Leased => "leased"@,
        JobState::Running => "running"@,
        JobState::Cancelling => "cancelling"@,
        JobState::Succeeded => "succeeded"@,
        JobState::Failed => "failed"@,
        JobState::Cancelled => "cancelled"@,
        JobState::Skipped => "skipped"@,
    }
}

/// No two values share a stored name.
pub proof fn job_state_text_names_one_value(a: JobState, b: JobState)
    ensures
        job_state_text(a) == job_state_text(b) ==> a == b,
{
    reveal_strlit("blocked");
    reveal_strlit("ready");
    reveal_strlit("leased");
    reveal_strlit("running");
    reveal_strlit("cancelling");
    reveal_strlit("succeeded");
    reveal_strlit("failed");
    reveal_strlit("cancelled");
    reveal_strlit("skipped");
    assert("blocked"@.len() == 7);
    assert("ready"@.len() == 5);
    assert("leased"@.len() == 6);
    assert("running"@.len() == 7);
    assert("cancelling"@.len() == 10);
    assert("succeeded"@.len() == 9);
    assert("failed"@.len() == 6);
    assert("cancelled"@.len() == 9);
    assert("skipped"@.len() == 7);
    assert("leased"@[0] == 'l');
    assert("failed"@[0] == 'f');
    assert("blocked"@[0] == 'b');
    assert("running"@[0] == 'r');
    assert("skipped"@[0] == 's');
    assert("succeeded"@[0] == 's');
    assert("cancelled"@[0] == 'c');
}

/// Names a job state as the database stores it.
pub fn job_state(value: JobState) -> (text: &'static str)
    ensures
        text@ == job_state_text(value),
{
    match value {
        JobState::Blocked => "blocked",
        JobState::Ready => "ready",
        JobState::Leased => "leased",
        JobState::Running => "running",
        JobState::Cancelling => "cancelling",
        JobState::Succeeded => "succeeded",
        JobState::Failed => "failed",
        JobState::Cancelled => "cancelled",
        JobState::Skipped => "skipped",
    }
}

/// Reads a job state back from its stored name; any other text is unreadable.
pub fn parse_job_state(text: &str) -> (result: Result<JobState, StoreError>)
    ensures
        forall|value: JobState|
            result == Ok::<JobState, StoreError>(value)
                <==> text@ == #[trigger] job_state_text(value),
        result is Err ==> result == Err::<JobState, StoreError>(StoreError::Unavailable),
{
    proof {
        assert forall|a: JobState, b: JobState|
            #[trigger] job_state_text(a) == #[trigger] job_state_text(b)
            implies a == b by {
            job_state_text_names_one_value(a, b);
        }
    }
    let result = if same_text(text, "blocked") {
        Ok(JobState::Blocked)
    } else if same_text(text, "ready") {
        Ok(JobState::Ready)
    } else if same_text(text, "leased") {
        Ok(JobState::Leased)
    } else if same_text(text, "running") {
        Ok(JobState::Running)
    } else if same_text(text, "cancelling") {
        Ok(JobState::Cancelling)
    } else if same_text(text, "succeeded") {
        Ok(JobState::Succeeded)
    } else if same_text(text, "failed") {
        Ok(JobState::Failed)
    } else if same_text(text, "cancelled") {
        Ok(JobState::Cancelled)
    } else if same_text(text, "skipped") {
        Ok(JobState::Skipped)
    } else {
        Err(StoreError::Unavailable)
    };
    assert(result matches Ok(value) ==> text@ == job_state_text(value));
    result
}

/// State of one attempt of a build.
#[derive(Clone, Copy, Debug, PartialEq, Eq, Structural)]
pub enum AttemptState {
    /// Stored as `created`.
    Created,
    /// Stored as `running`.
    Running,
    /// Stored as `succeeded`.
    Succeeded,
    /// Stored as `failed`.
    Failed,
    /// Stored as `cancelled`.
    Cancelled,
}

/// The stored name of an attempt state.
pub open spec fn attempt_state_text(value: AttemptState) -> Seq<char> {
    match value {
        AttemptState::Created => "created"@,
        AttemptState::Running => "running"@,
        AttemptState::Succeeded => "succeeded"@,
        AttemptState::Failed => "failed"@,
        AttemptState::Cancelled => "cancelled"@,
    }
}

/// No two values share a stored name.
pub proof fn attempt_state_text_names_one_value(a: AttemptState, b: AttemptState)
    ensures
        attempt_state_text(a) == attempt_state_text(b) ==> a == b,
{
    reveal_strlit("created");
    reveal_strlit("running");
    reveal_strlit("succeeded");
    reveal_strlit("failed");
    reveal_strlit("cancelled");
    assert("created"@.len() == 7);
    assert("running"@.len() == 7);
    assert("succeeded"@.len() == 9);
    assert("failed"@.len() == 6);
    assert("cancelled"@.len() == 9);
    assert("created"@[0] == 'c');
    assert("running"@[0] == 'r');
    assert("succeeded"@[0] == 's');
    assert("cancelled"@[0] == 'c');
}

/// Names an attempt state as the database stores it.
pub fn attempt_state(value: AttemptState) -> (text: &'static str)
    ensures
        text@ == attempt_state_text(value),
{
    match value {
        AttemptState::Created => "created",
        AttemptState::Running => "running",
        AttemptState::Succeeded => "succeeded",
        AttemptState::Failed => "failed",
        AttemptState::Cancelled => "cancelled",
    }
}

/// Reads an attempt state back from its stored name; any other text is unreadable.
pub fn parse_attempt_state(text: &str) -> (result: Result<AttemptState, StoreError>)
    ensures
        forall|value: AttemptState|
            result == Ok::<AttemptState, StoreError>(value)
                <==> text@ == #[trigger] attempt_state_text(value),
        result is Err ==> result == Err::<AttemptState, StoreError>(StoreError::Unavailable),
{
    proof {
        assert forall|a: AttemptState, b: AttemptState|
            #[trigger] attempt_state_text(a) == #[trigger] attempt_state_text(b)
            implies a == b by {
            attempt_state_text_names_one_value(a, b);
        }
    }
    let result = if same_text(text, "created") {
        Ok(AttemptState::Created)
    } else if same_text(text, "running") {
        Ok(AttemptState::Running)
    } else if same_text(text, "succeeded") {
        Ok(AttemptState::Succeeded)
    } else if same_text(text, "failed") {
        Ok(AttemptState::Failed)
    } else if same_text(text, "cancelled") {
        Ok(AttemptState::Cancelled)
    } else {
        Err(StoreError::Unavailable)
    };
    assert(result matches Ok(value) ==> text@ == attempt_state_text(value));
    result
}

/// State of a build.
#[derive(Clone, Copy, Debug, PartialEq, Eq, Structural)]
pub enum BuildState {
    /// Stored as `queued`.
    Queued,
    /// Stored as `running`.
    Running,
    /// Stored as `succeeded`.
    Succeeded,
    /// Stored as `failed`.
    Failed,
    /// Stored as `cancelled`.
    Cancelled,
}

/// The stored name of a build state.
pub open spec fn build_state_text(value: BuildState) -> Seq<char> {
    match value {
        BuildState::Queued => "queued"@,
        BuildState::Running => "running"@,
        BuildState::Succeeded => "succeeded"@,
        BuildState::Failed => "failed"@,
        BuildState::Cancelled => "cancelled"@,
    }
}

/// No two values share a stored name.
pub proof fn build_state_text_names_one_value(a: BuildState, b: BuildState)
    ensures
        build_state_text(a) == build_state_text(b) ==> a == b,
{
    reveal_strlit("queued");
    reveal_strlit("running");
    reveal_strlit("succeeded");
    reveal_strlit("failed");
    reveal_strlit("cancelled");
    assert("queued"@.len() == 6);
    assert("running"@.len() == 7);
    assert("succeeded"@.len() == 9);
    assert("failed"@.len() == 6);
    assert("cancelled"@.len() == 9);
    assert("queued"@[0] == 'q');
    assert("failed"@[0] == 'f');
    assert("succeeded"@[0] == 's');
    assert("cancelled"@[0] == 'c');
}

/// Names a build state as the database stores it.
pub fn build_state(value: BuildState) -> (text: &'static str)
    ensures
        text@ == build_state_text(value),
{
    match value {
        BuildState::Queued => "queued",
        BuildState::Running => "running",
        BuildState::Succeeded => "succeeded",
        BuildState::Failed => "failed",
        BuildState::Cancelled => "cancelled",
    }
}

/// Reads a build state back from its stored name; any other text is unreadable.
pub fn parse_build_state(text: &str) -> (result: Result<BuildState, StoreError>)
    ensures
        forall|value: BuildState|
            result == Ok::<BuildState, StoreError>(value)
                <==> text@ == #[trigger] build_state_text(value),
        result is Err ==> result == Err::<BuildState, StoreError>(StoreError::Unavailable),
{
    proof {
        assert forall|a: BuildState, b: BuildState|
            #[trigger] build_state_text(a) == #[trigger] build_state_text(b)
            implies a == b by {
            build_state_text_names_one_value(a, b);
        }
    }
    let result = if same_text(text, "queued") {
        Ok(BuildState::Queued)
    } else if same_text(text, "running") {
        Ok(BuildState::Running)
    } else if same_text(text, "succeeded") {
        Ok(BuildState::Succeeded)
    } else if same_text(text, "failed") {
        Ok(BuildState::Failed)
    } else if same_text(text, "cancelled") {
        Ok(BuildState::Cancelled)
    } else {
        Err(StoreError::Unavailable)
    };
    assert(result matches Ok(value) ==> text@ == build_state_text(value));
    result
}

/// Each state of a job is stored under its own name.
pub proof fn states_of_jobs_are_stored_by_name()
    ensures
        job_state_text(JobState::Blocked) == "blocked"@,
        job_state_text(JobState::Ready) == "ready"@,
        job_state_text(JobState::Leased) == "leased"@,
        job_state_text(JobState::Running) == "running"@,
        job_state_text(JobState::Cancelling) == "cancelling"@,
        job_state_text(JobState::Succeeded) == "succeeded"@,
        job_state_text(JobState::Failed) == "failed"@,
        job_state_text(JobState::Cancelled) == "cancelled"@,
        job_state_text(JobState::Skipped) == "skipped"@,
{
}

/// Each state of an attempt is stored under its own name.
pub proof fn states_of_attempts_are_stored_by_name()
    ensures
        attempt_state_text(AttemptState::Created) == "created"@,
        attempt_state_text(AttemptState::Running) == "running"@,
        attempt_state_text(AttemptState::Succeeded) == "succeeded"@,
        attempt_state_text(AttemptState::Failed) == "failed"@,
        attempt_state_text(AttemptState::Cancelled) == "cancelled"@,
{
}

/// Each state of a build is stored under its own name.
pub proof fn states_of_builds_are_stored_by_name()
    ensures
        build_state_text(BuildState::Queued) == "queued"@,
        build_state_text(BuildState::Running) == "running"@,
        build_state_text(BuildState::Succeeded) == "succeeded"@,
        build_state_text(BuildState::Failed) == "failed"@,
        build_state_text(BuildState::Cancelled) == "cancelled"@,
{
}

} // verus!
