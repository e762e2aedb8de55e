//! Accepting a trigger occurrence as a build, or suppressing it.

use vstd::prelude::*;

use crate::attempt_materialization::{roots, roots_of, MaterializedJob};
use crate::database::{fits_column, number, out_of_range};
use crate::domain::{is_identity, EntityKind, MutationDisposition, StoreError, StoreOperation};
use crate::identity_text::{hyphenated, identity_text};
use crate::mutation::{FactValue, Member, MutationFacts, MutationStart};
use crate::ordered::{extend_ordered, is_ascending};
use crate::text::{same_bytes, same_text};

verus! {

/// What set a trigger off.
#[derive(Clone, Copy, Debug, PartialEq, Eq, Structural)]
pub enum TriggerCause {
    /// Somebody asked for it.
    Manual {},
    /// A schedule came due.
    Scheduled {},
    /// Another build got somewhere.
    Internal {},
    /// A webhook was delivered.
    External {},
}

/// A version of a trigger definition.
#[derive(Clone, Copy, Debug, PartialEq, Eq, Structural)]
pub struct TriggerDefinitionRef {
    /// The trigger.
    pub id: u128,
    /// Its version.
    pub version: u64,
}

/// What a trigger builds.
#[derive(Clone, Copy, Debug, PartialEq, Eq, Structural)]
pub struct TriggerTarget {
    /// The build configuration.
    pub configuration_id: u128,
    /// Its version.
    pub configuration_version: u64,
}

/// One occasion on which a trigger was set off.
pub struct NormalizedTriggerOccurrence {
    /// The occurrence.
    pub id: u128,
    /// The trigger.
    pub trigger: TriggerDefinitionRef,
    /// What it builds.
    pub target: TriggerTarget,
    /// Identity under which repeated deliveries are recognised.
    pub deduplication_identity: String,
    /// What set it off.
    pub cause: TriggerCause,
    /// When it was set off.
    pub source_time: i64,
}

/// The versions of an acceptance as the database holds them.
#[derive(Clone, Copy, Debug, PartialEq, Eq, Structural)]
pub struct AcceptanceNumbers {
    /// Version of the trigger.
    pub trigger_version: i64,
    /// Version of the build configuration.
    pub configuration_version: i64,
    /// Version of the pipeline.
    pub pipeline_version: i64,
    /// Version of the repository.
    pub repository_version: i64,
    /// Number of the attempt.
    pub attempt_number: i64,
}

/// Converts the versions of an acceptance.
/// `validated` is the verdict on the request by itself.
pub fn acceptance_numbers(
    validated: Result<(), StoreError>,
    trigger_version: u64,
    configuration_version: u64,
    pipeline_version: u64,
    repository_version: u64,
    attempt_number: u64,
) -> (result: Result<AcceptanceNumbers, StoreError>)
    ensures
        result == (match validated {
            Err(error) => Err::<AcceptanceNumbers, StoreError>(error),
            Ok(()) => if fits_column(trigger_version) && fits_column(configuration_version) && fits_column(
                pipeline_version,
            ) && fits_column(repository_version) && fits_column(attempt_number) {
                Ok(
                    AcceptanceNumbers {
                        trigger_version: trigger_version as i64,
                        configuration_version: configuration_version as i64,
                        pipeline_version: pipeline_version as i64,
                        repository_version: repository_version as i64,
                        attempt_number: attempt_number as i64,
                    },
                )
            } else {
                Err(out_of_range(StoreOperation::AcceptTrigger))
            },
        }),
{
    validated?;
    Ok(
        AcceptanceNumbers {
            trigger_version: number(trigger_version, StoreOperation::AcceptTrigger)?,
            configuration_version: number(configuration_version, StoreOperation::AcceptTrigger)?,
            pipeline_version: number(pipeline_version, StoreOperation::AcceptTrigger)?,
            repository_version: number(repository_version, StoreOperation::AcceptTrigger)?,
            attempt_number: number(attempt_number, StoreOperation::AcceptTrigger)?,
        },
    )
}

/// The numbers of an occurrence that is passed over, as the database holds them: the version of its trigger, and
/// that of what it builds. `validated` is the verdict on the request by itself.
pub fn suppression_numbers(validated: Result<(), StoreError>, trigger_version: u64, configuration_version: u64) -> (result:
    Result<(i64, i64), StoreError>)
    ensures
        result == (match validated {
            Err(error) => Err::<(i64, i64), StoreError>(error),
            Ok(()) => if fits_column(trigger_version) && fits_column(configuration_version) {
                Ok((trigger_version as i64, configuration_version as i64))
            } else {
                Err(out_of_range(StoreOperation::AcceptTrigger))
            },
        }),
{
    validated?;
    let trigger_version: i64 = number(trigger_version, StoreOperation::AcceptTrigger)?;
    let configuration_version: i64 = number(configuration_version, StoreOperation::AcceptTrigger)?;
    Ok((trigger_version, configuration_version))
}

/// An evaluation of the same occurrence that is on record. `stored_occurrence` is the occurrence its
/// stored outcome speaks of, where that outcome can be read as one of its state.
pub struct ExistingEvaluation {
    /// The occurrence on record.
    pub occurrence_id: u128,
    /// Whether it was accepted or suppressed.
    pub state: String,
    /// Digest of its request.
    pub digest: Vec<u8>,
    /// Occurrence named by its stored outcome.
    pub stored_occurrence: Result<u128, StoreError>,
}

/// What an evaluation comes to where one of the same occurrence is on record: it is repeated if it is
/// the same request with the same answer, and a conflict otherwise.
pub open spec fn repetition(existing: ExistingEvaluation, digest: Seq<u8>, state: Seq<char>) -> Result<(), StoreError> {
    if !is_identity(existing.occurrence_id) {
        Err(StoreError::Unavailable)
    } else if existing.digest@ == digest && existing.state@ == state {
        match existing.stored_occurrence {
            Err(error) => Err(error),
            Ok(stored) => if stored == existing.occurrence_id {
                Ok(())
            } else {
                Err(StoreError::Unavailable)
            },
        }
    } else {
        Err(StoreError::Conflict { entity: EntityKind::Trigger })
    }
}

/// Decides whether an evaluation on record is repeated. `state` is `accepted` or `suppressed`, by what
/// is requested.
pub fn repeat_evaluation(existing: &ExistingEvaluation, digest: &[u8], state: &str) -> (result: Result<(), StoreError>)
    ensures
        result == repetition(*existing, digest@, state@),
{
    if existing.occurrence_id == 0 {
        return Err(StoreError::Unavailable);
    }
    if same_bytes(existing.digest.as_slice(), digest) && same_text(existing.state.as_str(), state) {
        match existing.stored_occurrence {
            Err(error) => Err(error),
            Ok(stored) => if stored == existing.occurrence_id {
                Ok(())
            } else {
                Err(StoreError::Unavailable)
            },
        }
    } else {
        Err(StoreError::Conflict { entity: EntityKind::Trigger })
    }
}

/// How an occurrence was evaluated.
#[derive(Clone, Copy, Debug, PartialEq, Eq, Structural)]
pub enum TriggerEvaluation {
    /// It became a build.
    Accepted,
    /// It was suppressed.
    Suppressed,
}

/// What probing for an evaluation comes to.
pub open spec fn probed(record: Option<ExistingEvaluation>, intent_digest: Seq<u8>) -> Result<
    Option<TriggerEvaluation>,
    StoreError,
> {
    match record {
        None => Ok(None),
        Some(existing) => if existing.digest@ != intent_digest {
            Err(StoreError::Conflict { entity: EntityKind::Trigger })
        } else if !is_identity(existing.occurrence_id) {
            Err(StoreError::Unavailable)
        } else if existing.state@ == "accepted"@ || existing.state@ == "suppressed"@ {
            match existing.stored_occurrence {
                Err(error) => Err(error),
                Ok(stored) => if stored != existing.occurrence_id {
                    Err(StoreError::Unavailable)
                } else if existing.state@ == "accepted"@ {
                    Ok(Some(TriggerEvaluation::Accepted))
                } else {
                    Ok(Some(TriggerEvaluation::Suppressed))
                },
            }
        } else {
            Err(StoreError::Unavailable)
        },
    }
}

/// Probes for an evaluation of an occurrence: none on record is no answer, one of another intent is a
/// conflict, and one of the same intent is repeated.
pub fn replay_evaluation(record: &Option<ExistingEvaluation>, intent_digest: &[u8]) -> (result: Result<
    Option<TriggerEvaluation>,
    StoreError,
>)
    ensures
        result == probed(*record, intent_digest@),
{
    let existing = match record {
        Some(existing) => existing,
        None => {
            return Ok(None);
        },
    };
    if !same_bytes(existing.digest.as_slice(), intent_digest) {
        return Err(StoreError::Conflict { entity: EntityKind::Trigger });
    }
    if existing.occurrence_id == 0 {
        return Err(StoreError::Unavailable);
    }
    let accepted = same_text(existing.state.as_str(), "accepted");
    if !accepted && !same_text(existing.state.as_str(), "suppressed") {
        return Err(StoreError::Unavailable);
    }
    match existing.stored_occurrence {
        Err(error) => Err(error),
        Ok(stored) => if stored != existing.occurrence_id {
            Err(StoreError::Unavailable)
        } else if accepted {
            Ok(Some(TriggerEvaluation::Accepted))
        } else {
            Ok(Some(TriggerEvaluation::Suppressed))
        },
    }
}

/// An occurrence that was accepted is never suppressed later, nor the other way round: the opposite
/// request is a conflict even if its digest is the same.
pub proof fn evaluations_are_final(existing: ExistingEvaluation, digest: Seq<u8>)
    requires
        is_identity(existing.occurrence_id),
    ensures
        existing.state@ == "accepted"@ ==> repetition(existing, digest, "suppressed"@) == Err::<(), StoreError>(
            StoreError::Conflict { entity: EntityKind::Trigger },
        ),
        existing.state@ == "suppressed"@ ==> repetition(existing, digest, "accepted"@) == Err::<(), StoreError>(
            StoreError::Conflict { entity: EntityKind::Trigger },
        ),
{
    reveal_strlit("accepted");
    reveal_strlit("suppressed");
    assert("accepted"@.len() == 8);
    assert("suppressed"@.len() == 10);
}

/// Whether some job may run on agents of a pool.
pub open spec fn is_allowed_pool(jobs: Seq<MaterializedJob>, pool_id: u128) -> bool {
    exists|i: int| 0 <= i < jobs.len() && (#[trigger] jobs[i]).allowed_pools@.contains(pool_id)
}

/// Collects the pools whose agents may run some job, in ascending order and without repetition: the
/// order in which they are locked.
pub fn allowed_pools(jobs: &Vec<MaterializedJob>) -> (pools: Vec<u128>)
    ensures
        is_ascending(pools@),
        forall|pool_id: u128| #[trigger] pools@.contains(pool_id) <==> is_allowed_pool(jobs@, pool_id),
{
    let mut pools: Vec<u128> = Vec::new();
    let mut i: usize = 0;
    while i < jobs.len()
        invariant
            i <= jobs@.len(),
            is_ascending(pools@),
            forall|pool_id: u128| #[trigger]
                pools@.contains(pool_id) <==> is_allowed_pool(jobs@.subrange(0, i as int), pool_id),
        decreases jobs@.len() - i,
    {
        let ghost before = pools@;
        extend_ordered(&mut pools, &jobs[i].allowed_pools);
        i += 1;
        proof {
            let seen = jobs@.subrange(0, i - 1);
            let now = jobs@.subrange(0, i as int);
            assert forall|pool_id: u128| #[trigger] pools@.contains(pool_id) <==> is_allowed_pool(now, pool_id) by {
                assert(before.contains(pool_id) <==> is_allowed_pool(seen, pool_id));
                if is_allowed_pool(now, pool_id) {
                    let k = choose|k: int| 0 <= k < now.len() && (#[trigger] now[k]).allowed_pools@.contains(pool_id);
                    if k < i - 1 {
                        assert(seen[k] == now[k]);
                    }
                }
                if is_allowed_pool(seen, pool_id) {
                    let k = choose|k: int|
                        0 <= k < seen.len() && (#[trigger] seen[k]).allowed_pools@.contains(pool_id);
                    assert(now[k] == seen[k]);
                }
                if jobs@[i - 1].allowed_pools@.contains(pool_id) {
                    assert(now[i - 1].allowed_pools@.contains(pool_id));
                }
            }
        }
    }
    assert(jobs@.subrange(0, i as int) =~= jobs@);
    pools
}

/// Whether a count of rows is a given length.
pub open spec fn counts(count: i64, length: nat) -> bool {
    count == length
}

/// Requires that an acceptance refers to existing things: `references_exist` speaks of the trigger and
/// what it builds, and `pool_count` is how many of the allowed pools exist.
pub fn require_references(references_exist: bool, pools: &Vec<u128>, pool_count: i64) -> (result: Result<
    (),
    StoreError,
>)
    ensures
        result == (if !references_exist {
            Err::<(), StoreError>(StoreError::NotFound { entity: EntityKind::Trigger })
        } else if !counts(pool_count, pools@.len()) {
            Err(StoreError::NotFound { entity: EntityKind::Pool })
        } else {
            Ok(())
        }),
{
    if !references_exist {
        return Err(StoreError::NotFound { entity: EntityKind::Trigger });
    }
    match usize::try_from(pool_count) {
        Ok(count) => {
            if count != pools.len() {
                return Err(StoreError::NotFound { entity: EntityKind::Pool });
            }
            Ok(())
        },
        Err(_) => {
            assert(pools.len() <= usize::MAX);
            Err(StoreError::NotFound { entity: EntityKind::Pool })
        },
    }
}

/// Requires that a suppression refers to an existing trigger.
pub fn require_trigger_reference(exists: bool) -> (result: Result<(), StoreError>)
    ensures
        result == (if exists {
            Ok::<(), StoreError>(())
        } else {
            Err(StoreError::NotFound { entity: EntityKind::Trigger })
        }),
{
    if exists {
        Ok(())
    } else {
        Err(StoreError::NotFound { entity: EntityKind::Trigger })
    }
}

/// Checks that an occurrence was recorded: one that clashes with another on record is not.
pub fn insert_occurrence(inserted_rows: u64) -> (result: Result<(), StoreError>)
    ensures
        result == (if inserted_rows == 1 {
            Ok::<(), StoreError>(())
        } else {
            Err(StoreError::Conflict { entity: EntityKind::Trigger })
        }),
{
    if inserted_rows == 1 {
        return Ok(());
    }
    Err(StoreError::Conflict { entity: EntityKind::Trigger })
}

/// What evaluating an occurrence does next.
#[derive(Clone, Copy, Debug, PartialEq, Eq, Structural)]
pub enum EvaluationStep {
    /// Reserve the key of the request.
    Begin,
    /// Look for an evaluation of the same occurrence.
    FindOccurrence,
    /// Look for what the request refers to.
    CheckReferences,
    /// Lock the allowed pools and count them.
    CountPools,
    /// Record the occurrence.
    RecordOccurrence,
    /// Write what follows from the evaluation, and commit.
    Write,
    /// Repeat the evaluation on record under this key too, and commit.
    Repeat,
    /// Answer with the outcome that is stored under the key.
    Replay,
}

/// What a step of an evaluation found.
pub enum EvaluationEvent {
    /// How the key was reserved.
    Started(MutationStart),
    /// The evaluation of the same occurrence, where there is one.
    Found(Option<ExistingEvaluation>),
    /// Whether what the request refers to is there.
    ReferencesExist(bool),
    /// How many of the allowed pools there are.
    PoolsCounted(i64),
    /// How many rows recording the occurrence wrote.
    OccurrencesInserted(u64),
}

/// The state in which an evaluation is recorded.
pub open spec fn evaluation_state(evaluation: TriggerEvaluation) -> &'static str {
    match evaluation {
        TriggerEvaluation::Accepted => "accepted",
        TriggerEvaluation::Suppressed => "suppressed",
    }
}

/// The step that follows on what a step found. Only an acceptance needs the allowed pools.
pub open spec fn step_after(
    evaluation: TriggerEvaluation,
    digest: Seq<u8>,
    pool_length: nat,
    step: EvaluationStep,
    event: EvaluationEvent,
) -> Result<EvaluationStep, StoreError> {
    match (step, event) {
        (EvaluationStep::Begin, EvaluationEvent::Started(start)) => match start {
            MutationStart::Fresh => Ok(EvaluationStep::FindOccurrence),
            MutationStart::Replay => Ok(EvaluationStep::Replay),
        },
        (EvaluationStep::FindOccurrence, EvaluationEvent::Found(existing)) => match existing {
            None => Ok(EvaluationStep::CheckReferences),
            Some(existing) => match repetition(existing, digest, evaluation_state(evaluation)@) {
                Ok(()) => Ok(EvaluationStep::Repeat),
                Err(error) => Err(error),
            },
        },
        (EvaluationStep::CheckReferences, EvaluationEvent::ReferencesExist(exist)) => if !exist {
            Err(StoreError::NotFound { entity: EntityKind::Trigger })
        } else if evaluation == TriggerEvaluation::Accepted {
            Ok(EvaluationStep::CountPools)
        } else {
            Ok(EvaluationStep::RecordOccurrence)
        },
        (EvaluationStep::CountPools, EvaluationEvent::PoolsCounted(count)) => if counts(count, pool_length) {
            Ok(EvaluationStep::RecordOccurrence)
        } else {
            Err(StoreError::NotFound { entity: EntityKind::Pool })
        },
        (EvaluationStep::RecordOccurrence, EvaluationEvent::OccurrencesInserted(rows)) => if rows == 1 {
            Ok(EvaluationStep::Write)
        } else {
            Err(StoreError::Conflict { entity: EntityKind::Trigger })
        },
        _ => Err(StoreError::Unavailable),
    }
}

/// Decides what an evaluation does next. `digest` is that of the request, and `pools` are the allowed pools.
pub fn next_step(
    evaluation: TriggerEvaluation,
    digest: &[u8],
    pools: &Vec<u128>,
    step: EvaluationStep,
    event: &EvaluationEvent,
) -> (result: Result<EvaluationStep, StoreError>)
    ensures
        result == step_after(evaluation, digest@, pools@.len(), step, *event),
{
    match (step, event) {
        (EvaluationStep::Begin, EvaluationEvent::Started(start)) => match start {
            MutationStart::Fresh => Ok(EvaluationStep::FindOccurrence),
            MutationStart::Replay => Ok(EvaluationStep::Replay),
        },
        (EvaluationStep::FindOccurrence, EvaluationEvent::Found(existing)) => match existing {
            None => Ok(EvaluationStep::CheckReferences),
            Some(existing) => {
                let state = match evaluation {
                    TriggerEvaluation::Accepted => "accepted",
                    TriggerEvaluation::Suppressed => "suppressed",
                };
                repeat_evaluation(existing, digest, state)?;
                Ok(EvaluationStep::Repeat)
            },
        },
        (EvaluationStep::CheckReferences, EvaluationEvent::ReferencesExist(exist)) => {
            require_trigger_reference(*exist)?;
            if evaluation == TriggerEvaluation::Accepted {
                Ok(EvaluationStep::CountPools)
            } else {
                Ok(EvaluationStep::RecordOccurrence)
            }
        },
        (EvaluationStep::CountPools, EvaluationEvent::PoolsCounted(count)) => {
            require_references(true, pools, *count)?;
            Ok(EvaluationStep::RecordOccurrence)
        },
        (EvaluationStep::RecordOccurrence, EvaluationEvent::OccurrencesInserted(rows)) => {
            insert_occurrence(*rows)?;
            Ok(EvaluationStep::Write)
        },
        _ => Err(StoreError::Unavailable),
    }
}

/// The step that an evaluation is at after what its steps found.
pub open spec fn reached(
    evaluation: TriggerEvaluation,
    digest: Seq<u8>,
    pool_length: nat,
    events: Seq<EvaluationEvent>,
) -> Result<EvaluationStep, StoreError>
    decreases events.len(),
{
    if events.len() == 0 {
        Ok(EvaluationStep::Begin)
    } else {
        match reached(evaluation, digest, pool_length, events.drop_last()) {
            Err(error) => Err(error),
            Ok(step) => step_after(evaluation, digest, pool_length, step, events.last()),
        }
    }
}

/// A build is written only where the request is new, the occurrence was not evaluated before, everything it
/// refers to is there, and the occurrence is on record.
pub proof fn acceptances_are_checked_before_they_are_written(
    digest: Seq<u8>,
    pool_length: nat,
    events: Seq<EvaluationEvent>,
)
    requires
        reached(TriggerEvaluation::Accepted, digest, pool_length, events) == Ok::<EvaluationStep, StoreError>(
            EvaluationStep::Write,
        ),
    ensures
        events.len() == 5,
        events[0] == EvaluationEvent::Started(MutationStart::Fresh),
        events[1] == EvaluationEvent::Found(None),
        events[2] == EvaluationEvent::ReferencesExist(true),
        events[3] matches EvaluationEvent::PoolsCounted(count) && count == pool_length,
        events[4] == EvaluationEvent::OccurrencesInserted(1),
{
    reveal_with_fuel(reached, 7);
    let fourth = events.drop_last();
    let third = fourth.drop_last();
    let second = third.drop_last();
    let first = second.drop_last();
    assert(reached(TriggerEvaluation::Accepted, digest, pool_length, fourth) == Ok::<EvaluationStep, StoreError>(
        EvaluationStep::RecordOccurrence,
    ));
    assert(reached(TriggerEvaluation::Accepted, digest, pool_length, third) == Ok::<EvaluationStep, StoreError>(
        EvaluationStep::CountPools,
    ));
    assert(reached(TriggerEvaluation::Accepted, digest, pool_length, second) == Ok::<EvaluationStep, StoreError>(
        EvaluationStep::CheckReferences,
    ));
    assert(reached(TriggerEvaluation::Accepted, digest, pool_length, first) == Ok::<EvaluationStep, StoreError>(
        EvaluationStep::FindOccurrence,
    ));
    assert(reached(TriggerEvaluation::Accepted, digest, pool_length, first.drop_last()) == Ok::<
        EvaluationStep,
        StoreError,
    >(EvaluationStep::Begin));
}

/// What accepting an occurrence did.
pub struct AcceptTriggerOutcome {
    /// Whether this call changed anything.
    pub disposition: MutationDisposition,
    /// The occurrence.
    pub trigger_occurrence_id: u128,
    /// The build it became.
    pub build_id: u128,
    /// The first attempt of the build.
    pub attempt_id: u128,
    /// Jobs that are ready from the start.
    pub ready_jobs: Vec<u128>,
}

/// Reports an acceptance that was carried out: the jobs that wait for nothing are ready.
pub fn outcome(trigger_occurrence_id: u128, build_id: u128, attempt_id: u128, jobs: &Vec<MaterializedJob>) -> (outcome:
    AcceptTriggerOutcome)
    ensures
        outcome.disposition == MutationDisposition::Applied,
        outcome.trigger_occurrence_id == trigger_occurrence_id,
        outcome.build_id == build_id,
        outcome.attempt_id == attempt_id,
        outcome.ready_jobs@ == roots_of(jobs@),
{
    AcceptTriggerOutcome {
        disposition: MutationDisposition::Applied,
        trigger_occurrence_id,
        build_id,
        attempt_id,
        ready_jobs: roots(jobs),
    }
}

/// Repeats a stored acceptance.
pub fn replay_accepted(stored: AcceptTriggerOutcome) -> (outcome: AcceptTriggerOutcome)
    ensures
        outcome == (AcceptTriggerOutcome { disposition: MutationDisposition::Replayed, ..stored }),
{
    AcceptTriggerOutcome {
        disposition: MutationDisposition::Replayed,
        trigger_occurrence_id: stored.trigger_occurrence_id,
        build_id: stored.build_id,
        attempt_id: stored.attempt_id,
        ready_jobs: stored.ready_jobs,
    }
}

/// What suppressing an occurrence did.
#[derive(Clone, Copy, Debug, PartialEq, Eq, Structural)]
pub struct SuppressTriggerOutcome {
    /// Whether this call changed anything.
    pub disposition: MutationDisposition,
    /// The occurrence.
    pub trigger_occurrence_id: u128,
}

/// Repeats a stored suppression.
pub fn replay_suppressed(stored: SuppressTriggerOutcome) -> (outcome: SuppressTriggerOutcome)
    ensures
        outcome == (SuppressTriggerOutcome { disposition: MutationDisposition::Replayed, ..stored }),
{
    SuppressTriggerOutcome {
        disposition: MutationDisposition::Replayed,
        trigger_occurrence_id: stored.trigger_occurrence_id,
    }
}

/// Who is audited for an occurrence: a manual one comes from unauthenticated management, any other
/// from its trigger.
pub fn trigger_actor(trigger: &NormalizedTriggerOccurrence) -> (actor: (&'static str, Option<String>))
    ensures
        if trigger.cause is Manual {
            actor.0@ == "unauthenticated_management"@ && actor.1 is None
        } else {
            actor.0@ == "trigger"@ && actor.1 is Some && actor.1->Some_0@ == hyphenated(trigger.trigger.id)
        },
{
    match trigger.cause {
        TriggerCause::Manual {  } => ("unauthenticated_management", None),
        _ => ("trigger", Some(identity_text(trigger.trigger.id))),
    }
}

/// Whether facts name the actor of an occurrence.
pub open spec fn is_actor_of(facts: MutationFacts, trigger: NormalizedTriggerOccurrence) -> bool {
    if trigger.cause is Manual {
        facts.actor_kind@ == "unauthenticated_management"@ && facts.actor_identity is None
    } else {
        facts.actor_kind@ == "trigger"@ && facts.actor_identity is Some && facts.actor_identity->Some_0@ == hyphenated(
            trigger.trigger.id,
        )
    }
}

/// What the audit trail and the outbox are told of an acceptance.
pub fn accepted_facts(trigger: &NormalizedTriggerOccurrence, outcome: &AcceptTriggerOutcome) -> (facts: MutationFacts)
    ensures
        is_actor_of(facts, *trigger),
        facts.target_identity@ == hyphenated(outcome.build_id),
        facts.safe_metadata@ == seq![
            (Member { name: "attempt_id", value: FactValue::Identity(outcome.attempt_id) }),
            (Member { name: "ready_job_count", value: FactValue::Number(outcome.ready_jobs@.len() as u64) }),
            (Member {
                name: "trigger_occurrence_id",
                value: FactValue::Identity(outcome.trigger_occurrence_id),
            }),
        ],
        facts.outbox_payload@ == seq![
            (Member { name: "attempt_id", value: FactValue::Identity(outcome.attempt_id) }),
            (Member { name: "build_id", value: FactValue::Identity(outcome.build_id) }),
            (Member { name: "schema_version", value: FactValue::Number(1) }),
            (Member {
                name: "trigger_occurrence_id",
                value: FactValue::Identity(outcome.trigger_occurrence_id),
            }),
        ],
{
    let (actor_kind, actor_identity) = trigger_actor(trigger);
    MutationFacts {
        actor_kind,
        actor_identity,
        target_identity: identity_text(outcome.build_id),
        safe_metadata: vec![
            Member { name: "attempt_id", value: FactValue::Identity(outcome.attempt_id) },
            Member { name: "ready_job_count", value: FactValue::Number(outcome.ready_jobs.len() as u64) },
            Member {
                name: "trigger_occurrence_id",
                value: FactValue::Identity(outcome.trigger_occurrence_id),
            },
        ],
        outbox_payload: vec![
            Member { name: "attempt_id", value: FactValue::Identity(outcome.attempt_id) },
            Member { name: "build_id", value: FactValue::Identity(outcome.build_id) },
            Member { name: "schema_version", value: FactValue::Number(1) },
            Member {
                name: "trigger_occurrence_id",
                value: FactValue::Identity(outcome.trigger_occurrence_id),
            },
        ],
    }
}

/// What the audit trail and the outbox are told of a suppression.
pub fn suppressed_facts(trigger: &NormalizedTriggerOccurrence, occurrence_id: u128) -> (facts: MutationFacts)
    ensures
        is_actor_of(facts, *trigger),
        facts.target_identity@ == hyphenated(occurrence_id),
        facts.safe_metadata@ == seq![
            (Member { name: "reason", value: FactValue::Word("configuration_disabled") }),
            (Member { name: "trigger_occurrence_id", value: FactValue::Identity(occurrence_id) }),
        ],
        facts.outbox_payload@ == seq![
            (Member { name: "reason", value: FactValue::Word("configuration_disabled") }),
            (Member { name: "schema_version", value: FactValue::Number(1) }),
            (Member { name: "trigger_occurrence_id", value: FactValue::Identity(occurrence_id) }),
        ],
{
    let (actor_kind, actor_identity) = trigger_actor(trigger);
    MutationFacts {
        actor_kind,
        actor_identity,
        target_identity: identity_text(occurrence_id),
        safe_metadata: vec![
            Member { name: "reason", value: FactValue::Word("configuration_disabled") },
            Member { name: "trigger_occurrence_id", value: FactValue::Identity(occurrence_id) },
        ],
        outbox_payload: vec![
            Member { name: "reason", value: FactValue::Word("configuration_disabled") },
            Member { name: "schema_version", value: FactValue::Number(1) },
            Member { name: "trigger_occurrence_id", value: FactValue::Identity(occurrence_id) },
        ],
    }
}

/// A fresh occurrence that nobody evaluated, of a trigger that exists and for pools that all exist, becomes a build:
/// each of the steps on the way is taken, and none is refused.
pub proof fn fresh_occurrences_are_accepted(digest: Seq<u8>, pool_length: nat, count: i64)
    requires
        count == pool_length,
    ensures
        step_after(
            TriggerEvaluation::Accepted,
            digest,
            pool_length,
            EvaluationStep::Begin,
            EvaluationEvent::Started(MutationStart::Fresh),
        ) == Ok::<EvaluationStep, StoreError>(EvaluationStep::FindOccurrence),
        step_after(
            TriggerEvaluation::Accepted,
            digest,
            pool_length,
            EvaluationStep::FindOccurrence,
            EvaluationEvent::Found(None),
        ) == Ok::<EvaluationStep, StoreError>(EvaluationStep::CheckReferences),
        step_after(
            TriggerEvaluation::Accepted,
            digest,
            pool_length,
            EvaluationStep::CheckReferences,
            EvaluationEvent::ReferencesExist(true),
        ) == Ok::<EvaluationStep, StoreError>(EvaluationStep::CountPools),
        step_after(
            TriggerEvaluation::Accepted,
            digest,
            pool_length,
            EvaluationStep::CountPools,
            EvaluationEvent::PoolsCounted(count),
        ) == Ok::<EvaluationStep, StoreError>(EvaluationStep::RecordOccurrence),
        step_after(
            TriggerEvaluation::Accepted,
            digest,
            pool_length,
            EvaluationStep::RecordOccurrence,
            EvaluationEvent::OccurrencesInserted(1),
        ) == Ok::<EvaluationStep, StoreError>(EvaluationStep::Write),
{
}

/// A fresh occurrence that is passed over is recorded without a look at any pool.
pub proof fn fresh_occurrences_are_suppressed(digest: Seq<u8>, pool_length: nat)
    ensures
        step_after(
            TriggerEvaluation::Suppressed,
            digest,
            pool_length,
            EvaluationStep::Begin,
            EvaluationEvent::Started(MutationStart::Fresh),
        ) == Ok::<EvaluationStep, StoreError>(EvaluationStep::FindOccurrence),
        step_after(
            TriggerEvaluation::Suppressed,
            digest,
            pool_length,
            EvaluationStep::FindOccurrence,
            EvaluationEvent::Found(None),
        ) == Ok::<EvaluationStep, StoreError>(EvaluationStep::CheckReferences),
        step_after(
            TriggerEvaluation::Suppressed,
            digest,
            pool_length,
            EvaluationStep::CheckReferences,
            EvaluationEvent::ReferencesExist(true),
        ) == Ok::<EvaluationStep, StoreError>(EvaluationStep::RecordOccurrence),
        step_after(
            TriggerEvaluation::Suppressed,
            digest,
            pool_length,
            EvaluationStep::RecordOccurrence,
            EvaluationEvent::OccurrencesInserted(1),
        ) == Ok::<EvaluationStep, StoreError>(EvaluationStep::Write),
{
}

/// What stops an evaluation: a trigger that does not exist, a pool that does not, and an occurrence that was
/// recorded in the meantime. A request that was carried out before is replayed without any of that.
pub proof fn evaluations_stop_where_something_is_missing(
    evaluation: TriggerEvaluation,
    digest: Seq<u8>,
    pool_length: nat,
    count: i64,
    rows: u64,
)
    ensures
        step_after(
            evaluation,
            digest,
            pool_length,
            EvaluationStep::CheckReferences,
            EvaluationEvent::ReferencesExist(false),
        ) == Err::<EvaluationStep, StoreError>(StoreError::NotFound { entity: EntityKind::Trigger }),
        count != pool_length ==> step_after(
            evaluation,
            digest,
            pool_length,
            EvaluationStep::CountPools,
            EvaluationEvent::PoolsCounted(count),
        ) == Err::<EvaluationStep, StoreError>(StoreError::NotFound { entity: EntityKind::Pool }),
        rows != 1 ==> step_after(
            evaluation,
            digest,
            pool_length,
            EvaluationStep::RecordOccurrence,
            EvaluationEvent::OccurrencesInserted(rows),
        ) == Err::<EvaluationStep, StoreError>(StoreError::Conflict { entity: EntityKind::Trigger }),
        step_after(
            evaluation,
            digest,
            pool_length,
            EvaluationStep::Begin,
            EvaluationEvent::Started(MutationStart::Replay),
        ) == Ok::<EvaluationStep, StoreError>(EvaluationStep::Replay),
{
}

/// An occurrence on record is the one that is evaluated again exactly where the request is the same and came to the
/// same end; it is then repeated, and otherwise a conflict.
pub proof fn occurrences_are_evaluated_once(
    evaluation: TriggerEvaluation,
    existing: ExistingEvaluation,
    digest: Seq<u8>,
    pool_length: nat,
)
    requires
        existing.occurrence_id != 0,
        existing.stored_occurrence == Ok::<u128, StoreError>(existing.occurrence_id),
    ensures
        ({
            let ended = match evaluation {
                TriggerEvaluation::Accepted => existing.state@ == "accepted"@,
                TriggerEvaluation::Suppressed => existing.state@ == "suppressed"@,
            };
            step_after(
                evaluation,
                digest,
                pool_length,
                EvaluationStep::FindOccurrence,
                EvaluationEvent::Found(Some(existing)),
            ) == (if existing.digest@ == digest && ended {
                Ok::<EvaluationStep, StoreError>(EvaluationStep::Repeat)
            } else {
                Err(StoreError::Conflict { entity: EntityKind::Trigger })
            })
        }),
{
}

/// What is known of an occurrence before it is evaluated: nothing where it is not on record, how it ended where the
/// request is the same, and a conflict where it is not.
pub proof fn known_occurrences_say_how_they_ended(existing: ExistingEvaluation, intent_digest: Seq<u8>)
    requires
        existing.occurrence_id != 0,
        existing.stored_occurrence == Ok::<u128, StoreError>(existing.occurrence_id),
    ensures
        probed(None, intent_digest) == Ok::<Option<TriggerEvaluation>, StoreError>(None),
        existing.digest@ != intent_digest ==> probed(Some(existing), intent_digest) == Err::<
            Option<TriggerEvaluation>,
            StoreError,
        >(StoreError::Conflict { entity: EntityKind::Trigger }),
        existing.digest@ == intent_digest && existing.state@ == "accepted"@ ==> probed(Some(existing), intent_digest)
            == Ok::<Option<TriggerEvaluation>, StoreError>(Some(TriggerEvaluation::Accepted)),
        existing.digest@ == intent_digest && existing.state@ == "suppressed"@ ==> probed(Some(existing), intent_digest)
            == Ok::<Option<TriggerEvaluation>, StoreError>(Some(TriggerEvaluation::Suppressed)),
{
    reveal_strlit("accepted");
    reveal_strlit("suppressed");
    assert("accepted"@.len() == 8);
    assert("suppressed"@.len() == 10);
}

/// The pools of a build are those that some job of it may run in.
pub proof fn pools_are_those_of_the_jobs(jobs: Seq<MaterializedJob>, at: int, pool_id: u128)
    ensures
        0 <= at < jobs.len() && jobs[at].allowed_pools@.contains(pool_id) ==> is_allowed_pool(jobs, pool_id),
        is_allowed_pool(jobs, pool_id) ==> exists|i: int|
            0 <= i < jobs.len() && (#[trigger] jobs[i]).allowed_pools@.contains(pool_id),
{
}

/// An evaluation is accounted to the trigger, and to the management where somebody started it by hand.
pub proof fn evaluations_are_accounted_to_their_cause(facts: MutationFacts, trigger: NormalizedTriggerOccurrence)
    requires
        is_actor_of(facts, trigger),
    ensures
        trigger.cause is Manual ==> facts.actor_kind@ == "unauthenticated_management"@ && facts.actor_identity is None,
        !(trigger.cause is Manual) ==> facts.actor_kind@ == "trigger"@ && facts.actor_identity is Some
            && facts.actor_identity->Some_0@ == hyphenated(trigger.trigger.id),
{
}

/// An answer counts only for the question it was given to: any other is refused.
pub proof fn answers_count_for_their_question(
    evaluation: TriggerEvaluation,
    digest: Seq<u8>,
    pool_length: nat,
    step: EvaluationStep,
    event: EvaluationEvent,
)
    ensures
        step_after(evaluation, digest, pool_length, step, event) is Ok ==> {
            ||| step == EvaluationStep::Begin && event is Started
            ||| step == EvaluationStep::FindOccurrence && event is Found
            ||| step == EvaluationStep::CheckReferences && event is ReferencesExist
            ||| step == EvaluationStep::CountPools && event is PoolsCounted
            ||| step == EvaluationStep::RecordOccurrence && event is OccurrencesInserted
        },
{
}

/// What was stored of an evaluation and cannot be read is reported as unavailable: an occurrence without an identity,
/// one that is not the occurrence it is stored for, or a state that no evaluation ends in.
pub proof fn damaged_evaluations_are_unavailable(existing: ExistingEvaluation, stored: u128)
    ensures
        existing.occurrence_id == 0 ==> repetition(existing, existing.digest@, existing.state@) == Err::<(), StoreError>(
            StoreError::Unavailable,
        ) && probed(Some(existing), existing.digest@) == Err::<Option<TriggerEvaluation>, StoreError>(
            StoreError::Unavailable,
        ),
        existing.occurrence_id != 0 && existing.stored_occurrence == Ok::<u128, StoreError>(stored) && stored
            != existing.occurrence_id ==> repetition(existing, existing.digest@, existing.state@) == Err::<(), StoreError>(
            StoreError::Unavailable,
        ) && probed(Some(existing), existing.digest@) == Err::<Option<TriggerEvaluation>, StoreError>(
            StoreError::Unavailable,
        ),
        existing.state@ != "accepted"@ && existing.state@ != "suppressed"@ ==> probed(Some(existing), existing.digest@)
            == Err::<Option<TriggerEvaluation>, StoreError>(StoreError::Unavailable),
{
}

/// An answer that was not asked for ends the evaluation.
pub proof fn unasked_answers_end_the_evaluation(
    evaluation: TriggerEvaluation,
    digest: Seq<u8>,
    pool_length: nat,
    step: EvaluationStep,
    event: EvaluationEvent,
)
    requires
        !(step is Begin && event is Started),
        !(step is FindOccurrence && event is Found),
        !(step is CheckReferences && event is ReferencesExist),
        !(step is CountPools && event is PoolsCounted),
        !(step is RecordOccurrence && event is OccurrencesInserted),
    ensures
        step_after(evaluation, digest, pool_length, step, event) == Err::<EvaluationStep, StoreError>(
            StoreError::Unavailable,
        ),
{
}

} // verus!
