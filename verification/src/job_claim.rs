//! Claiming a ready job for an agent.

use vstd::prelude::*;

use crate::database::{fits_column, number, out_of_range};
use crate::domain::{
    identity, is_identity, is_version, version, StoreError, StoreInputError, StoreOperation,
};
use crate::identity_text::{hyphenated, identity_text};
use crate::mutation::{FactValue, Member, MutationFacts};

verus! {

/// Number of candidates looked at per page.
pub const PAGE_SIZE: usize = 64;

/// A request for a job.
pub struct JobClaim {
    /// Lease to hold the job under.
    pub lease_id: u128,
    /// Secret of that lease.
    pub fence: Vec<u8>,
    /// The agent.
    pub agent_id: u128,
    /// Epoch of its registration.
    pub registration_epoch: u64,
    /// The pool the agent works for.
    pub pool_id: u128,
    /// When it asked.
    pub claimed_at: i64,
    /// Deadline of the lease.
    pub expires_at: i64,
}

/// How a claim starts.
#[derive(Clone, Copy, Debug, PartialEq, Eq, Structural)]
pub enum ClaimStart {
    /// No registration of the agent may take a job now.
    Empty,
    /// Look for a job; this is the registration's epoch as the database holds it.
    Search { epoch: i64 },
}

/// What a claim comes to before the queue is looked at.
pub open spec fn claim_start(
    registration_epoch: u64,
    registered: bool,
    snapshot_is_valid: bool,
    has_active_job: bool,
) -> Result<ClaimStart, StoreError> {
    if !fits_column(registration_epoch) {
        Err(out_of_range(StoreOperation::ClaimReadyJob))
    } else if !registered {
        Ok(ClaimStart::Empty)
    } else if !snapshot_is_valid || has_active_job {
        Err(
            StoreError::InvalidInput {
                operation: StoreOperation::ClaimReadyJob,
                source: StoreInputError::InvalidAgentInventory,
            },
        )
    } else {
        Ok(ClaimStart::Search { epoch: registration_epoch as i64 })
    }
}

/// Decides whether an agent may look for a job: it must be registered and eligible, its snapshot must
/// fit its capacity, and it must not be running a job already.
/// `validated` is the verdict on the request by itself.
pub fn start(
    validated: Result<(), StoreError>,
    request: &JobClaim,
    registered: bool,
    snapshot_is_valid: bool,
    has_active_job: bool,
) -> (result: Result<ClaimStart, StoreError>)
    ensures
        result == (match validated {
            Err(error) => Err::<ClaimStart, StoreError>(error),
            Ok(()) => claim_start(request.registration_epoch, registered, snapshot_is_valid, has_active_job),
        }),
{
    validated?;
    let epoch: i64 = number(request.registration_epoch, StoreOperation::ClaimReadyJob)?;
    if !registered {
        return Ok(ClaimStart::Empty);
    }
    if !snapshot_is_valid || has_active_job {
        return Err(
            StoreError::InvalidInput {
                operation: StoreOperation::ClaimReadyJob,
                source: StoreInputError::InvalidAgentInventory,
            },
        );
    }
    Ok(ClaimStart::Search { epoch })
}

/// A queued job that an agent may be given.
#[derive(Clone, Copy, Debug, PartialEq, Eq, Structural)]
pub struct CandidateRow {
    /// The job.
    pub job_id: u128,
    /// Project of the job.
    pub project_id: u128,
    /// Build configuration of the job.
    pub build_configuration_id: u128,
    /// Number of jobs its project may run at once.
    pub project_concurrency_limit: i64,
    /// Number of jobs its configuration may run at once.
    pub configuration_concurrency_limit: i64,
    /// Priority; a higher one goes first.
    pub priority: i64,
    /// Load of its configuration where the pool is fair between configurations.
    pub fairness_rank: i64,
    /// Order in which it was queued.
    pub enqueue_order: i64,
    /// Number of the attempt it belongs to.
    pub attempt_number: i64,
}

/// Position in the queue after which the next page starts.
#[derive(Clone, Copy, Debug, PartialEq, Eq, Structural)]
pub struct QueueCursor {
    /// Priority of the last candidate.
    pub priority: i64,
    /// Fairness rank of the last candidate.
    pub fairness_rank: i64,
    /// Queue order of the last candidate.
    pub enqueue_order: i64,
    /// The last candidate.
    pub job_id: u128,
}

/// The position of a candidate.
pub open spec fn position_of(row: CandidateRow) -> QueueCursor {
    QueueCursor {
        priority: row.priority,
        fairness_rank: row.fairness_rank,
        enqueue_order: row.enqueue_order,
        job_id: row.job_id,
    }
}

/// Whether one position comes before another: by descending priority, then by ascending load, queue
/// order and job.
pub open spec fn precedes(a: QueueCursor, b: QueueCursor) -> bool {
    ||| b.priority < a.priority
    ||| b.priority == a.priority && b.fairness_rank > a.fairness_rank
    ||| b.priority == a.priority && b.fairness_rank == a.fairness_rank && b.enqueue_order > a.enqueue_order
    ||| b.priority == a.priority && b.fairness_rank == a.fairness_rank && b.enqueue_order == a.enqueue_order && b.job_id
        > a.job_id
}

/// What a search for a job does next.
#[derive(Clone, Copy, Debug, PartialEq, Eq, Structural)]
pub enum SearchStep {
    /// Read the page that starts after a position.
    FetchPage { after: Option<QueueCursor> },
    /// Ask whether the agent can run a candidate.
    CheckCompatibility { index: usize },
    /// Try to lock a candidate's queue entry.
    LockEntry { index: usize },
    /// Try to lock the concurrency scope of a candidate's project.
    LockProject { index: usize },
    /// Try to lock the concurrency scope of a candidate's configuration.
    LockConfiguration { index: usize },
    /// Count the leases in both scopes.
    CountLeases { index: usize },
    /// Give the agent this candidate.
    Claim { index: usize },
    /// There is no job for the agent.
    Empty,
}

/// The first step of a page.
pub open spec fn first_step(page: Seq<CandidateRow>) -> SearchStep {
    if page.len() == 0 {
        SearchStep::Empty
    } else {
        SearchStep::CheckCompatibility { index: 0 }
    }
}

/// Starts a page.
pub fn page_fetched(page: &Vec<CandidateRow>) -> (step: SearchStep)
    ensures
        step == first_step(page@),
{
    if page.len() == 0 {
        SearchStep::Empty
    } else {
        SearchStep::CheckCompatibility { index: 0 }
    }
}

/// The step after a candidate was passed over: the next candidate, the next page after a full one, or
/// the end of the search.
pub open spec fn step_after(page: Seq<CandidateRow>, index: int) -> SearchStep {
    if index + 1 < page.len() {
        SearchStep::CheckCompatibility { index: (index + 1) as usize }
    } else if page.len() < PAGE_SIZE {
        SearchStep::Empty
    } else {
        SearchStep::FetchPage { after: Some(position_of(page.last())) }
    }
}

fn pass_over(page: &Vec<CandidateRow>, index: usize) -> (step: SearchStep)
    requires
        index < page@.len(),
    ensures
        step == step_after(page@, index as int),
{
    if index < page.len() - 1 {
        return SearchStep::CheckCompatibility { index: index + 1 };
    }
    if page.len() < PAGE_SIZE {
        return SearchStep::Empty;
    }
    let last = &page[page.len() - 1];
    SearchStep::FetchPage {
        after: Some(
            QueueCursor {
                priority: last.priority,
                fairness_rank: last.fairness_rank,
                enqueue_order: last.enqueue_order,
                job_id: last.job_id,
            },
        ),
    }
}

/// The step after a yes or no to the question of `step`.
pub open spec fn answered(page: Seq<CandidateRow>, step: SearchStep, yes: bool) -> SearchStep {
    match step {
        SearchStep::CheckCompatibility { index } => if yes {
            SearchStep::LockEntry { index }
        } else {
            step_after(page, index as int)
        },
        SearchStep::LockEntry { index } => if yes {
            SearchStep::LockProject { index }
        } else {
            step_after(page, index as int)
        },
        SearchStep::LockProject { index } => if yes {
            SearchStep::LockConfiguration { index }
        } else {
            step_after(page, index as int)
        },
        SearchStep::LockConfiguration { index } => if yes {
            SearchStep::CountLeases { index }
        } else {
            step_after(page, index as int)
        },
        other => other,
    }
}

/// The candidate a step is about.
pub open spec fn index_of(step: SearchStep) -> Option<usize> {
    match step {
        SearchStep::CheckCompatibility { index } => Some(index),
        SearchStep::LockEntry { index } => Some(index),
        SearchStep::LockProject { index } => Some(index),
        SearchStep::LockConfiguration { index } => Some(index),
        SearchStep::CountLeases { index } => Some(index),
        SearchStep::Claim { index } => Some(index),
        _ => None,
    }
}

/// Goes on from a question that was answered. A candidate is tried only if the agent can run it, its
/// entry is free, and the scopes of its project and then of its configuration can be locked; a busy
/// one is passed over rather than waited for.
pub fn answer(page: &Vec<CandidateRow>, step: SearchStep, yes: bool) -> (next: SearchStep)
    requires
        index_of(step) matches Some(index) ==> index < page@.len(),
    ensures
        next == answered(page@, step, yes),
        index_of(next) matches Some(index) ==> index < page@.len(),
{
    match step {
        SearchStep::CheckCompatibility { index } => if yes {
            SearchStep::LockEntry { index }
        } else {
            pass_over(page, index)
        },
        SearchStep::LockEntry { index } => if yes {
            SearchStep::LockProject { index }
        } else {
            pass_over(page, index)
        },
        SearchStep::LockProject { index } => if yes {
            SearchStep::LockConfiguration { index }
        } else {
            pass_over(page, index)
        },
        SearchStep::LockConfiguration { index } => if yes {
            SearchStep::CountLeases { index }
        } else {
            pass_over(page, index)
        },
        other => other,
    }
}

/// Whether a limit column holds a limit: a positive number of thirty-two bits.
pub open spec fn is_limit(limit: i64) -> bool {
    0 < limit <= u32::MAX
}

/// Whether a candidate may run besides the jobs that run already.
pub open spec fn limits_verdict(candidate: CandidateRow, project_jobs: i64, configuration_jobs: i64) -> Result<
    bool,
    StoreError,
> {
    if is_limit(candidate.project_concurrency_limit) && is_limit(candidate.configuration_concurrency_limit) {
        Ok(
            project_jobs < candidate.project_concurrency_limit && configuration_jobs
                < candidate.configuration_concurrency_limit,
        )
    } else {
        Err(StoreError::Unavailable)
    }
}

/// Rechecks the lease counts of both scopes once they are locked.
pub fn within_concurrency_limits(candidate: &CandidateRow, project_jobs: i64, configuration_jobs: i64) -> (result: Result<
    bool,
    StoreError,
>)
    ensures
        result == limits_verdict(*candidate, project_jobs, configuration_jobs),
{
    match (u32::try_from(candidate.project_concurrency_limit), u32::try_from(candidate.configuration_concurrency_limit)) {
        (Ok(project_limit), Ok(configuration_limit)) => {
            if project_limit == 0 || configuration_limit == 0 {
                return Err(StoreError::Unavailable);
            }
            Ok(project_jobs < project_limit as i64 && configuration_jobs < configuration_limit as i64)
        },
        _ => Err(StoreError::Unavailable),
    }
}

/// The step after the leases of a candidate's scopes were counted.
pub open spec fn counted(page: Seq<CandidateRow>, index: int, project_jobs: i64, configuration_jobs: i64) -> Result<
    SearchStep,
    StoreError,
> {
    match limits_verdict(page[index], project_jobs, configuration_jobs) {
        Ok(true) => Ok(SearchStep::Claim { index: index as usize }),
        Ok(false) => Ok(step_after(page, index)),
        Err(error) => Err(error),
    }
}

/// Goes on once the leases of a candidate's scopes were counted.
pub fn leases_counted(
    page: &Vec<CandidateRow>,
    index: usize,
    project_jobs: i64,
    configuration_jobs: i64,
) -> (result: Result<SearchStep, StoreError>)
    requires
        index < page@.len(),
    ensures
        result == counted(page@, index as int, project_jobs, configuration_jobs),
{
    match within_concurrency_limits(&page[index], project_jobs, configuration_jobs) {
        Ok(true) => Ok(SearchStep::Claim { index }),
        Ok(false) => Ok(pass_over(page, index)),
        Err(error) => Err(error),
    }
}

/// A claimed job runs within the limits of its project and of its configuration.
pub proof fn claims_respect_limits(page: Seq<CandidateRow>, index: int, project_jobs: i64, configuration_jobs: i64)
    requires
        0 <= index < page.len() <= usize::MAX,
        counted(page, index, project_jobs, configuration_jobs) == Ok::<SearchStep, StoreError>(
            SearchStep::Claim { index: index as usize },
        ),
    ensures
        project_jobs + 1 <= page[index].project_concurrency_limit,
        configuration_jobs + 1 <= page[index].configuration_concurrency_limit,
{
}

/// A candidate is claimed only after its leases were counted, and counted only after every question
/// about it was answered with yes: no answer leads to a claim by itself, and a no never leads closer
/// to one.
pub proof fn claims_need_every_yes(page: Seq<CandidateRow>, step: SearchStep, yes: bool)
    requires
        !(step is Claim),
        index_of(step) matches Some(index) ==> index < page.len() <= usize::MAX,
    ensures
        !(answered(page, step, yes) is Claim),
        answered(page, step, yes) is CountLeases && !(step is CountLeases) ==> yes && step is LockConfiguration,
        answered(page, step, yes) is LockConfiguration && !(step is LockConfiguration) ==> yes && step is LockProject,
        answered(page, step, yes) is LockProject && !(step is LockProject) ==> yes && step is LockEntry,
        answered(page, step, yes) is LockEntry && !(step is LockEntry) ==> yes && step is CheckCompatibility,
{
}

/// How far a search has got within a page; no step goes back.
pub open spec fn progress(page: Seq<CandidateRow>, step: SearchStep) -> int {
    match step {
        SearchStep::CheckCompatibility { index } => 6 * index,
        SearchStep::LockEntry { index } => 6 * index + 1,
        SearchStep::LockProject { index } => 6 * index + 2,
        SearchStep::LockConfiguration { index } => 6 * index + 3,
        SearchStep::CountLeases { index } => 6 * index + 4,
        SearchStep::Claim { index } => 6 * index + 5,
        _ => 6 * page.len() as int,
    }
}

/// Every answer moves a search forward, so a page is finished after finitely many.
pub proof fn answers_move_forward(page: Seq<CandidateRow>, step: SearchStep, yes: bool)
    requires
        index_of(step) matches Some(index) && index < page.len() <= usize::MAX,
        !(step is CountLeases),
        !(step is Claim),
    ensures
        progress(page, step) < progress(page, answered(page, step, yes)) <= 6 * page.len(),
{
}

/// Pages do not overlap: where a page is in queue order and the next one holds only candidates past
/// its cursor, no candidate of the next page was on the page before.
pub proof fn pages_do_not_overlap(page: Seq<CandidateRow>, next: CandidateRow, index: int)
    requires
        0 <= index < page.len(),
        forall|i: int, j: int|
            0 <= i < j < page.len() ==> precedes(position_of(#[trigger] page[i]), position_of(#[trigger] page[j])),
        precedes(position_of(page.last()), position_of(next)),
    ensures
        precedes(position_of(page[index]), position_of(next)),
        position_of(page[index]) != position_of(next),
{
    if index < page.len() - 1 {
        assert(precedes(position_of(page[index]), position_of(page[page.len() - 1])));
    }
}

/// An agent looks for a job only where it is registered, its snapshot is in order and it runs no job; every such
/// agent does, under the epoch it came with. One without a registration gets no job, and no error.
pub proof fn idle_registered_agents_search(
    registration_epoch: u64,
    registered: bool,
    snapshot_is_valid: bool,
    has_active_job: bool,
)
    ensures
        forall|epoch: i64|
            claim_start(registration_epoch, registered, snapshot_is_valid, has_active_job) == Ok::<
                ClaimStart,
                StoreError,
            >(ClaimStart::Search { epoch }) <==> registered && snapshot_is_valid && !has_active_job && epoch
                == registration_epoch,
        claim_start(registration_epoch, registered, snapshot_is_valid, has_active_job) == Ok::<ClaimStart, StoreError>(
            ClaimStart::Empty,
        ) <==> !registered && registration_epoch <= i64::MAX,
        claim_start(registration_epoch, registered, snapshot_is_valid, has_active_job) == Err::<ClaimStart, StoreError>(
            StoreError::InvalidInput {
                operation: StoreOperation::ClaimReadyJob,
                source: StoreInputError::InvalidAgentInventory,
            },
        ) <==> registered && (!snapshot_is_valid || has_active_job) && registration_epoch <= i64::MAX,
        registration_epoch > i64::MAX ==> claim_start(
            registration_epoch,
            registered,
            snapshot_is_valid,
            has_active_job,
        ) == Err::<ClaimStart, StoreError>(
            StoreError::InvalidInput {
                operation: StoreOperation::ClaimReadyJob,
                source: StoreInputError::NumericOutOfRange,
            },
        ),
{
}

/// A page that holds candidates is searched from its first one; only an empty one ends the search at once.
pub proof fn pages_are_searched_from_the_start(page: Seq<CandidateRow>)
    ensures
        page.len() > 0 ==> first_step(page) == (SearchStep::CheckCompatibility { index: 0 }),
        page.len() == 0 ==> first_step(page) == SearchStep::Empty,
{
}

/// A candidate that is turned down by any question is passed over for the one behind it. A search ends without a
/// job only behind the last candidate of a page that is not full; behind a full page it goes on after that
/// candidate's place in the queue.
pub proof fn turned_down_candidates_are_passed_over(page: Seq<CandidateRow>, step: SearchStep, index: usize)
    requires
        index < page.len() <= usize::MAX,
        step == (SearchStep::CheckCompatibility { index }) || step == (SearchStep::LockEntry { index }) || step == (
        SearchStep::LockProject { index }) || step == (SearchStep::LockConfiguration { index }),
    ensures
        index + 1 < page.len() ==> answered(page, step, false) == (SearchStep::CheckCompatibility {
            index: (index + 1) as usize,
        }),
        index + 1 == page.len() && page.len() < PAGE_SIZE ==> answered(page, step, false) == SearchStep::Empty,
        index + 1 == page.len() && page.len() >= PAGE_SIZE ==> answered(page, step, false) == (SearchStep::FetchPage {
            after: Some(
                QueueCursor {
                    priority: page[index as int].priority,
                    fairness_rank: page[index as int].fairness_rank,
                    enqueue_order: page[index as int].enqueue_order,
                    job_id: page[index as int].job_id,
                },
            ),
        }),
{
}

/// A yes leads to the next question about the same candidate, in the order in which the locks are taken.
pub proof fn questions_follow_each_other(page: Seq<CandidateRow>, index: usize)
    ensures
        answered(page, SearchStep::CheckCompatibility { index }, true) == (SearchStep::LockEntry { index }),
        answered(page, SearchStep::LockEntry { index }, true) == (SearchStep::LockProject { index }),
        answered(page, SearchStep::LockProject { index }, true) == (SearchStep::LockConfiguration { index }),
        answered(page, SearchStep::LockConfiguration { index }, true) == (SearchStep::CountLeases { index }),
{
}

/// A candidate whose scopes were counted is claimed exactly where both have room for one more job; without room it
/// is passed over as any candidate that is turned down. Limits that are not positive numbers of thirty-two bits
/// stop the search.
pub proof fn candidates_with_room_are_claimed(
    page: Seq<CandidateRow>,
    index: usize,
    project_jobs: i64,
    configuration_jobs: i64,
)
    requires
        index < page.len() <= usize::MAX,
    ensures
        counted(page, index as int, project_jobs, configuration_jobs) is Ok <==> 0
            < page[index as int].project_concurrency_limit <= 0xffff_ffff && 0
            < page[index as int].configuration_concurrency_limit <= 0xffff_ffff,
        counted(page, index as int, project_jobs, configuration_jobs) is Err ==> counted(
            page,
            index as int,
            project_jobs,
            configuration_jobs,
        ) == Err::<SearchStep, StoreError>(StoreError::Unavailable),
        counted(page, index as int, project_jobs, configuration_jobs) matches Ok(step) ==> if project_jobs
            < page[index as int].project_concurrency_limit && configuration_jobs
            < page[index as int].configuration_concurrency_limit {
            step == (SearchStep::Claim { index })
        } else {
            step == answered(page, SearchStep::CheckCompatibility { index }, false)
        },
{
}

/// What a search finds out about a candidate.
pub struct CandidateVerdict {
    /// Whether the agent can run it.
    pub compatible: bool,
    /// Whether its queue entry could be locked.
    pub entry_is_free: bool,
    /// Whether the scope of its project could be locked.
    pub project_is_free: bool,
    /// Whether the scope of its configuration could be locked.
    pub configuration_is_free: bool,
    /// Jobs of its project that run.
    pub project_jobs: i64,
    /// Jobs of its configuration that run.
    pub configuration_jobs: i64,
}

/// Whether a candidate can be given to the agent, by what was found out about it.
pub open spec fn is_suitable(row: CandidateRow, verdict: CandidateVerdict) -> bool {
    &&& verdict.compatible && verdict.entry_is_free && verdict.project_is_free && verdict.configuration_is_free
    &&& verdict.project_jobs < row.project_concurrency_limit
    &&& verdict.configuration_jobs < row.configuration_concurrency_limit
}

/// Where the search of a page ends that goes on from a step, where `verdicts` says what is found out about each
/// candidate.
pub open spec fn searched(page: Seq<CandidateRow>, verdicts: Seq<CandidateVerdict>, step: SearchStep) -> Result<
    SearchStep,
    StoreError,
>
    decreases 6 * page.len() - progress(page, step),
    when page.len() <= usize::MAX && verdicts.len() == page.len() && (index_of(step) matches Some(index) ==> index
        < page.len())
    via searches_end
{
    match step {
        SearchStep::CheckCompatibility { index } => searched(
            page,
            verdicts,
            answered(page, step, verdicts[index as int].compatible),
        ),
        SearchStep::LockEntry { index } => searched(
            page,
            verdicts,
            answered(page, step, verdicts[index as int].entry_is_free),
        ),
        SearchStep::LockProject { index } => searched(
            page,
            verdicts,
            answered(page, step, verdicts[index as int].project_is_free),
        ),
        SearchStep::LockConfiguration { index } => searched(
            page,
            verdicts,
            answered(page, step, verdicts[index as int].configuration_is_free),
        ),
        SearchStep::CountLeases { index } => match counted(
            page,
            index as int,
            verdicts[index as int].project_jobs,
            verdicts[index as int].configuration_jobs,
        ) {
            Ok(next) => searched(page, verdicts, next),
            Err(error) => Err(error),
        },
        end => Ok(end),
    }
}

#[via_fn]
proof fn searches_end(page: Seq<CandidateRow>, verdicts: Seq<CandidateVerdict>, step: SearchStep) {
}

/// The search of a page claims the first candidate that is suitable, in queue order, and none where no candidate
/// is: then it has ended, or goes on behind a full page.
pub proof fn the_first_suitable_candidate_is_claimed(
    page: Seq<CandidateRow>,
    verdicts: Seq<CandidateVerdict>,
    chosen: int,
)
    requires
        page.len() <= usize::MAX,
        verdicts.len() == page.len(),
        forall|i: int|
            0 <= i < page.len() ==> 0 < (#[trigger] page[i]).project_concurrency_limit <= 0xffff_ffff && 0
                < page[i].configuration_concurrency_limit <= 0xffff_ffff,
        0 <= chosen <= page.len(),
        forall|i: int| 0 <= i < chosen ==> !is_suitable(#[trigger] page[i], verdicts[i]),
        chosen < page.len() ==> is_suitable(page[chosen], verdicts[chosen]),
    ensures
        chosen < page.len() ==> searched(page, verdicts, first_step(page)) == Ok::<SearchStep, StoreError>(
            SearchStep::Claim { index: chosen as usize },
        ),
        chosen == page.len() && page.len() < PAGE_SIZE ==> searched(page, verdicts, first_step(page)) == Ok::<
            SearchStep,
            StoreError,
        >(SearchStep::Empty),
        chosen == page.len() && page.len() >= PAGE_SIZE ==> searched(page, verdicts, first_step(page)) == Ok::<
            SearchStep,
            StoreError,
        >(
            SearchStep::FetchPage {
                after: Some(
                    QueueCursor {
                        priority: page.last().priority,
                        fairness_rank: page.last().fairness_rank,
                        enqueue_order: page.last().enqueue_order,
                        job_id: page.last().job_id,
                    },
                ),
            },
        ),
{
    if page.len() > 0 {
        search_from(page, verdicts, chosen, 0);
    }
}

proof fn search_from(page: Seq<CandidateRow>, verdicts: Seq<CandidateVerdict>, chosen: int, from: int)
    requires
        page.len() <= usize::MAX,
        verdicts.len() == page.len(),
        forall|i: int|
            0 <= i < page.len() ==> 0 < (#[trigger] page[i]).project_concurrency_limit <= 0xffff_ffff && 0
                < page[i].configuration_concurrency_limit <= 0xffff_ffff,
        0 <= from <= chosen <= page.len(),
        from < page.len(),
        forall|i: int| 0 <= i < chosen ==> !is_suitable(#[trigger] page[i], verdicts[i]),
        chosen < page.len() ==> is_suitable(page[chosen], verdicts[chosen]),
    ensures
        searched(page, verdicts, SearchStep::CheckCompatibility { index: from as usize }) == Ok::<SearchStep, StoreError>(
            if chosen < page.len() {
                SearchStep::Claim { index: chosen as usize }
            } else {
                step_after(page, page.len() - 1)
            },
        ),
    decreases page.len() - from,
{
    reveal_with_fuel(searched, 7);
    assert(0 < page[from].project_concurrency_limit);
    if from < chosen {
        assert(!is_suitable(page[from], verdicts[from]));
        if from + 1 < page.len() {
            search_from(page, verdicts, chosen, from + 1);
        }
    }
}

/// Name of the lock that serialises claims of a pool.
pub fn pool_lock(pool_id: u128) -> (name: String)
    ensures
        name@ == "octacity.agent-pool."@ + hyphenated(pool_id),
{
    let mut name: String = "octacity.agent-pool.".to_owned();
    let id = identity_text(pool_id);
    name.append(id.as_str());
    name
}

/// Names of the locks of a candidate's concurrency scopes, in the order in which they are taken.
pub fn concurrency_locks(project_id: u128, configuration_id: u128) -> (names: (String, String))
    ensures
        names.0@ == "octacity.project-concurrency."@ + hyphenated(project_id),
        names.1@ == "octacity.configuration-concurrency."@ + hyphenated(configuration_id),
{
    let mut project: String = "octacity.project-concurrency.".to_owned();
    let id = identity_text(project_id);
    project.append(id.as_str());
    let mut configuration: String = "octacity.configuration-concurrency.".to_owned();
    let id = identity_text(configuration_id);
    configuration.append(id.as_str());
    (project, configuration)
}

/// A job handed to an agent. The signed job specification is carried as it was stored.
pub struct LeaseGrant {
    /// The lease.
    pub lease_id: u128,
    /// Its secret.
    pub fence: Vec<u8>,
    /// The job.
    pub job_id: u128,
    /// Number of the attempt.
    pub attempt: u64,
    /// The agent.
    pub agent_id: u128,
    /// Epoch of its registration.
    pub registration_epoch: u64,
    /// The pool.
    pub pool_id: u128,
    /// When it was claimed.
    pub claimed_at: i64,
    /// Deadline of the lease.
    pub expires_at: i64,
    /// The signed job specification.
    pub signed_job_spec: String,
}

/// Whether a grant hands a job to the agent that asked for it.
pub open spec fn is_grant(grant: LeaseGrant, request: JobClaim, job_id: u128, attempt: u64, spec_text: Seq<char>) -> bool {
    &&& grant.lease_id == request.lease_id
    &&& grant.fence@ == request.fence@
    &&& grant.job_id == job_id
    &&& grant.attempt == attempt
    &&& grant.agent_id == request.agent_id
    &&& grant.registration_epoch == request.registration_epoch
    &&& grant.pool_id == request.pool_id
    &&& grant.signed_job_spec@ == spec_text
}

/// Grants a claimed candidate; one whose identities cannot be read grants nothing.
pub fn grant(request: JobClaim, candidate: &CandidateRow, signed_job_spec: String) -> (result: Result<
    LeaseGrant,
    StoreError,
>)
    ensures
        match result {
            Ok(grant) => {
                &&& is_identity(candidate.job_id) && is_version(candidate.attempt_number)
                &&& is_grant(grant, request, candidate.job_id, candidate.attempt_number as u64, signed_job_spec@)
                &&& grant.claimed_at == request.claimed_at
                &&& grant.expires_at == request.expires_at
            },
            Err(error) => error == StoreError::Unavailable && !(is_identity(candidate.job_id) && is_version(
                candidate.attempt_number,
            )),
        },
{
    let job_id: u128 = identity(candidate.job_id)?;
    let attempt: u64 = version(candidate.attempt_number)?;
    let claimed_at: i64 = request.claimed_at;
    let expires_at: i64 = request.expires_at;
    Ok(granted(request, StoredOutcome { job_id, attempt, signed_job_spec, claimed_at, expires_at }))
}

/// A grant hands the job to the agent that asked for it: under the lease and the secret it named, for its
/// registration and its pool.
pub proof fn grants_go_to_who_asked(grant: LeaseGrant, request: JobClaim, job_id: u128, attempt: u64, text: Seq<char>)
    requires
        is_grant(grant, request, job_id, attempt, text),
    ensures
        grant.lease_id == request.lease_id && grant.fence@ == request.fence@,
        grant.agent_id == request.agent_id && grant.registration_epoch == request.registration_epoch,
        grant.pool_id == request.pool_id,
        grant.job_id == job_id && grant.attempt == attempt && grant.signed_job_spec@ == text,
{
}

/// A grant as it is kept for replay.
pub struct StoredOutcome {
    /// The job.
    pub job_id: u128,
    /// Number of the attempt.
    pub attempt: u64,
    /// The signed job specification.
    pub signed_job_spec: String,
    /// When it was claimed.
    pub claimed_at: i64,
    /// Deadline of the lease.
    pub expires_at: i64,
}

/// Repeats a stored grant: the job, the specification and the times are those of the first claim.
pub fn replay(request: JobClaim, stored: StoredOutcome) -> (grant: LeaseGrant)
    ensures
        is_grant(grant, request, stored.job_id, stored.attempt, stored.signed_job_spec@),
        grant.claimed_at == stored.claimed_at,
        grant.expires_at == stored.expires_at,
{
    granted(request, stored)
}

fn granted(request: JobClaim, stored: StoredOutcome) -> (grant: LeaseGrant)
    ensures
        is_grant(grant, request, stored.job_id, stored.attempt, stored.signed_job_spec@),
        grant.claimed_at == stored.claimed_at,
        grant.expires_at == stored.expires_at,
{
    LeaseGrant {
        lease_id: request.lease_id,
        fence: request.fence,
        job_id: stored.job_id,
        attempt: stored.attempt,
        agent_id: request.agent_id,
        registration_epoch: request.registration_epoch,
        pool_id: request.pool_id,
        claimed_at: stored.claimed_at,
        expires_at: stored.expires_at,
        signed_job_spec: stored.signed_job_spec,
    }
}

/// What the audit trail and the outbox are told of a claim.
pub fn facts(grant: &LeaseGrant) -> (facts: MutationFacts)
    ensures
        facts.actor_kind@ == "agent"@,
        facts.actor_identity matches Some(actor) && actor@ == hyphenated(grant.agent_id),
        facts.target_identity@ == hyphenated(grant.job_id),
        facts.safe_metadata@ == seq![
            (Member { name: "lease_id", value: FactValue::Identity(grant.lease_id) }),
            (Member { name: "pool_id", value: FactValue::Identity(grant.pool_id) }),
            (Member { name: "registration_epoch", value: FactValue::Number(grant.registration_epoch) }),
        ],
        facts.outbox_payload@ == seq![
            (Member { name: "agent_id", value: FactValue::Identity(grant.agent_id) }),
            (Member { name: "job_id", value: FactValue::Identity(grant.job_id) }),
            (Member { name: "lease_id", value: FactValue::Identity(grant.lease_id) }),
            (Member { name: "pool_id", value: FactValue::Identity(grant.pool_id) }),
            (Member { name: "schema_version", value: FactValue::Number(1) }),
        ],
{
    MutationFacts {
        actor_kind: "agent",
        actor_identity: Some(identity_text(grant.agent_id)),
        target_identity: identity_text(grant.job_id),
        safe_metadata: vec![
            Member { name: "lease_id", value: FactValue::Identity(grant.lease_id) },
            Member { name: "pool_id", value: FactValue::Identity(grant.pool_id) },
            Member { name: "registration_epoch", value: FactValue::Number(grant.registration_epoch) },
        ],
        outbox_payload: vec![
            Member { name: "agent_id", value: FactValue::Identity(grant.agent_id) },
            Member { name: "job_id", value: FactValue::Identity(grant.job_id) },
            Member { name: "lease_id", value: FactValue::Identity(grant.lease_id) },
            Member { name: "pool_id", value: FactValue::Identity(grant.pool_id) },
            Member { name: "schema_version", value: FactValue::Number(1) },
        ],
    }
}

/// A candidate whose limits cannot be read is reported as unavailable.
pub proof fn damaged_limits_are_unavailable(candidate: CandidateRow, project_jobs: i64, configuration_jobs: i64)
    ensures
        !is_limit(candidate.project_concurrency_limit) || !is_limit(candidate.configuration_concurrency_limit)
            ==> limits_verdict(candidate, project_jobs, configuration_jobs) == Err::<bool, StoreError>(
            StoreError::Unavailable,
        ),
{
}

} // verus!
