//! The worker pool's rules: how many jobs to claim, how a finished attempt
//! is settled, and what a terminal failure does to the rows it was about.

use crate::db::entities::{update_environment_status, update_task_status};
use crate::db::jobs::{
    claim_outcome,
    claim_pending_jobs,
    claim_result_view,
    completed,
    eligible_mask,
    failed,
    mark_job_complete,
    mark_job_failed,
    refresh_job_lease,
    renewed,
    requeue_job,
    requeued,
    Oldest,
};

use crate::db::staging::with_status;
use crate::db::types::{
    EnvironmentStatus,
    Job,
    JobStatus,
    JobType,
    JobView,
    Store,
    StoreError,
    StoreView,
    TaskStatus,
    TaskView,
};
use crate::order::is_selection;
use crate::text::{decimal, decimal_spec};
use vstd::arithmetic::power2::{lemma2_to64, lemma_pow2_strictly_increases, pow2};
use vstd::prelude::*;

verus! {

/// Pause between two polls of the queue, in milliseconds.
pub const POLL_INTERVAL_MS: u64 = 100;

/// Most jobs claimed in one batch.
pub const CLAIM_BATCH_LIMIT: usize = 8;

/// Most jobs in flight at once.
pub const MAX_CONCURRENT_JOBS: usize = 8;

/// How long a claim holds a job, in seconds.
pub const JOB_LEASE_SECONDS: i64 = 30;

/// Pause between two renewals of a lease, in seconds.
pub const JOB_LEASE_RENEW_INTERVAL_SECONDS: u64 = 10;

/// A failed attempt is retried while the job's attempt count is below this.
pub const RETRY_LIMIT: i64 = 2;

/// The environment whose lifecycle log records the job: the one its
/// payload names, for every kind of job but `run_task`.
pub open spec fn lifecycle_env(job: JobView) -> Option<Seq<char>> {
    if job.job_type == JobType::RunTask {
        None
    } else {
        job.payload.env_id
    }
}

/// The environment whose lifecycle log records the job.
pub fn env_id_for_lifecycle_job(job: &Job) -> (r: Option<&str>)
    ensures
        match r {
            Some(id) => lifecycle_env(job@) == Some(id@),
            None => lifecycle_env(job@) is None,
        },
{
    match job.job_type {
        JobType::RunTask => None,
        _ => match &job.payload.env_id {
            Some(id) => Some(id.as_str()),
            None => None,
        },
    }
}

/// Seconds to wait before the next attempt: two to the power of the
/// attempt count, at most 60; an attempt count below 1 counts as 1.
pub open spec fn retry_delay(attempt: int) -> int {
    let a = if attempt < 1 {
        1
    } else {
        attempt
    };
    if pow2(a as nat) < 60 {
        pow2(a as nat) as int
    } else {
        60
    }
}

/// Computes [`retry_delay`].
pub fn retry_delay_seconds(attempt: i64) -> (delay: i64)
    ensures
        delay == retry_delay(attempt as int),
        2 <= delay <= 60,
{
    proof {
        lemma2_to64();
        if attempt > 6 {
            lemma_pow2_strictly_increases(6, attempt as nat);
        }
    }
    if attempt <= 1 {
        2
    } else if attempt == 2 {
        4
    } else if attempt == 3 {
        8
    } else if attempt == 4 {
        16
    } else if attempt == 5 {
        32
    } else {
        60
    }
}

/// How many jobs to ask for when `running` jobs are in flight: as many as
/// there is room for, at most one batch.
pub open spec fn claim_limit_spec(running: int) -> int {
    let available = if running >= MAX_CONCURRENT_JOBS {
        0
    } else {
        MAX_CONCURRENT_JOBS - running
    };
    if available < CLAIM_BATCH_LIMIT {
        available
    } else {
        CLAIM_BATCH_LIMIT as int
    }
}

/// Computes [`claim_limit_spec`].
pub fn claim_limit(running: usize) -> (limit: usize)
    ensures
        limit == claim_limit_spec(running as int),
{
    let available = if running >= MAX_CONCURRENT_JOBS {
        0
    } else {
        MAX_CONCURRENT_JOBS - running
    };
    if available < CLAIM_BATCH_LIMIT {
        available
    } else {
        CLAIM_BATCH_LIMIT
    }
}

/// One turn of the worker loop: claims as many jobs as there is room for,
/// on the standard lease.
pub fn claim_batch(store: &mut Store, running: usize, now: i64) -> (r: Result<Vec<Job>, StoreError>)
    ensures
        exists|order: Seq<int>|
            {
                &&& #[trigger] is_selection::<Job, Oldest>(
                    old(store)@.jobs,
                    eligible_mask(old(store)@.jobs, now as int),
                    claim_limit_spec(running as int) as nat,
                    order,
                )
                &&& claim_outcome(
                    old(store)@,
                    order,
                    now as int,
                    JOB_LEASE_SECONDS as int,
                    final(store)@,
                    claim_result_view(r),
                )
            },
        old(store)@.wf() ==> final(store)@.wf(),
{
    let limit = claim_limit(running);
    let r = claim_pending_jobs(store, limit, JOB_LEASE_SECONDS, now);
    proof {
        let jobs = old(store)@.jobs;
        let order = choose|order: Seq<int>|
            {
                &&& #[trigger] is_selection::<Job, Oldest>(
                    jobs,
                    eligible_mask(jobs, now as int),
                    limit as nat,
                    order,
                )
                &&& claim_outcome(
                    old(store)@,
                    order,
                    now as int,
                    JOB_LEASE_SECONDS as int,
                    store@,
                    claim_result_view(r),
                )
            };
        assert(limit as nat == claim_limit_spec(running as int) as nat);
        assert(is_selection::<Job, Oldest>(
            jobs,
            eligible_mask(jobs, now as int),
            claim_limit_spec(running as int) as nat,
            order,
        ));
    }
    r
}

/// One beat of a job's lease heartbeat: renews the lease on the standard
/// term. `false` ends the heartbeat: the job is no longer running, or gone.
pub fn heartbeat(store: &mut Store, job_id: &str, now: i64) -> (alive: bool)
    ensures
        match old(store)@.job_position(job_id@) {
            Some(i) if old(store)@.jobs[i].status == JobStatus::Running => alive && final(store)@ == old(
                store,
            )@.set_job(i, renewed(old(store)@.jobs[i], JOB_LEASE_SECONDS as int, now as int)),
            _ => !alive && final(store)@ == old(store)@,
        },
        old(store)@.wf() ==> final(store)@.wf(),
{
    refresh_job_lease(store, job_id, JOB_LEASE_SECONDS, now)
}

impl StoreView {
    /// The store after the environment `id`, if named and present, has
    /// been marked failed.
    pub open spec fn fail_environment(self, id: Option<Seq<char>>, now: int) -> StoreView {
        match id {
            Some(id) => match self.environment_position(id) {
                Some(i) => self.set_environment(
                    i,
                    with_status(self.environments[i], EnvironmentStatus::Failed, now),
                ),
                None => self,
            },
            None => self,
        }
    }

    /// The store after the task `id`, if named and present, has been
    /// marked failed.
    pub open spec fn fail_task(self, id: Option<Seq<char>>, now: int) -> StoreView {
        match id {
            Some(id) => match self.task_position(id) {
                Some(i) => self.set_task(
                    i,
                    TaskView { status: TaskStatus::Failed, updated_at: now, ..self.tasks[i] },
                ),
                None => self,
            },
            None => self,
        }
    }

    /// What the terminal failure of a job does to the rows it names: the
    /// environment fails; the task fails too, unless the job was to remove
    /// it or names none.
    pub open spec fn after_terminal_failure(self, job: JobView, now: int) -> StoreView {
        match job.job_type {
            JobType::RunTask => self.fail_task(job.payload.task_id, now).fail_environment(
                job.payload.env_id,
                now,
            ),
            JobType::PrepareEnvironment | JobType::ClaimEnvironment => self.fail_environment(
                job.payload.env_id,
                now,
            ).fail_task(job.payload.task_id, now),
            JobType::UpdateEnvironment | JobType::RemoveEnvironment | JobType::RemoveTask => self.fail_environment(
                job.payload.env_id,
                now,
            ),
        }
    }

    /// The store after the job `id`, if present, has been replaced by
    /// `change` of it.
    pub open spec fn change_job(self, id: Seq<char>, change: spec_fn(JobView) -> JobView) -> StoreView {
        match self.job_position(id) {
            Some(i) => self.set_job(i, change(self.jobs[i])),
            None => self,
        }
    }
}

fn fail_environment(store: &mut Store, id: &Option<String>, now: i64)
    ensures
        final(store)@ == old(store)@.fail_environment(id.deep_view(), now as int),
        old(store)@.wf() ==> final(store)@.wf(),
{
    if let Some(id) = id {
        let _ = update_environment_status(store, id.as_str(), EnvironmentStatus::Failed, now);
    }
}

fn fail_task(store: &mut Store, id: &Option<String>, now: i64)
    ensures
        final(store)@ == old(store)@.fail_task(id.deep_view(), now as int),
        old(store)@.wf() ==> final(store)@.wf(),
{
    if let Some(id) = id {
        let _ = update_task_status(store, id.as_str(), TaskStatus::Failed, now);
    }
}

/// Applies what the terminal failure of a job does to the rows it names.
/// Rows that are gone are passed over.
pub fn apply_terminal_failure_side_effects(store: &mut Store, job: &Job, now: i64)
    ensures
        final(store)@ == old(store)@.after_terminal_failure(job@, now as int),
        old(store)@.wf() ==> final(store)@.wf(),
{
    match job.job_type {
        JobType::RunTask => {
            fail_task(store, &job.payload.task_id, now);
            fail_environment(store, &job.payload.env_id, now);
        },
        JobType::PrepareEnvironment | JobType::ClaimEnvironment => {
            fail_environment(store, &job.payload.env_id, now);
            fail_task(store, &job.payload.task_id, now);
        },
        JobType::UpdateEnvironment | JobType::RemoveEnvironment | JobType::RemoveTask => {
            fail_environment(store, &job.payload.env_id, now);
        },
    }
}

/// How an attempt ended for the queue.
#[derive(Clone, Copy, Debug, PartialEq, Eq, Structural)]
pub enum Disposition {
    /// The job is complete.
    Completed,
    /// The job waits for another attempt.
    Retrying { delay_seconds: i64 },
    /// The job has failed for good.
    Failed,
}

/// How a failed attempt is settled: retried while the attempt count is
/// below the retry limit and the job can be put back, else failed.
pub open spec fn disposition_of(pre: StoreView, job: JobView, error: Option<Seq<char>>) -> Disposition {
    match error {
        None => Disposition::Completed,
        Some(_) => if job.attempt < RETRY_LIMIT && pre.job_position(job.id) is Some {
            Disposition::Retrying { delay_seconds: retry_delay(job.attempt) as i64 }
        } else {
            Disposition::Failed
        },
    }
}

/// The store after an attempt has been settled.
pub open spec fn settled(pre: StoreView, job: JobView, error: Option<Seq<char>>, now: int) -> StoreView {
    match error {
        None => pre.change_job(job.id, |j: JobView| completed(j, now)),
        Some(e) => match disposition_of(pre, job, error) {
            Disposition::Retrying { delay_seconds } => pre.change_job(
                job.id,
                |j: JobView| requeued(j, e, delay_seconds as int, now),
            ),
            _ => pre.change_job(job.id, |j: JobView| failed(j, e, now)).after_terminal_failure(job, now),
        },
    }
}

/// The start of every lifecycle log line of a job: its kind and the
/// number of the attempt, which is the job's attempt count as the claim
/// left it: 1 for a first execution.
pub open spec fn line_head(job: JobView) -> Seq<char> {
    "job="@ + job.job_type.name() + " attempt="@ + decimal_spec(job.attempt) + " phase="@
}

/// The lifecycle log line for the start of an attempt.
pub open spec fn start_line(job: JobView) -> Seq<char> {
    line_head(job) + "start"@
}

/// The lifecycle log lines for the end of an attempt.
pub open spec fn settle_lines(pre: StoreView, job: JobView, error: Option<Seq<char>>) -> Seq<Seq<char>> {
    if lifecycle_env(job) is None {
        Seq::empty()
    } else {
        match error {
            None => seq![line_head(job) + "complete"@],
            Some(e) => if job.attempt < RETRY_LIMIT {
                let retrying = line_head(job) + "retrying delay_seconds="@ + decimal_spec(
                    retry_delay(job.attempt),
                ) + " error="@ + e;
                if pre.job_position(job.id) is Some {
                    seq![retrying]
                } else {
                    seq![
                        retrying,
                        line_head(job) + "retry_requeue_failed error="@ + StoreError::NotFound.text(),
                    ]
                }
            } else {
                seq![line_head(job) + "failed error="@ + e]
            },
        }
    }
}

fn head(job: &Job) -> (r: String)
    ensures
        r@ == line_head(job@),
{
    let n = decimal(job.attempt as i128);
    String::from_str("job=").concat(job.job_type.as_str()).concat(" attempt=").concat(n.as_str()).concat(
        " phase=",
    )
}

/// The lifecycle log line for the start of an attempt; `None` for a job
/// that has no lifecycle log.
pub fn start_log_line(job: &Job) -> (r: Option<String>)
    ensures
        r.deep_view() == (if lifecycle_env(job@) is Some {
            Some(start_line(job@))
        } else {
            None
        }),
{
    match env_id_for_lifecycle_job(job) {
        Some(_) => Some(head(job).concat("start")),
        None => None,
    }
}

/// What the worker has to do after an attempt was settled.
#[derive(Debug)]
pub struct Settlement {
    /// How the attempt ended for the queue.
    pub disposition: Disposition,
    /// Lines for the lifecycle log of the job's environment, in order.
    pub log_lines: Vec<String>,
}

/// The error of an attempt, by value.
pub open spec fn error_of(outcome: Result<(), String>) -> Option<Seq<char>> {
    match outcome {
        Ok(_) => None,
        Err(e) => Some(e@),
    }
}

/// Settles an attempt: a success completes the job; a failure puts it
/// back for another attempt while its attempt count is below the retry
/// limit, and else fails it for good and applies the side effects of a
/// terminal failure. A job that cannot be put back because it is gone is
/// treated as failed for good.
pub fn settle_job(store: &mut Store, job: &Job, outcome: &Result<(), String>, now: i64) -> (r: Settlement)
    ensures
        final(store)@ == settled(old(store)@, job@, error_of(*outcome), now as int),
        r.disposition == disposition_of(old(store)@, job@, error_of(*outcome)),
        r.log_lines.deep_view() == settle_lines(old(store)@, job@, error_of(*outcome)),
        old(store)@.wf() ==> final(store)@.wf(),
{
    let logged = env_id_for_lifecycle_job(job).is_some();
    let mut log_lines: Vec<String> = Vec::new();
    let ghost pre = store@;
    match outcome {
        Ok(_) => {
            let _ = mark_job_complete(store, job.id.as_str(), now);
            if logged {
                log_lines.push(head(job).concat("complete"));
            }
            assert(log_lines.deep_view() =~= settle_lines(pre, job@, None));
            Settlement { disposition: Disposition::Completed, log_lines }
        },
        Err(e) => {
            if job.attempt < RETRY_LIMIT {
                let delay = retry_delay_seconds(job.attempt);
                if logged {
                    let d = decimal(delay as i128);
                    log_lines.push(
                        head(job).concat("retrying delay_seconds=").concat(d.as_str()).concat(" error=").concat(
                            e.as_str(),
                        ),
                    );
                }
                match requeue_job(store, job.id.as_str(), e.as_str(), delay, now) {
                    Ok(_) => {
                        assert(log_lines.deep_view() =~= settle_lines(pre, job@, Some(e@)));
                        Settlement { disposition: Disposition::Retrying { delay_seconds: delay }, log_lines }
                    },
                    Err(requeue_error) => {
                        if logged {
                            log_lines.push(
                                head(job).concat("retry_requeue_failed error=").concat(requeue_error.as_str()),
                            );
                        }
                        let _ = mark_job_failed(store, job.id.as_str(), e.as_str(), now);
                        apply_terminal_failure_side_effects(store, job, now);
                        assert(log_lines.deep_view() =~= settle_lines(pre, job@, Some(e@)));
                        Settlement { disposition: Disposition::Failed, log_lines }
                    },
                }
            } else {
                if logged {
                    log_lines.push(head(job).concat("failed error=").concat(e.as_str()));
                }
                let _ = mark_job_failed(store, job.id.as_str(), e.as_str(), now);
                apply_terminal_failure_side_effects(store, job, now);
                assert(log_lines.deep_view() =~= settle_lines(pre, job@, Some(e@)));
                Settlement { disposition: Disposition::Failed, log_lines }
            }
        },
    }
}

} // verus!
