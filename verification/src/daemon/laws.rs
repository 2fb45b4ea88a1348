//! What holds of the worker's rules: replaying a preparation is harmless,
//! attempts stay bounded, and a task outlives the failure of its removal.

use super::handlers::{prepare_start, StepView};
use super::jobs::{disposition_of, settled, Disposition, RETRY_LIMIT};
use crate::db::jobs::{active_keys, active_with_key, claimed, failed};
use crate::db::laws::{lemma_dedupe_unique, lemma_position_holds};
use crate::db::query::{environment_ids, job_ids};
use crate::db::staging::task_key;
use crate::db::types::{EnvironmentStatus, JobStatus, JobType, JobView, StoreView};
use vstd::prelude::*;

verus! {

/// Preparing an environment that is in the pool or in use already never
/// asks for the provider again: the job is done at once, and the
/// environment stays as it is. Only the task's run may be queued.
pub proof fn lemma_prepare_idempotent(pre: StoreView, job: JobView, run_job_id: Seq<char>, now: int)
    requires
        job.payload.env_id is Some,
        pre.environment_position(job.payload.env_id->0) is Some,
        ({
            let status = pre.environments[pre.environment_position(job.payload.env_id->0)->0].status;
            status == EnvironmentStatus::Pool || status == EnvironmentStatus::InUse
        }),
    ensures
        ({
            let outcome = prepare_start(pre, job, run_job_id, now);
            &&& outcome.result is Ok ==> outcome.result->Ok_0 == StepView::Done
            &&& outcome.store.environments == pre.environments
            &&& outcome.store.tasks == pre.tasks
            &&& job.payload.task_id is None ==> outcome.store == pre && outcome.result is Ok
            &&& job.payload.task_id is Some && (pre.job_position(run_job_id) is None || active_with_key(
                pre.jobs,
                Some(task_key(JobType::RunTask, job.payload.task_id->0)),
            ) is Some) ==> outcome.result is Ok
        }),
{
}

/// Attempts are within bounds: a pending job has been tried less often
/// than the retry limit, a running job at most as often.
pub open spec fn within_attempts(s: StoreView) -> bool {
    forall|i: int|
        0 <= i < s.jobs.len() ==> {
            &&& (#[trigger] s.jobs[i]).status == JobStatus::Pending ==> s.jobs[i].attempt < RETRY_LIMIT
            &&& s.jobs[i].status == JobStatus::Running ==> s.jobs[i].attempt <= RETRY_LIMIT
        }
}

/// A new job is within bounds.
pub proof fn lemma_insert_within_attempts(pre: StoreView, row: JobView)
    requires
        within_attempts(pre),
        row.status == JobStatus::Pending,
        row.attempt == 0,
    ensures
        within_attempts(pre.after_insert(row)),
{
    let post = pre.after_insert(row);
    assert forall|i: int| 0 <= i < post.jobs.len() implies {
        &&& (#[trigger] post.jobs[i]).status == JobStatus::Pending ==> post.jobs[i].attempt < RETRY_LIMIT
        &&& post.jobs[i].status == JobStatus::Running ==> post.jobs[i].attempt <= RETRY_LIMIT
    } by {
        if post.jobs != pre.jobs && i < pre.jobs.len() {
            assert(post.jobs[i].status == pre.jobs[i].status);
            assert(post.jobs[i].attempt == pre.jobs[i].attempt);
        }
    }
}

/// Claiming a pending job keeps it within bounds.
pub proof fn lemma_claim_within_attempts(j: JobView, now: int, lease_seconds: int)
    requires
        j.status == JobStatus::Pending,
        j.attempt < RETRY_LIMIT,
    ensures
        claimed(j, now, lease_seconds).status == JobStatus::Running,
        claimed(j, now, lease_seconds).attempt <= RETRY_LIMIT,
{
}

/// Settling an attempt keeps every job within bounds, and fails a job
/// for good only when it has been tried at most once more than the retry
/// limit allows. This is stated of a job that was claimed while pending;
/// a job that is claimed again and again because its lease runs out has
/// no such bound.
pub proof fn lemma_attempt_bound(pre: StoreView, job: JobView, error: Option<Seq<char>>, now: int)
    requires
        within_attempts(pre),
        pre.job_position(job.id) is Some,
        pre.jobs[pre.job_position(job.id)->0] == job,
        job.status == JobStatus::Running,
    ensures
        within_attempts(settled(pre, job, error, now)),
        disposition_of(pre, job, error) == Disposition::Failed ==> job.attempt <= RETRY_LIMIT + 1,
        disposition_of(pre, job, error) is Retrying ==> job.attempt < RETRY_LIMIT,
{
    let i = pre.job_position(job.id)->0;
    lemma_position_holds(job_ids(pre.jobs), job.id);
    let post = settled(pre, job, error, now);
    assert(post.jobs.len() == pre.jobs.len());
    assert forall|k: int| 0 <= k < post.jobs.len() implies {
        &&& (#[trigger] post.jobs[k]).status == JobStatus::Pending ==> post.jobs[k].attempt < RETRY_LIMIT
        &&& post.jobs[k].status == JobStatus::Running ==> post.jobs[k].attempt <= RETRY_LIMIT
    } by {
        if k != i {
            assert(post.jobs[k] == pre.jobs[k]);
        }
    }
}

/// A task outlives the terminal failure of its removal: the failed
/// attempt leaves the task row as it was, and the removal can be staged
/// again.
pub proof fn lemma_remove_survives_failure(
    pre: StoreView,
    job: JobView,
    error: Seq<char>,
    now: int,
    next_job_id: Seq<char>,
    later: int,
)
    requires
        pre.wf(),
        job.job_type == JobType::RemoveTask,
        job.payload.task_id is Some,
        job.payload.env_id is Some,
        job.dedupe_key == Some(task_key(JobType::RemoveTask, job.payload.task_id->0)),
        pre.job_position(job.id) is Some,
        pre.jobs[pre.job_position(job.id)->0] == job,
        disposition_of(pre, job, Some(error)) == Disposition::Failed,
        pre.task_position(job.payload.task_id->0) is Some,
        pre.tasks[pre.task_position(job.payload.task_id->0)->0].environment_id == job.payload.env_id->0,
        pre.environment_position(job.payload.env_id->0) is Some,
        pre.job_position(next_job_id) is None,
    ensures
        ({
            let post = settled(pre, job, Some(error), now);
            &&& post.tasks == pre.tasks
            &&& post.environments[post.environment_position(job.payload.env_id->0)->0].status
                == EnvironmentStatus::Failed
            &&& post.stage_remove_task(job.payload.task_id->0, next_job_id, later) is Ok
            &&& next_job_id != job.id
            &&& ({
                let again = post.stage_remove_task(job.payload.task_id->0, next_job_id, later)->Ok_0;
                &&& again.tasks == pre.tasks
                &&& again.jobs.len() == pre.jobs.len() + 1
                &&& again.jobs[pre.jobs.len() as int].id == next_job_id
                &&& again.jobs[pre.jobs.len() as int].status == JobStatus::Pending
                &&& again.environments[again.environment_position(job.payload.env_id->0)->0].status
                    == EnvironmentStatus::Removing
            })
        }),
{
    let task_id = job.payload.task_id->0;
    let env_id = job.payload.env_id->0;
    let i = pre.job_position(job.id)->0;
    lemma_position_holds(job_ids(pre.jobs), job.id);
    let e = pre.environment_position(env_id)->0;
    lemma_position_holds(environment_ids(pre.environments), env_id);
    let marked = pre.set_job(i, failed(job, error, now));
    let post = settled(pre, job, Some(error), now);
    assert(marked.environment_position(env_id) == Some(e));
    assert(environment_ids(post.environments) =~= environment_ids(pre.environments));
    assert(job_ids(post.jobs) =~= job_ids(pre.jobs));
    let key = Some(task_key(JobType::RemoveTask, task_id));
    assert forall|k: int| 0 <= k < post.jobs.len() implies active_keys(post.jobs)[k] != key by {
        if k != i {
            assert(post.jobs[k] == pre.jobs[k]);
            lemma_dedupe_unique(pre, i, k);
        }
    }
    assert(active_with_key(post.jobs, key) is None);
    assert(post.job_position(next_job_id) is None);
    let failed_env = post.environments[e];
    let marked_again = post.set_environment(
        e,
        crate::db::staging::with_status(failed_env, EnvironmentStatus::Removing, later),
    );
    assert(environment_ids(marked_again.environments) =~= environment_ids(post.environments));
    let next = crate::db::jobs::new_job(
        next_job_id,
        JobType::RemoveTask,
        crate::db::staging::task_payload(task_id, env_id),
        key,
        later,
    );
    crate::db::laws::lemma_staged_fresh(marked_again, next);
}

} // verus!
