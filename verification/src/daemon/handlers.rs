//! What each kind of job does: the decisions before the provider is
//! called, and the writes after it has answered.

use crate::config::{Config, ConfigError, TaskProviderConfig};
use crate::db::entities::{
    complete_preparing_environment,
    delete_environment,
    delete_task_and_environment,
    environment_in,
    start_task,
    update_environment_metadata,
    update_task_status,
};
use crate::db::jobs::{insert_job_tx, new_job};
use crate::db::query::{find_environment, find_project, find_task};
use crate::db::staging::{task_dedupe_key, task_key, task_payload};
use crate::db::types::{
    clone_project,
    EnvironmentStatus,
    EnvironmentView,
    Job,
    JobPayload,
    JobType,
    JobView,
    Project,
    ProjectView,
    Store,
    StoreError,
    StoreView,
    TaskStatus,
    TaskView,
};
use crate::text::{replace_spec, str_replace};
use vstd::prelude::*;

verus! {

/// Why an attempt at a job failed before or after the provider's work.
#[derive(Debug)]
pub enum JobError {
    /// The payload names no environment.
    MissingEnvId,
    /// The payload names no task.
    MissingTaskId,
    /// The store refused.
    Store(StoreError),
    /// The environment to prepare is in a status that preparing cannot
    /// start from.
    UnexpectedStatus { env_id: String, status: EnvironmentStatus },
    /// The environment is not in use.
    EnvironmentNotInUse { env_id: String },
    /// The task has started already.
    TaskAlreadyStarted { task_id: String },
    /// The configuration does not hold the task's provider.
    TaskProviderNotFound { name: String },
    /// What the worker reports does not answer what the job asked for.
    UnexpectedResult,
    /// The provider, or the task's launch, failed; the message says how.
    ProviderFailure { message: String },
}

/// The value of a [`JobError`].
pub enum JobErrorView {
    MissingEnvId,
    MissingTaskId,
    Store(StoreError),
    UnexpectedStatus { env_id: Seq<char>, status: EnvironmentStatus },
    EnvironmentNotInUse { env_id: Seq<char> },
    TaskAlreadyStarted { task_id: Seq<char> },
    TaskProviderNotFound { name: Seq<char> },
    UnexpectedResult,
    ProviderFailure { message: Seq<char> },
}

impl View for JobError {
    type V = JobErrorView;

    open spec fn view(&self) -> JobErrorView {
        match self {
            JobError::MissingEnvId => JobErrorView::MissingEnvId,
            JobError::MissingTaskId => JobErrorView::MissingTaskId,
            JobError::Store(e) => JobErrorView::Store(*e),
            JobError::UnexpectedStatus { env_id, status } => JobErrorView::UnexpectedStatus {
                env_id: env_id@,
                status: *status,
            },
            JobError::EnvironmentNotInUse { env_id } => JobErrorView::EnvironmentNotInUse { env_id: env_id@ },
            JobError::TaskAlreadyStarted { task_id } => JobErrorView::TaskAlreadyStarted { task_id: task_id@ },
            JobError::TaskProviderNotFound { name } => JobErrorView::TaskProviderNotFound { name: name@ },
            JobError::UnexpectedResult => JobErrorView::UnexpectedResult,
            JobError::ProviderFailure { message } => JobErrorView::ProviderFailure { message: message@ },
        }
    }
}

impl JobErrorView {
    /// The message of the error, as it is kept with the job.
    pub open spec fn text(self) -> Seq<char> {
        match self {
            JobErrorView::MissingEnvId => "job payload missing env_id"@,
            JobErrorView::MissingTaskId => "job payload missing task_id"@,
            JobErrorView::Store(e) => e.text(),
            JobErrorView::UnexpectedStatus { env_id, status } => "environment "@ + env_id
                + " has unexpected status "@ + status.name() + " while preparing"@,
            JobErrorView::EnvironmentNotInUse { env_id } => "environment "@ + env_id + " is not in use"@,
            JobErrorView::TaskAlreadyStarted { task_id } => "task "@ + task_id + " is already started"@,
            JobErrorView::TaskProviderNotFound { name } => ConfigError::TaskProviderNotFound.text() + name,
            JobErrorView::UnexpectedResult => "job result does not fit the job"@,
            JobErrorView::ProviderFailure { message } => message,
        }
    }
}

impl JobError {
    /// The message of the error.
    pub fn message(&self) -> (r: String)
        ensures
            r@ == self@.text(),
    {
        match self {
            JobError::MissingEnvId => String::from_str("job payload missing env_id"),
            JobError::MissingTaskId => String::from_str("job payload missing task_id"),
            JobError::Store(e) => String::from_str(e.as_str()),
            JobError::UnexpectedStatus { env_id, status } => String::from_str("environment ").concat(
                env_id.as_str(),
            ).concat(" has unexpected status ").concat(status.as_str()).concat(" while preparing"),
            JobError::EnvironmentNotInUse { env_id } => String::from_str("environment ").concat(
                env_id.as_str(),
            ).concat(" is not in use"),
            JobError::TaskAlreadyStarted { task_id } => String::from_str("task ").concat(task_id.as_str()).concat(
                " is already started",
            ),
            JobError::TaskProviderNotFound { name } => ConfigError::TaskProviderNotFound.message(name.as_str()),
            JobError::UnexpectedResult => String::from_str("job result does not fit the job"),
            JobError::ProviderFailure { message } => message.clone(),
        }
    }
}

/// What the worker has to do next for a job.
#[derive(Debug)]
pub enum Step {
    /// Nothing: the attempt has succeeded.
    Done,
    /// Nothing outside the store: the writes that end the job follow.
    Finish,
    /// Let the provider prepare the environment for the project, and
    /// claim it where `claim` is set.
    Prepare { provider: String, project: Project, env_id: String, claim: bool },
    /// Let the provider update the environment.
    Update { provider: String, metadata: String },
    /// Let the provider claim the environment.
    Claim { provider: String, metadata: String },
    /// Let the provider remove the environment.
    Remove { provider: String, metadata: String },
    /// Run the task's command in the environment.
    Run { provider: String, metadata: String, task_id: String, command: String, args: Vec<String> },
}

/// The value of a [`Step`].
pub enum StepView {
    Done,
    Finish,
    Prepare { provider: Seq<char>, project: ProjectView, env_id: Seq<char>, claim: bool },
    Update { provider: Seq<char>, metadata: Seq<char> },
    Claim { provider: Seq<char>, metadata: Seq<char> },
    Remove { provider: Seq<char>, metadata: Seq<char> },
    Run { provider: Seq<char>, metadata: Seq<char>, task_id: Seq<char>, command: Seq<char>, args: Seq<Seq<char>> },
}

impl View for Step {
    type V = StepView;

    open spec fn view(&self) -> StepView {
        match self {
            Step::Done => StepView::Done,
            Step::Finish => StepView::Finish,
            Step::Prepare { provider, project, env_id, claim } => StepView::Prepare {
                provider: provider@,
                project: project@,
                env_id: env_id@,
                claim: *claim,
            },
            Step::Update { provider, metadata } => StepView::Update { provider: provider@, metadata: metadata@ },
            Step::Claim { provider, metadata } => StepView::Claim { provider: provider@, metadata: metadata@ },
            Step::Remove { provider, metadata } => StepView::Remove { provider: provider@, metadata: metadata@ },
            Step::Run { provider, metadata, task_id, command, args } => StepView::Run {
                provider: provider@,
                metadata: metadata@,
                task_id: task_id@,
                command: command@,
                args: args.deep_view(),
            },
        }
    }
}

/// Where a handler leaves the store, and what it answers.
pub struct Outcome<T> {
    pub store: StoreView,
    pub result: Result<T, JobErrorView>,
}

/// The handler changed nothing and answers `result`.
pub open spec fn unchanged<T>(pre: StoreView, result: Result<T, JobErrorView>) -> Outcome<T> {
    Outcome { store: pre, result }
}

/// The `run_task` job of a task in its environment.
pub open spec fn run_task_job(id: Seq<char>, task_id: Seq<char>, env_id: Seq<char>, now: int) -> JobView {
    new_job(
        id,
        JobType::RunTask,
        task_payload(task_id, env_id),
        Some(task_key(JobType::RunTask, task_id)),
        now,
    )
}

/// Queues the `run_task` job of a task: the store with the job staged, or
/// the store as it was with the error that refused it.
pub open spec fn queue_run<T>(
    pre: StoreView,
    run_job_id: Seq<char>,
    task_id: Seq<char>,
    env_id: Seq<char>,
    now: int,
    then: T,
) -> Outcome<T> {
    match pre.staged(run_task_job(run_job_id, task_id, env_id, now)) {
        Ok(post) => Outcome { store: post, result: Ok(then) },
        Err(e) => Outcome { store: pre, result: Err(JobErrorView::Store(e)) },
    }
}

/// An argument list with the task's description in place of the
/// placeholder `{task_description}`.
pub open spec fn resolved_args(args: Seq<Seq<char>>, description: Seq<char>) -> Seq<Seq<char>> {
    Seq::new(args.len(), |i: int| replace_spec(args[i], "{task_description}"@, description))
}

/// Whether preparing ends with a claim: where the job says so, or names
/// a task.
pub open spec fn claims_after_prepare(job: JobView) -> bool {
    job.payload.claim_after_prepare || job.payload.task_id is Some
}

/// The start of `prepare_environment`. An environment that is in the
/// pool or in use already needs no provider: the job only queues the
/// task's run, where it names a task. Any other status but preparing
/// refuses the job.
pub open spec fn prepare_start(pre: StoreView, job: JobView, run_job_id: Seq<char>, now: int) -> Outcome<
    StepView,
> {
    match job.payload.env_id {
        None => unchanged(pre, Err(JobErrorView::MissingEnvId)),
        Some(env_id) => match pre.environment_position(env_id) {
            None => unchanged(pre, Err(JobErrorView::Store(StoreError::NotFound))),
            Some(i) => {
                let env = pre.environments[i];
                if env.status == EnvironmentStatus::Pool || env.status == EnvironmentStatus::InUse {
                    match job.payload.task_id {
                        Some(task_id) => queue_run(pre, run_job_id, task_id, env_id, now, StepView::Done),
                        None => unchanged(pre, Ok(StepView::Done)),
                    }
                } else if env.status != EnvironmentStatus::Preparing {
                    unchanged(pre, Err(JobErrorView::UnexpectedStatus { env_id, status: env.status }))
                } else {
                    match pre.project_position(env.project_id) {
                        None => unchanged(pre, Err(JobErrorView::Store(StoreError::NotFound))),
                        Some(p) => unchanged(
                            pre,
                            Ok(
                                StepView::Prepare {
                                    provider: env.provider,
                                    project: pre.projects[p],
                                    env_id,
                                    claim: claims_after_prepare(job),
                                },
                            ),
                        ),
                    }
                }
            },
        },
    }
}

/// The end of `prepare_environment`: the environment leaves preparing
/// with the provider's metadata, for the pool or, where it was claimed,
/// for use; then the task's run is queued, where the job names a task.
pub open spec fn prepare_end(
    pre: StoreView,
    job: JobView,
    metadata: Seq<char>,
    run_job_id: Seq<char>,
    now: int,
) -> Outcome<()> {
    match job.payload.env_id {
        None => unchanged(pre, Err(JobErrorView::MissingEnvId)),
        Some(env_id) => match environment_in(pre, env_id, EnvironmentStatus::Preparing) {
            None => unchanged(pre, Err(JobErrorView::Store(StoreError::InvalidState))),
            Some(i) => {
                let status = if claims_after_prepare(job) {
                    EnvironmentStatus::InUse
                } else {
                    EnvironmentStatus::Pool
                };
                let prepared = pre.set_environment(
                    i,
                    EnvironmentView { status, metadata, updated_at: now, ..pre.environments[i] },
                );
                match job.payload.task_id {
                    Some(task_id) => queue_run(prepared, run_job_id, task_id, env_id, now, ()),
                    None => unchanged(prepared, Ok(())),
                }
            },
        },
    }
}

/// The start of `update_environment`: only an environment in the pool is
/// updated; for any other, or none, there is nothing to do.
pub open spec fn update_start(pre: StoreView, job: JobView) -> Result<StepView, JobErrorView> {
    match job.payload.env_id {
        None => Err(JobErrorView::MissingEnvId),
        Some(env_id) => match environment_in(pre, env_id, EnvironmentStatus::Pool) {
            None => Ok(StepView::Done),
            Some(i) => Ok(
                StepView::Update { provider: pre.environments[i].provider, metadata: pre.environments[i].metadata },
            ),
        },
    }
}

/// The store after the metadata of the environment `env_id` has been
/// replaced, or `NotFound`.
pub open spec fn store_metadata(pre: StoreView, env_id: Seq<char>, metadata: Seq<char>, now: int) -> Outcome<()> {
    match pre.environment_position(env_id) {
        None => unchanged(pre, Err(JobErrorView::Store(StoreError::NotFound))),
        Some(i) => unchanged(
            pre.set_environment(i, EnvironmentView { metadata, updated_at: now, ..pre.environments[i] }),
            Ok(()),
        ),
    }
}

/// The end of `update_environment`: the provider's metadata is stored.
pub open spec fn update_end(pre: StoreView, job: JobView, metadata: Seq<char>, now: int) -> Outcome<()> {
    match job.payload.env_id {
        None => unchanged(pre, Err(JobErrorView::MissingEnvId)),
        Some(env_id) => store_metadata(pre, env_id, metadata, now),
    }
}

/// The start of `claim_environment`: only an environment in use is
/// claimed with the provider. A missing one needs nothing; one in another
/// status needs nothing either, unless a task waits for it.
pub open spec fn claim_start(pre: StoreView, job: JobView) -> Result<StepView, JobErrorView> {
    match job.payload.env_id {
        None => Err(JobErrorView::MissingEnvId),
        Some(env_id) => match pre.environment_position(env_id) {
            None => Ok(StepView::Done),
            Some(i) => if pre.environments[i].status != EnvironmentStatus::InUse {
                if job.payload.task_id is Some {
                    Err(JobErrorView::EnvironmentNotInUse { env_id })
                } else {
                    Ok(StepView::Done)
                }
            } else {
                Ok(
                    StepView::Claim {
                        provider: pre.environments[i].provider,
                        metadata: pre.environments[i].metadata,
                    },
                )
            },
        },
    }
}

/// The end of `claim_environment`: the provider's metadata is stored;
/// then the run of the task is queued, where the job names a task that is
/// still pending.
pub open spec fn claim_end(
    pre: StoreView,
    job: JobView,
    metadata: Seq<char>,
    run_job_id: Seq<char>,
    now: int,
) -> Outcome<()> {
    match job.payload.env_id {
        None => unchanged(pre, Err(JobErrorView::MissingEnvId)),
        Some(env_id) => {
            let stored = store_metadata(pre, env_id, metadata, now);
            if stored.result is Err {
                stored
            } else {
                match job.payload.task_id {
                    None => stored,
                    Some(task_id) => match stored.store.task_position(task_id) {
                        None => unchanged(stored.store, Err(JobErrorView::Store(StoreError::NotFound))),
                        Some(t) => if stored.store.tasks[t].status == TaskStatus::Pending {
                            queue_run(stored.store, run_job_id, task_id, env_id, now, ())
                        } else {
                            stored
                        },
                    },
                }
            }
        },
    }
}

/// The start of `remove_environment`: a missing environment needs
/// nothing.
pub open spec fn remove_environment_start(pre: StoreView, job: JobView) -> Result<StepView, JobErrorView> {
    match job.payload.env_id {
        None => Err(JobErrorView::MissingEnvId),
        Some(env_id) => match pre.environment_position(env_id) {
            None => Ok(StepView::Done),
            Some(i) => Ok(
                StepView::Remove { provider: pre.environments[i].provider, metadata: pre.environments[i].metadata },
            ),
        },
    }
}

/// The end of `remove_environment`: the row is deleted.
pub open spec fn remove_environment_end(pre: StoreView, job: JobView) -> Outcome<()> {
    match job.payload.env_id {
        None => unchanged(pre, Err(JobErrorView::MissingEnvId)),
        Some(env_id) => match pre.environment_position(env_id) {
            None => unchanged(pre, Err(JobErrorView::Store(StoreError::NotFound))),
            Some(i) => unchanged(pre.remove_environment(i), Ok(())),
        },
    }
}

/// The start of `remove_task`: the provider removes the environment
/// where it still exists; else only the rows are left to delete.
pub open spec fn remove_task_start(pre: StoreView, job: JobView) -> Result<StepView, JobErrorView> {
    match job.payload.task_id {
        None => Err(JobErrorView::MissingTaskId),
        Some(_) => match job.payload.env_id {
            None => Err(JobErrorView::MissingEnvId),
            Some(env_id) => match pre.environment_position(env_id) {
                None => Ok(StepView::Finish),
                Some(i) => Ok(
                    StepView::Remove {
                        provider: pre.environments[i].provider,
                        metadata: pre.environments[i].metadata,
                    },
                ),
            },
        },
    }
}

/// The end of `remove_task`: the task and its environment are deleted
/// together.
pub open spec fn remove_task_end(pre: StoreView, job: JobView) -> Outcome<()> {
    match job.payload.task_id {
        None => unchanged(pre, Err(JobErrorView::MissingTaskId)),
        Some(task_id) => match job.payload.env_id {
            None => unchanged(pre, Err(JobErrorView::MissingEnvId)),
            Some(env_id) => unchanged(pre.without_task(task_id).without_environment(env_id), Ok(())),
        },
    }
}

/// The start of `run_task`. A task that has ended needs nothing; one
/// that has started refuses the job, and so does an environment that is
/// not in use. Else the task is marked started, and its provider's
/// command is to be run with the description filled in.
pub open spec fn run_start(pre: StoreView, job: JobView, config: &Config, now: int) -> Outcome<StepView> {
    match job.payload.task_id {
        None => unchanged(pre, Err(JobErrorView::MissingTaskId)),
        Some(task_id) => match job.payload.env_id {
            None => unchanged(pre, Err(JobErrorView::MissingEnvId)),
            Some(env_id) => match pre.task_position(task_id) {
                None => unchanged(pre, Err(JobErrorView::Store(StoreError::NotFound))),
                Some(t) => {
                    let task = pre.tasks[t];
                    if task.status.is_terminal() {
                        unchanged(pre, Ok(StepView::Done))
                    } else if task.status == TaskStatus::Started {
                        unchanged(pre, Err(JobErrorView::TaskAlreadyStarted { task_id }))
                    } else {
                        match pre.environment_position(env_id) {
                            None => unchanged(pre, Err(JobErrorView::Store(StoreError::NotFound))),
                            Some(i) => if pre.environments[i].status != EnvironmentStatus::InUse {
                                unchanged(pre, Err(JobErrorView::EnvironmentNotInUse { env_id }))
                            } else {
                                let started = pre.set_task(
                                    t,
                                    TaskView { status: TaskStatus::Started, updated_at: now, ..task },
                                );
                                match config.task_provider_entry(task.provider) {
                                    None => unchanged(
                                        started,
                                        Err(JobErrorView::TaskProviderNotFound { name: task.provider }),
                                    ),
                                    Some(TaskProviderConfig::Command { command, args }) => unchanged(
                                        started,
                                        Ok(
                                            StepView::Run {
                                                provider: pre.environments[i].provider,
                                                metadata: pre.environments[i].metadata,
                                                task_id,
                                                command: command@,
                                                args: resolved_args(args.deep_view(), task.description),
                                            },
                                        ),
                                    ),
                                }
                            },
                        }
                    }
                },
            },
        },
    }
}

/// The end of `run_task`: the task is complete where its command ended
/// well, else failed.
pub open spec fn run_end(pre: StoreView, job: JobView, success: bool, now: int) -> Outcome<()> {
    match job.payload.task_id {
        None => unchanged(pre, Err(JobErrorView::MissingTaskId)),
        Some(task_id) => match pre.task_position(task_id) {
            None => unchanged(pre, Err(JobErrorView::Store(StoreError::NotFound))),
            Some(t) => unchanged(
                pre.set_task(
                    t,
                    TaskView {
                        status: if success {
                            TaskStatus::Complete
                        } else {
                            TaskStatus::Failed
                        },
                        updated_at: now,
                        ..pre.tasks[t]
                    },
                ),
                Ok(()),
            ),
        },
    }
}

/// A step and the store agree with the outcome expected.
pub open spec fn step_is(post: StoreView, r: Result<Step, JobError>, expected: Outcome<StepView>) -> bool {
    &&& post == expected.store
    &&& match expected.result {
        Ok(step) => r is Ok && r->Ok_0@ == step,
        Err(e) => r is Err && r->Err_0@ == e,
    }
}

/// An ending and the store agree with the outcome expected.
pub open spec fn end_is(post: StoreView, r: Result<(), JobError>, expected: Outcome<()>) -> bool {
    &&& post == expected.store
    &&& match expected.result {
        Ok(_) => r is Ok,
        Err(e) => r is Err && r->Err_0@ == e,
    }
}

fn enqueue_run_task(store: &mut Store, task_id: &str, env_id: &str, run_job_id: String, now: i64) -> (r: Result<
    (),
    JobError,
>)
    ensures
        end_is(final(store)@, r, queue_run(old(store)@, run_job_id@, task_id@, env_id@, now as int, ())),
        old(store)@.wf() ==> final(store)@.wf(),
{
    let payload = JobPayload {
        env_id: Some(String::from_str(env_id)),
        task_id: Some(String::from_str(task_id)),
        claim_after_prepare: false,
    };
    let key = task_dedupe_key(JobType::RunTask, task_id);
    match insert_job_tx(store, JobType::RunTask, payload, Some(key.as_str()), run_job_id, now) {
        Ok(_) => Ok(()),
        Err(e) => Err(JobError::Store(e)),
    }
}

/// Starts a `prepare_environment` job. `run_job_id` is the id for the
/// task's run, should it be queued.
pub fn prepare_environment(store: &mut Store, job: &Job, run_job_id: String, now: i64) -> (r: Result<
    Step,
    JobError,
>)
    ensures
        step_is(final(store)@, r, prepare_start(old(store)@, job@, run_job_id@, now as int)),
        old(store)@.wf() ==> final(store)@.wf(),
{
    let env_id = match &job.payload.env_id {
        Some(id) => id,
        None => {
            return Err(JobError::MissingEnvId);
        },
    };
    let i = match find_environment(&store.environments, env_id.as_str()) {
        Some(i) => i,
        None => {
            return Err(JobError::Store(StoreError::NotFound));
        },
    };
    assert(store.environments.deep_view()[i as int] == store.environments@[i as int]@);
    let status = store.environments[i].status;
    match status {
        EnvironmentStatus::Pool | EnvironmentStatus::InUse => {
            return match &job.payload.task_id {
                Some(task_id) => match enqueue_run_task(store, task_id.as_str(), env_id.as_str(), run_job_id, now) {
                    Ok(_) => Ok(Step::Done),
                    Err(e) => Err(e),
                },
                None => Ok(Step::Done),
            };
        },
        EnvironmentStatus::Preparing => {},
        _ => {
            return Err(JobError::UnexpectedStatus { env_id: env_id.clone(), status });
        },
    }
    let p = match find_project(&store.projects, store.environments[i].project_id.as_str()) {
        Some(p) => p,
        None => {
            return Err(JobError::Store(StoreError::NotFound));
        },
    };
    assert(store.projects.deep_view()[p as int] == store.projects@[p as int]@);
    Ok(
        Step::Prepare {
            provider: store.environments[i].provider.clone(),
            project: clone_project(&store.projects[p]),
            env_id: env_id.clone(),
            claim: job.payload.claim_after_prepare || job.payload.task_id.is_some(),
        },
    )
}

/// Ends a `prepare_environment` job with the metadata that the provider
/// gave.
pub fn prepare_environment_done(store: &mut Store, job: &Job, metadata: &str, run_job_id: String, now: i64) -> (r:
    Result<(), JobError>)
    ensures
        end_is(final(store)@, r, prepare_end(old(store)@, job@, metadata@, run_job_id@, now as int)),
        old(store)@.wf() ==> final(store)@.wf(),
{
    let env_id = match &job.payload.env_id {
        Some(id) => id,
        None => {
            return Err(JobError::MissingEnvId);
        },
    };
    let status = if job.payload.claim_after_prepare || job.payload.task_id.is_some() {
        EnvironmentStatus::InUse
    } else {
        EnvironmentStatus::Pool
    };
    match complete_preparing_environment(store, env_id.as_str(), status, metadata, now) {
        Ok(_) => {},
        Err(e) => {
            return Err(JobError::Store(e));
        },
    }
    match &job.payload.task_id {
        Some(task_id) => enqueue_run_task(store, task_id.as_str(), env_id.as_str(), run_job_id, now),
        None => Ok(()),
    }
}

/// Starts an `update_environment` job.
pub fn update_environment(store: &Store, job: &Job) -> (r: Result<Step, JobError>)
    ensures
        match update_start(store@, job@) {
            Ok(step) => r is Ok && r->Ok_0@ == step,
            Err(e) => r is Err && r->Err_0@ == e,
        },
{
    let env_id = match &job.payload.env_id {
        Some(id) => id,
        None => {
            return Err(JobError::MissingEnvId);
        },
    };
    match find_environment(&store.environments, env_id.as_str()) {
        Some(i) => {
            assert(store.environments.deep_view()[i as int] == store.environments@[i as int]@);
            if store.environments[i].status != EnvironmentStatus::Pool {
                Ok(Step::Done)
            } else {
                Ok(
                    Step::Update {
                        provider: store.environments[i].provider.clone(),
                        metadata: store.environments[i].metadata.clone(),
                    },
                )
            }
        },
        None => Ok(Step::Done),
    }
}

/// Ends an `update_environment` job with the metadata that the provider
/// gave.
pub fn update_environment_done(store: &mut Store, job: &Job, metadata: &str, now: i64) -> (r: Result<
    (),
    JobError,
>)
    ensures
        end_is(final(store)@, r, update_end(old(store)@, job@, metadata@, now as int)),
        old(store)@.wf() ==> final(store)@.wf(),
{
    let env_id = match &job.payload.env_id {
        Some(id) => id,
        None => {
            return Err(JobError::MissingEnvId);
        },
    };
    match update_environment_metadata(store, env_id.as_str(), metadata, now) {
        Ok(_) => Ok(()),
        Err(e) => Err(JobError::Store(e)),
    }
}

/// Starts a `claim_environment` job.
pub fn claim_environment(store: &Store, job: &Job) -> (r: Result<Step, JobError>)
    ensures
        match claim_start(store@, job@) {
            Ok(step) => r is Ok && r->Ok_0@ == step,
            Err(e) => r is Err && r->Err_0@ == e,
        },
{
    let env_id = match &job.payload.env_id {
        Some(id) => id,
        None => {
            return Err(JobError::MissingEnvId);
        },
    };
    match find_environment(&store.environments, env_id.as_str()) {
        Some(i) => {
            assert(store.environments.deep_view()[i as int] == store.environments@[i as int]@);
            if store.environments[i].status != EnvironmentStatus::InUse {
                if job.payload.task_id.is_some() {
                    Err(JobError::EnvironmentNotInUse { env_id: env_id.clone() })
                } else {
                    Ok(Step::Done)
                }
            } else {
                Ok(
                    Step::Claim {
                        provider: store.environments[i].provider.clone(),
                        metadata: store.environments[i].metadata.clone(),
                    },
                )
            }
        },
        None => Ok(Step::Done),
    }
}

/// Ends a `claim_environment` job with the metadata that the provider
/// gave. `run_job_id` is the id for the task's run, should it be queued.
pub fn claim_environment_done(store: &mut Store, job: &Job, metadata: &str, run_job_id: String, now: i64) -> (r:
    Result<(), JobError>)
    ensures
        end_is(final(store)@, r, claim_end(old(store)@, job@, metadata@, run_job_id@, now as int)),
        old(store)@.wf() ==> final(store)@.wf(),
{
    let env_id = match &job.payload.env_id {
        Some(id) => id,
        None => {
            return Err(JobError::MissingEnvId);
        },
    };
    match update_environment_metadata(store, env_id.as_str(), metadata, now) {
        Ok(_) => {},
        Err(e) => {
            return Err(JobError::Store(e));
        },
    }
    match &job.payload.task_id {
        Some(task_id) => match find_task(&store.tasks, task_id.as_str()) {
            Some(t) => {
                assert(store.tasks.deep_view()[t as int] == store.tasks@[t as int]@);
                if store.tasks[t].status == TaskStatus::Pending {
                    enqueue_run_task(store, task_id.as_str(), env_id.as_str(), run_job_id, now)
                } else {
                    Ok(())
                }
            },
            None => Err(JobError::Store(StoreError::NotFound)),
        },
        None => Ok(()),
    }
}

/// Starts a `remove_environment` job.
pub fn remove_environment(store: &Store, job: &Job) -> (r: Result<Step, JobError>)
    ensures
        match remove_environment_start(store@, job@) {
            Ok(step) => r is Ok && r->Ok_0@ == step,
            Err(e) => r is Err && r->Err_0@ == e,
        },
{
    let env_id = match &job.payload.env_id {
        Some(id) => id,
        None => {
            return Err(JobError::MissingEnvId);
        },
    };
    match find_environment(&store.environments, env_id.as_str()) {
        Some(i) => {
            assert(store.environments.deep_view()[i as int] == store.environments@[i as int]@);
            Ok(
                Step::Remove {
                    provider: store.environments[i].provider.clone(),
                    metadata: store.environments[i].metadata.clone(),
                },
            )
        },
        None => Ok(Step::Done),
    }
}

/// Ends a `remove_environment` job after the provider has removed the
/// environment.
pub fn remove_environment_done(store: &mut Store, job: &Job) -> (r: Result<(), JobError>)
    ensures
        end_is(final(store)@, r, remove_environment_end(old(store)@, job@)),
        old(store)@.wf() ==> final(store)@.wf(),
{
    let env_id = match &job.payload.env_id {
        Some(id) => id,
        None => {
            return Err(JobError::MissingEnvId);
        },
    };
    match delete_environment(store, env_id.as_str()) {
        Ok(_) => Ok(()),
        Err(e) => Err(JobError::Store(e)),
    }
}

/// Starts a `remove_task` job.
pub fn remove_task(store: &Store, job: &Job) -> (r: Result<Step, JobError>)
    ensures
        match remove_task_start(store@, job@) {
            Ok(step) => r is Ok && r->Ok_0@ == step,
            Err(e) => r is Err && r->Err_0@ == e,
        },
{
    if job.payload.task_id.is_none() {
        return Err(JobError::MissingTaskId);
    }
    let env_id = match &job.payload.env_id {
        Some(id) => id,
        None => {
            return Err(JobError::MissingEnvId);
        },
    };
    match find_environment(&store.environments, env_id.as_str()) {
        Some(i) => {
            assert(store.environments.deep_view()[i as int] == store.environments@[i as int]@);
            Ok(
                Step::Remove {
                    provider: store.environments[i].provider.clone(),
                    metadata: store.environments[i].metadata.clone(),
                },
            )
        },
        None => Ok(Step::Finish),
    }
}

/// Ends a `remove_task` job after the provider has removed the
/// environment, or where there was none to remove.
pub fn remove_task_done(store: &mut Store, job: &Job) -> (r: Result<(), JobError>)
    ensures
        end_is(final(store)@, r, remove_task_end(old(store)@, job@)),
        old(store)@.wf() ==> final(store)@.wf(),
{
    let task_id = match &job.payload.task_id {
        Some(id) => id,
        None => {
            return Err(JobError::MissingTaskId);
        },
    };
    let env_id = match &job.payload.env_id {
        Some(id) => id,
        None => {
            return Err(JobError::MissingEnvId);
        },
    };
    delete_task_and_environment(store, task_id.as_str(), env_id.as_str());
    Ok(())
}

/// Fills the task's description into an argument list.
pub fn resolve_args(args: &Vec<String>, description: &str) -> (r: Vec<String>)
    ensures
        r.deep_view() == resolved_args(args.deep_view(), description@),
{
    proof {
        reveal_strlit("{task_description}");
    }
    let mut r: Vec<String> = Vec::new();
    let mut i: usize = 0;
    while i < args.len()
        invariant
            i <= args.len(),
            r.len() == i,
            "{task_description}"@.len() > 0,
            forall|k: int|
                0 <= k < i ==> (#[trigger] r@[k])@ == replace_spec(
                    args@[k]@,
                    "{task_description}"@,
                    description@,
                ),
        decreases args.len() - i,
    {
        r.push(str_replace(args[i].as_str(), "{task_description}", description));
        i += 1;
    }
    assert(r.deep_view() =~= resolved_args(args.deep_view(), description@));
    r
}

/// Starts a `run_task` job.
pub fn run_task(store: &mut Store, job: &Job, config: &Config, now: i64) -> (r: Result<Step, JobError>)
    ensures
        step_is(final(store)@, r, run_start(old(store)@, job@, config, now as int)),
        old(store)@.wf() ==> final(store)@.wf(),
{
    let task_id = match &job.payload.task_id {
        Some(id) => id,
        None => {
            return Err(JobError::MissingTaskId);
        },
    };
    let env_id = match &job.payload.env_id {
        Some(id) => id,
        None => {
            return Err(JobError::MissingEnvId);
        },
    };
    let t = match find_task(&store.tasks, task_id.as_str()) {
        Some(t) => t,
        None => {
            return Err(JobError::Store(StoreError::NotFound));
        },
    };
    assert(store.tasks.deep_view()[t as int] == store.tasks@[t as int]@);
    match store.tasks[t].status {
        TaskStatus::Complete | TaskStatus::Failed => {
            return Ok(Step::Done);
        },
        TaskStatus::Started => {
            return Err(JobError::TaskAlreadyStarted { task_id: task_id.clone() });
        },
        TaskStatus::Pending => {},
    }
    let i = match find_environment(&store.environments, env_id.as_str()) {
        Some(i) => i,
        None => {
            return Err(JobError::Store(StoreError::NotFound));
        },
    };
    assert(store.environments.deep_view()[i as int] == store.environments@[i as int]@);
    if store.environments[i].status != EnvironmentStatus::InUse {
        return Err(JobError::EnvironmentNotInUse { env_id: env_id.clone() });
    }
    let task = match start_task(store, task_id.as_str(), now) {
        Ok(task) => task,
        Err(e) => {
            return Err(JobError::Store(e));
        },
    };
    assert(store.environments.deep_view()[i as int] == store.environments@[i as int]@);
    match config.get_task_provider(task.provider.as_str()) {
        Ok(TaskProviderConfig::Command { command, args }) => Ok(
            Step::Run {
                provider: store.environments[i].provider.clone(),
                metadata: store.environments[i].metadata.clone(),
                task_id: task_id.clone(),
                command: command.clone(),
                args: resolve_args(args, task.description.as_str()),
            },
        ),
        Err(_) => Err(JobError::TaskProviderNotFound { name: task.provider }),
    }
}

/// Ends a `run_task` job after the task's command has ended.
pub fn run_task_done(store: &mut Store, job: &Job, success: bool, now: i64) -> (r: Result<(), JobError>)
    ensures
        end_is(final(store)@, r, run_end(old(store)@, job@, success, now as int)),
        old(store)@.wf() ==> final(store)@.wf(),
{
    let task_id = match &job.payload.task_id {
        Some(id) => id,
        None => {
            return Err(JobError::MissingTaskId);
        },
    };
    let status = if success {
        TaskStatus::Complete
    } else {
        TaskStatus::Failed
    };
    match update_task_status(store, task_id.as_str(), status, now) {
        Ok(_) => Ok(()),
        Err(e) => Err(JobError::Store(e)),
    }
}

/// What the worker reports after it has done what a step asked for.
#[derive(Debug)]
pub enum StepResult {
    /// The provider prepared, updated or claimed the environment and
    /// left this metadata.
    Metadata(String),
    /// The provider removed the environment, or there was none to remove.
    Removed,
    /// The task's command ended.
    Exited { success: bool },
    /// The provider's work, or the launch of the task's command, failed.
    Failed { error: String },
}

/// The value of a [`StepResult`].
pub enum StepResultView {
    Metadata(Seq<char>),
    Removed,
    Exited { success: bool },
    Failed { error: Seq<char> },
}

impl View for StepResult {
    type V = StepResultView;

    open spec fn view(&self) -> StepResultView {
        match self {
            StepResult::Metadata(m) => StepResultView::Metadata(m@),
            StepResult::Removed => StepResultView::Removed,
            StepResult::Exited { success } => StepResultView::Exited { success: *success },
            StepResult::Failed { error } => StepResultView::Failed { error: error@ },
        }
    }
}

/// The start of a job, by its kind.
pub open spec fn begin_spec(pre: StoreView, job: JobView, config: &Config, run_job_id: Seq<char>, now: int) -> Outcome<
    StepView,
> {
    match job.job_type {
        JobType::PrepareEnvironment => prepare_start(pre, job, run_job_id, now),
        JobType::UpdateEnvironment => unchanged(pre, update_start(pre, job)),
        JobType::ClaimEnvironment => unchanged(pre, claim_start(pre, job)),
        JobType::RemoveEnvironment => unchanged(pre, remove_environment_start(pre, job)),
        JobType::RemoveTask => unchanged(pre, remove_task_start(pre, job)),
        JobType::RunTask => run_start(pre, job, config, now),
    }
}

/// The end of a job, by its kind and by what the worker reports. A
/// failure writes nothing and becomes the error of the attempt; a report
/// that does not fit the kind is refused and changes nothing.
pub open spec fn finish_spec(pre: StoreView, job: JobView, result: StepResultView, run_job_id: Seq<char>, now: int) -> Outcome<
    (),
> {
    match (job.job_type, result) {
        (_, StepResultView::Failed { error }) => unchanged(
            pre,
            Err(JobErrorView::ProviderFailure { message: error }),
        ),
        (JobType::PrepareEnvironment, StepResultView::Metadata(m)) => prepare_end(pre, job, m, run_job_id, now),
        (JobType::UpdateEnvironment, StepResultView::Metadata(m)) => update_end(pre, job, m, now),
        (JobType::ClaimEnvironment, StepResultView::Metadata(m)) => claim_end(pre, job, m, run_job_id, now),
        (JobType::RemoveEnvironment, StepResultView::Removed) => remove_environment_end(pre, job),
        (JobType::RemoveTask, StepResultView::Removed) => remove_task_end(pre, job),
        (JobType::RunTask, StepResultView::Exited { success }) => run_end(pre, job, success, now),
        _ => unchanged(pre, Err(JobErrorView::UnexpectedResult)),
    }
}

/// Starts a job: decides, by its kind, what the worker has to do next.
/// `run_job_id` is the id for a task's run, should one be queued.
pub fn begin_job(store: &mut Store, job: &Job, config: &Config, run_job_id: String, now: i64) -> (r: Result<
    Step,
    JobError,
>)
    ensures
        step_is(final(store)@, r, begin_spec(old(store)@, job@, config, run_job_id@, now as int)),
        old(store)@.wf() ==> final(store)@.wf(),
{
    match job.job_type {
        JobType::PrepareEnvironment => prepare_environment(store, job, run_job_id, now),
        JobType::UpdateEnvironment => update_environment(store, job),
        JobType::ClaimEnvironment => claim_environment(store, job),
        JobType::RemoveEnvironment => remove_environment(store, job),
        JobType::RemoveTask => remove_task(store, job),
        JobType::RunTask => run_task(store, job, config, now),
    }
}

/// Ends a job with what the worker reports. `run_job_id` is the id for a
/// task's run, should one be queued.
pub fn finish_job(store: &mut Store, job: &Job, result: &StepResult, run_job_id: String, now: i64) -> (r: Result<
    (),
    JobError,
>)
    ensures
        end_is(final(store)@, r, finish_spec(old(store)@, job@, result@, run_job_id@, now as int)),
        old(store)@.wf() ==> final(store)@.wf(),
{
    if let StepResult::Failed { error } = result {
        return Err(JobError::ProviderFailure { message: error.clone() });
    }
    match job.job_type {
        JobType::PrepareEnvironment => match result {
            StepResult::Metadata(m) => prepare_environment_done(store, job, m.as_str(), run_job_id, now),
            _ => Err(JobError::UnexpectedResult),
        },
        JobType::UpdateEnvironment => match result {
            StepResult::Metadata(m) => update_environment_done(store, job, m.as_str(), now),
            _ => Err(JobError::UnexpectedResult),
        },
        JobType::ClaimEnvironment => match result {
            StepResult::Metadata(m) => claim_environment_done(store, job, m.as_str(), run_job_id, now),
            _ => Err(JobError::UnexpectedResult),
        },
        JobType::RemoveEnvironment => match result {
            StepResult::Removed => remove_environment_done(store, job),
            _ => Err(JobError::UnexpectedResult),
        },
        JobType::RemoveTask => match result {
            StepResult::Removed => remove_task_done(store, job),
            _ => Err(JobError::UnexpectedResult),
        },
        JobType::RunTask => match result {
            StepResult::Exited { success } => run_task_done(store, job, *success, now),
            _ => Err(JobError::UnexpectedResult),
        },
    }
}

} // verus!
