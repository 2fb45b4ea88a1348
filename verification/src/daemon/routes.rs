//! How requests are answered: which store operation a request stands
//! for, and the status code that its result is reported with.

use crate::db::entities::{
    environment_in,
    create_project as store_create_project,
    delete_project as store_delete_project,
    get_environment as store_get_environment,
    get_task as store_get_task,
    ById,
    ByName,
    NewestFirst,
};
use crate::db::staging::{
    force_delete_environment,
    force_delete_task,
    new_environment,
    new_task,
    pool_candidate,
    stage_claim_environment,
    stage_claim_next_environment,
    stage_prepare_environment,
    stage_remove_environment,
    stage_remove_task,
    stage_task_create,
    stage_update_environment,
    transition,
    update_job,
    Staged,
    with_status,
};
use crate::db::types::{
    Environment,
    EnvironmentStatus,
    Project,
    ProjectView,
    Store,
    StoreError,
    StoreView,
    Task,
};
use crate::order::is_listing;
use vstd::prelude::*;

verus! {

/// The request of `POST /projects`.
#[derive(Debug)]
pub struct CreateProjectRequest {
    pub name: String,
    pub path: String,
}

/// The request of `POST /environments`.
#[derive(Debug)]
pub struct PrepareEnvironmentRequest {
    pub project_id: String,
    pub provider: String,
    pub claim_after_prepare: bool,
}

/// The request of `POST /environments/claim`.
#[derive(Debug)]
pub struct ClaimNextEnvironmentRequest {
    pub provider: String,
    pub project_id: String,
}

/// The query of the two `DELETE` routes.
#[derive(Debug, Default)]
pub struct RemoveQuery {
    pub skip_provider: bool,
}

/// The request of `POST /tasks`.
#[derive(Debug)]
pub struct CreateTaskRequest {
    pub project_id: String,
    pub provider: String,
    pub env_provider: String,
    pub description: String,
}

/// 200: success with a body.
pub const OK: u16 = 200;

/// 201: a project was created.
pub const CREATED: u16 = 201;

/// 202: the request was staged and a job is queued.
pub const ACCEPTED: u16 = 202;

/// 204: rows were deleted directly.
pub const NO_CONTENT: u16 = 204;

/// The status code that reports an error.
pub open spec fn error_status_spec(e: StoreError) -> u16 {
    match e {
        StoreError::NotFound => 404,
        StoreError::Duplicate => 409,
        StoreError::Conflict => 409,
        StoreError::InvalidState => 500,
        StoreError::Storage => 500,
    }
}

/// Computes [`error_status_spec`].
pub fn error_status(e: StoreError) -> (status: u16)
    ensures
        status == error_status_spec(e),
{
    match e {
        StoreError::NotFound => 404,
        StoreError::Duplicate | StoreError::Conflict => 409,
        StoreError::InvalidState | StoreError::Storage => 500,
    }
}

/// The answer to a request: the result of the store operation and the
/// status code that reports it.
#[derive(Debug)]
pub struct Reply<T> {
    pub status: u16,
    pub result: Result<T, StoreError>,
}

impl<T> Reply<T> {
    /// The status is `success` for a result, else that of the error.
    pub open spec fn reports(self, success: u16) -> bool {
        match self.result {
            Ok(_) => self.status == success,
            Err(e) => self.status == error_status_spec(e),
        }
    }

    /// Listeners are told of a change where the request succeeded.
    pub open spec fn changed(self) -> bool {
        self.result is Ok
    }

    /// Decides [`Reply::changed`].
    pub fn notifies(&self) -> (r: bool)
        ensures
            r == self.changed(),
    {
        self.result.is_ok()
    }
}

fn reply<T>(success: u16, result: Result<T, StoreError>) -> (r: Reply<T>)
    ensures
        r.result == result,
        r.reports(success),
{
    let status = match &result {
        Ok(_) => success,
        Err(e) => error_status(*e),
    };
    Reply { status, result }
}

/// `GET /health`: always 200.
pub fn health() -> (status: u16)
    ensures
        status == OK,
{
    OK
}

/// `GET /projects`.
pub fn list_projects(store: &Store) -> (r: Reply<Vec<Project>>)
    ensures
        r.status == OK,
        r.result is Ok,
        is_listing::<Project, ByName>(store@.projects, r.result->Ok_0.deep_view()),
{
    reply(OK, Ok(crate::db::entities::list_projects(store)))
}

/// `POST /projects`: 201 where the project was created.
pub fn create_project(store: &mut Store, body: &CreateProjectRequest, id: String, now: i64) -> (r: Reply<()>)
    ensures
        r.reports(CREATED),
        r.result is Ok <==> old(store)@.project_position(id@) is None && old(store)@.project_name_position(
            body.name@,
        ) is None,
        r.result is Ok ==> final(store)@ == old(store)@.insert_project(
            ProjectView {
                id: id@,
                name: body.name@,
                path: body.path@,
                created_at: now as int,
                updated_at: now as int,
            },
        ),
        r.result is Err ==> r.result->Err_0 == StoreError::Duplicate && final(store)@ == old(store)@,
        old(store)@.wf() ==> final(store)@.wf(),
{
    reply(CREATED, store_create_project(store, body.name.as_str(), body.path.as_str(), id, now))
}

/// `DELETE /projects/{name}`: 204 where the project was deleted.
pub fn delete_project(store: &mut Store, name: &str) -> (r: Reply<()>)
    ensures
        r.reports(NO_CONTENT),
        match old(store)@.project_name_position(name@) {
            Some(i) => r.result is Ok && final(store)@ == old(store)@.remove_project(i),
            None => r.result == Err::<(), StoreError>(StoreError::NotFound) && final(store)@ == old(store)@,
        },
        old(store)@.wf() ==> final(store)@.wf(),
{
    reply(NO_CONTENT, store_delete_project(store, name))
}

/// `POST /reset-database`: the store starts over, with the migrations
/// applied at `now`; 204.
pub fn reset_database(store: &mut Store, now: i64) -> (status: u16)
    ensures
        status == NO_CONTENT,
        final(store)@.projects.len() == 0,
        final(store)@.environments.len() == 0,
        final(store)@.tasks.len() == 0,
        final(store)@.jobs.len() == 0,
        final(store)@.migrations == crate::db::migrations::migrated(
            Seq::empty(),
            crate::db::migrations::known_migrations(),
            now as int,
        ),
        final(store)@.wf(),
{
    *store = crate::db::migrations::initialize(now);
    NO_CONTENT
}

/// `GET /environments`.
pub fn list_environments(store: &Store) -> (r: Reply<Vec<Environment>>)
    ensures
        r.status == OK,
        r.result is Ok,
        is_listing::<Environment, ById>(store@.environments, r.result->Ok_0.deep_view()),
{
    reply(OK, Ok(crate::db::entities::list_environments(store)))
}

/// `GET /environments/{id}`.
pub fn get_environment(store: &Store, id: &str) -> (r: Reply<Environment>)
    ensures
        r.reports(OK),
        match store@.environment_position(id@) {
            Some(i) => r.result is Ok && r.result->Ok_0@ == store@.environments[i],
            None => r.result is Err && r.result->Err_0 == StoreError::NotFound,
        },
{
    reply(OK, store_get_environment(store, id))
}

/// `POST /environments`: 202 where the preparation was staged.
pub fn prepare_environment(
    store: &mut Store,
    body: &PrepareEnvironmentRequest,
    env_id: String,
    job_id: String,
    now: i64,
) -> (r: Reply<Environment>)
    ensures
        r.reports(ACCEPTED),
        ({
            let expected = old(store)@.stage_prepare_environment(
                body.project_id@,
                body.provider@,
                body.claim_after_prepare,
                env_id@,
                job_id@,
                now as int,
            );
            &&& transition(old(store)@, final(store)@, expected)
            &&& match expected {
                Ok(_) => r.result is Ok && r.result->Ok_0@ == new_environment(
                    env_id@,
                    body.project_id@,
                    body.provider@,
                    now as int,
                ),
                Err(e) => r.result is Err && r.result->Err_0 == e,
            }
        }),
        old(store)@.wf() ==> final(store)@.wf(),
{
    reply(
        ACCEPTED,
        stage_prepare_environment(
            store,
            body.project_id.as_str(),
            body.provider.as_str(),
            body.claim_after_prepare,
            env_id,
            job_id,
            now,
        ),
    )
}

/// `POST /environments/{id}/update`: 202 where the update was staged. The
/// answer holds the environment and the id of the job that stands for
/// the update.
pub fn update_environment(store: &mut Store, id: &str, job_id: String, now: i64) -> (r: Reply<
    Staged<Environment>,
>)
    ensures
        r.reports(ACCEPTED),
        ({
            let expected = old(store)@.stage_update_environment(id@, job_id@, now as int);
            &&& transition(old(store)@, final(store)@, expected)
            &&& match expected {
                Ok(_) => {
                    &&& r.result is Ok
                    &&& old(store)@.environment_position(id@) is Some
                    &&& r.result->Ok_0.row@ == old(store)@.environments[old(store)@.environment_position(
                        id@,
                    )->0]
                    &&& Ok::<Seq<char>, StoreError>(r.result->Ok_0.job_id@) == old(store)@.inserted_id(
                        update_job(id@, job_id@, now as int),
                    )
                },
                Err(e) => r.result is Err && r.result->Err_0 == e,
            }
        }),
        old(store)@.wf() ==> final(store)@.wf(),
{
    reply(ACCEPTED, stage_update_environment(store, id, job_id, now))
}

/// `POST /environments/{id}/claim`: 202 where the claim was staged.
pub fn claim_environment(store: &mut Store, id: &str, job_id: String, now: i64) -> (r: Reply<Environment>)
    ensures
        r.reports(ACCEPTED),
        ({
            let expected = old(store)@.stage_claim_environment(id@, job_id@, now as int);
            &&& transition(old(store)@, final(store)@, expected)
            &&& match expected {
                Ok(_) => r.result is Ok && environment_in(old(store)@, id@, EnvironmentStatus::Pool) is Some
                    && r.result->Ok_0@ == with_status(
                    old(store)@.environments[environment_in(old(store)@, id@, EnvironmentStatus::Pool)->0],
                    EnvironmentStatus::InUse,
                    now as int,
                ),
                Err(e) => r.result is Err && r.result->Err_0 == e,
            }
        }),
        old(store)@.wf() ==> final(store)@.wf(),
{
    reply(ACCEPTED, stage_claim_environment(store, id, job_id, now))
}

/// `POST /environments/claim`: 202 where a claim was staged.
pub fn claim_next_environment(
    store: &mut Store,
    body: &ClaimNextEnvironmentRequest,
    job_id: String,
    now: i64,
) -> (r: Reply<Environment>)
    ensures
        r.reports(ACCEPTED),
        ({
            let expected = old(store)@.stage_claim_next_environment(
                body.provider@,
                body.project_id@,
                job_id@,
                now as int,
            );
            &&& transition(old(store)@, final(store)@, expected)
            &&& match expected {
                Ok(_) => r.result is Ok && pool_candidate(
                    old(store)@.environments,
                    body.provider@,
                    body.project_id@,
                ) is Some && r.result->Ok_0@ == with_status(
                    old(store)@.environments[pool_candidate(
                        old(store)@.environments,
                        body.provider@,
                        body.project_id@,
                    )->0],
                    EnvironmentStatus::InUse,
                    now as int,
                ),
                Err(e) => r.result is Err && r.result->Err_0 == e,
            }
        }),
        old(store)@.wf() ==> final(store)@.wf(),
{
    reply(
        ACCEPTED,
        stage_claim_next_environment(store, body.provider.as_str(), body.project_id.as_str(), job_id, now),
    )
}

/// What `DELETE /environments/{id}` does to the store: the row is deleted
/// at once where the provider is skipped, else its removal is staged.
pub open spec fn remove_environment_spec(
    pre: StoreView,
    id: Seq<char>,
    skip_provider: bool,
    job_id: Seq<char>,
    now: int,
) -> Result<StoreView, StoreError> {
    if skip_provider {
        pre.force_delete_environment(id)
    } else {
        pre.stage_remove_environment(id, job_id, now)
    }
}

/// `DELETE /environments/{id}`: 204 where the row was deleted at once,
/// 202 where the removal was staged.
pub fn remove_environment(store: &mut Store, id: &str, query: &RemoveQuery, job_id: String, now: i64) -> (r:
    Reply<()>)
    ensures
        r.reports(
            if query.skip_provider {
                NO_CONTENT
            } else {
                ACCEPTED
            },
        ),
        ({
            let expected = remove_environment_spec(old(store)@, id@, query.skip_provider, job_id@, now as int);
            &&& transition(old(store)@, final(store)@, expected)
            &&& match expected {
                Ok(_) => r.result is Ok,
                Err(e) => r.result is Err && r.result->Err_0 == e,
            }
        }),
        old(store)@.wf() ==> final(store)@.wf(),
{
    if query.skip_provider {
        reply(NO_CONTENT, force_delete_environment(store, id))
    } else {
        reply(ACCEPTED, stage_remove_environment(store, id, job_id, now))
    }
}

/// `GET /tasks`.
pub fn list_tasks(store: &Store) -> (r: Reply<Vec<Task>>)
    ensures
        r.status == OK,
        r.result is Ok,
        is_listing::<Task, NewestFirst>(store@.tasks, r.result->Ok_0.deep_view()),
{
    reply(OK, Ok(crate::db::entities::list_tasks(store)))
}

/// `GET /tasks/{id}`.
pub fn get_task(store: &Store, id: &str) -> (r: Reply<Task>)
    ensures
        r.reports(OK),
        match store@.task_position(id@) {
            Some(i) => r.result is Ok && r.result->Ok_0@ == store@.tasks[i],
            None => r.result is Err && r.result->Err_0 == StoreError::NotFound,
        },
{
    reply(OK, store_get_task(store, id))
}

/// `POST /tasks`: 202 where the task was staged.
pub fn create_task(
    store: &mut Store,
    body: &CreateTaskRequest,
    task_id: String,
    new_env_id: String,
    job_id: String,
    now: i64,
) -> (r: Reply<Task>)
    ensures
        r.reports(ACCEPTED),
        ({
            let expected = old(store)@.stage_task_create(
                body.project_id@,
                body.provider@,
                body.env_provider@,
                body.description@,
                task_id@,
                new_env_id@,
                job_id@,
                now as int,
            );
            &&& transition(old(store)@, final(store)@, expected)
            &&& match expected {
                Ok(_) => r.result is Ok && r.result->Ok_0@ == new_task(
                    task_id@,
                    old(store)@.environment_for_task(body.env_provider@, body.project_id@, new_env_id@),
                    body.project_id@,
                    body.provider@,
                    body.description@,
                    now as int,
                ),
                Err(e) => r.result is Err && r.result->Err_0 == e,
            }
        }),
        old(store)@.wf() ==> final(store)@.wf(),
{
    reply(
        ACCEPTED,
        stage_task_create(
            store,
            body.project_id.as_str(),
            body.provider.as_str(),
            body.env_provider.as_str(),
            body.description.as_str(),
            task_id,
            new_env_id,
            job_id,
            now,
        ),
    )
}

/// What `DELETE /tasks/{id}` does to the store: the rows are deleted at
/// once where the provider is skipped, else the removal is staged.
pub open spec fn remove_task_spec(pre: StoreView, id: Seq<char>, skip_provider: bool, job_id: Seq<char>, now: int) -> Result<
    StoreView,
    StoreError,
> {
    if skip_provider {
        pre.force_delete_task(id)
    } else {
        pre.stage_remove_task(id, job_id, now)
    }
}

/// `DELETE /tasks/{id}`: 204 where the rows were deleted at once, 202
/// where the removal was staged.
pub fn remove_task(store: &mut Store, id: &str, query: &RemoveQuery, job_id: String, now: i64) -> (r: Reply<()>)
    ensures
        r.reports(
            if query.skip_provider {
                NO_CONTENT
            } else {
                ACCEPTED
            },
        ),
        ({
            let expected = remove_task_spec(old(store)@, id@, query.skip_provider, job_id@, now as int);
            &&& transition(old(store)@, final(store)@, expected)
            &&& match expected {
                Ok(_) => r.result is Ok,
                Err(e) => r.result is Err && r.result->Err_0 == e,
            }
        }),
        old(store)@.wf() ==> final(store)@.wf(),
{
    if query.skip_provider {
        reply(NO_CONTENT, force_delete_task(store, id))
    } else {
        reply(ACCEPTED, stage_remove_task(store, id, job_id, now))
    }
}

/// How the log of a task is served.
#[derive(Clone, Copy, Debug, PartialEq, Eq, Structural)]
pub enum LogMode {
    /// The task has ended: the whole log is the body.
    Whole,
    /// The task has not ended: the log is streamed as it grows.
    Follow,
}

/// `GET /tasks/{id}/logs`: how the log is served, or 404.
pub fn tail_task_logs(store: &Store, id: &str) -> (r: Reply<LogMode>)
    ensures
        r.reports(OK),
        match store@.task_position(id@) {
            Some(i) => r.result == Ok::<LogMode, StoreError>(
                if store@.tasks[i].status.is_terminal() {
                    LogMode::Whole
                } else {
                    LogMode::Follow
                },
            ),
            None => r.result == Err::<LogMode, StoreError>(StoreError::NotFound),
        },
{
    match store_get_task(store, id) {
        Ok(task) => reply(
            OK,
            Ok(
                if task.status.terminal() {
                    LogMode::Whole
                } else {
                    LogMode::Follow
                },
            ),
        ),
        Err(e) => reply(OK, Err(e)),
    }
}

/// `GET /environments/{id}/logs`: the log is streamed where the
/// environment exists, else 404.
pub fn tail_environment_logs(store: &Store, id: &str) -> (r: Reply<LogMode>)
    ensures
        r.reports(OK),
        match store@.environment_position(id@) {
            Some(_) => r.result == Ok::<LogMode, StoreError>(LogMode::Follow),
            None => r.result == Err::<LogMode, StoreError>(StoreError::NotFound),
        },
{
    match store_get_environment(store, id) {
        Ok(_) => reply(OK, Ok(LogMode::Follow)),
        Err(e) => reply(OK, Err(e)),
    }
}

/// The part of a log that has not been sent: from `sent` to `len`, where
/// the log has grown.
pub open spec fn unsent(sent: u64, len: u64) -> Option<(u64, u64)> {
    if len > sent {
        Some((sent, (len - sent) as u64))
    } else {
        None
    }
}

/// The next piece of a log to send: its offset and its length.
pub fn next_chunk(sent: u64, len: u64) -> (r: Option<(u64, u64)>)
    ensures
        r == unsent(sent, len),
{
    if len > sent {
        Some((sent, len - sent))
    } else {
        None
    }
}

/// The owner's status is looked at on every tenth tick of a tail.
pub fn checks_status(tick: u64) -> (r: bool)
    ensures
        r == (tick % 10 == 0),
{
    tick % 10 == 0
}

/// A task's tail ends once the task has ended. A task that is gone keeps
/// the tail open.
pub fn task_tail_ends(store: &Store, task_id: &str) -> (r: bool)
    ensures
        r == match store@.task_position(task_id@) {
            Some(i) => store@.tasks[i].status.is_terminal(),
            None => false,
        },
{
    match store_get_task(store, task_id) {
        Ok(task) => task.status.terminal(),
        Err(_) => false,
    }
}

/// An environment's tail ends once the environment is gone.
pub fn environment_tail_ends(store: &Store, env_id: &str) -> (r: bool)
    ensures
        r == (store@.environment_position(env_id@) is None),
{
    store_get_environment(store, env_id).is_err()
}

} // verus!
