//! Lifecycle staging: each operation writes entity rows together with the
//! job that has to follow, or changes nothing.

use super::entities::environment_in;
use super::jobs::{insert_job_tx, new_job};
use super::query::{
    environment_ids,
    find_environment,
    find_project,
    find_task,
    find_task_of_environment,
    lemma_unique_push,
    task_ids,
};
use super::types::{
    clone_environment,
    clone_task,
    Environment,
    EnvironmentStatus,
    EnvironmentView,
    JobPayload,
    JobPayloadView,
    JobType,
    JobView,
    Store,
    StoreError,
    StoreView,
    Task,
    TaskStatus,
    TaskView,
};
use crate::order::{lemma_precedes_total, masked, precedes, select_in_order, Order};
use crate::text::str_eq;
use vstd::prelude::*;

verus! {

/// The dedupe key of a job of kind `t` on the environment `id`.
pub open spec fn env_key(t: JobType, id: Seq<char>) -> Seq<char> {
    t.name() + ":env:"@ + id
}

/// The dedupe key of a job of kind `t` on the task `id`.
pub open spec fn task_key(t: JobType, id: Seq<char>) -> Seq<char> {
    t.name() + ":task:"@ + id
}

/// Builds [`env_key`].
pub fn env_dedupe_key(t: JobType, id: &str) -> (r: String)
    ensures
        r@ == env_key(t, id@),
{
    String::from_str(t.as_str()).concat(":env:").concat(id)
}

/// Builds [`task_key`].
pub fn task_dedupe_key(t: JobType, id: &str) -> (r: String)
    ensures
        r@ == task_key(t, id@),
{
    String::from_str(t.as_str()).concat(":task:").concat(id)
}

/// The payload of a job that acts on one environment.
pub open spec fn env_payload(env_id: Seq<char>, claim_after_prepare: bool) -> JobPayloadView {
    JobPayloadView { env_id: Some(env_id), task_id: None, claim_after_prepare }
}

/// The payload of a job that acts on a task and its environment.
pub open spec fn task_payload(task_id: Seq<char>, env_id: Seq<char>) -> JobPayloadView {
    JobPayloadView { env_id: Some(env_id), task_id: Some(task_id), claim_after_prepare: false }
}

/// An environment as it is created: preparing, with empty metadata.
pub open spec fn new_environment(id: Seq<char>, project_id: Seq<char>, provider: Seq<char>, now: int) -> EnvironmentView {
    EnvironmentView {
        id,
        project_id,
        provider,
        status: EnvironmentStatus::Preparing,
        metadata: "{}"@,
        created_at: now,
        updated_at: now,
    }
}

/// A task as it is created: pending.
pub open spec fn new_task(
    id: Seq<char>,
    environment_id: Seq<char>,
    project_id: Seq<char>,
    provider: Seq<char>,
    description: Seq<char>,
    now: int,
) -> TaskView {
    TaskView {
        id,
        environment_id,
        project_id,
        provider,
        description,
        status: TaskStatus::Pending,
        created_at: now,
        updated_at: now,
    }
}

/// The `update_environment` job of an environment.
pub open spec fn update_job(env_id: Seq<char>, job_id: Seq<char>, now: int) -> JobView {
    new_job(
        job_id,
        JobType::UpdateEnvironment,
        env_payload(env_id, false),
        Some(env_key(JobType::UpdateEnvironment, env_id)),
        now,
    )
}

/// A row together with the job that stands for the request that staged
/// it: the job that was queued, or the active job that was there already.
#[derive(Debug)]
pub struct Staged<T> {
    pub row: T,
    pub job_id: String,
}

/// An environment with another status, as of `now`.
pub open spec fn with_status(e: EnvironmentView, status: EnvironmentStatus, now: int) -> EnvironmentView {
    EnvironmentView { status, updated_at: now, ..e }
}

impl StoreView {
    /// The store after a job has been staged, or the error that refuses it.
    pub open spec fn staged(self, job: JobView) -> Result<StoreView, StoreError> {
        match self.inserted_id(job) {
            Ok(_) => Ok(self.after_insert(job)),
            Err(e) => Err(e),
        }
    }

    /// What staging the preparation of a new environment does.
    pub open spec fn stage_prepare_environment(
        self,
        project_id: Seq<char>,
        provider: Seq<char>,
        claim_after_prepare: bool,
        env_id: Seq<char>,
        job_id: Seq<char>,
        now: int,
    ) -> Result<StoreView, StoreError> {
        if self.project_position(project_id) is None {
            Err(StoreError::NotFound)
        } else if self.environment_position(env_id) is Some {
            Err(StoreError::Duplicate)
        } else {
            self.insert_environment(new_environment(env_id, project_id, provider, now)).staged(
                new_job(
                    job_id,
                    JobType::PrepareEnvironment,
                    env_payload(env_id, claim_after_prepare),
                    Some(env_key(JobType::PrepareEnvironment, env_id)),
                    now,
                ),
            )
        }
    }

    /// What staging the update of a pooled environment does.
    pub open spec fn stage_update_environment(self, id: Seq<char>, job_id: Seq<char>, now: int) -> Result<
        StoreView,
        StoreError,
    > {
        match self.environment_position(id) {
            None => Err(StoreError::NotFound),
            Some(i) => if self.environments[i].status != EnvironmentStatus::Pool {
                Err(StoreError::InvalidState)
            } else {
                self.staged(update_job(id, job_id, now))
            },
        }
    }

    /// What staging the claim of the pooled environment at position `i` does.
    pub open spec fn stage_claim_at(self, i: int, job_id: Seq<char>, now: int) -> Result<
        StoreView,
        StoreError,
    > {
        let id = self.environments[i].id;
        self.set_environment(i, with_status(self.environments[i], EnvironmentStatus::InUse, now)).staged(
            new_job(
                job_id,
                JobType::ClaimEnvironment,
                env_payload(id, false),
                Some(env_key(JobType::ClaimEnvironment, id)),
                now,
            ),
        )
    }

    /// What staging the claim of a pooled environment does.
    pub open spec fn stage_claim_environment(self, id: Seq<char>, job_id: Seq<char>, now: int) -> Result<
        StoreView,
        StoreError,
    > {
        match environment_in(self, id, EnvironmentStatus::Pool) {
            None => Err(StoreError::InvalidState),
            Some(i) => self.stage_claim_at(i, job_id, now),
        }
    }

    /// What staging the removal of an environment does.
    pub open spec fn stage_remove_environment(self, id: Seq<char>, job_id: Seq<char>, now: int) -> Result<
        StoreView,
        StoreError,
    > {
        if self.task_of_environment(id) is Some {
            Err(StoreError::Conflict)
        } else {
            match self.environment_position(id) {
                None => Err(StoreError::NotFound),
                Some(i) => if self.environments[i].status == EnvironmentStatus::Removing {
                    Err(StoreError::Conflict)
                } else {
                    self.set_environment(
                        i,
                        with_status(self.environments[i], EnvironmentStatus::Removing, now),
                    ).staged(
                        new_job(
                            job_id,
                            JobType::RemoveEnvironment,
                            env_payload(id, false),
                            Some(env_key(JobType::RemoveEnvironment, id)),
                            now,
                        ),
                    )
                },
            }
        }
    }

    /// What staging the removal of a task does.
    pub open spec fn stage_remove_task(self, task_id: Seq<char>, job_id: Seq<char>, now: int) -> Result<
        StoreView,
        StoreError,
    > {
        match self.task_position(task_id) {
            None => Err(StoreError::NotFound),
            Some(t) => {
                let env_id = self.tasks[t].environment_id;
                match self.environment_position(env_id) {
                    None => Err(StoreError::NotFound),
                    Some(i) => {
                        let marked = if self.environments[i].status == EnvironmentStatus::Removing {
                            self
                        } else {
                            self.set_environment(
                                i,
                                with_status(self.environments[i], EnvironmentStatus::Removing, now),
                            )
                        };
                        marked.staged(
                            new_job(
                                job_id,
                                JobType::RemoveTask,
                                task_payload(task_id, env_id),
                                Some(task_key(JobType::RemoveTask, task_id)),
                                now,
                            ),
                        )
                    },
                }
            },
        }
    }

    /// What staging the claim of the oldest pooled environment of a
    /// provider and a project does.
    pub open spec fn stage_claim_next_environment(
        self,
        provider: Seq<char>,
        project_id: Seq<char>,
        job_id: Seq<char>,
        now: int,
    ) -> Result<StoreView, StoreError> {
        match pool_candidate(self.environments, provider, project_id) {
            None => Err(StoreError::NotFound),
            Some(i) => self.stage_claim_at(i, job_id, now),
        }
    }

    /// The environment that a new task gets: the oldest pooled one of the
    /// provider and the project, else a new one under `new_env_id`.
    pub open spec fn environment_for_task(
        self,
        env_provider: Seq<char>,
        project_id: Seq<char>,
        new_env_id: Seq<char>,
    ) -> Seq<char> {
        match pool_candidate(self.environments, env_provider, project_id) {
            Some(i) => self.environments[i].id,
            None => new_env_id,
        }
    }

    /// What staging the creation of a task does.
    pub open spec fn stage_task_create(
        self,
        project_id: Seq<char>,
        task_provider: Seq<char>,
        env_provider: Seq<char>,
        description: Seq<char>,
        task_id: Seq<char>,
        new_env_id: Seq<char>,
        job_id: Seq<char>,
        now: int,
    ) -> Result<StoreView, StoreError> {
        let env_id = self.environment_for_task(env_provider, project_id, new_env_id);
        let task = new_task(task_id, env_id, project_id, task_provider, description, now);
        if self.project_position(project_id) is None {
            Err(StoreError::NotFound)
        } else if self.task_position(task_id) is Some {
            Err(StoreError::Duplicate)
        } else {
            match pool_candidate(self.environments, env_provider, project_id) {
                Some(i) => self.set_environment(
                    i,
                    with_status(self.environments[i], EnvironmentStatus::InUse, now),
                ).insert_task(task).staged(
                    new_job(
                        job_id,
                        JobType::ClaimEnvironment,
                        task_payload(task_id, env_id),
                        Some(task_key(JobType::ClaimEnvironment, task_id)),
                        now,
                    ),
                ),
                None => if self.environment_position(new_env_id) is Some {
                    Err(StoreError::Duplicate)
                } else {
                    self.insert_environment(
                        new_environment(new_env_id, project_id, env_provider, now),
                    ).insert_task(task).staged(
                        new_job(
                            job_id,
                            JobType::PrepareEnvironment,
                            task_payload(task_id, env_id),
                            Some(env_key(JobType::PrepareEnvironment, env_id)),
                            now,
                        ),
                    )
                },
            }
        }
    }

    /// What deleting an environment without provider cleanup does.
    pub open spec fn force_delete_environment(self, id: Seq<char>) -> Result<StoreView, StoreError> {
        if self.task_of_environment(id) is Some {
            Err(StoreError::Conflict)
        } else {
            match self.environment_position(id) {
                None => Err(StoreError::NotFound),
                Some(i) => Ok(self.remove_environment(i)),
            }
        }
    }

    /// What deleting a task and its environment without provider cleanup does.
    pub open spec fn force_delete_task(self, task_id: Seq<char>) -> Result<StoreView, StoreError> {
        match self.task_position(task_id) {
            None => Err(StoreError::NotFound),
            Some(t) => match self.environment_position(self.tasks[t].environment_id) {
                None => Err(StoreError::NotFound),
                Some(i) => Ok(self.remove_task(t).remove_environment(i)),
            },
        }
    }
}

/// The store changed as `expected` says, or not at all where it is an error.
pub open spec fn transition(pre: StoreView, post: StoreView, expected: Result<StoreView, StoreError>) -> bool {
    match expected {
        Ok(s) => post == s,
        Err(_) => post == pre,
    }
}

/// Environments by creation time, oldest first.
pub struct OldestEnvironment;

impl Order<Environment> for OldestEnvironment {
    open spec fn before(a: EnvironmentView, b: EnvironmentView) -> bool {
        a.created_at < b.created_at
    }

    fn is_before(a: &Environment, b: &Environment) -> (r: bool) {
        a.created_at < b.created_at
    }

    proof fn lemma_strict_weak(a: EnvironmentView, b: EnvironmentView, c: EnvironmentView) {
    }
}

/// Which environments are pooled for the provider and the project.
pub open spec fn pool_mask(envs: Seq<EnvironmentView>, provider: Seq<char>, project_id: Seq<char>) -> Seq<
    bool,
> {
    Seq::new(
        envs.len(),
        |i: int|
            envs[i].status == EnvironmentStatus::Pool && envs[i].provider == provider && envs[i].project_id
                == project_id,
    )
}

/// The environment at position `i` is pooled for the provider and the
/// project, and it is the oldest such.
pub open spec fn is_pool_candidate(
    envs: Seq<EnvironmentView>,
    provider: Seq<char>,
    project_id: Seq<char>,
    i: int,
) -> bool {
    &&& 0 <= i < envs.len()
    &&& masked(pool_mask(envs, provider, project_id), i)
    &&& forall|k: int|
        0 <= k < envs.len() && #[trigger] masked(pool_mask(envs, provider, project_id), k) && k != i
            ==> precedes::<Environment, OldestEnvironment>(envs, i, k)
}

/// The oldest environment that is pooled for the provider and the project.
pub open spec fn pool_candidate(envs: Seq<EnvironmentView>, provider: Seq<char>, project_id: Seq<char>) -> Option<
    int,
> {
    if exists|i: int| is_pool_candidate(envs, provider, project_id, i) {
        Some(choose|i: int| is_pool_candidate(envs, provider, project_id, i))
    } else {
        None
    }
}

/// There is at most one pool candidate.
pub proof fn lemma_pool_candidate_unique(
    envs: Seq<EnvironmentView>,
    provider: Seq<char>,
    project_id: Seq<char>,
    i: int,
)
    requires
        is_pool_candidate(envs, provider, project_id, i),
    ensures
        pool_candidate(envs, provider, project_id) == Some(i),
{
    let c = choose|c: int| is_pool_candidate(envs, provider, project_id, c);
    if c != i {
        lemma_precedes_total::<Environment, OldestEnvironment>(envs, i, c);
    }
}

/// Finds [`pool_candidate`].
pub fn find_pool_candidate(envs: &Vec<Environment>, provider: &str, project_id: &str) -> (r: Option<usize>)
    ensures
        match r {
            Some(i) => pool_candidate(envs.deep_view(), provider@, project_id@) == Some(i as int) && i
                < envs.len(),
            None => pool_candidate(envs.deep_view(), provider@, project_id@) is None,
        },
{
    let ghost rows = envs.deep_view();
    let mut mask: Vec<bool> = Vec::new();
    let mut i: usize = 0;
    while i < envs.len()
        invariant
            i <= envs.len(),
            mask.len() == i,
            rows == envs.deep_view(),
            forall|j: int| 0 <= j < i ==> mask[j] == #[trigger] pool_mask(rows, provider@, project_id@)[j],
        decreases envs.len() - i,
    {
        let e = &envs[i];
        let ok = e.status == EnvironmentStatus::Pool && str_eq(e.provider.as_str(), provider) && str_eq(
            e.project_id.as_str(),
            project_id,
        );
        mask.push(ok);
        i += 1;
    }
    assert(mask@ =~= pool_mask(rows, provider@, project_id@));
    let order = select_in_order::<Environment, OldestEnvironment>(envs, &mask, 1);
    let ghost ord = order@.map_values(|i: usize| i as int);
    if order.len() == 1 {
        let c = order[0];
        proof {
            assert(ord[0] == c);
            assert forall|k: int| 0 <= k < rows.len() && #[trigger] masked(mask@, k) && k != c implies precedes::<
                Environment,
                OldestEnvironment,
            >(rows, c as int, k) by {
                if ord.contains(k) {
                    let p = choose|p: int| 0 <= p < ord.len() && ord[p] == k;
                    assert(p == 0);
                }
                assert(precedes::<Environment, OldestEnvironment>(rows, ord[0], k));
            }
            lemma_pool_candidate_unique(rows, provider@, project_id@, c as int);
        }
        Some(c)
    } else {
        proof {
            assert(ord.len() == 0);
            assert forall|k: int| !is_pool_candidate(rows, provider@, project_id@, k) by {
                if 0 <= k < rows.len() && masked(mask@, k) {
                    assert(ord.contains(k));
                }
            }
        }
        None
    }
}

/// Appends an environment row.
fn add_environment(store: &mut Store, env: Environment)
    ensures
        final(store)@ == old(store)@.insert_environment(env@),
        old(store)@.wf() && old(store)@.environment_position(env@.id) is None ==> final(store)@.wf(),
{
    proof {
        let old_rows = store.environments.deep_view();
        if old(store)@.wf() && old(store)@.environment_position(env@.id) is None {
            lemma_unique_push(environment_ids(old_rows), env@.id);
            assert(environment_ids(old_rows.push(env@)) =~= environment_ids(old_rows).push(env@.id));
        }
    }
    let ghost row = env@;
    store.environments.push(env);
    assert(store.environments.deep_view() =~= old(store).environments.deep_view().push(row));
}

/// Appends a task row.
fn add_task(store: &mut Store, task: Task)
    ensures
        final(store)@ == old(store)@.insert_task(task@),
        old(store)@.wf() && old(store)@.task_position(task@.id) is None ==> final(store)@.wf(),
{
    proof {
        let old_rows = store.tasks.deep_view();
        if old(store)@.wf() && old(store)@.task_position(task@.id) is None {
            lemma_unique_push(task_ids(old_rows), task@.id);
            assert(task_ids(old_rows.push(task@)) =~= task_ids(old_rows).push(task@.id));
        }
    }
    let ghost row = task@;
    store.tasks.push(task);
    assert(store.tasks.deep_view() =~= old(store).tasks.deep_view().push(row));
}

/// Sets the status of the environment at position `i`.
fn mark_environment(store: &mut Store, i: usize, status: EnvironmentStatus, now: i64)
    requires
        i < old(store).environments.len(),
    ensures
        final(store)@ == old(store)@.set_environment(
            i as int,
            with_status(old(store)@.environments[i as int], status, now as int),
        ),
        old(store)@.wf() ==> final(store)@.wf(),
{
    let ghost old_rows = store.environments.deep_view();
    store.environments[i].status = status;
    store.environments[i].updated_at = now;
    proof {
        let row = with_status(old_rows[i as int], status, now as int);
        assert(store.environments.deep_view() =~= old_rows.update(i as int, row));
        assert(environment_ids(old_rows.update(i as int, row)) =~= environment_ids(old_rows));
    }
}

/// Stages the preparation of a new environment for a project: the
/// environment enters as preparing and a `prepare_environment` job is
/// queued for it. Refused as `NotFound` where the project is missing and
/// as `Duplicate` where an id is taken.
pub fn stage_prepare_environment(
    store: &mut Store,
    project_id: &str,
    provider: &str,
    claim_after_prepare: bool,
    env_id: String,
    job_id: String,
    now: i64,
) -> (r: Result<Environment, StoreError>)
    ensures
        ({
            let expected = old(store)@.stage_prepare_environment(
                project_id@,
                provider@,
                claim_after_prepare,
                env_id@,
                job_id@,
                now as int,
            );
            &&& transition(old(store)@, final(store)@, expected)
            &&& match expected {
                Ok(_) => r is Ok && r->Ok_0@ == new_environment(env_id@, project_id@, provider@, now as int),
                Err(e) => r is Err && r->Err_0 == e,
            }
        }),
        old(store)@.wf() ==> final(store)@.wf(),
{
    if find_project(&store.projects, project_id).is_none() {
        return Err(StoreError::NotFound);
    }
    if find_environment(&store.environments, env_id.as_str()).is_some() {
        return Err(StoreError::Duplicate);
    }
    let payload = JobPayload {
        env_id: Some(env_id.clone()),
        task_id: None,
        claim_after_prepare,
    };
    let key = env_dedupe_key(JobType::PrepareEnvironment, env_id.as_str());
    match insert_job_tx(store, JobType::PrepareEnvironment, payload, Some(key.as_str()), job_id, now) {
        Ok(_) => {},
        Err(e) => {
            return Err(e);
        },
    }
    let env = Environment {
        id: env_id,
        project_id: String::from_str(project_id),
        provider: String::from_str(provider),
        status: EnvironmentStatus::Preparing,
        metadata: String::from_str("{}"),
        created_at: now,
        updated_at: now,
    };
    let out = clone_environment(&env);
    add_environment(store, env);
    Ok(out)
}

/// Stages the creation of a task. The task gets the oldest pooled
/// environment of the provider and the project, which becomes `InUse` at
/// once and gets a `claim_environment` job; where there is none, a new
/// environment enters as preparing under `new_env_id`, with a
/// `prepare_environment` job. Refused as `NotFound` where the project is
/// missing and as `Duplicate` where an id is taken.
pub fn stage_task_create(
    store: &mut Store,
    project_id: &str,
    task_provider: &str,
    env_provider: &str,
    description: &str,
    task_id: String,
    new_env_id: String,
    job_id: String,
    now: i64,
) -> (r: Result<Task, StoreError>)
    ensures
        ({
            let expected = old(store)@.stage_task_create(
                project_id@,
                task_provider@,
                env_provider@,
                description@,
                task_id@,
                new_env_id@,
                job_id@,
                now as int,
            );
            &&& transition(old(store)@, final(store)@, expected)
            &&& match expected {
                Ok(_) => r is Ok && r->Ok_0@ == new_task(
                    task_id@,
                    old(store)@.environment_for_task(env_provider@, project_id@, new_env_id@),
                    project_id@,
                    task_provider@,
                    description@,
                    now as int,
                ),
                Err(e) => r is Err && r->Err_0 == e,
            }
        }),
        old(store)@.wf() ==> final(store)@.wf(),
{
    if find_project(&store.projects, project_id).is_none() {
        return Err(StoreError::NotFound);
    }
    if find_task(&store.tasks, task_id.as_str()).is_some() {
        return Err(StoreError::Duplicate);
    }
    let candidate = find_pool_candidate(&store.environments, env_provider, project_id);
    let env_id = match candidate {
        Some(i) => {
            assert(store.environments.deep_view()[i as int] == store.environments@[i as int]@);
            store.environments[i].id.clone()
        },
        None => {
            if find_environment(&store.environments, new_env_id.as_str()).is_some() {
                return Err(StoreError::Duplicate);
            }
            new_env_id.clone()
        },
    };
    let payload = JobPayload {
        env_id: Some(env_id.clone()),
        task_id: Some(task_id.clone()),
        claim_after_prepare: false,
    };
    let staged = match candidate {
        Some(_) => {
            let key = task_dedupe_key(JobType::ClaimEnvironment, task_id.as_str());
            insert_job_tx(store, JobType::ClaimEnvironment, payload, Some(key.as_str()), job_id, now)
        },
        None => {
            let key = env_dedupe_key(JobType::PrepareEnvironment, env_id.as_str());
            insert_job_tx(store, JobType::PrepareEnvironment, payload, Some(key.as_str()), job_id, now)
        },
    };
    match staged {
        Ok(_) => {},
        Err(e) => {
            return Err(e);
        },
    }
    match candidate {
        Some(i) => {
            mark_environment(store, i, EnvironmentStatus::InUse, now);
        },
        None => {
            add_environment(
                store,
                Environment {
                    id: new_env_id,
                    project_id: String::from_str(project_id),
                    provider: String::from_str(env_provider),
                    status: EnvironmentStatus::Preparing,
                    metadata: String::from_str("{}"),
                    created_at: now,
                    updated_at: now,
                },
            );
        },
    }
    let task = Task {
        id: task_id,
        environment_id: env_id,
        project_id: String::from_str(project_id),
        provider: String::from_str(task_provider),
        description: String::from_str(description),
        status: TaskStatus::Pending,
        created_at: now,
        updated_at: now,
    };
    let out = clone_task(&task);
    add_task(store, task);
    Ok(out)
}

/// Stages the update of a pooled environment: an `update_environment` job
/// is queued, unless one is active already. The environment is handed
/// back with the id of the job that stands for the update: that of the
/// new job, or that of the active one. Refused as `NotFound` where the
/// environment is missing and as `InvalidState` where it is not in the
/// pool.
pub fn stage_update_environment(store: &mut Store, id: &str, job_id: String, now: i64) -> (r: Result<
    Staged<Environment>,
    StoreError,
>)
    ensures
        ({
            let expected = old(store)@.stage_update_environment(id@, job_id@, now as int);
            &&& transition(old(store)@, final(store)@, expected)
            &&& match expected {
                Ok(_) => {
                    &&& r is Ok
                    &&& old(store)@.environment_position(id@) is Some
                    &&& r->Ok_0.row@ == old(store)@.environments[old(store)@.environment_position(id@)->0]
                    &&& Ok::<Seq<char>, StoreError>(r->Ok_0.job_id@) == old(store)@.inserted_id(
                        update_job(id@, job_id@, now as int),
                    )
                },
                Err(e) => r is Err && r->Err_0 == e,
            }
        }),
        old(store)@.wf() ==> final(store)@.wf(),
{
    let i = match find_environment(&store.environments, id) {
        Some(i) => i,
        None => {
            return Err(StoreError::NotFound);
        },
    };
    if store.environments[i].status != EnvironmentStatus::Pool {
        return Err(StoreError::InvalidState);
    }
    let payload = JobPayload { env_id: Some(String::from_str(id)), task_id: None, claim_after_prepare: false };
    let key = env_dedupe_key(JobType::UpdateEnvironment, id);
    match insert_job_tx(store, JobType::UpdateEnvironment, payload, Some(key.as_str()), job_id, now) {
        Ok(found) => {
            assert(store.environments.deep_view()[i as int] == store.environments@[i as int]@);
            Ok(Staged { row: clone_environment(&store.environments[i]), job_id: found })
        },
        Err(e) => Err(e),
    }
}

/// Claims the environment at position `i` and queues its claim job.
fn stage_claim_at(store: &mut Store, i: usize, job_id: String, now: i64) -> (r: Result<
    Environment,
    StoreError,
>)
    requires
        i < old(store).environments.len(),
    ensures
        ({
            let expected = old(store)@.stage_claim_at(i as int, job_id@, now as int);
            &&& transition(old(store)@, final(store)@, expected)
            &&& match expected {
                Ok(_) => r is Ok && r->Ok_0@ == with_status(
                    old(store)@.environments[i as int],
                    EnvironmentStatus::InUse,
                    now as int,
                ),
                Err(e) => r is Err && r->Err_0 == e,
            }
        }),
        old(store)@.wf() ==> final(store)@.wf(),
{
    assert(store.environments.deep_view()[i as int] == store.environments@[i as int]@);
    let id = store.environments[i].id.clone();
    let payload = JobPayload { env_id: Some(id.clone()), task_id: None, claim_after_prepare: false };
    let key = env_dedupe_key(JobType::ClaimEnvironment, id.as_str());
    match insert_job_tx(store, JobType::ClaimEnvironment, payload, Some(key.as_str()), job_id, now) {
        Ok(_) => {
            assert(store.environments.deep_view().len() == old(store).environments.deep_view().len());
            mark_environment(store, i, EnvironmentStatus::InUse, now);
            assert(store.environments.deep_view().len() == old(store).environments.deep_view().len());
            assert(store.environments.deep_view()[i as int] == store.environments@[i as int]@);
            Ok(clone_environment(&store.environments[i]))
        },
        Err(e) => Err(e),
    }
}

/// Stages the claim of a pooled environment: it becomes `InUse` and a
/// `claim_environment` job is queued. Refused as `InvalidState` where the
/// environment is missing or not in the pool.
pub fn stage_claim_environment(store: &mut Store, id: &str, job_id: String, now: i64) -> (r: Result<
    Environment,
    StoreError,
>)
    ensures
        ({
            let expected = old(store)@.stage_claim_environment(id@, job_id@, now as int);
            &&& transition(old(store)@, final(store)@, expected)
            &&& match expected {
                Ok(_) => r is Ok && environment_in(old(store)@, id@, EnvironmentStatus::Pool) is Some
                    && r->Ok_0@ == with_status(
                    old(store)@.environments[environment_in(old(store)@, id@, EnvironmentStatus::Pool)->0],
                    EnvironmentStatus::InUse,
                    now as int,
                ),
                Err(e) => r is Err && r->Err_0 == e,
            }
        }),
        old(store)@.wf() ==> final(store)@.wf(),
{
    match find_environment(&store.environments, id) {
        Some(i) => {
            if store.environments[i].status != EnvironmentStatus::Pool {
                return Err(StoreError::InvalidState);
            }
            stage_claim_at(store, i, job_id, now)
        },
        None => Err(StoreError::InvalidState),
    }
}

/// Stages the claim of the oldest pooled environment of a provider and a
/// project. Refused as `NotFound` where none is pooled.
pub fn stage_claim_next_environment(
    store: &mut Store,
    provider: &str,
    project_id: &str,
    job_id: String,
    now: i64,
) -> (r: Result<Environment, StoreError>)
    ensures
        ({
            let expected = old(store)@.stage_claim_next_environment(
                provider@,
                project_id@,
                job_id@,
                now as int,
            );
            &&& transition(old(store)@, final(store)@, expected)
            &&& match expected {
                Ok(_) => r is Ok && pool_candidate(old(store)@.environments, provider@, project_id@) is Some
                    && r->Ok_0@ == with_status(
                    old(store)@.environments[pool_candidate(
                        old(store)@.environments,
                        provider@,
                        project_id@,
                    )->0],
                    EnvironmentStatus::InUse,
                    now as int,
                ),
                Err(e) => r is Err && r->Err_0 == e,
            }
        }),
        old(store)@.wf() ==> final(store)@.wf(),
{
    match find_pool_candidate(&store.environments, provider, project_id) {
        Some(i) => stage_claim_at(store, i, job_id, now),
        None => Err(StoreError::NotFound),
    }
}

/// Stages the removal of an environment: it becomes `Removing` and a
/// `remove_environment` job is queued. Refused as `Conflict` where a task
/// runs in it or it is being removed already, and as `NotFound` where it
/// is missing.
pub fn stage_remove_environment(store: &mut Store, id: &str, job_id: String, now: i64) -> (r: Result<
    (),
    StoreError,
>)
    ensures
        ({
            let expected = old(store)@.stage_remove_environment(id@, job_id@, now as int);
            &&& transition(old(store)@, final(store)@, expected)
            &&& match expected {
                Ok(_) => r is Ok,
                Err(e) => r is Err && r->Err_0 == e,
            }
        }),
        old(store)@.wf() ==> final(store)@.wf(),
{
    if find_task_of_environment(&store.tasks, id).is_some() {
        return Err(StoreError::Conflict);
    }
    let i = match find_environment(&store.environments, id) {
        Some(i) => i,
        None => {
            return Err(StoreError::NotFound);
        },
    };
    if store.environments[i].status == EnvironmentStatus::Removing {
        return Err(StoreError::Conflict);
    }
    let payload = JobPayload { env_id: Some(String::from_str(id)), task_id: None, claim_after_prepare: false };
    let key = env_dedupe_key(JobType::RemoveEnvironment, id);
    match insert_job_tx(store, JobType::RemoveEnvironment, payload, Some(key.as_str()), job_id, now) {
        Ok(_) => {
            mark_environment(store, i, EnvironmentStatus::Removing, now);
            Ok(())
        },
        Err(e) => Err(e),
    }
}

/// Stages the removal of a task: its environment becomes `Removing`,
/// unless it is already, and a `remove_task` job is queued. Refused as
/// `NotFound` where the task or its environment is missing.
pub fn stage_remove_task(store: &mut Store, task_id: &str, job_id: String, now: i64) -> (r: Result<
    (),
    StoreError,
>)
    ensures
        ({
            let expected = old(store)@.stage_remove_task(task_id@, job_id@, now as int);
            &&& transition(old(store)@, final(store)@, expected)
            &&& match expected {
                Ok(_) => r is Ok,
                Err(e) => r is Err && r->Err_0 == e,
            }
        }),
        old(store)@.wf() ==> final(store)@.wf(),
{
    let t = match find_task(&store.tasks, task_id) {
        Some(t) => t,
        None => {
            return Err(StoreError::NotFound);
        },
    };
    assert(store.tasks.deep_view()[t as int] == store.tasks@[t as int]@);
    let env_id = store.tasks[t].environment_id.clone();
    let i = match find_environment(&store.environments, env_id.as_str()) {
        Some(i) => i,
        None => {
            return Err(StoreError::NotFound);
        },
    };
    let payload = JobPayload {
        env_id: Some(env_id),
        task_id: Some(String::from_str(task_id)),
        claim_after_prepare: false,
    };
    let key = task_dedupe_key(JobType::RemoveTask, task_id);
    match insert_job_tx(store, JobType::RemoveTask, payload, Some(key.as_str()), job_id, now) {
        Ok(_) => {
            if store.environments[i].status != EnvironmentStatus::Removing {
                mark_environment(store, i, EnvironmentStatus::Removing, now);
            }
            Ok(())
        },
        Err(e) => Err(e),
    }
}

/// Deletes an environment without provider cleanup. Refused as `Conflict`
/// where a task runs in it and as `NotFound` where it is missing.
pub fn force_delete_environment(store: &mut Store, id: &str) -> (r: Result<(), StoreError>)
    ensures
        ({
            let expected = old(store)@.force_delete_environment(id@);
            &&& transition(old(store)@, final(store)@, expected)
            &&& match expected {
                Ok(_) => r is Ok,
                Err(e) => r is Err && r->Err_0 == e,
            }
        }),
        old(store)@.wf() ==> final(store)@.wf(),
{
    if find_task_of_environment(&store.tasks, id).is_some() {
        return Err(StoreError::Conflict);
    }
    super::entities::delete_environment(store, id)
}

/// Deletes a task and its environment without provider cleanup. Refused
/// as `NotFound`, with nothing deleted, where either is missing.
pub fn force_delete_task(store: &mut Store, task_id: &str) -> (r: Result<(), StoreError>)
    ensures
        ({
            let expected = old(store)@.force_delete_task(task_id@);
            &&& transition(old(store)@, final(store)@, expected)
            &&& match expected {
                Ok(_) => r is Ok,
                Err(e) => r is Err && r->Err_0 == e,
            }
        }),
        old(store)@.wf() ==> final(store)@.wf(),
{
    let t = match find_task(&store.tasks, task_id) {
        Some(t) => t,
        None => {
            return Err(StoreError::NotFound);
        },
    };
    assert(store.tasks.deep_view()[t as int] == store.tasks@[t as int]@);
    let i = match find_environment(&store.environments, store.tasks[t].environment_id.as_str()) {
        Some(i) => i,
        None => {
            return Err(StoreError::NotFound);
        },
    };
    let ghost old_tasks = store.tasks.deep_view();
    let ghost old_envs = store.environments.deep_view();
    store.tasks.remove(t);
    store.environments.remove(i);
    proof {
        assert(store.tasks.deep_view() =~= old_tasks.remove(t as int));
        assert(store.environments.deep_view() =~= old_envs.remove(i as int));
        assert(task_ids(old_tasks.remove(t as int)) =~= task_ids(old_tasks).remove(t as int));
        assert(environment_ids(old_envs.remove(i as int)) =~= environment_ids(old_envs).remove(i as int));
    }
    Ok(())
}

} // verus!
