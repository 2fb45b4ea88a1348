//! Projects, environments and tasks: reading, writing and deleting rows.

use super::query::{
    environment_ids, find_environment, find_project, find_project_by_name, find_task,
    lemma_unique_push, project_ids, project_names, task_ids,
};
use super::types::{
    clone_environment, clone_project, clone_task, Environment, EnvironmentStatus, EnvironmentView,
    Project, ProjectView, Store, StoreError, StoreView, Task, TaskStatus, TaskView,
};
use crate::order::{is_listing, listed, Order};
use crate::text::{lemma_lex_strict_weak, lex_lt, str_lt};
use vstd::prelude::*;

verus! {

/// Projects by name.
pub struct ByName;

/// Environments by id.
pub struct ById;

/// Tasks by creation time, newest first.
pub struct NewestFirst;

impl Order<Project> for ByName {
    open spec fn before(a: ProjectView, b: ProjectView) -> bool {
        lex_lt(a.name, b.name)
    }

    fn is_before(a: &Project, b: &Project) -> (r: bool) {
        str_lt(a.name.as_str(), b.name.as_str())
    }

    proof fn lemma_strict_weak(a: ProjectView, b: ProjectView, c: ProjectView) {
        lemma_lex_strict_weak(a.name, b.name, c.name);
    }
}

impl Order<Environment> for ById {
    open spec fn before(a: EnvironmentView, b: EnvironmentView) -> bool {
        lex_lt(a.id, b.id)
    }

    fn is_before(a: &Environment, b: &Environment) -> (r: bool) {
        str_lt(a.id.as_str(), b.id.as_str())
    }

    proof fn lemma_strict_weak(a: EnvironmentView, b: EnvironmentView, c: EnvironmentView) {
        lemma_lex_strict_weak(a.id, b.id, c.id);
    }
}

impl Order<Task> for NewestFirst {
    open spec fn before(a: TaskView, b: TaskView) -> bool {
        a.created_at > b.created_at
    }

    fn is_before(a: &Task, b: &Task) -> (r: bool) {
        a.created_at > b.created_at
    }

    proof fn lemma_strict_weak(a: TaskView, b: TaskView, c: TaskView) {
    }
}

impl StoreView {
    /// The store with one more project.
    pub open spec fn insert_project(self, row: ProjectView) -> StoreView {
        StoreView { projects: self.projects.push(row), ..self }
    }

    /// The store without the project at position `i`.
    pub open spec fn remove_project(self, i: int) -> StoreView {
        StoreView { projects: self.projects.remove(i), ..self }
    }

    /// The store with one more environment.
    pub open spec fn insert_environment(self, row: EnvironmentView) -> StoreView {
        StoreView { environments: self.environments.push(row), ..self }
    }

    /// The store with the environment at position `i` replaced.
    pub open spec fn set_environment(self, i: int, row: EnvironmentView) -> StoreView {
        StoreView { environments: self.environments.update(i, row), ..self }
    }

    /// The store without the environment at position `i`.
    pub open spec fn remove_environment(self, i: int) -> StoreView {
        StoreView { environments: self.environments.remove(i), ..self }
    }

    /// The store without the environment `id`, if it holds one.
    pub open spec fn without_environment(self, id: Seq<char>) -> StoreView {
        match self.environment_position(id) {
            Some(i) => self.remove_environment(i),
            None => self,
        }
    }

    /// The store with one more task.
    pub open spec fn insert_task(self, row: TaskView) -> StoreView {
        StoreView { tasks: self.tasks.push(row), ..self }
    }

    /// The store with the task at position `i` replaced.
    pub open spec fn set_task(self, i: int, row: TaskView) -> StoreView {
        StoreView { tasks: self.tasks.update(i, row), ..self }
    }

    /// The store without the task at position `i`.
    pub open spec fn remove_task(self, i: int) -> StoreView {
        StoreView { tasks: self.tasks.remove(i), ..self }
    }

    /// The store without the task `id`, if it holds one.
    pub open spec fn without_task(self, id: Seq<char>) -> StoreView {
        match self.task_position(id) {
            Some(i) => self.remove_task(i),
            None => self,
        }
    }
}

/// All projects, ordered by name.
pub fn list_projects(store: &Store) -> (out: Vec<Project>)
    ensures
        is_listing::<Project, ByName>(store@.projects, out.deep_view()),
{
    listed::<Project, ByName>(&store.projects)
}

/// Adds a project. Refused as `Duplicate` where a project has the same
/// name or the same id.
pub fn create_project(store: &mut Store, name: &str, path: &str, id: String, now: i64) -> (r: Result<
    (),
    StoreError,
>)
    ensures
        old(store)@.project_position(id@) is None && old(store)@.project_name_position(name@) is None
            ==> r is Ok && final(store)@ == old(store)@.insert_project(
            ProjectView {
                id: id@,
                name: name@,
                path: path@,
                created_at: now as int,
                updated_at: now as int,
            },
        ),
        !(old(store)@.project_position(id@) is None && old(store)@.project_name_position(name@) is None)
            ==> r == Err::<(), StoreError>(StoreError::Duplicate) && final(store)@ == old(store)@,
        old(store)@.wf() ==> final(store)@.wf(),
{
    if find_project(&store.projects, id.as_str()).is_some() {
        return Err(StoreError::Duplicate);
    }
    if find_project_by_name(&store.projects, name).is_some() {
        return Err(StoreError::Duplicate);
    }
    let row = Project {
        id,
        name: String::from_str(name),
        path: String::from_str(path),
        created_at: now,
        updated_at: now,
    };
    proof {
        let old_rows = store.projects.deep_view();
        if old(store)@.wf() {
            lemma_unique_push(project_ids(old_rows), row@.id);
            lemma_unique_push(project_names(old_rows), row@.name);
            assert(project_ids(old_rows.push(row@)) =~= project_ids(old_rows).push(row@.id));
            assert(project_names(old_rows.push(row@)) =~= project_names(old_rows).push(row@.name));
        }
    }
    store.projects.push(row);
    assert(store.projects.deep_view() =~= old(store).projects.deep_view().push(row@));
    Ok(())
}

/// The project with the given id.
pub fn get_project(store: &Store, id: &str) -> (r: Result<Project, StoreError>)
    ensures
        match store@.project_position(id@) {
            Some(i) => r is Ok && r->Ok_0@ == store@.projects[i],
            None => r is Err && r->Err_0 == StoreError::NotFound,
        },
{
    match find_project(&store.projects, id) {
        Some(i) => Ok(clone_project(&store.projects[i])),
        None => Err(StoreError::NotFound),
    }
}

/// The project with the given name.
pub fn get_project_by_name(store: &Store, name: &str) -> (r: Result<Project, StoreError>)
    ensures
        match store@.project_name_position(name@) {
            Some(i) => r is Ok && r->Ok_0@ == store@.projects[i],
            None => r is Err && r->Err_0 == StoreError::NotFound,
        },
{
    match find_project_by_name(&store.projects, name) {
        Some(i) => Ok(clone_project(&store.projects[i])),
        None => Err(StoreError::NotFound),
    }
}

/// Deletes the project with the given name; `NotFound` where there is none.
/// Environments and tasks of the project stay.
pub fn delete_project(store: &mut Store, name: &str) -> (r: Result<(), StoreError>)
    ensures
        match old(store)@.project_name_position(name@) {
            Some(i) => r is Ok && final(store)@ == old(store)@.remove_project(i),
            None => r == Err::<(), StoreError>(StoreError::NotFound) && final(store)@ == old(store)@,
        },
        old(store)@.wf() ==> final(store)@.wf(),
{
    match find_project_by_name(&store.projects, name) {
        Some(i) => {
            let ghost old_rows = store.projects.deep_view();
            store.projects.remove(i);
            proof {
                assert(store.projects.deep_view() =~= old_rows.remove(i as int));
                assert(project_ids(old_rows.remove(i as int)) =~= project_ids(old_rows).remove(i as int));
                assert(project_names(old_rows.remove(i as int)) =~= project_names(old_rows).remove(
                    i as int,
                ));
            }
            Ok(())
        },
        None => Err(StoreError::NotFound),
    }
}

/// The environment with the given id.
pub fn get_environment(store: &Store, id: &str) -> (r: Result<Environment, StoreError>)
    ensures
        match store@.environment_position(id@) {
            Some(i) => r is Ok && r->Ok_0@ == store@.environments[i],
            None => r is Err && r->Err_0 == StoreError::NotFound,
        },
{
    match find_environment(&store.environments, id) {
        Some(i) => Ok(clone_environment(&store.environments[i])),
        None => Err(StoreError::NotFound),
    }
}

/// All environments, ordered by id.
pub fn list_environments(store: &Store) -> (out: Vec<Environment>)
    ensures
        is_listing::<Environment, ById>(store@.environments, out.deep_view()),
{
    listed::<Environment, ById>(&store.environments)
}

/// Replaces the metadata of an environment; `NotFound` where there is none.
pub fn update_environment_metadata(store: &mut Store, id: &str, metadata: &str, now: i64) -> (r:
    Result<(), StoreError>)
    ensures
        match old(store)@.environment_position(id@) {
            Some(i) => r is Ok && final(store)@ == old(store)@.set_environment(
                i,
                EnvironmentView {
                    metadata: metadata@,
                    updated_at: now as int,
                    ..old(store)@.environments[i]
                },
            ),
            None => r == Err::<(), StoreError>(StoreError::NotFound) && final(store)@ == old(store)@,
        },
        old(store)@.wf() ==> final(store)@.wf(),
{
    match find_environment(&store.environments, id) {
        Some(i) => {
            let ghost old_rows = store.environments.deep_view();
            store.environments[i].metadata = String::from_str(metadata);
            store.environments[i].updated_at = now;
            proof {
                let row = EnvironmentView { metadata: metadata@, updated_at: now as int, ..old_rows[i as int] };
                assert(store.environments.deep_view() =~= old_rows.update(i as int, row));
                assert(environment_ids(old_rows.update(i as int, row)) =~= environment_ids(old_rows));
            }
            Ok(())
        },
        None => Err(StoreError::NotFound),
    }
}

/// Sets the status of an environment; `NotFound` where there is none.
pub fn update_environment_status(store: &mut Store, id: &str, status: EnvironmentStatus, now: i64) -> (r:
    Result<(), StoreError>)
    ensures
        match old(store)@.environment_position(id@) {
            Some(i) => r is Ok && final(store)@ == old(store)@.set_environment(
                i,
                EnvironmentView { status, updated_at: now as int, ..old(store)@.environments[i] },
            ),
            None => r == Err::<(), StoreError>(StoreError::NotFound) && final(store)@ == old(store)@,
        },
        old(store)@.wf() ==> final(store)@.wf(),
{
    match find_environment(&store.environments, id) {
        Some(i) => {
            let ghost old_rows = store.environments.deep_view();
            store.environments[i].status = status;
            store.environments[i].updated_at = now;
            proof {
                let row = EnvironmentView { status, updated_at: now as int, ..old_rows[i as int] };
                assert(store.environments.deep_view() =~= old_rows.update(i as int, row));
                assert(environment_ids(old_rows.update(i as int, row)) =~= environment_ids(old_rows));
            }
            Ok(())
        },
        None => Err(StoreError::NotFound),
    }
}

/// The position of the environment `id` where it is in `status`.
pub open spec fn environment_in(s: StoreView, id: Seq<char>, status: EnvironmentStatus) -> Option<int> {
    match s.environment_position(id) {
        Some(i) => if s.environments[i].status == status {
            Some(i)
        } else {
            None
        },
        None => None,
    }
}

/// Ends the preparation of an environment: sets status and metadata at
/// once. Refused as `InvalidState` unless the new status is `Pool` or
/// `InUse` and the environment is in `Preparing`.
pub fn complete_preparing_environment(
    store: &mut Store,
    id: &str,
    status: EnvironmentStatus,
    metadata: &str,
    now: i64,
) -> (r: Result<(), StoreError>)
    ensures
        match environment_in(old(store)@, id@, EnvironmentStatus::Preparing) {
            Some(i) if status == EnvironmentStatus::Pool || status == EnvironmentStatus::InUse => r is Ok
                && final(store)@ == old(store)@.set_environment(
                i,
                EnvironmentView {
                    status,
                    metadata: metadata@,
                    updated_at: now as int,
                    ..old(store)@.environments[i]
                },
            ),
            _ => r == Err::<(), StoreError>(StoreError::InvalidState) && final(store)@ == old(store)@,
        },
        old(store)@.wf() ==> final(store)@.wf(),
{
    match status {
        EnvironmentStatus::Pool | EnvironmentStatus::InUse => {},
        _ => {
            return Err(StoreError::InvalidState);
        },
    }
    match find_environment(&store.environments, id) {
        Some(i) => {
            if store.environments[i].status != EnvironmentStatus::Preparing {
                return Err(StoreError::InvalidState);
            }
            let ghost old_rows = store.environments.deep_view();
            store.environments[i].status = status;
            store.environments[i].metadata = String::from_str(metadata);
            store.environments[i].updated_at = now;
            proof {
                let row = EnvironmentView {
                    status,
                    metadata: metadata@,
                    updated_at: now as int,
                    ..old_rows[i as int]
                };
                assert(store.environments.deep_view() =~= old_rows.update(i as int, row));
                assert(environment_ids(old_rows.update(i as int, row)) =~= environment_ids(old_rows));
            }
            Ok(())
        },
        None => Err(StoreError::InvalidState),
    }
}

/// Claims a pooled environment: `Pool` becomes `InUse`. Refused as
/// `InvalidState` where the environment is missing or not in the pool.
pub fn claim_environment_tx(store: &mut Store, id: &str, now: i64) -> (r: Result<(), StoreError>)
    ensures
        match environment_in(old(store)@, id@, EnvironmentStatus::Pool) {
            Some(i) => r is Ok && final(store)@ == old(store)@.set_environment(
                i,
                EnvironmentView {
                    status: EnvironmentStatus::InUse,
                    updated_at: now as int,
                    ..old(store)@.environments[i]
                },
            ),
            None => r == Err::<(), StoreError>(StoreError::InvalidState) && final(store)@ == old(store)@,
        },
        old(store)@.wf() ==> final(store)@.wf(),
{
    match find_environment(&store.environments, id) {
        Some(i) => {
            if store.environments[i].status != EnvironmentStatus::Pool {
                return Err(StoreError::InvalidState);
            }
            let ghost old_rows = store.environments.deep_view();
            store.environments[i].status = EnvironmentStatus::InUse;
            store.environments[i].updated_at = now;
            proof {
                let row = EnvironmentView {
                    status: EnvironmentStatus::InUse,
                    updated_at: now as int,
                    ..old_rows[i as int]
                };
                assert(store.environments.deep_view() =~= old_rows.update(i as int, row));
                assert(environment_ids(old_rows.update(i as int, row)) =~= environment_ids(old_rows));
            }
            Ok(())
        },
        None => Err(StoreError::InvalidState),
    }
}

/// Deletes an environment row; `NotFound` where there is none.
pub fn delete_environment(store: &mut Store, id: &str) -> (r: Result<(), StoreError>)
    ensures
        match old(store)@.environment_position(id@) {
            Some(i) => r is Ok && final(store)@ == old(store)@.remove_environment(i),
            None => r == Err::<(), StoreError>(StoreError::NotFound) && final(store)@ == old(store)@,
        },
        old(store)@.wf() ==> final(store)@.wf(),
{
    match find_environment(&store.environments, id) {
        Some(i) => {
            let ghost old_rows = store.environments.deep_view();
            store.environments.remove(i);
            proof {
                assert(store.environments.deep_view() =~= old_rows.remove(i as int));
                assert(environment_ids(old_rows.remove(i as int)) =~= environment_ids(old_rows).remove(
                    i as int,
                ));
            }
            Ok(())
        },
        None => Err(StoreError::NotFound),
    }
}

/// The task with the given id.
pub fn get_task(store: &Store, id: &str) -> (r: Result<Task, StoreError>)
    ensures
        match store@.task_position(id@) {
            Some(i) => r is Ok && r->Ok_0@ == store@.tasks[i],
            None => r is Err && r->Err_0 == StoreError::NotFound,
        },
{
    match find_task(&store.tasks, id) {
        Some(i) => Ok(clone_task(&store.tasks[i])),
        None => Err(StoreError::NotFound),
    }
}

/// All tasks, newest first.
pub fn list_tasks(store: &Store) -> (out: Vec<Task>)
    ensures
        is_listing::<Task, NewestFirst>(store@.tasks, out.deep_view()),
{
    listed::<Task, NewestFirst>(&store.tasks)
}

/// Sets the status of a task and returns the row; `NotFound` where there
/// is none.
pub fn update_task_status(store: &mut Store, id: &str, status: TaskStatus, now: i64) -> (r: Result<
    Task,
    StoreError,
>)
    ensures
        match old(store)@.task_position(id@) {
            Some(i) => {
                let row = TaskView { status, updated_at: now as int, ..old(store)@.tasks[i] };
                r is Ok && r->Ok_0@ == row && final(store)@ == old(store)@.set_task(i, row)
            },
            None => r is Err && r->Err_0 == StoreError::NotFound && final(store)@ == old(store)@,
        },
        old(store)@.wf() ==> final(store)@.wf(),
{
    match find_task(&store.tasks, id) {
        Some(i) => {
            let ghost old_rows = store.tasks.deep_view();
            store.tasks[i].status = status;
            store.tasks[i].updated_at = now;
            proof {
                let row = TaskView { status, updated_at: now as int, ..old_rows[i as int] };
                assert(store.tasks.deep_view() =~= old_rows.update(i as int, row));
                assert(task_ids(old_rows.update(i as int, row)) =~= task_ids(old_rows));
            }
            Ok(clone_task(&store.tasks[i]))
        },
        None => Err(StoreError::NotFound),
    }
}

/// Marks a task as started and returns the row; `NotFound` where there is
/// none.
pub fn start_task(store: &mut Store, id: &str, now: i64) -> (r: Result<Task, StoreError>)
    ensures
        match old(store)@.task_position(id@) {
            Some(i) => {
                let row = TaskView {
                    status: TaskStatus::Started,
                    updated_at: now as int,
                    ..old(store)@.tasks[i]
                };
                r is Ok && r->Ok_0@ == row && final(store)@ == old(store)@.set_task(i, row)
            },
            None => r is Err && r->Err_0 == StoreError::NotFound && final(store)@ == old(store)@,
        },
        old(store)@.wf() ==> final(store)@.wf(),
{
    update_task_status(store, id, TaskStatus::Started, now)
}

/// Deletes a task and an environment together. Either may be missing
/// already; what is there is deleted.
pub fn delete_task_and_environment(store: &mut Store, task_id: &str, env_id: &str)
    ensures
        final(store)@ == old(store)@.without_task(task_id@).without_environment(env_id@),
        old(store)@.wf() ==> final(store)@.wf(),
{
    match find_task(&store.tasks, task_id) {
        Some(i) => {
            let ghost old_rows = store.tasks.deep_view();
            store.tasks.remove(i);
            proof {
                assert(store.tasks.deep_view() =~= old_rows.remove(i as int));
                assert(task_ids(old_rows.remove(i as int)) =~= task_ids(old_rows).remove(i as int));
            }
        },
        None => {},
    }
    match find_environment(&store.environments, env_id) {
        Some(i) => {
            let ghost old_rows = store.environments.deep_view();
            store.environments.remove(i);
            proof {
                assert(store.environments.deep_view() =~= old_rows.remove(i as int));
                assert(environment_ids(old_rows.remove(i as int)) =~= environment_ids(old_rows).remove(
                    i as int,
                ));
            }
        },
        None => {},
    }
}

} // verus!
