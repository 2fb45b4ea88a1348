//! Looking rows up by key.

use super::types::{
    Environment, EnvironmentView, Job, JobView, Project, ProjectView, Store, StoreView, Task,
    TaskView,
};
use crate::text::str_eq;
use vstd::prelude::*;

verus! {

/// `i` is the first position at which `keys` holds `k`.
pub open spec fn is_first<K>(keys: Seq<K>, k: K, i: int) -> bool {
    &&& 0 <= i < keys.len()
    &&& keys[i] == k
    &&& forall|j: int| 0 <= j < i ==> keys[j] != k
}

/// The first position at which `keys` holds `k`, if any.
pub open spec fn position<K>(keys: Seq<K>, k: K) -> Option<int> {
    if exists|i: int| is_first(keys, k, i) {
        Some(choose|i: int| is_first(keys, k, i))
    } else {
        None
    }
}

/// No key occurs twice.
pub open spec fn unique<K>(keys: Seq<K>) -> bool {
    forall|i: int, j: int| 0 <= i < j < keys.len() ==> keys[i] != keys[j]
}

/// No key that is present occurs twice.
pub open spec fn unique_present(keys: Seq<Option<Seq<char>>>) -> bool {
    forall|i: int, j: int| 0 <= i < j < keys.len() && keys[i] is Some ==> keys[i] != keys[j]
}

/// The ids of the projects, row by row.
pub open spec fn project_ids(rows: Seq<ProjectView>) -> Seq<Seq<char>> {
    Seq::new(rows.len(), |i: int| rows[i].id)
}

/// The names of the projects, row by row.
pub open spec fn project_names(rows: Seq<ProjectView>) -> Seq<Seq<char>> {
    Seq::new(rows.len(), |i: int| rows[i].name)
}

/// The ids of the environments, row by row.
pub open spec fn environment_ids(rows: Seq<EnvironmentView>) -> Seq<Seq<char>> {
    Seq::new(rows.len(), |i: int| rows[i].id)
}

/// The ids of the tasks, row by row.
pub open spec fn task_ids(rows: Seq<TaskView>) -> Seq<Seq<char>> {
    Seq::new(rows.len(), |i: int| rows[i].id)
}

/// The environment of each task, row by row.
pub open spec fn task_environment_ids(rows: Seq<TaskView>) -> Seq<Seq<char>> {
    Seq::new(rows.len(), |i: int| rows[i].environment_id)
}

/// The ids of the jobs, row by row.
pub open spec fn job_ids(rows: Seq<JobView>) -> Seq<Seq<char>> {
    Seq::new(rows.len(), |i: int| rows[i].id)
}

/// The dedupe key of each job, row by row.
pub open spec fn job_dedupe_keys(rows: Seq<JobView>) -> Seq<Option<Seq<char>>> {
    Seq::new(rows.len(), |i: int| rows[i].dedupe_key)
}

/// The first position is the only one that [`position`] can report.
pub proof fn lemma_position_is<K>(keys: Seq<K>, k: K, i: int)
    requires
        is_first(keys, k, i),
    ensures
        position(keys, k) == Some(i),
{
    let c = choose|c: int| is_first(keys, k, c);
    assert(is_first(keys, k, c));
    if c < i {
        assert(keys[c] != k);
    }
    if i < c {
        assert(keys[i] != k);
    }
}

/// Every position of `keys` holds something other than `k` where `k` has no position.
pub proof fn lemma_absent<K>(keys: Seq<K>, k: K, j: int)
    requires
        position(keys, k) is None,
        0 <= j < keys.len(),
    ensures
        keys[j] != k,
    decreases j,
{
    if keys[j] == k {
        if forall|i: int| 0 <= i < j ==> keys[i] != k {
            assert(is_first(keys, k, j));
        } else {
            let i = choose|i: int| 0 <= i < j && keys[i] == k;
            lemma_absent(keys, k, i);
        }
    }
}

/// Appending a key that is not yet present keeps the keys unique.
pub proof fn lemma_unique_push<K>(keys: Seq<K>, k: K)
    requires
        unique(keys),
        position(keys, k) is None,
    ensures
        unique(keys.push(k)),
{
    let pushed = keys.push(k);
    assert forall|i: int, j: int| 0 <= i < j < pushed.len() implies pushed[i] != pushed[j] by {
        if j == keys.len() {
            lemma_absent(keys, k, i);
        }
    }
}

impl StoreView {
    /// The first project with the id.
    pub open spec fn project_position(self, id: Seq<char>) -> Option<int> {
        position(project_ids(self.projects), id)
    }

    /// The first project with the name.
    pub open spec fn project_name_position(self, name: Seq<char>) -> Option<int> {
        position(project_names(self.projects), name)
    }

    /// The first environment with the id.
    pub open spec fn environment_position(self, id: Seq<char>) -> Option<int> {
        position(environment_ids(self.environments), id)
    }

    /// The first task with the id.
    pub open spec fn task_position(self, id: Seq<char>) -> Option<int> {
        position(task_ids(self.tasks), id)
    }

    /// The first task that runs in the environment `env_id`.
    pub open spec fn task_of_environment(self, env_id: Seq<char>) -> Option<int> {
        position(task_environment_ids(self.tasks), env_id)
    }

    /// The first job with the id.
    pub open spec fn job_position(self, id: Seq<char>) -> Option<int> {
        position(job_ids(self.jobs), id)
    }

    /// Primary keys are unique in every table, project names are unique,
    /// and no two jobs hold the same dedupe key.
    pub open spec fn wf(self) -> bool {
        &&& unique(project_ids(self.projects))
        &&& unique(project_names(self.projects))
        &&& unique(environment_ids(self.environments))
        &&& unique(task_ids(self.tasks))
        &&& unique(job_ids(self.jobs))
        &&& unique_present(job_dedupe_keys(self.jobs))
    }
}

/// The first project with the given id.
pub fn find_project(rows: &Vec<Project>, id: &str) -> (r: Option<usize>)
    ensures
        match r {
            Some(i) => position(project_ids(rows.deep_view()), id@) == Some(i as int),
            None => position(project_ids(rows.deep_view()), id@) is None,
        },
{
    let ghost keys = project_ids(rows.deep_view());
    let mut i: usize = 0;
    while i < rows.len()
        invariant
            i <= rows.len(),
            keys == project_ids(rows.deep_view()),
            forall|j: int| 0 <= j < i ==> keys[j] != id@,
        decreases rows.len() - i,
    {
        if str_eq(rows[i].id.as_str(), id) {
            proof {
                lemma_position_is(keys, id@, i as int);
            }
            return Some(i);
        }
        i += 1;
    }
    None
}

/// The first project with the given name.
pub fn find_project_by_name(rows: &Vec<Project>, name: &str) -> (r: Option<usize>)
    ensures
        match r {
            Some(i) => position(project_names(rows.deep_view()), name@) == Some(i as int),
            None => position(project_names(rows.deep_view()), name@) is None,
        },
{
    let ghost keys = project_names(rows.deep_view());
    let mut i: usize = 0;
    while i < rows.len()
        invariant
            i <= rows.len(),
            keys == project_names(rows.deep_view()),
            forall|j: int| 0 <= j < i ==> keys[j] != name@,
        decreases rows.len() - i,
    {
        if str_eq(rows[i].name.as_str(), name) {
            proof {
                lemma_position_is(keys, name@, i as int);
            }
            return Some(i);
        }
        i += 1;
    }
    None
}

/// The first environment with the given id.
pub fn find_environment(rows: &Vec<Environment>, id: &str) -> (r: Option<usize>)
    ensures
        match r {
            Some(i) => position(environment_ids(rows.deep_view()), id@) == Some(i as int),
            None => position(environment_ids(rows.deep_view()), id@) is None,
        },
{
    let ghost keys = environment_ids(rows.deep_view());
    let mut i: usize = 0;
    while i < rows.len()
        invariant
            i <= rows.len(),
            keys == environment_ids(rows.deep_view()),
            forall|j: int| 0 <= j < i ==> keys[j] != id@,
        decreases rows.len() - i,
    {
        if str_eq(rows[i].id.as_str(), id) {
            proof {
                lemma_position_is(keys, id@, i as int);
            }
            return Some(i);
        }
        i += 1;
    }
    None
}

/// The first task with the given id.
pub fn find_task(rows: &Vec<Task>, id: &str) -> (r: Option<usize>)
    ensures
        match r {
            Some(i) => position(task_ids(rows.deep_view()), id@) == Some(i as int),
            None => position(task_ids(rows.deep_view()), id@) is None,
        },
{
    let ghost keys = task_ids(rows.deep_view());
    let mut i: usize = 0;
    while i < rows.len()
        invariant
            i <= rows.len(),
            keys == task_ids(rows.deep_view()),
            forall|j: int| 0 <= j < i ==> keys[j] != id@,
        decreases rows.len() - i,
    {
        if str_eq(rows[i].id.as_str(), id) {
            proof {
                lemma_position_is(keys, id@, i as int);
            }
            return Some(i);
        }
        i += 1;
    }
    None
}

/// The first task that runs in the given environment.
pub fn find_task_of_environment(rows: &Vec<Task>, env_id: &str) -> (r: Option<usize>)
    ensures
        match r {
            Some(i) => position(task_environment_ids(rows.deep_view()), env_id@) == Some(i as int),
            None => position(task_environment_ids(rows.deep_view()), env_id@) is None,
        },
{
    let ghost keys = task_environment_ids(rows.deep_view());
    let mut i: usize = 0;
    while i < rows.len()
        invariant
            i <= rows.len(),
            keys == task_environment_ids(rows.deep_view()),
            forall|j: int| 0 <= j < i ==> keys[j] != env_id@,
        decreases rows.len() - i,
    {
        if str_eq(rows[i].environment_id.as_str(), env_id) {
            proof {
                lemma_position_is(keys, env_id@, i as int);
            }
            return Some(i);
        }
        i += 1;
    }
    None
}

/// The first job with the given id.
pub fn find_job(rows: &Vec<Job>, id: &str) -> (r: Option<usize>)
    ensures
        match r {
            Some(i) => position(job_ids(rows.deep_view()), id@) == Some(i as int),
            None => position(job_ids(rows.deep_view()), id@) is None,
        },
{
    let ghost keys = job_ids(rows.deep_view());
    let mut i: usize = 0;
    while i < rows.len()
        invariant
            i <= rows.len(),
            keys == job_ids(rows.deep_view()),
            forall|j: int| 0 <= j < i ==> keys[j] != id@,
        decreases rows.len() - i,
    {
        if str_eq(rows[i].id.as_str(), id) {
            proof {
                lemma_position_is(keys, id@, i as int);
            }
            return Some(i);
        }
        i += 1;
    }
    None
}

/// The keys of a list, by value.
pub open spec fn key_views(keys: Seq<Option<&str>>) -> Seq<Option<Seq<char>>> {
    Seq::new(
        keys.len(),
        |i: int|
            match keys[i] {
                Some(k) => Some(k@),
                None => None,
            },
    )
}

/// Whether no key that is present occurs twice.
pub fn distinct(keys: &Vec<Option<&str>>) -> (r: bool)
    ensures
        r == forall|i: int, j: int|
            0 <= i < j < keys.len() && key_views(keys@)[i] is Some ==> key_views(keys@)[i] != key_views(
                keys@,
            )[j],
{
    let ghost views = key_views(keys@);
    let mut i: usize = 0;
    while i < keys.len()
        invariant
            i <= keys.len(),
            views == key_views(keys@),
            forall|a: int, b: int| 0 <= a < b < keys.len() && a < i && views[a] is Some ==> views[a] != views[b],
        decreases keys.len() - i,
    {
        if let Some(k) = keys[i] {
            let mut j: usize = i + 1;
            while j < keys.len()
                invariant
                    i < j <= keys.len(),
                    views == key_views(keys@),
                    keys@[i as int] == Some(k),
                    forall|b: int| i < b < j ==> views[i as int] != views[b],
                decreases keys.len() - j,
            {
                let same = match keys[j] {
                    Some(other) => str_eq(k, other),
                    None => false,
                };
                if same {
                    assert(views[i as int] is Some && views[i as int] == views[j as int]);
                    return false;
                }
                j += 1;
            }
        }
        i += 1;
    }
    true
}

/// The ids of the projects, to compare.
fn keys_of_project_ids(rows: &Vec<Project>) -> (keys: Vec<Option<&str>>)
    ensures
        keys.len() == rows.len(),
        forall|k: int| 0 <= k < rows.len() ==> #[trigger] key_views(keys@)[k] == Some(project_ids(rows.deep_view())[k]),
{
    let mut keys: Vec<Option<&str>> = Vec::new();
    let mut i: usize = 0;
    while i < rows.len()
        invariant
            i <= rows.len(),
            keys.len() == i,
            forall|k: int| 0 <= k < i ==> #[trigger] key_views(keys@)[k] == Some(project_ids(rows.deep_view())[k]),
        decreases rows.len() - i,
    {
        let ghost before = keys@;
        assert(rows.deep_view()[i as int] == rows@[i as int]@);
        keys.push(Some(rows[i].id.as_str()));
        assert forall|k: int| 0 <= k < i + 1 implies #[trigger] key_views(keys@)[k] == Some(
            project_ids(rows.deep_view())[k],
        ) by {
            if k < i {
                assert(key_views(before)[k] == Some(project_ids(rows.deep_view())[k]));
                assert(keys@[k] == before[k]);
            }
        }
        i += 1;
    }
    keys
}

/// The names of the projects, to compare.
fn keys_of_project_names(rows: &Vec<Project>) -> (keys: Vec<Option<&str>>)
    ensures
        keys.len() == rows.len(),
        forall|k: int| 0 <= k < rows.len() ==> #[trigger] key_views(keys@)[k] == Some(project_names(rows.deep_view())[k]),
{
    let mut keys: Vec<Option<&str>> = Vec::new();
    let mut i: usize = 0;
    while i < rows.len()
        invariant
            i <= rows.len(),
            keys.len() == i,
            forall|k: int| 0 <= k < i ==> #[trigger] key_views(keys@)[k] == Some(project_names(rows.deep_view())[k]),
        decreases rows.len() - i,
    {
        let ghost before = keys@;
        assert(rows.deep_view()[i as int] == rows@[i as int]@);
        keys.push(Some(rows[i].name.as_str()));
        assert forall|k: int| 0 <= k < i + 1 implies #[trigger] key_views(keys@)[k] == Some(
            project_names(rows.deep_view())[k],
        ) by {
            if k < i {
                assert(key_views(before)[k] == Some(project_names(rows.deep_view())[k]));
                assert(keys@[k] == before[k]);
            }
        }
        i += 1;
    }
    keys
}

/// The ids of the environments, to compare.
fn keys_of_environment_ids(rows: &Vec<Environment>) -> (keys: Vec<Option<&str>>)
    ensures
        keys.len() == rows.len(),
        forall|k: int| 0 <= k < rows.len() ==> #[trigger] key_views(keys@)[k] == Some(environment_ids(rows.deep_view())[k]),
{
    let mut keys: Vec<Option<&str>> = Vec::new();
    let mut i: usize = 0;
    while i < rows.len()
        invariant
            i <= rows.len(),
            keys.len() == i,
            forall|k: int| 0 <= k < i ==> #[trigger] key_views(keys@)[k] == Some(environment_ids(rows.deep_view())[k]),
        decreases rows.len() - i,
    {
        let ghost before = keys@;
        assert(rows.deep_view()[i as int] == rows@[i as int]@);
        keys.push(Some(rows[i].id.as_str()));
        assert forall|k: int| 0 <= k < i + 1 implies #[trigger] key_views(keys@)[k] == Some(
            environment_ids(rows.deep_view())[k],
        ) by {
            if k < i {
                assert(key_views(before)[k] == Some(environment_ids(rows.deep_view())[k]));
                assert(keys@[k] == before[k]);
            }
        }
        i += 1;
    }
    keys
}

/// The ids of the tasks, to compare.
fn keys_of_task_ids(rows: &Vec<Task>) -> (keys: Vec<Option<&str>>)
    ensures
        keys.len() == rows.len(),
        forall|k: int| 0 <= k < rows.len() ==> #[trigger] key_views(keys@)[k] == Some(task_ids(rows.deep_view())[k]),
{
    let mut keys: Vec<Option<&str>> = Vec::new();
    let mut i: usize = 0;
    while i < rows.len()
        invariant
            i <= rows.len(),
            keys.len() == i,
            forall|k: int| 0 <= k < i ==> #[trigger] key_views(keys@)[k] == Some(task_ids(rows.deep_view())[k]),
        decreases rows.len() - i,
    {
        let ghost before = keys@;
        assert(rows.deep_view()[i as int] == rows@[i as int]@);
        keys.push(Some(rows[i].id.as_str()));
        assert forall|k: int| 0 <= k < i + 1 implies #[trigger] key_views(keys@)[k] == Some(
            task_ids(rows.deep_view())[k],
        ) by {
            if k < i {
                assert(key_views(before)[k] == Some(task_ids(rows.deep_view())[k]));
                assert(keys@[k] == before[k]);
            }
        }
        i += 1;
    }
    keys
}

/// The ids of the jobs, to compare.
fn keys_of_job_ids(rows: &Vec<Job>) -> (keys: Vec<Option<&str>>)
    ensures
        keys.len() == rows.len(),
        forall|k: int| 0 <= k < rows.len() ==> #[trigger] key_views(keys@)[k] == Some(job_ids(rows.deep_view())[k]),
{
    let mut keys: Vec<Option<&str>> = Vec::new();
    let mut i: usize = 0;
    while i < rows.len()
        invariant
            i <= rows.len(),
            keys.len() == i,
            forall|k: int| 0 <= k < i ==> #[trigger] key_views(keys@)[k] == Some(job_ids(rows.deep_view())[k]),
        decreases rows.len() - i,
    {
        let ghost before = keys@;
        assert(rows.deep_view()[i as int] == rows@[i as int]@);
        keys.push(Some(rows[i].id.as_str()));
        assert forall|k: int| 0 <= k < i + 1 implies #[trigger] key_views(keys@)[k] == Some(
            job_ids(rows.deep_view())[k],
        ) by {
            if k < i {
                assert(key_views(before)[k] == Some(job_ids(rows.deep_view())[k]));
                assert(keys@[k] == before[k]);
            }
        }
        i += 1;
    }
    keys
}

/// The dedupe keys of the jobs, to compare.
fn keys_of_dedupe(rows: &Vec<Job>) -> (keys: Vec<Option<&str>>)
    ensures
        key_views(keys@) == job_dedupe_keys(rows.deep_view()),
{
    let mut keys: Vec<Option<&str>> = Vec::new();
    let mut i: usize = 0;
    while i < rows.len()
        invariant
            i <= rows.len(),
            keys.len() == i,
            forall|k: int| 0 <= k < i ==> #[trigger] key_views(keys@)[k] == job_dedupe_keys(rows.deep_view())[k],
        decreases rows.len() - i,
    {
        let ghost before = keys@;
        assert(rows.deep_view()[i as int] == rows@[i as int]@);
        keys.push(
            match &rows[i].dedupe_key {
                Some(k) => Some(k.as_str()),
                None => None,
            },
        );
        assert forall|k: int| 0 <= k < i + 1 implies #[trigger] key_views(keys@)[k] == job_dedupe_keys(
            rows.deep_view(),
        )[k] by {
            if k < i {
                assert(key_views(before)[k] == job_dedupe_keys(rows.deep_view())[k]);
                assert(keys@[k] == before[k]);
            }
        }
        i += 1;
    }
    assert(key_views(keys@) =~= job_dedupe_keys(rows.deep_view()));
    keys
}

impl Store {
    /// Whether the store is well-formed: primary keys and project names
    /// are unique, and no two jobs hold the same dedupe key.
    pub fn check(&self) -> (r: bool)
        ensures
            r == self@.wf(),
    {
        let project_id_keys = keys_of_project_ids(&self.projects);
        let project_name_keys = keys_of_project_names(&self.projects);
        let environment_id_keys = keys_of_environment_ids(&self.environments);
        let task_id_keys = keys_of_task_ids(&self.tasks);
        let job_id_keys = keys_of_job_ids(&self.jobs);
        let dedupe_keys = keys_of_dedupe(&self.jobs);
        proof {
            let s = self@;
            lemma_distinct_is_unique(key_views(project_id_keys@), project_ids(s.projects));
            lemma_distinct_is_unique(key_views(project_name_keys@), project_names(s.projects));
            lemma_distinct_is_unique(key_views(environment_id_keys@), environment_ids(s.environments));
            lemma_distinct_is_unique(key_views(task_id_keys@), task_ids(s.tasks));
            lemma_distinct_is_unique(key_views(job_id_keys@), job_ids(s.jobs));
        }
        let a = distinct(&project_id_keys);
        let b = distinct(&project_name_keys);
        let c = distinct(&environment_id_keys);
        let d = distinct(&task_id_keys);
        let e = distinct(&job_id_keys);
        let f = distinct(&dedupe_keys);
        a && b && c && d && e && f
    }
}

/// Keys that are all present are distinct exactly where they are unique.
proof fn lemma_distinct_is_unique(present: Seq<Option<Seq<char>>>, keys: Seq<Seq<char>>)
    requires
        present.len() == keys.len(),
        forall|k: int| 0 <= k < keys.len() ==> #[trigger] present[k] == Some(keys[k]),
    ensures
        unique(keys) <==> forall|i: int, j: int|
            0 <= i < j < present.len() && present[i] is Some ==> present[i] != present[j],
{
    if unique(keys) {
        assert forall|i: int, j: int| 0 <= i < j < present.len() && present[i] is Some implies present[i]
            != present[j] by {
            assert(keys[i] != keys[j]);
        }
    }
    if forall|i: int, j: int| 0 <= i < j < present.len() && present[i] is Some ==> present[i] != present[j] {
        assert forall|i: int, j: int| 0 <= i < j < keys.len() implies keys[i] != keys[j] by {
            assert(present[i] == Some(keys[i]));
            assert(present[j] == Some(keys[j]));
        }
    }
}

} // verus!
