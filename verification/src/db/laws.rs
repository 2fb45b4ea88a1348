//! What holds of the store whatever is done with it: how claims are
//! ordered, what deduplication guarantees, and what staging leaves behind.

use super::jobs::{
    active_keys, active_with_key, claim_outcome, claimed, eligible, eligible_mask, release_key,
    Oldest,
};
use super::query::{
    environment_ids,
    is_first,
    job_dedupe_keys,
    lemma_absent,
    lemma_position_is,
    position,
    task_ids,
};
use super::staging::{is_pool_candidate, pool_candidate, pool_mask};
use super::types::{
    EnvironmentStatus,
    EnvironmentView,
    Job,
    JobStatus,
    JobView,
    StoreError,
    StoreView,
    TaskView,
};
use crate::order::{is_selection, lemma_precedes_total, masked, precedes};
use vstd::prelude::*;

verus! {

/// A key that some position holds has a first position.
pub proof fn lemma_present<K>(keys: Seq<K>, k: K, j: int)
    requires
        0 <= j < keys.len(),
        keys[j] == k,
    ensures
        position(keys, k) is Some,
        0 <= position(keys, k)->0 <= j,
        keys[position(keys, k)->0] == k,
    decreases j,
{
    if forall|i: int| 0 <= i < j ==> keys[i] != k {
        assert(is_first(keys, k, j));
        lemma_position_is(keys, k, j);
    } else {
        let i = choose|i: int| 0 <= i < j && keys[i] == k;
        lemma_present(keys, k, i);
    }
}

/// What a reported position is: within the list, and holding the key.
pub proof fn lemma_position_holds<K>(keys: Seq<K>, k: K)
    requires
        position(keys, k) is Some,
    ensures
        0 <= position(keys, k)->0 < keys.len(),
        keys[position(keys, k)->0] == k,
{
}

/// At most one active job holds a dedupe key: in a well-formed store, two
/// different jobs never hold the same key, active or not.
pub proof fn lemma_dedupe_unique(s: StoreView, i: int, j: int)
    requires
        s.wf(),
        0 <= i < s.jobs.len(),
        0 <= j < s.jobs.len(),
        i != j,
        s.jobs[i].dedupe_key is Some,
    ensures
        s.jobs[i].dedupe_key != s.jobs[j].dedupe_key,
{
    let keys = job_dedupe_keys(s.jobs);
    assert(keys[i] == s.jobs[i].dedupe_key);
    assert(keys[j] == s.jobs[j].dedupe_key);
    if i < j {
        assert(keys[i] != keys[j]);
    } else {
        if keys[j] is Some {
            assert(keys[j] != keys[i]);
        }
    }
}

/// A job whose lease has run out is claimed by the next claim, with
/// exactly one more attempt, unless the claim is full with jobs that come
/// before it.
pub proof fn lemma_expired_lease_reclaimed(
    pre: StoreView,
    post: StoreView,
    rows: Seq<JobView>,
    order: Seq<int>,
    limit: nat,
    now: int,
    lease_seconds: int,
    i: int,
)
    requires
        is_selection::<Job, Oldest>(pre.jobs, eligible_mask(pre.jobs, now), limit, order),
        claim_outcome(pre, order, now, lease_seconds, post, Ok(rows)),
        0 <= i < pre.jobs.len(),
        pre.jobs[i].status == JobStatus::Running,
        pre.jobs[i].lease_expires_at is Some,
        pre.jobs[i].lease_expires_at->0 <= now,
    ensures
        order.contains(i) ==> post.jobs[i].attempt == pre.jobs[i].attempt + 1 && post.jobs[i].status
            == JobStatus::Running && rows.contains(post.jobs[i]),
        !order.contains(i) ==> order.len() == limit && forall|p: int|
            0 <= p < order.len() ==> precedes::<Job, Oldest>(pre.jobs, #[trigger] order[p], i),
{
    assert(masked(eligible_mask(pre.jobs, now), i));
    if order.contains(i) {
        let p = choose|p: int| 0 <= p < order.len() && order[p] == i;
        assert(rows[p] == claimed(pre.jobs[i], now, lease_seconds));
    }
}

/// Of two jobs that may be claimed, the one created earlier is claimed
/// first: where the later one is among the claimed, the earlier one is
/// too, and stands before it.
pub proof fn lemma_claim_order(
    jobs: Seq<JobView>,
    order: Seq<int>,
    limit: nat,
    now: int,
    a: int,
    b: int,
    q: int,
)
    requires
        is_selection::<Job, Oldest>(jobs, eligible_mask(jobs, now), limit, order),
        0 <= a < jobs.len(),
        0 <= b < jobs.len(),
        eligible(jobs[a], now),
        eligible(jobs[b], now),
        jobs[a].created_at < jobs[b].created_at,
        0 <= q < order.len(),
        order[q] == b,
    ensures
        exists|p: int| 0 <= p < q && order[p] == a,
{
    assert(masked(eligible_mask(jobs, now), a));
    assert(precedes::<Job, Oldest>(jobs, a, b));
    lemma_precedes_total::<Job, Oldest>(jobs, a, b);
    if !order.contains(a) {
        assert(precedes::<Job, Oldest>(jobs, order[q], a));
    } else {
        let p = choose|p: int| 0 <= p < order.len() && order[p] == a;
        if q < p {
            assert(precedes::<Job, Oldest>(jobs, order[q], order[p]));
        }
        assert(p < q);
    }
}

/// The entities that a job names exist.
pub open spec fn targets_exist(s: StoreView, j: JobView) -> bool {
    &&& j.payload.env_id is Some ==> s.environment_position(j.payload.env_id->0) is Some
    &&& j.payload.task_id is Some ==> s.task_position(j.payload.task_id->0) is Some
}

/// Every job that is not terminal names entities that exist.
pub open spec fn no_orphans(s: StoreView) -> bool {
    forall|i: int| 0 <= i < s.jobs.len() && (#[trigger] s.jobs[i]).status.is_active() ==> targets_exist(s, s.jobs[i])
}

/// `after` holds every environment and task that `before` holds.
pub open spec fn keeps_entities(before: StoreView, after: StoreView) -> bool {
    &&& forall|id: Seq<char>| before.environment_position(id) is Some ==> after.environment_position(id) is Some
    &&& forall|id: Seq<char>| before.task_position(id) is Some ==> after.task_position(id) is Some
}

/// Staging a job whose targets exist, on top of entity writes that lose
/// nothing, leaves no orphan.
pub proof fn lemma_staged_no_orphans(base: StoreView, written: StoreView, job: JobView)
    requires
        no_orphans(base),
        written.jobs == base.jobs,
        keeps_entities(base, written),
        targets_exist(written, job),
        written.staged(job) is Ok,
    ensures
        no_orphans(written.staged(job)->Ok_0),
{
    let post = written.staged(job)->Ok_0;
    assert(post.environments == written.environments);
    assert(post.tasks == written.tasks);
    assert forall|i: int| 0 <= i < post.jobs.len() && (#[trigger] post.jobs[i]).status.is_active() implies targets_exist(
        post,
        post.jobs[i],
    ) by {
        if post.jobs == written.jobs {
            assert(targets_exist(base, base.jobs[i]));
        } else {
            let released = release_key(written.jobs, job.dedupe_key);
            assert(post.jobs == released.push(job));
            if i < written.jobs.len() {
                assert(post.jobs[i] == released[i]);
                assert(released[i].payload == base.jobs[i].payload);
                assert(released[i].status == base.jobs[i].status);
                assert(targets_exist(base, base.jobs[i]));
            } else {
                assert(post.jobs[i] == job);
            }
        }
    }
}

/// Appending a row keeps every key that was found.
pub proof fn lemma_push_keeps<K>(keys: Seq<K>, extra: K, k: K)
    requires
        position(keys, k) is Some,
    ensures
        position(keys.push(extra), k) is Some,
{
    let i = position(keys, k)->0;
    assert(keys.push(extra)[i] == k);
    lemma_present(keys.push(extra), k, i);
}

/// Replacing the environment at a position by one with the same id loses
/// no entity.
pub proof fn lemma_set_environment_keeps(s: StoreView, i: int, row: EnvironmentView)
    requires
        0 <= i < s.environments.len(),
        row.id == s.environments[i].id,
    ensures
        keeps_entities(s, s.set_environment(i, row)),
        s.set_environment(i, row).jobs == s.jobs,
{
    assert(environment_ids(s.environments.update(i, row)) =~= environment_ids(s.environments));
}

/// Adding an environment loses no entity, and the new one is found.
pub proof fn lemma_insert_environment_keeps(s: StoreView, row: EnvironmentView)
    ensures
        keeps_entities(s, s.insert_environment(row)),
        s.insert_environment(row).environment_position(row.id) is Some,
        s.insert_environment(row).jobs == s.jobs,
{
    let before = environment_ids(s.environments);
    let after = environment_ids(s.environments.push(row));
    assert(after =~= before.push(row.id));
    assert forall|id: Seq<char>| s.environment_position(id) is Some implies s.insert_environment(
        row,
    ).environment_position(id) is Some by {
        lemma_push_keeps(before, row.id, id);
    }
    lemma_present(after, row.id, before.len() as int);
}

/// Adding a task loses no entity, and the new one is found.
pub proof fn lemma_insert_task_keeps(s: StoreView, row: TaskView)
    ensures
        keeps_entities(s, s.insert_task(row)),
        s.insert_task(row).task_position(row.id) is Some,
        s.insert_task(row).jobs == s.jobs,
{
    let before = task_ids(s.tasks);
    let after = task_ids(s.tasks.push(row));
    assert(after =~= before.push(row.id));
    assert forall|id: Seq<char>| s.task_position(id) is Some implies s.insert_task(row).task_position(
        id,
    ) is Some by {
        lemma_push_keeps(before, row.id, id);
    }
    lemma_present(after, row.id, before.len() as int);
}

/// Losing nothing is transitive.
pub proof fn lemma_keeps_transitive(a: StoreView, b: StoreView, c: StoreView)
    requires
        keeps_entities(a, b),
        keeps_entities(b, c),
    ensures
        keeps_entities(a, c),
{
}

/// Staging the preparation of an environment leaves no orphan.
pub proof fn lemma_stage_prepare_no_orphans(
    pre: StoreView,
    project_id: Seq<char>,
    provider: Seq<char>,
    claim_after_prepare: bool,
    env_id: Seq<char>,
    job_id: Seq<char>,
    now: int,
)
    requires
        no_orphans(pre),
        pre.stage_prepare_environment(project_id, provider, claim_after_prepare, env_id, job_id, now) is Ok,
    ensures
        no_orphans(
            pre.stage_prepare_environment(project_id, provider, claim_after_prepare, env_id, job_id, now)->Ok_0,
        ),
{
    let env = super::staging::new_environment(env_id, project_id, provider, now);
    let job = super::jobs::new_job(
        job_id,
        super::types::JobType::PrepareEnvironment,
        super::staging::env_payload(env_id, claim_after_prepare),
        Some(super::staging::env_key(super::types::JobType::PrepareEnvironment, env_id)),
        now,
    );
    lemma_insert_environment_keeps(pre, env);
    lemma_staged_no_orphans(pre, pre.insert_environment(env), job);
}

/// Staging the update of an environment leaves no orphan.
pub proof fn lemma_stage_update_no_orphans(pre: StoreView, id: Seq<char>, job_id: Seq<char>, now: int)
    requires
        no_orphans(pre),
        pre.stage_update_environment(id, job_id, now) is Ok,
    ensures
        no_orphans(pre.stage_update_environment(id, job_id, now)->Ok_0),
{
    lemma_staged_no_orphans(pre, pre, super::staging::update_job(id, job_id, now));
}

/// Staging the claim of the pooled environment at a position leaves no
/// orphan.
pub proof fn lemma_stage_claim_at_no_orphans(pre: StoreView, i: int, job_id: Seq<char>, now: int)
    requires
        no_orphans(pre),
        0 <= i < pre.environments.len(),
        pre.stage_claim_at(i, job_id, now) is Ok,
    ensures
        no_orphans(pre.stage_claim_at(i, job_id, now)->Ok_0),
{
    let id = pre.environments[i].id;
    let row = super::staging::with_status(pre.environments[i], EnvironmentStatus::InUse, now);
    let job = super::jobs::new_job(
        job_id,
        super::types::JobType::ClaimEnvironment,
        super::staging::env_payload(id, false),
        Some(super::staging::env_key(super::types::JobType::ClaimEnvironment, id)),
        now,
    );
    lemma_set_environment_keeps(pre, i, row);
    assert(environment_ids(pre.environments)[i] == id);
    lemma_present(environment_ids(pre.environments), id, i);
    lemma_staged_no_orphans(pre, pre.set_environment(i, row), job);
}

/// Staging the claim of an environment, by id or as the next pooled one,
/// leaves no orphan.
pub proof fn lemma_stage_claim_no_orphans(
    pre: StoreView,
    id: Seq<char>,
    provider: Seq<char>,
    project_id: Seq<char>,
    job_id: Seq<char>,
    now: int,
)
    requires
        no_orphans(pre),
    ensures
        pre.stage_claim_environment(id, job_id, now) is Ok ==> no_orphans(
            pre.stage_claim_environment(id, job_id, now)->Ok_0,
        ),
        pre.stage_claim_next_environment(provider, project_id, job_id, now) is Ok ==> no_orphans(
            pre.stage_claim_next_environment(provider, project_id, job_id, now)->Ok_0,
        ),
{
    if pre.stage_claim_environment(id, job_id, now) is Ok {
        let i = super::entities::environment_in(pre, id, EnvironmentStatus::Pool)->0;
        lemma_position_holds(environment_ids(pre.environments), id);
        lemma_stage_claim_at_no_orphans(pre, i, job_id, now);
    }
    if pre.stage_claim_next_environment(provider, project_id, job_id, now) is Ok {
        let i = pool_candidate(pre.environments, provider, project_id)->0;
        assert(is_pool_candidate(pre.environments, provider, project_id, i));
        lemma_stage_claim_at_no_orphans(pre, i, job_id, now);
    }
}

/// Staging the removal of an environment leaves no orphan.
pub proof fn lemma_stage_remove_environment_no_orphans(pre: StoreView, id: Seq<char>, job_id: Seq<char>, now: int)
    requires
        no_orphans(pre),
        pre.stage_remove_environment(id, job_id, now) is Ok,
    ensures
        no_orphans(pre.stage_remove_environment(id, job_id, now)->Ok_0),
{
    let i = pre.environment_position(id)->0;
    lemma_position_holds(environment_ids(pre.environments), id);
    let row = super::staging::with_status(pre.environments[i], EnvironmentStatus::Removing, now);
    let job = super::jobs::new_job(
        job_id,
        super::types::JobType::RemoveEnvironment,
        super::staging::env_payload(id, false),
        Some(super::staging::env_key(super::types::JobType::RemoveEnvironment, id)),
        now,
    );
    lemma_set_environment_keeps(pre, i, row);
    lemma_staged_no_orphans(pre, pre.set_environment(i, row), job);
}

/// Staging the removal of a task leaves no orphan.
pub proof fn lemma_stage_remove_task_no_orphans(pre: StoreView, task_id: Seq<char>, job_id: Seq<char>, now: int)
    requires
        no_orphans(pre),
        pre.stage_remove_task(task_id, job_id, now) is Ok,
    ensures
        no_orphans(pre.stage_remove_task(task_id, job_id, now)->Ok_0),
{
    let t = pre.task_position(task_id)->0;
    lemma_position_holds(task_ids(pre.tasks), task_id);
    let env_id = pre.tasks[t].environment_id;
    let i = pre.environment_position(env_id)->0;
    lemma_position_holds(environment_ids(pre.environments), env_id);
    let row = super::staging::with_status(pre.environments[i], EnvironmentStatus::Removing, now);
    let job = super::jobs::new_job(
        job_id,
        super::types::JobType::RemoveTask,
        super::staging::task_payload(task_id, env_id),
        Some(super::staging::task_key(super::types::JobType::RemoveTask, task_id)),
        now,
    );
    if pre.environments[i].status == EnvironmentStatus::Removing {
        lemma_staged_no_orphans(pre, pre, job);
    } else {
        lemma_set_environment_keeps(pre, i, row);
        lemma_staged_no_orphans(pre, pre.set_environment(i, row), job);
    }
}

/// Staging the creation of a task leaves no orphan.
pub proof fn lemma_stage_task_create_no_orphans(
    pre: StoreView,
    project_id: Seq<char>,
    task_provider: Seq<char>,
    env_provider: Seq<char>,
    description: Seq<char>,
    task_id: Seq<char>,
    new_env_id: Seq<char>,
    job_id: Seq<char>,
    now: int,
)
    requires
        no_orphans(pre),
        pre.stage_task_create(
            project_id,
            task_provider,
            env_provider,
            description,
            task_id,
            new_env_id,
            job_id,
            now,
        ) is Ok,
    ensures
        no_orphans(
            pre.stage_task_create(
                project_id,
                task_provider,
                env_provider,
                description,
                task_id,
                new_env_id,
                job_id,
                now,
            )->Ok_0,
        ),
{
    let env_id = pre.environment_for_task(env_provider, project_id, new_env_id);
    let task = super::staging::new_task(task_id, env_id, project_id, task_provider, description, now);
    match pool_candidate(pre.environments, env_provider, project_id) {
        Some(i) => {
            assert(is_pool_candidate(pre.environments, env_provider, project_id, i));
            let row = super::staging::with_status(pre.environments[i], EnvironmentStatus::InUse, now);
            let claimed_env = pre.set_environment(i, row);
            let job = super::jobs::new_job(
                job_id,
                super::types::JobType::ClaimEnvironment,
                super::staging::task_payload(task_id, env_id),
                Some(super::staging::task_key(super::types::JobType::ClaimEnvironment, task_id)),
                now,
            );
            lemma_set_environment_keeps(pre, i, row);
            assert(environment_ids(pre.environments)[i] == env_id);
            lemma_present(environment_ids(pre.environments), env_id, i);
            lemma_insert_task_keeps(claimed_env, task);
            lemma_keeps_transitive(pre, claimed_env, claimed_env.insert_task(task));
            lemma_staged_no_orphans(pre, claimed_env.insert_task(task), job);
        },
        None => {
            let env = super::staging::new_environment(new_env_id, project_id, env_provider, now);
            let added = pre.insert_environment(env);
            let job = super::jobs::new_job(
                job_id,
                super::types::JobType::PrepareEnvironment,
                super::staging::task_payload(task_id, env_id),
                Some(super::staging::env_key(super::types::JobType::PrepareEnvironment, env_id)),
                now,
            );
            lemma_insert_environment_keeps(pre, env);
            lemma_insert_task_keeps(added, task);
            lemma_keeps_transitive(pre, added, added.insert_task(task));
            lemma_staged_no_orphans(pre, added.insert_task(task), job);
        },
    }
}

/// A task is created with exactly one environment: either one that was in
/// the pool before and is in use now, or a new one that is preparing;
/// never both, never neither.
pub proof fn lemma_task_creation_atomic(
    pre: StoreView,
    project_id: Seq<char>,
    task_provider: Seq<char>,
    env_provider: Seq<char>,
    description: Seq<char>,
    task_id: Seq<char>,
    new_env_id: Seq<char>,
    job_id: Seq<char>,
    now: int,
)
    requires
        pre.stage_task_create(
            project_id,
            task_provider,
            env_provider,
            description,
            task_id,
            new_env_id,
            job_id,
            now,
        ) is Ok,
    ensures
        ({
            let post = pre.stage_task_create(
                project_id,
                task_provider,
                env_provider,
                description,
                task_id,
                new_env_id,
                job_id,
                now,
            )->Ok_0;
            let env_id = pre.environment_for_task(env_provider, project_id, new_env_id);
            let reused = exists|i: int|
                0 <= i < pre.environments.len() && #[trigger] pre.environments[i].id == env_id
                    && pre.environments[i].status == EnvironmentStatus::Pool && post.environments
                    == pre.environments.update(
                    i,
                    super::staging::with_status(pre.environments[i], EnvironmentStatus::InUse, now),
                );
            let created = pre.environment_position(env_id) is None && post.environments
                == pre.environments.push(super::staging::new_environment(env_id, project_id, env_provider, now));
            &&& post.tasks == pre.tasks.push(
                super::staging::new_task(task_id, env_id, project_id, task_provider, description, now),
            )
            &&& reused != created
        }),
{
    let env_id = pre.environment_for_task(env_provider, project_id, new_env_id);
    match pool_candidate(pre.environments, env_provider, project_id) {
        Some(i) => {
            assert(is_pool_candidate(pre.environments, env_provider, project_id, i));
            assert(pool_mask(pre.environments, env_provider, project_id)[i]);
            assert(environment_ids(pre.environments)[i] == env_id);
            lemma_present(environment_ids(pre.environments), env_id, i);
        },
        None => {
            assert forall|i: int| 0 <= i < pre.environments.len() implies #[trigger] pre.environments[i].id
                != env_id by {
                lemma_absent(environment_ids(pre.environments), env_id, i);
            }
        },
    }
}

/// The job that a staging queued is the active holder of its dedupe key
/// afterwards: whoever stages the same request next is told of it.
pub proof fn lemma_staged_job_holds_key(pre: StoreView, job: JobView)
    requires
        job.dedupe_key is Some,
        job.status.is_active(),
        pre.staged(job) is Ok,
    ensures
        ({
            let post = pre.staged(job)->Ok_0;
            &&& active_with_key(post.jobs, job.dedupe_key) is Some
            &&& Ok::<Seq<char>, StoreError>(post.jobs[active_with_key(post.jobs, job.dedupe_key)->0].id)
                == pre.inserted_id(job)
        }),
{
    let key = job.dedupe_key;
    let post = pre.staged(job)->Ok_0;
    match active_with_key(pre.jobs, key) {
        Some(i) => {
            assert(post == pre);
        },
        None => {
            let released = release_key(pre.jobs, key);
            let n = pre.jobs.len() as int;
            assert(post.jobs == released.push(job));
            let keys = active_keys(post.jobs);
            assert forall|j: int| 0 <= j < n implies keys[j] != key by {
                lemma_absent(active_keys(pre.jobs), key, j);
                assert(post.jobs[j] == released[j]);
            }
            assert(keys[n] == key);
            assert(is_first(keys, key, n));
            lemma_position_is(keys, key, n);
        },
    }
}

/// Staging the update of an environment twice leaves one job for it: the
/// second staging changes nothing and reports the job of the first.
pub proof fn lemma_update_staged_once(
    pre: StoreView,
    id: Seq<char>,
    first_job_id: Seq<char>,
    second_job_id: Seq<char>,
    now: int,
    later: int,
)
    requires
        pre.stage_update_environment(id, first_job_id, now) is Ok,
    ensures
        ({
            let once = pre.stage_update_environment(id, first_job_id, now)->Ok_0;
            &&& once.stage_update_environment(id, second_job_id, later) == Ok::<StoreView, StoreError>(once)
            &&& once.inserted_id(super::staging::update_job(id, second_job_id, later)) == pre.inserted_id(
                super::staging::update_job(id, first_job_id, now),
            )
        }),
{
    let first = super::staging::update_job(id, first_job_id, now);
    let second = super::staging::update_job(id, second_job_id, later);
    let once = pre.stage_update_environment(id, first_job_id, now)->Ok_0;
    assert(once.environments == pre.environments);
    lemma_staged_job_holds_key(pre, first);
    assert(second.dedupe_key == first.dedupe_key);
}

/// A job that may be claimed is claimed where fewer jobs than the limit
/// may be claimed before it: it gets exactly one more attempt and a fresh
/// lease, is no longer held back, and loses its last error; and it is
/// among the jobs handed out. Jobs of the same age go by their position.
pub proof fn lemma_claimed_by_age(
    pre: StoreView,
    post: StoreView,
    rows: Seq<JobView>,
    order: Seq<int>,
    limit: nat,
    now: int,
    lease_seconds: int,
    i: int,
)
    requires
        is_selection::<Job, Oldest>(pre.jobs, eligible_mask(pre.jobs, now), limit, order),
        claim_outcome(pre, order, now, lease_seconds, post, Ok(rows)),
        0 <= i < pre.jobs.len(),
        eligible(pre.jobs[i], now),
        crate::order::earlier::<Job, Oldest>(pre.jobs, eligible_mask(pre.jobs, now), i).len() < limit,
    ensures
        order.contains(i),
        post.jobs[i] == claimed(pre.jobs[i], now, lease_seconds),
        post.jobs[i].status == JobStatus::Running,
        post.jobs[i].attempt == pre.jobs[i].attempt + 1,
        post.jobs[i].lease_expires_at == Some(crate::clock::deadline_spec(now, lease_seconds)),
        post.jobs[i].not_before is None,
        post.jobs[i].last_error is None,
        exists|p: int| 0 <= p < rows.len() && order[p] == i && #[trigger] rows[p] == post.jobs[i],
{
    assert(masked(eligible_mask(pre.jobs, now), i));
    crate::order::lemma_selected_by_rank::<Job, Oldest>(pre.jobs, eligible_mask(pre.jobs, now), limit, order, i);
    let p = choose|p: int| 0 <= p < order.len() && order[p] == i;
    assert(rows[p] == claimed(pre.jobs[i], now, lease_seconds));
}

/// With room for one job, the oldest job that may be claimed is the one
/// claimed, and every other job stays as it is.
pub proof fn lemma_oldest_claimed_alone(
    pre: StoreView,
    post: StoreView,
    rows: Seq<JobView>,
    order: Seq<int>,
    now: int,
    lease_seconds: int,
    a: int,
)
    requires
        is_selection::<Job, Oldest>(pre.jobs, eligible_mask(pre.jobs, now), 1, order),
        claim_outcome(pre, order, now, lease_seconds, post, Ok(rows)),
        0 <= a < pre.jobs.len(),
        eligible(pre.jobs[a], now),
        forall|k: int|
            0 <= k < pre.jobs.len() && #[trigger] eligible(pre.jobs[k], now) && k != a ==> precedes::<Job, Oldest>(
                pre.jobs,
                a,
                k,
            ),
    ensures
        order == seq![a],
        rows == seq![claimed(pre.jobs[a], now, lease_seconds)],
        post.jobs.len() == pre.jobs.len(),
        forall|k: int| 0 <= k < pre.jobs.len() && k != a ==> #[trigger] post.jobs[k] == pre.jobs[k],
{
    let mask = eligible_mask(pre.jobs, now);
    assert(masked(mask, a));
    assert forall|k: int| 0 <= k < pre.jobs.len() && #[trigger] masked(mask, k) && k != a implies precedes::<
        Job,
        Oldest,
    >(pre.jobs, a, k) by {
        assert(eligible(pre.jobs[k], now));
    }
    crate::order::lemma_first_selected::<Job, Oldest>(pre.jobs, mask, 1, order, a);
    assert(order =~= seq![a]);
    assert(rows =~= seq![claimed(pre.jobs[a], now, lease_seconds)]);
    assert forall|k: int| 0 <= k < pre.jobs.len() && k != a implies #[trigger] post.jobs[k] == pre.jobs[k] by {
        if order.contains(k) {
            let p = choose|p: int| 0 <= p < order.len() && order[p] == k;
            assert(order[p] == a);
        }
    }
}

/// Of two pending jobs, claimed one at a time, the older is handed out
/// first and the younger next, as long as the lease of the first holds
/// and no other job may be claimed.
pub proof fn lemma_claims_in_age_order(
    pre: StoreView,
    mid: StoreView,
    first: Seq<JobView>,
    first_order: Seq<int>,
    second_order: Seq<int>,
    now: int,
    later: int,
    lease_seconds: int,
    a: int,
    b: int,
)
    requires
        is_selection::<Job, Oldest>(pre.jobs, eligible_mask(pre.jobs, now), 1, first_order),
        claim_outcome(pre, first_order, now, lease_seconds, mid, Ok(first)),
        is_selection::<Job, Oldest>(mid.jobs, eligible_mask(mid.jobs, later), 1, second_order),
        0 <= a < pre.jobs.len(),
        0 <= b < pre.jobs.len(),
        a != b,
        eligible(pre.jobs[a], now),
        eligible(pre.jobs[b], later),
        precedes::<Job, Oldest>(pre.jobs, a, b),
        forall|k: int| 0 <= k < pre.jobs.len() && k != a && k != b ==> !(#[trigger] eligible(pre.jobs[k], now)),
        forall|k: int| 0 <= k < pre.jobs.len() && k != a && k != b ==> !(#[trigger] eligible(pre.jobs[k], later)),
        later < crate::clock::deadline_spec(now, lease_seconds),
    ensures
        first_order == seq![a],
        second_order == seq![b],
{
    assert forall|k: int|
        0 <= k < pre.jobs.len() && #[trigger] eligible(pre.jobs[k], now) && k != a implies precedes::<Job, Oldest>(
        pre.jobs,
        a,
        k,
    ) by {
        assert(k == b);
    }
    lemma_oldest_claimed_alone(pre, mid, first, first_order, now, lease_seconds, a);
    let mask = eligible_mask(mid.jobs, later);
    assert(first_order[0] == a);
    assert(first_order.contains(a));
    assert(mid.jobs[a] == claimed(pre.jobs[a], now, lease_seconds));
    assert(!eligible(mid.jobs[a], later));
    assert(mid.jobs[b] == pre.jobs[b]);
    assert(masked(mask, b));
    assert forall|k: int| 0 <= k < mid.jobs.len() && #[trigger] masked(mask, k) && k != b implies precedes::<
        Job,
        Oldest,
    >(mid.jobs, b, k) by {
        if k != a {
            assert(mid.jobs[k] == pre.jobs[k]);
            assert(!eligible(pre.jobs[k], later));
        }
    }
    crate::order::lemma_first_selected::<Job, Oldest>(mid.jobs, mask, 1, second_order, b);
    assert(second_order =~= seq![b]);
}

/// A job with a new id whose dedupe key no active job holds is queued:
/// exactly one row is added, at the end, and every other job keeps its
/// id, kind, payload, status and attempts.
pub proof fn lemma_staged_fresh(pre: StoreView, job: JobView)
    requires
        active_with_key(pre.jobs, job.dedupe_key) is None,
        pre.job_position(job.id) is None,
    ensures
        pre.staged(job) == Ok::<StoreView, StoreError>(pre.enqueue(job)),
        pre.inserted_id(job) == Ok::<Seq<char>, StoreError>(job.id),
        pre.enqueue(job).jobs.len() == pre.jobs.len() + 1,
        pre.enqueue(job).jobs[pre.jobs.len() as int] == job,
        forall|i: int|
            0 <= i < pre.jobs.len() ==> {
                let kept = #[trigger] pre.enqueue(job).jobs[i];
                &&& kept.id == pre.jobs[i].id
                &&& kept.job_type == pre.jobs[i].job_type
                &&& kept.payload == pre.jobs[i].payload
                &&& kept.status == pre.jobs[i].status
                &&& kept.attempt == pre.jobs[i].attempt
            },
        pre.enqueue(job).projects == pre.projects,
        pre.enqueue(job).environments == pre.environments,
        pre.enqueue(job).tasks == pre.tasks,
{
    let released = release_key(pre.jobs, job.dedupe_key);
    assert forall|i: int| 0 <= i < pre.jobs.len() implies {
        let kept = #[trigger] pre.enqueue(job).jobs[i];
        &&& kept.id == pre.jobs[i].id
        &&& kept.job_type == pre.jobs[i].job_type
        &&& kept.payload == pre.jobs[i].payload
        &&& kept.status == pre.jobs[i].status
        &&& kept.attempt == pre.jobs[i].attempt
    } by {
        assert(pre.enqueue(job).jobs[i] == released[i]);
    }
}

/// A job whose dedupe key an active job holds is not queued: the store
/// stays as it is and the holder stands for the request.
pub proof fn lemma_staged_known(pre: StoreView, job: JobView)
    requires
        active_with_key(pre.jobs, job.dedupe_key) is Some,
    ensures
        pre.staged(job) == Ok::<StoreView, StoreError>(pre),
        pre.inserted_id(job) == Ok::<Seq<char>, StoreError>(
            pre.jobs[active_with_key(pre.jobs, job.dedupe_key)->0].id,
        ),
{
}

/// Staging the preparation of an environment with new ids adds exactly
/// one preparing environment and exactly one pending job for it.
pub proof fn lemma_stage_prepare_adds_rows(
    pre: StoreView,
    project_id: Seq<char>,
    provider: Seq<char>,
    claim_after_prepare: bool,
    env_id: Seq<char>,
    job_id: Seq<char>,
    now: int,
)
    requires
        pre.project_position(project_id) is Some,
        pre.environment_position(env_id) is None,
        pre.job_position(job_id) is None,
        active_with_key(pre.jobs, Some(super::staging::env_key(super::types::JobType::PrepareEnvironment, env_id)))
            is None,
    ensures
        ({
            let staged = pre.stage_prepare_environment(
                project_id,
                provider,
                claim_after_prepare,
                env_id,
                job_id,
                now,
            );
            let job = super::jobs::new_job(
                job_id,
                super::types::JobType::PrepareEnvironment,
                super::staging::env_payload(env_id, claim_after_prepare),
                Some(super::staging::env_key(super::types::JobType::PrepareEnvironment, env_id)),
                now,
            );
            &&& staged is Ok
            &&& staged->Ok_0.environments == pre.environments.push(
                super::staging::new_environment(env_id, project_id, provider, now),
            )
            &&& staged->Ok_0.jobs.len() == pre.jobs.len() + 1
            &&& staged->Ok_0.jobs[pre.jobs.len() as int] == job
            &&& staged->Ok_0.projects == pre.projects
            &&& staged->Ok_0.tasks == pre.tasks
        }),
{
    let env = super::staging::new_environment(env_id, project_id, provider, now);
    let job = super::jobs::new_job(
        job_id,
        super::types::JobType::PrepareEnvironment,
        super::staging::env_payload(env_id, claim_after_prepare),
        Some(super::staging::env_key(super::types::JobType::PrepareEnvironment, env_id)),
        now,
    );
    lemma_staged_fresh(pre.insert_environment(env), job);
}

/// Staging the removal of a task leaves the task rows as they are, marks
/// its environment as being removed, and leaves an active job under the
/// task's removal key.
pub proof fn lemma_stage_remove_task_effect(pre: StoreView, task_id: Seq<char>, job_id: Seq<char>, now: int)
    requires
        pre.stage_remove_task(task_id, job_id, now) is Ok,
    ensures
        ({
            let post = pre.stage_remove_task(task_id, job_id, now)->Ok_0;
            let t = pre.task_position(task_id)->0;
            let e = pre.environment_position(pre.tasks[t].environment_id)->0;
            let key = Some(super::staging::task_key(super::types::JobType::RemoveTask, task_id));
            &&& post.tasks == pre.tasks
            &&& post.environments.len() == pre.environments.len()
            &&& 0 <= e < pre.environments.len()
            &&& post.environments[e].status == EnvironmentStatus::Removing
            &&& post.environments[e].id == pre.environments[e].id
            &&& forall|k: int|
                0 <= k < pre.environments.len() && k != e ==> #[trigger] post.environments[k]
                    == pre.environments[k]
            &&& active_with_key(post.jobs, key) is Some
        }),
{
    let t = pre.task_position(task_id)->0;
    lemma_position_holds(task_ids(pre.tasks), task_id);
    let env_id = pre.tasks[t].environment_id;
    let e = pre.environment_position(env_id)->0;
    lemma_position_holds(environment_ids(pre.environments), env_id);
    let job = super::jobs::new_job(
        job_id,
        super::types::JobType::RemoveTask,
        super::staging::task_payload(task_id, env_id),
        Some(super::staging::task_key(super::types::JobType::RemoveTask, task_id)),
        now,
    );
    let marked = if pre.environments[e].status == EnvironmentStatus::Removing {
        pre
    } else {
        pre.set_environment(e, super::staging::with_status(pre.environments[e], EnvironmentStatus::Removing, now))
    };
    lemma_staged_job_holds_key(marked, job);
}

/// The job that stands for a new task: with a new job id and a free
/// dedupe key, exactly one job is queued, a claim of the pooled
/// environment that was taken or the preparation of the new one, and it
/// names the task and its environment.
pub proof fn lemma_task_creation_job(
    pre: StoreView,
    project_id: Seq<char>,
    task_provider: Seq<char>,
    env_provider: Seq<char>,
    description: Seq<char>,
    task_id: Seq<char>,
    new_env_id: Seq<char>,
    job_id: Seq<char>,
    now: int,
)
    requires
        pre.stage_task_create(
            project_id,
            task_provider,
            env_provider,
            description,
            task_id,
            new_env_id,
            job_id,
            now,
        ) is Ok,
        pre.job_position(job_id) is None,
        active_with_key(
            pre.jobs,
            Some(super::staging::task_key(super::types::JobType::ClaimEnvironment, task_id)),
        ) is None,
        active_with_key(
            pre.jobs,
            Some(super::staging::env_key(super::types::JobType::PrepareEnvironment, new_env_id)),
        ) is None,
    ensures
        ({
            let post = pre.stage_task_create(
                project_id,
                task_provider,
                env_provider,
                description,
                task_id,
                new_env_id,
                job_id,
                now,
            )->Ok_0;
            let env_id = pre.environment_for_task(env_provider, project_id, new_env_id);
            let queued = post.jobs[pre.jobs.len() as int];
            &&& post.jobs.len() == pre.jobs.len() + 1
            &&& queued.id == job_id
            &&& queued.status == JobStatus::Pending
            &&& queued.attempt == 0
            &&& queued.payload == super::staging::task_payload(task_id, env_id)
            &&& queued.job_type == (if pool_candidate(pre.environments, env_provider, project_id) is Some {
                super::types::JobType::ClaimEnvironment
            } else {
                super::types::JobType::PrepareEnvironment
            })
        }),
{
    let env_id = pre.environment_for_task(env_provider, project_id, new_env_id);
    let task = super::staging::new_task(task_id, env_id, project_id, task_provider, description, now);
    match pool_candidate(pre.environments, env_provider, project_id) {
        Some(i) => {
            let row = super::staging::with_status(pre.environments[i], EnvironmentStatus::InUse, now);
            let job = super::jobs::new_job(
                job_id,
                super::types::JobType::ClaimEnvironment,
                super::staging::task_payload(task_id, env_id),
                Some(super::staging::task_key(super::types::JobType::ClaimEnvironment, task_id)),
                now,
            );
            lemma_staged_fresh(pre.set_environment(i, row).insert_task(task), job);
        },
        None => {
            let env = super::staging::new_environment(new_env_id, project_id, env_provider, now);
            let job = super::jobs::new_job(
                job_id,
                super::types::JobType::PrepareEnvironment,
                super::staging::task_payload(task_id, env_id),
                Some(super::staging::env_key(super::types::JobType::PrepareEnvironment, env_id)),
                now,
            );
            lemma_staged_fresh(pre.insert_environment(env).insert_task(task), job);
        },
    }
}

/// At most one active job holds any dedupe key.
pub open spec fn one_active_per_key(jobs: Seq<JobView>) -> bool {
    forall|i: int, j: int|
        0 <= i < j < jobs.len() && (#[trigger] jobs[i]).status.is_active() && (#[trigger] jobs[j]).status.is_active()
            && jobs[i].dedupe_key is Some ==> jobs[i].dedupe_key != jobs[j].dedupe_key
}

/// In a well-formed store at most one active job holds any dedupe key.
pub proof fn lemma_wf_one_active_per_key(s: StoreView)
    requires
        s.wf(),
    ensures
        one_active_per_key(s.jobs),
{
    assert forall|i: int, j: int|
        0 <= i < j < s.jobs.len() && (#[trigger] s.jobs[i]).status.is_active() && (
        #[trigger] s.jobs[j]).status.is_active() && s.jobs[i].dedupe_key is Some implies s.jobs[i].dedupe_key
        != s.jobs[j].dedupe_key by {
        lemma_dedupe_unique(s, i, j);
    }
}

/// Inserting a job, whatever its id, never gives a dedupe key a second
/// active holder.
pub proof fn lemma_insert_keeps_one_active_per_key(pre: StoreView, row: JobView)
    requires
        one_active_per_key(pre.jobs),
    ensures
        one_active_per_key(pre.after_insert(row).jobs),
{
    let post = pre.after_insert(row);
    if post != pre {
        let released = release_key(pre.jobs, row.dedupe_key);
        let n = pre.jobs.len() as int;
        assert(post.jobs == released.push(row));
        assert forall|i: int, j: int|
            0 <= i < j < post.jobs.len() && (#[trigger] post.jobs[i]).status.is_active() && (
            #[trigger] post.jobs[j]).status.is_active() && post.jobs[i].dedupe_key is Some implies post.jobs[i].dedupe_key
            != post.jobs[j].dedupe_key by {
            assert(post.jobs[i] == released[i]);
            assert(released[i].status == pre.jobs[i].status);
            assert(released[i].dedupe_key == pre.jobs[i].dedupe_key);
            if j == n {
                if row.dedupe_key is Some {
                    lemma_absent(active_keys(pre.jobs), row.dedupe_key, i);
                }
            } else {
                assert(post.jobs[j] == released[j]);
                assert(released[j].status == pre.jobs[j].status);
                assert(released[j].dedupe_key == pre.jobs[j].dedupe_key);
                assert(pre.jobs[i].dedupe_key != pre.jobs[j].dedupe_key);
            }
        }
    }
}

/// Claiming jobs never gives a dedupe key a second active holder: only
/// jobs that are active already are claimed.
pub proof fn lemma_claim_keeps_one_active_per_key(
    pre: StoreView,
    post: StoreView,
    rows: Seq<JobView>,
    order: Seq<int>,
    limit: nat,
    now: int,
    lease_seconds: int,
)
    requires
        one_active_per_key(pre.jobs),
        is_selection::<Job, Oldest>(pre.jobs, eligible_mask(pre.jobs, now), limit, order),
        claim_outcome(pre, order, now, lease_seconds, post, Ok(rows)),
    ensures
        one_active_per_key(post.jobs),
{
    assert forall|i: int| 0 <= i < pre.jobs.len() implies (#[trigger] post.jobs[i]).dedupe_key
        == pre.jobs[i].dedupe_key && post.jobs[i].status.is_active() == pre.jobs[i].status.is_active() by {
        if order.contains(i) {
            let p = choose|p: int| 0 <= p < order.len() && order[p] == i;
            assert(masked(eligible_mask(pre.jobs, now), order[p]));
            assert(eligible(pre.jobs[i], now));
        }
    }
    assert forall|i: int, j: int|
        0 <= i < j < post.jobs.len() && (#[trigger] post.jobs[i]).status.is_active() && (
        #[trigger] post.jobs[j]).status.is_active() && post.jobs[i].dedupe_key is Some implies post.jobs[i].dedupe_key
        != post.jobs[j].dedupe_key by {
        assert(pre.jobs[i].status.is_active() && pre.jobs[j].status.is_active());
        assert(pre.jobs[i].dedupe_key != pre.jobs[j].dedupe_key);
    }
}

} // verus!
