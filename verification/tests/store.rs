use work::db::{
    claim_pending_jobs, complete_preparing_environment, create_job_with_dedupe, create_project,
    delete_environment, delete_project, delete_task_and_environment, force_delete_environment,
    force_delete_task, get_environment, get_job, get_project, get_project_by_name, get_task,
    initialize, insert_job_tx, list_environments, list_projects, list_tasks, mark_job_complete,
    mark_job_failed, refresh_job_lease, requeue_job, stage_claim_environment,
    stage_claim_next_environment, stage_prepare_environment, stage_remove_environment,
    stage_remove_task, stage_task_create, stage_update_environment, start_task,
    update_environment_metadata, update_environment_status, update_task_status,
    EnvironmentStatus, JobPayload, JobStatus, JobType, Store, StoreError, TaskStatus,
};

const T0: i64 = 1_700_000_000_000_000;
const SECOND: i64 = 1_000_000;

fn store_with_project() -> Store {
    let mut store = initialize(T0);
    create_project(&mut store, "alpha", "/tmp/alpha", "PJ1".to_string(), T0).unwrap();
    store
}

fn env_payload(env_id: &str) -> JobPayload {
    JobPayload { env_id: Some(env_id.to_string()), task_id: None, claim_after_prepare: false }
}

fn pooled_environment(store: &mut Store, env_id: &str, job_id: &str, at: i64) {
    stage_prepare_environment(store, "PJ1", "slow", false, env_id.to_string(), job_id.to_string(), at)
        .unwrap();
    complete_preparing_environment(store, env_id, EnvironmentStatus::Pool, "{}", at).unwrap();
    mark_job_complete(store, job_id, at).unwrap();
}

fn active_jobs_with_key(store: &Store, key: &str) -> usize {
    store
        .jobs
        .iter()
        .filter(|j| {
            j.dedupe_key.as_deref() == Some(key)
                && (j.status == JobStatus::Pending || j.status == JobStatus::Running)
        })
        .count()
}

#[test]
fn initialize_creates_database() {
    let store = initialize(T0);
    assert!(store.projects.is_empty());
    assert!(store.environments.is_empty());
    assert!(store.tasks.is_empty());
    assert!(store.jobs.is_empty());
    let versions: Vec<i64> = store.migrations.iter().map(|m| m.version).collect();
    assert_eq!(versions, vec![1, 2, 3, 4]);
    assert_eq!(store.migrations[0].name, "0001_init");
    assert_eq!(store.migrations[3].name, "0004_jobs_queue_metadata");
    assert!(store.migrations.iter().all(|m| m.applied_at == T0));
}

#[test]
fn migrations_are_applied_exactly_once() {
    let mut store = initialize(T0);
    let known = work::db::migrations::migrations();
    let applied = work::db::migrations::run(&mut store, &known, T0 + SECOND);
    assert_eq!(applied, 0);
    assert_eq!(store.migrations.len(), 4);
    assert_eq!(work::db::migrations::ledger_version(&store.migrations), 4);
}

#[test]
fn migrations_newer_than_the_ledger_are_applied_in_order() {
    let mut store = initialize(T0);
    store.migrations.truncate(2);
    let known = work::db::migrations::migrations();
    let applied = work::db::migrations::run(&mut store, &known, T0 + SECOND);
    assert_eq!(applied, 2);
    let versions: Vec<i64> = store.migrations.iter().map(|m| m.version).collect();
    assert_eq!(versions, vec![1, 2, 3, 4]);
    assert_eq!(store.migrations[2].applied_at, T0 + SECOND);
}

#[test]
fn project_list_empty() {
    let store = initialize(T0);
    assert!(list_projects(&store).is_empty());
}

#[test]
fn projects_are_listed_by_name() {
    let mut store = initialize(T0);
    create_project(&mut store, "zeta", "/z", "PJ1".to_string(), T0).unwrap();
    create_project(&mut store, "alpha", "/a", "PJ2".to_string(), T0 + 1).unwrap();
    create_project(&mut store, "Mid", "/m", "PJ3".to_string(), T0 + 2).unwrap();
    let names: Vec<String> = list_projects(&store).into_iter().map(|p| p.name).collect();
    assert_eq!(names, vec!["Mid", "alpha", "zeta"]);
    assert_eq!(store.projects[0].name, "zeta");
}

#[test]
fn create_project_rejects_duplicate_name_and_id() {
    let mut store = store_with_project();
    assert_eq!(
        create_project(&mut store, "alpha", "/other", "PJ2".to_string(), T0),
        Err(StoreError::Duplicate)
    );
    assert_eq!(
        create_project(&mut store, "beta", "/other", "PJ1".to_string(), T0),
        Err(StoreError::Duplicate)
    );
    assert_eq!(store.projects.len(), 1);
    assert_eq!(store.projects[0].path, "/tmp/alpha");
}

#[test]
fn get_project_by_id_and_by_name() {
    let store = store_with_project();
    assert_eq!(get_project(&store, "PJ1").unwrap().name, "alpha");
    assert_eq!(get_project_by_name(&store, "alpha").unwrap().id, "PJ1");
    assert_eq!(get_project(&store, "nope").unwrap_err(), StoreError::NotFound);
    assert_eq!(get_project_by_name(&store, "nope").unwrap_err(), StoreError::NotFound);
}

#[test]
fn project_remove_fails_for_nonexistent_project() {
    let mut store = store_with_project();
    assert_eq!(delete_project(&mut store, "nonexistent"), Err(StoreError::NotFound));
    assert_eq!(store.projects.len(), 1);
    assert_eq!(delete_project(&mut store, "alpha"), Ok(()));
    assert!(store.projects.is_empty());
}

#[test]
fn deleting_a_project_leaves_its_environments() {
    let mut store = store_with_project();
    stage_prepare_environment(&mut store, "PJ1", "slow", false, "E1".into(), "J1".into(), T0).unwrap();
    delete_project(&mut store, "alpha").unwrap();
    assert_eq!(get_environment(&store, "E1").unwrap().project_id, "PJ1");
}

#[test]
fn stage_prepare_environment_creates_row_and_job() {
    let mut store = store_with_project();
    let env =
        stage_prepare_environment(&mut store, "PJ1", "slow", true, "E1".into(), "J1".into(), T0 + 5)
            .unwrap();
    assert_eq!(env.id, "E1");
    assert_eq!(env.project_id, "PJ1");
    assert_eq!(env.provider, "slow");
    assert_eq!(env.status, EnvironmentStatus::Preparing);
    assert_eq!(env.metadata, "{}");
    assert_eq!(env.created_at, T0 + 5);
    let job = get_job(&store, "J1").unwrap();
    assert_eq!(job.job_type, JobType::PrepareEnvironment);
    assert_eq!(job.status, JobStatus::Pending);
    assert_eq!(job.attempt, 0);
    assert_eq!(job.payload.env_id.as_deref(), Some("E1"));
    assert_eq!(job.payload.task_id, None);
    assert!(job.payload.claim_after_prepare);
    assert_eq!(job.dedupe_key.as_deref(), Some("prepare_environment:env:E1"));
    assert_eq!(job.not_before, None);
    assert_eq!(job.lease_expires_at, None);
    assert_eq!(job.last_error, None);
}

#[test]
fn stage_prepare_environment_needs_the_project() {
    let mut store = store_with_project();
    let err =
        stage_prepare_environment(&mut store, "PJ9", "slow", false, "E1".into(), "J1".into(), T0)
            .unwrap_err();
    assert_eq!(err, StoreError::NotFound);
    assert!(store.environments.is_empty());
    assert!(store.jobs.is_empty());
}

#[test]
fn staging_changes_nothing_when_an_id_is_taken() {
    let mut store = store_with_project();
    stage_prepare_environment(&mut store, "PJ1", "slow", false, "E1".into(), "J1".into(), T0).unwrap();
    let err =
        stage_prepare_environment(&mut store, "PJ1", "slow", false, "E1".into(), "J2".into(), T0)
            .unwrap_err();
    assert_eq!(err, StoreError::Duplicate);
    let err =
        stage_prepare_environment(&mut store, "PJ1", "slow", false, "E2".into(), "J1".into(), T0)
            .unwrap_err();
    assert_eq!(err, StoreError::Duplicate);
    assert_eq!(store.environments.len(), 1);
    assert_eq!(store.jobs.len(), 1);
}

#[test]
fn task_create_without_pool_prepares_a_new_environment() {
    let mut store = store_with_project();
    let task = stage_task_create(
        &mut store,
        "PJ1",
        "noop",
        "slow",
        "x",
        "T1".into(),
        "E1".into(),
        "J1".into(),
        T0,
    )
    .unwrap();
    assert_eq!(task.environment_id, "E1");
    assert_eq!(task.status, TaskStatus::Pending);
    assert_eq!(task.provider, "noop");
    assert_eq!(task.description, "x");
    assert_eq!(get_environment(&store, "E1").unwrap().status, EnvironmentStatus::Preparing);
    let job = get_job(&store, "J1").unwrap();
    assert_eq!(job.job_type, JobType::PrepareEnvironment);
    assert_eq!(job.payload.task_id.as_deref(), Some("T1"));
    assert_eq!(job.payload.env_id.as_deref(), Some("E1"));
    assert_eq!(job.dedupe_key.as_deref(), Some("prepare_environment:env:E1"));
}

#[test]
fn task_create_claims_the_oldest_pooled_environment() {
    let mut store = store_with_project();
    pooled_environment(&mut store, "E-late", "J1", T0 + 20);
    pooled_environment(&mut store, "E-early", "J2", T0 + 10);
    let task = stage_task_create(
        &mut store,
        "PJ1",
        "noop",
        "slow",
        "x",
        "T1".into(),
        "E-new".into(),
        "J3".into(),
        T0 + 30,
    )
    .unwrap();
    assert_eq!(task.environment_id, "E-early");
    assert_eq!(get_environment(&store, "E-early").unwrap().status, EnvironmentStatus::InUse);
    assert_eq!(get_environment(&store, "E-late").unwrap().status, EnvironmentStatus::Pool);
    assert_eq!(get_environment(&store, "E-new").unwrap_err(), StoreError::NotFound);
    assert_eq!(store.environments.len(), 2);
    let job = get_job(&store, "J3").unwrap();
    assert_eq!(job.job_type, JobType::ClaimEnvironment);
    assert_eq!(job.dedupe_key.as_deref(), Some("claim_environment:task:T1"));
    assert_eq!(job.payload.env_id.as_deref(), Some("E-early"));
}

#[test]
fn task_create_ignores_pool_of_other_provider_or_project() {
    let mut store = store_with_project();
    create_project(&mut store, "beta", "/tmp/beta", "PJ2".to_string(), T0).unwrap();
    pooled_environment(&mut store, "E1", "J1", T0);
    let task = stage_task_create(
        &mut store, "PJ1", "noop", "other", "x", "T1".into(), "E2".into(), "J2".into(), T0,
    )
    .unwrap();
    assert_eq!(task.environment_id, "E2");
    let task = stage_task_create(
        &mut store, "PJ2", "noop", "slow", "x", "T2".into(), "E3".into(), "J3".into(), T0,
    )
    .unwrap();
    assert_eq!(task.environment_id, "E3");
    assert_eq!(get_environment(&store, "E1").unwrap().status, EnvironmentStatus::Pool);
}

#[test]
fn task_create_among_equally_old_environments_takes_the_first() {
    let mut store = store_with_project();
    pooled_environment(&mut store, "E1", "J1", T0);
    pooled_environment(&mut store, "E2", "J2", T0);
    let task = stage_task_create(
        &mut store, "PJ1", "noop", "slow", "x", "T1".into(), "E3".into(), "J3".into(), T0,
    )
    .unwrap();
    assert_eq!(task.environment_id, "E1");
}

#[test]
fn task_create_errors() {
    let mut store = store_with_project();
    let err = stage_task_create(
        &mut store, "PJ9", "noop", "slow", "x", "T1".into(), "E1".into(), "J1".into(), T0,
    )
    .unwrap_err();
    assert_eq!(err, StoreError::NotFound);
    stage_task_create(
        &mut store, "PJ1", "noop", "slow", "x", "T1".into(), "E1".into(), "J1".into(), T0,
    )
    .unwrap();
    let err = stage_task_create(
        &mut store, "PJ1", "noop", "slow", "x", "T1".into(), "E2".into(), "J2".into(), T0,
    )
    .unwrap_err();
    assert_eq!(err, StoreError::Duplicate);
    let err = stage_task_create(
        &mut store, "PJ1", "noop", "slow", "x", "T2".into(), "E1".into(), "J2".into(), T0,
    )
    .unwrap_err();
    assert_eq!(err, StoreError::Duplicate);
    let err = stage_task_create(
        &mut store, "PJ1", "noop", "slow", "x", "T2".into(), "E2".into(), "J1".into(), T0,
    )
    .unwrap_err();
    assert_eq!(err, StoreError::Duplicate);
    assert_eq!(store.tasks.len(), 1);
    assert_eq!(store.environments.len(), 1);
    assert_eq!(store.jobs.len(), 1);
}

#[test]
fn stage_update_environment_requires_pool() {
    let mut store = store_with_project();
    assert_eq!(
        stage_update_environment(&mut store, "E1", "J9".into(), T0).unwrap_err(),
        StoreError::NotFound
    );
    stage_prepare_environment(&mut store, "PJ1", "slow", false, "E1".into(), "J1".into(), T0).unwrap();
    assert_eq!(
        stage_update_environment(&mut store, "E1", "J9".into(), T0).unwrap_err(),
        StoreError::InvalidState
    );
    assert_eq!(store.jobs.len(), 1);
}

#[test]
fn dedupe_under_repeated_update_requests() {
    let mut store = store_with_project();
    pooled_environment(&mut store, "E1", "J1", T0);
    let first = stage_update_environment(&mut store, "E1", "J2".into(), T0 + 1).unwrap();
    let rows = store.jobs.len();
    let second = stage_update_environment(&mut store, "E1", "J3".into(), T0 + 2).unwrap();
    assert_eq!(first.job_id, "J2");
    // the second call reports the job that is there already
    assert_eq!(second.job_id, "J2");
    assert_eq!(store.jobs.len(), rows);
    assert_eq!(first.row.status, EnvironmentStatus::Pool);
    assert_eq!(second.row.status, EnvironmentStatus::Pool);
    assert_eq!(second.row.id, "E1");
    assert_eq!(active_jobs_with_key(&store, "update_environment:env:E1"), 1);
    assert_eq!(get_job(&store, "J3").unwrap_err(), StoreError::NotFound);
    assert_eq!(get_job(&store, "J2").unwrap().status, JobStatus::Pending);
    // a running job stands for the update as well
    claim_pending_jobs(&mut store, 8, 30, T0 + 3).unwrap();
    let third = stage_update_environment(&mut store, "E1", "J4".into(), T0 + 4).unwrap();
    assert_eq!(third.job_id, "J2");
    // once it has ended, the next update gets a job of its own
    mark_job_complete(&mut store, "J2", T0 + 5).unwrap();
    let fourth = stage_update_environment(&mut store, "E1", "J5".into(), T0 + 6).unwrap();
    assert_eq!(fourth.job_id, "J5");
    assert_eq!(active_jobs_with_key(&store, "update_environment:env:E1"), 1);
}

#[test]
fn insert_with_active_dedupe_key_returns_the_existing_id() {
    let mut store = store_with_project();
    let a = insert_job_tx(
        &mut store, JobType::UpdateEnvironment, env_payload("E1"), Some("k"), "J1".into(), T0,
    )
    .unwrap();
    let b = insert_job_tx(
        &mut store, JobType::UpdateEnvironment, env_payload("E1"), Some("k"), "J2".into(), T0,
    )
    .unwrap();
    assert_eq!(a, "J1");
    assert_eq!(b, "J1");
    assert_eq!(store.jobs.len(), 1);
    claim_pending_jobs(&mut store, 1, 30, T0).unwrap();
    let c = insert_job_tx(
        &mut store, JobType::UpdateEnvironment, env_payload("E1"), Some("k"), "J3".into(), T0,
    )
    .unwrap();
    assert_eq!(c, "J1");
    assert_eq!(store.jobs.len(), 1);
}

#[test]
fn a_terminal_job_does_not_block_its_dedupe_key() {
    let mut store = store_with_project();
    insert_job_tx(&mut store, JobType::UpdateEnvironment, env_payload("E1"), Some("k"), "J1".into(), T0)
        .unwrap();
    mark_job_complete(&mut store, "J1", T0 + 1).unwrap();
    assert_eq!(get_job(&store, "J1").unwrap().dedupe_key, None);
    let id = insert_job_tx(
        &mut store, JobType::UpdateEnvironment, env_payload("E1"), Some("k"), "J2".into(), T0 + 2,
    )
    .unwrap();
    assert_eq!(id, "J2");
    assert_eq!(store.jobs.len(), 2);
    // a terminal row that still holds the key gives it up
    store.jobs[1].status = JobStatus::Failed;
    let id = insert_job_tx(
        &mut store, JobType::UpdateEnvironment, env_payload("E1"), Some("k"), "J3".into(), T0 + 3,
    )
    .unwrap();
    assert_eq!(id, "J3");
    assert_eq!(get_job(&store, "J2").unwrap().dedupe_key, None);
    assert_eq!(get_job(&store, "J3").unwrap().dedupe_key.as_deref(), Some("k"));
}

#[test]
fn jobs_without_dedupe_key_are_never_merged() {
    let mut store = store_with_project();
    insert_job_tx(&mut store, JobType::RunTask, env_payload("E1"), None, "J1".into(), T0).unwrap();
    insert_job_tx(&mut store, JobType::RunTask, env_payload("E1"), None, "J2".into(), T0).unwrap();
    assert_eq!(store.jobs.len(), 2);
    assert_eq!(
        insert_job_tx(&mut store, JobType::RunTask, env_payload("E1"), None, "J2".into(), T0),
        Err(StoreError::Duplicate)
    );
}

#[test]
fn create_job_with_dedupe_returns_the_row() {
    let mut store = store_with_project();
    let job = create_job_with_dedupe(
        &mut store, JobType::RunTask, env_payload("E1"), Some("k"), "J1".into(), T0,
    )
    .unwrap();
    assert_eq!(job.id, "J1");
    assert_eq!(job.status, JobStatus::Pending);
    claim_pending_jobs(&mut store, 1, 30, T0 + 1).unwrap();
    let again = create_job_with_dedupe(
        &mut store, JobType::RunTask, env_payload("E2"), Some("k"), "J2".into(), T0 + 2,
    )
    .unwrap();
    assert_eq!(again.id, "J1");
    assert_eq!(again.status, JobStatus::Running);
    assert_eq!(again.payload.env_id.as_deref(), Some("E1"));
}

#[test]
fn claim_takes_oldest_first_up_to_the_limit() {
    let mut store = store_with_project();
    insert_job_tx(&mut store, JobType::RunTask, env_payload("E"), None, "J-c".into(), T0 + 30).unwrap();
    insert_job_tx(&mut store, JobType::RunTask, env_payload("E"), None, "J-a".into(), T0 + 10).unwrap();
    insert_job_tx(&mut store, JobType::RunTask, env_payload("E"), None, "J-b".into(), T0 + 20).unwrap();
    let claimed = claim_pending_jobs(&mut store, 2, 30, T0 + 100).unwrap();
    let ids: Vec<&str> = claimed.iter().map(|j| j.id.as_str()).collect();
    assert_eq!(ids, vec!["J-a", "J-b"]);
    for job in &claimed {
        assert_eq!(job.status, JobStatus::Running);
        assert_eq!(job.attempt, 1);
        assert_eq!(job.updated_at, T0 + 100);
        assert_eq!(job.lease_expires_at, Some(T0 + 100 + 30 * SECOND));
        assert_eq!(job.not_before, None);
    }
    assert_eq!(get_job(&store, "J-c").unwrap().status, JobStatus::Pending);
    assert_eq!(get_job(&store, "J-a").unwrap().status, JobStatus::Running);
    let rest = claim_pending_jobs(&mut store, 8, 30, T0 + 101).unwrap();
    assert_eq!(rest.len(), 1);
    assert_eq!(rest[0].id, "J-c");
}

#[test]
fn claim_among_equally_old_jobs_takes_insertion_order() {
    let mut store = store_with_project();
    for id in ["J1", "J2", "J3"] {
        insert_job_tx(&mut store, JobType::RunTask, env_payload("E"), None, id.into(), T0).unwrap();
    }
    let claimed = claim_pending_jobs(&mut store, 3, 30, T0).unwrap();
    let ids: Vec<&str> = claimed.iter().map(|j| j.id.as_str()).collect();
    assert_eq!(ids, vec!["J1", "J2", "J3"]);
}

#[test]
fn claim_with_limit_zero_claims_nothing() {
    let mut store = store_with_project();
    insert_job_tx(&mut store, JobType::RunTask, env_payload("E"), None, "J1".into(), T0).unwrap();
    assert!(claim_pending_jobs(&mut store, 0, 30, T0).unwrap().is_empty());
    assert_eq!(get_job(&store, "J1").unwrap().status, JobStatus::Pending);
}

#[test]
fn claim_skips_jobs_held_back_and_terminal_jobs() {
    let mut store = store_with_project();
    for id in ["J1", "J2", "J3", "J4"] {
        insert_job_tx(&mut store, JobType::RunTask, env_payload("E"), None, id.into(), T0).unwrap();
    }
    requeue_job(&mut store, "J1", "boom", 10, T0).unwrap();
    mark_job_complete(&mut store, "J2", T0).unwrap();
    mark_job_failed(&mut store, "J3", "bad", T0).unwrap();
    let claimed = claim_pending_jobs(&mut store, 8, 30, T0 + 9 * SECOND).unwrap();
    let ids: Vec<&str> = claimed.iter().map(|j| j.id.as_str()).collect();
    assert_eq!(ids, vec!["J4"]);
    // the delay has passed: eligible exactly at not_before
    let claimed = claim_pending_jobs(&mut store, 8, 30, T0 + 10 * SECOND).unwrap();
    assert_eq!(claimed.len(), 1);
    assert_eq!(claimed[0].id, "J1");
    assert_eq!(claimed[0].last_error, None);
}

#[test]
fn expired_lease_is_reclaimed_with_one_more_attempt() {
    let mut store = store_with_project();
    insert_job_tx(&mut store, JobType::RunTask, env_payload("E"), None, "J1".into(), T0).unwrap();
    let first = claim_pending_jobs(&mut store, 8, 30, T0).unwrap();
    assert_eq!(first[0].attempt, 1);
    // the lease still holds
    assert!(claim_pending_jobs(&mut store, 8, 30, T0 + 29 * SECOND).unwrap().is_empty());
    // the lease has run out: lease_expires_at <= now
    let again = claim_pending_jobs(&mut store, 8, 30, T0 + 30 * SECOND).unwrap();
    assert_eq!(again.len(), 1);
    assert_eq!(again[0].id, "J1");
    assert_eq!(again[0].attempt, 2);
    assert_eq!(again[0].lease_expires_at, Some(T0 + 60 * SECOND));
}

#[test]
fn reclaimed_and_pending_jobs_share_one_order() {
    let mut store = store_with_project();
    insert_job_tx(&mut store, JobType::RunTask, env_payload("E"), None, "J-old".into(), T0).unwrap();
    claim_pending_jobs(&mut store, 8, 30, T0).unwrap();
    insert_job_tx(&mut store, JobType::RunTask, env_payload("E"), None, "J-new".into(), T0 + 5)
        .unwrap();
    let claimed = claim_pending_jobs(&mut store, 8, 30, T0 + 31 * SECOND).unwrap();
    let ids: Vec<&str> = claimed.iter().map(|j| j.id.as_str()).collect();
    assert_eq!(ids, vec!["J-old", "J-new"]);
}

#[test]
fn claim_refuses_when_an_attempt_counter_is_exhausted() {
    let mut store = store_with_project();
    insert_job_tx(&mut store, JobType::RunTask, env_payload("E"), None, "J1".into(), T0).unwrap();
    insert_job_tx(&mut store, JobType::RunTask, env_payload("E"), None, "J2".into(), T0 + 1).unwrap();
    store.jobs[1].attempt = i64::MAX;
    assert_eq!(claim_pending_jobs(&mut store, 8, 30, T0 + 2).unwrap_err(), StoreError::Storage);
    assert_eq!(get_job(&store, "J1").unwrap().status, JobStatus::Pending);
    assert_eq!(get_job(&store, "J1").unwrap().attempt, 0);
    // the exhausted job lies beyond the limit: the claim goes through
    let claimed = claim_pending_jobs(&mut store, 1, 30, T0 + 2).unwrap();
    assert_eq!(claimed[0].id, "J1");
}

#[test]
fn lease_deadline_saturates() {
    let mut store = store_with_project();
    insert_job_tx(&mut store, JobType::RunTask, env_payload("E"), None, "J1".into(), T0).unwrap();
    let claimed = claim_pending_jobs(&mut store, 1, i64::MAX, T0).unwrap();
    assert_eq!(claimed[0].lease_expires_at, Some(i64::MAX));
    assert!(refresh_job_lease(&mut store, "J1", i64::MIN, T0));
    assert_eq!(get_job(&store, "J1").unwrap().lease_expires_at, Some(i64::MIN));
}

#[test]
fn mark_complete_and_failed_clear_queue_state() {
    let mut store = store_with_project();
    insert_job_tx(&mut store, JobType::RunTask, env_payload("E"), Some("a"), "J1".into(), T0).unwrap();
    insert_job_tx(&mut store, JobType::RunTask, env_payload("E"), Some("b"), "J2".into(), T0).unwrap();
    claim_pending_jobs(&mut store, 8, 30, T0).unwrap();
    mark_job_complete(&mut store, "J1", T0 + 7).unwrap();
    mark_job_failed(&mut store, "J2", "exploded", T0 + 8).unwrap();
    let done = get_job(&store, "J1").unwrap();
    assert_eq!(done.status, JobStatus::Complete);
    assert_eq!(done.dedupe_key, None);
    assert_eq!(done.lease_expires_at, None);
    assert_eq!(done.last_error, None);
    assert_eq!(done.updated_at, T0 + 7);
    assert_eq!(done.attempt, 1);
    let bad = get_job(&store, "J2").unwrap();
    assert_eq!(bad.status, JobStatus::Failed);
    assert_eq!(bad.dedupe_key, None);
    assert_eq!(bad.lease_expires_at, None);
    assert_eq!(bad.last_error.as_deref(), Some("exploded"));
    assert_eq!(mark_job_complete(&mut store, "nope", T0), Err(StoreError::NotFound));
    assert_eq!(mark_job_failed(&mut store, "nope", "e", T0), Err(StoreError::NotFound));
}

#[test]
fn requeue_holds_the_job_back() {
    let mut store = store_with_project();
    insert_job_tx(&mut store, JobType::RunTask, env_payload("E"), Some("a"), "J1".into(), T0).unwrap();
    claim_pending_jobs(&mut store, 8, 30, T0).unwrap();
    requeue_job(&mut store, "J1", "flaky", 4, T0 + SECOND).unwrap();
    let job = get_job(&store, "J1").unwrap();
    assert_eq!(job.status, JobStatus::Pending);
    assert_eq!(job.not_before, Some(T0 + 5 * SECOND));
    assert_eq!(job.lease_expires_at, None);
    assert_eq!(job.last_error.as_deref(), Some("flaky"));
    assert_eq!(job.dedupe_key.as_deref(), Some("a"));
    assert_eq!(job.attempt, 1);
    assert_eq!(requeue_job(&mut store, "nope", "e", 1, T0), Err(StoreError::NotFound));
}

#[test]
fn refresh_lease_only_for_running_jobs() {
    let mut store = store_with_project();
    insert_job_tx(&mut store, JobType::RunTask, env_payload("E"), None, "J1".into(), T0).unwrap();
    assert!(!refresh_job_lease(&mut store, "J1", 30, T0));
    assert!(!refresh_job_lease(&mut store, "nope", 30, T0));
    claim_pending_jobs(&mut store, 8, 30, T0).unwrap();
    assert!(refresh_job_lease(&mut store, "J1", 30, T0 + 10 * SECOND));
    let job = get_job(&store, "J1").unwrap();
    assert_eq!(job.lease_expires_at, Some(T0 + 40 * SECOND));
    assert_eq!(job.updated_at, T0 + 10 * SECOND);
    mark_job_complete(&mut store, "J1", T0).unwrap();
    assert!(!refresh_job_lease(&mut store, "J1", 30, T0));
}

#[test]
fn complete_preparing_requires_preparing_and_a_ready_status() {
    let mut store = store_with_project();
    stage_prepare_environment(&mut store, "PJ1", "slow", false, "E1".into(), "J1".into(), T0).unwrap();
    for status in
        [EnvironmentStatus::Preparing, EnvironmentStatus::Removing, EnvironmentStatus::Failed]
    {
        assert_eq!(
            complete_preparing_environment(&mut store, "E1", status, "{}", T0),
            Err(StoreError::InvalidState)
        );
    }
    assert_eq!(
        complete_preparing_environment(&mut store, "nope", EnvironmentStatus::Pool, "{}", T0),
        Err(StoreError::InvalidState)
    );
    complete_preparing_environment(&mut store, "E1", EnvironmentStatus::InUse, "{\"a\":1}", T0 + 3)
        .unwrap();
    let env = get_environment(&store, "E1").unwrap();
    assert_eq!(env.status, EnvironmentStatus::InUse);
    assert_eq!(env.metadata, "{\"a\":1}");
    assert_eq!(env.updated_at, T0 + 3);
    assert_eq!(env.created_at, T0);
    assert_eq!(
        complete_preparing_environment(&mut store, "E1", EnvironmentStatus::Pool, "{}", T0),
        Err(StoreError::InvalidState)
    );
}

#[test]
fn environment_updates_and_deletes() {
    let mut store = store_with_project();
    pooled_environment(&mut store, "E1", "J1", T0);
    update_environment_metadata(&mut store, "E1", "{\"k\":\"v\"}", T0 + 1).unwrap();
    update_environment_status(&mut store, "E1", EnvironmentStatus::Failed, T0 + 2).unwrap();
    let env = get_environment(&store, "E1").unwrap();
    assert_eq!(env.metadata, "{\"k\":\"v\"}");
    assert_eq!(env.status, EnvironmentStatus::Failed);
    assert_eq!(env.updated_at, T0 + 2);
    assert_eq!(
        update_environment_metadata(&mut store, "nope", "{}", T0),
        Err(StoreError::NotFound)
    );
    assert_eq!(
        update_environment_status(&mut store, "nope", EnvironmentStatus::Pool, T0),
        Err(StoreError::NotFound)
    );
    assert_eq!(delete_environment(&mut store, "nope"), Err(StoreError::NotFound));
    delete_environment(&mut store, "E1").unwrap();
    assert_eq!(get_environment(&store, "E1").unwrap_err(), StoreError::NotFound);
}

#[test]
fn environments_are_listed_by_id() {
    let mut store = store_with_project();
    for (i, id) in ["Eb", "Ea", "EC"].iter().enumerate() {
        stage_prepare_environment(
            &mut store, "PJ1", "slow", false, id.to_string(), format!("J{i}"), T0,
        )
        .unwrap();
    }
    let ids: Vec<String> = list_environments(&store).into_iter().map(|e| e.id).collect();
    assert_eq!(ids, vec!["EC", "Ea", "Eb"]);
}

#[test]
fn tasks_are_listed_newest_first() {
    let mut store = store_with_project();
    for (i, at) in [T0 + 5, T0 + 9, T0 + 1, T0 + 9].iter().enumerate() {
        stage_task_create(
            &mut store,
            "PJ1",
            "noop",
            "slow",
            "x",
            format!("T{i}"),
            format!("E{i}"),
            format!("J{i}"),
            *at,
        )
        .unwrap();
    }
    let ids: Vec<String> = list_tasks(&store).into_iter().map(|t| t.id).collect();
    assert_eq!(ids, vec!["T1", "T3", "T0", "T2"]);
}

#[test]
fn task_status_updates() {
    let mut store = store_with_project();
    stage_task_create(&mut store, "PJ1", "noop", "slow", "x", "T1".into(), "E1".into(), "J1".into(), T0)
        .unwrap();
    let started = start_task(&mut store, "T1", T0 + 1).unwrap();
    assert_eq!(started.status, TaskStatus::Started);
    assert_eq!(started.updated_at, T0 + 1);
    let done = update_task_status(&mut store, "T1", TaskStatus::Complete, T0 + 2).unwrap();
    assert_eq!(done.status, TaskStatus::Complete);
    assert_eq!(get_task(&store, "T1").unwrap().status, TaskStatus::Complete);
    assert_eq!(start_task(&mut store, "nope", T0).unwrap_err(), StoreError::NotFound);
    assert_eq!(
        update_task_status(&mut store, "nope", TaskStatus::Failed, T0).unwrap_err(),
        StoreError::NotFound
    );
}

#[test]
fn stage_claim_environment_moves_pool_to_in_use() {
    let mut store = store_with_project();
    pooled_environment(&mut store, "E1", "J1", T0);
    let env = stage_claim_environment(&mut store, "E1", "J2".into(), T0 + 1).unwrap();
    assert_eq!(env.status, EnvironmentStatus::InUse);
    assert_eq!(env.updated_at, T0 + 1);
    let job = get_job(&store, "J2").unwrap();
    assert_eq!(job.job_type, JobType::ClaimEnvironment);
    assert_eq!(job.dedupe_key.as_deref(), Some("claim_environment:env:E1"));
    assert_eq!(
        stage_claim_environment(&mut store, "E1", "J3".into(), T0).unwrap_err(),
        StoreError::InvalidState
    );
    assert_eq!(
        stage_claim_environment(&mut store, "nope", "J3".into(), T0).unwrap_err(),
        StoreError::InvalidState
    );
}

#[test]
fn stage_claim_next_picks_the_oldest_match() {
    let mut store = store_with_project();
    pooled_environment(&mut store, "E2", "J1", T0 + 2);
    pooled_environment(&mut store, "E1", "J2", T0 + 1);
    let env = stage_claim_next_environment(&mut store, "slow", "PJ1", "J3".into(), T0 + 9).unwrap();
    assert_eq!(env.id, "E1");
    assert_eq!(env.status, EnvironmentStatus::InUse);
    let env = stage_claim_next_environment(&mut store, "slow", "PJ1", "J4".into(), T0 + 9).unwrap();
    assert_eq!(env.id, "E2");
    assert_eq!(
        stage_claim_next_environment(&mut store, "slow", "PJ1", "J5".into(), T0).unwrap_err(),
        StoreError::NotFound
    );
    assert_eq!(
        stage_claim_next_environment(&mut store, "other", "PJ1", "J5".into(), T0).unwrap_err(),
        StoreError::NotFound
    );
}

#[test]
fn stage_remove_environment_rules() {
    let mut store = store_with_project();
    assert_eq!(
        stage_remove_environment(&mut store, "E1", "J9".into(), T0),
        Err(StoreError::NotFound)
    );
    pooled_environment(&mut store, "E1", "J1", T0);
    stage_remove_environment(&mut store, "E1", "J2".into(), T0 + 1).unwrap();
    assert_eq!(get_environment(&store, "E1").unwrap().status, EnvironmentStatus::Removing);
    assert_eq!(
        get_job(&store, "J2").unwrap().dedupe_key.as_deref(),
        Some("remove_environment:env:E1")
    );
    assert_eq!(
        stage_remove_environment(&mut store, "E1", "J3".into(), T0),
        Err(StoreError::Conflict)
    );
    // an environment with a task is removed through the task
    stage_task_create(&mut store, "PJ1", "noop", "slow", "x", "T1".into(), "E2".into(), "J4".into(), T0)
        .unwrap();
    assert_eq!(
        stage_remove_environment(&mut store, "E2", "J5".into(), T0),
        Err(StoreError::Conflict)
    );
    assert_eq!(force_delete_environment(&mut store, "E2"), Err(StoreError::Conflict));
    assert_eq!(get_environment(&store, "E2").unwrap().status, EnvironmentStatus::Preparing);
}

#[test]
fn failed_environment_can_be_removed_again() {
    let mut store = store_with_project();
    pooled_environment(&mut store, "E1", "J1", T0);
    stage_remove_environment(&mut store, "E1", "J2".into(), T0).unwrap();
    mark_job_failed(&mut store, "J2", "provider broke", T0 + 1).unwrap();
    update_environment_status(&mut store, "E1", EnvironmentStatus::Failed, T0 + 1).unwrap();
    stage_remove_environment(&mut store, "E1", "J3".into(), T0 + 2).unwrap();
    assert_eq!(get_environment(&store, "E1").unwrap().status, EnvironmentStatus::Removing);
    assert_eq!(get_job(&store, "J3").unwrap().status, JobStatus::Pending);
}

#[test]
fn stage_remove_task_marks_the_environment() {
    let mut store = store_with_project();
    assert_eq!(stage_remove_task(&mut store, "T1", "J9".into(), T0), Err(StoreError::NotFound));
    stage_task_create(&mut store, "PJ1", "noop", "slow", "x", "T1".into(), "E1".into(), "J1".into(), T0)
        .unwrap();
    stage_remove_task(&mut store, "T1", "J2".into(), T0 + 4).unwrap();
    let env = get_environment(&store, "E1").unwrap();
    assert_eq!(env.status, EnvironmentStatus::Removing);
    assert_eq!(env.updated_at, T0 + 4);
    let job = get_job(&store, "J2").unwrap();
    assert_eq!(job.job_type, JobType::RemoveTask);
    assert_eq!(job.payload.task_id.as_deref(), Some("T1"));
    assert_eq!(job.payload.env_id.as_deref(), Some("E1"));
    assert_eq!(job.dedupe_key.as_deref(), Some("remove_task:task:T1"));
    // staging again is safe: the environment stays, the active job is kept
    stage_remove_task(&mut store, "T1", "J3".into(), T0 + 5).unwrap();
    assert_eq!(get_environment(&store, "E1").unwrap().updated_at, T0 + 4);
    assert_eq!(active_jobs_with_key(&store, "remove_task:task:T1"), 1);
    assert_eq!(get_task(&store, "T1").unwrap().status, TaskStatus::Pending);
}

#[test]
fn stage_remove_task_needs_the_environment() {
    let mut store = store_with_project();
    stage_task_create(&mut store, "PJ1", "noop", "slow", "x", "T1".into(), "E1".into(), "J1".into(), T0)
        .unwrap();
    delete_environment(&mut store, "E1").unwrap();
    assert_eq!(stage_remove_task(&mut store, "T1", "J2".into(), T0), Err(StoreError::NotFound));
    assert_eq!(force_delete_task(&mut store, "T1"), Err(StoreError::NotFound));
    assert_eq!(get_task(&store, "T1").unwrap().id, "T1");
}

#[test]
fn force_delete_removes_rows_without_jobs() {
    let mut store = store_with_project();
    stage_task_create(&mut store, "PJ1", "noop", "slow", "x", "T1".into(), "E1".into(), "J1".into(), T0)
        .unwrap();
    pooled_environment(&mut store, "E2", "J2", T0);
    let jobs_before = store.jobs.len();
    force_delete_task(&mut store, "T1").unwrap();
    assert_eq!(get_task(&store, "T1").unwrap_err(), StoreError::NotFound);
    assert_eq!(get_environment(&store, "E1").unwrap_err(), StoreError::NotFound);
    force_delete_environment(&mut store, "E2").unwrap();
    assert!(store.environments.is_empty());
    assert_eq!(store.jobs.len(), jobs_before);
    assert_eq!(force_delete_task(&mut store, "T1"), Err(StoreError::NotFound));
    assert_eq!(force_delete_environment(&mut store, "E2"), Err(StoreError::NotFound));
}

#[test]
fn delete_task_and_environment_puts_up_with_missing_rows() {
    let mut store = store_with_project();
    stage_task_create(&mut store, "PJ1", "noop", "slow", "x", "T1".into(), "E1".into(), "J1".into(), T0)
        .unwrap();
    delete_task_and_environment(&mut store, "T1", "nope");
    assert!(store.tasks.is_empty());
    assert_eq!(store.environments.len(), 1);
    delete_task_and_environment(&mut store, "T1", "E1");
    assert!(store.environments.is_empty());
}

#[test]
fn status_names_round_trip() {
    for s in [
        EnvironmentStatus::Preparing,
        EnvironmentStatus::Pool,
        EnvironmentStatus::InUse,
        EnvironmentStatus::Removing,
        EnvironmentStatus::Failed,
    ] {
        assert_eq!(EnvironmentStatus::parse(s.as_str()), Some(s));
    }
    for s in [TaskStatus::Pending, TaskStatus::Started, TaskStatus::Complete, TaskStatus::Failed] {
        assert_eq!(TaskStatus::parse(s.as_str()), Some(s));
    }
    for s in [JobStatus::Pending, JobStatus::Running, JobStatus::Complete, JobStatus::Failed] {
        assert_eq!(JobStatus::parse(s.as_str()), Some(s));
    }
    for t in [
        JobType::PrepareEnvironment,
        JobType::UpdateEnvironment,
        JobType::ClaimEnvironment,
        JobType::RemoveEnvironment,
        JobType::RemoveTask,
        JobType::RunTask,
    ] {
        assert_eq!(JobType::parse(t.as_str()), Some(t));
    }
    assert_eq!(EnvironmentStatus::InUse.as_str(), "in_use");
    assert_eq!(JobType::parse("launch_rocket"), None);
    assert_eq!(EnvironmentStatus::parse("Pool"), None);
    assert_eq!(StoreError::InvalidState.as_str(), "invalid state");
}

/// Every active job names rows that exist.
fn assert_no_orphans(store: &Store) {
    for job in &store.jobs {
        if job.status == JobStatus::Pending || job.status == JobStatus::Running {
            if let Some(env_id) = &job.payload.env_id {
                assert!(get_environment(store, env_id).is_ok(), "job {} names no environment", job.id);
            }
            if let Some(task_id) = &job.payload.task_id {
                assert!(get_task(store, task_id).is_ok(), "job {} names no task", job.id);
            }
        }
    }
}

#[test]
fn staging_never_leaves_an_orphan_job() {
    let mut store = store_with_project();
    stage_prepare_environment(&mut store, "PJ1", "slow", false, "E1".into(), "J1".into(), T0).unwrap();
    assert_no_orphans(&store);
    complete_preparing_environment(&mut store, "E1", EnvironmentStatus::Pool, "{}", T0).unwrap();
    stage_update_environment(&mut store, "E1", "J2".into(), T0).unwrap();
    assert_no_orphans(&store);
    stage_task_create(&mut store, "PJ1", "noop", "slow", "x", "T1".into(), "E2".into(), "J3".into(), T0)
        .unwrap();
    assert_no_orphans(&store);
    stage_task_create(&mut store, "PJ1", "noop", "slow", "y", "T2".into(), "E3".into(), "J4".into(), T0)
        .unwrap();
    assert_no_orphans(&store);
    pooled_environment(&mut store, "E4", "J5", T0);
    stage_claim_environment(&mut store, "E4", "J6".into(), T0).unwrap();
    assert_no_orphans(&store);
    pooled_environment(&mut store, "E5", "J7", T0);
    stage_claim_next_environment(&mut store, "slow", "PJ1", "J8".into(), T0).unwrap();
    assert_no_orphans(&store);
    stage_remove_task(&mut store, "T1", "J9".into(), T0).unwrap();
    assert_no_orphans(&store);
    stage_remove_environment(&mut store, "E5", "J10".into(), T0).unwrap();
    assert_no_orphans(&store);
    // failed stagings change nothing
    let jobs = store.jobs.len();
    assert!(stage_remove_environment(&mut store, "E5", "J11".into(), T0).is_err());
    assert!(stage_update_environment(&mut store, "E9", "J11".into(), T0).is_err());
    assert_eq!(store.jobs.len(), jobs);
    assert_no_orphans(&store);
}

#[test]
fn at_most_one_active_job_per_dedupe_key() {
    let mut store = store_with_project();
    pooled_environment(&mut store, "E1", "J1", T0);
    for i in 0..5 {
        stage_update_environment(&mut store, "E1", format!("U{i}"), T0 + i).unwrap();
        if i % 2 == 1 {
            claim_pending_jobs(&mut store, 8, 30, T0 + i).unwrap();
        }
        if i == 3 {
            mark_job_complete(&mut store, "U0", T0 + i).unwrap();
        }
        let mut keys: Vec<&str> = store
            .jobs
            .iter()
            .filter(|j| j.status == JobStatus::Pending || j.status == JobStatus::Running)
            .filter_map(|j| j.dedupe_key.as_deref())
            .collect();
        let all = keys.len();
        keys.sort();
        keys.dedup();
        assert_eq!(keys.len(), all);
    }
    assert_eq!(store.jobs.iter().filter(|j| j.job_type == JobType::UpdateEnvironment).count(), 2);
}

#[test]
fn check_finds_rows_that_share_a_key() {
    let mut store = store_with_project();
    assert!(store.check());
    pooled_environment(&mut store, "E1", "J1", T0);
    stage_task_create(&mut store, "PJ1", "noop", "slow", "x", "T1".into(), "E2".into(), "J2".into(), T0)
        .unwrap();
    stage_update_environment(&mut store, "E9", "J3".into(), T0).unwrap_err();
    assert!(store.check());

    let mut twice = store_with_project();
    twice.projects.push(work::db::types::clone_project(&twice.projects[0]));
    assert!(!twice.check());
    twice.projects[1].id = "PJ2".into();
    assert!(!twice.check());
    twice.projects[1].name = "beta".into();
    assert!(twice.check());

    let mut keys = store_with_project();
    for id in ["J1", "J2", "J3"] {
        insert_job_tx(&mut keys, JobType::RunTask, env_payload("E"), None, id.into(), T0).unwrap();
    }
    assert!(keys.check());
    keys.jobs[0].dedupe_key = Some("k".into());
    keys.jobs[2].dedupe_key = Some("k".into());
    assert!(!keys.check());
    keys.jobs[2].dedupe_key = Some("l".into());
    assert!(keys.check());
    keys.jobs[1].id = "J1".into();
    assert!(!keys.check());

    let mut envs = store_with_project();
    pooled_environment(&mut envs, "E1", "J1", T0);
    envs.environments.push(work::db::types::clone_environment(&envs.environments[0]));
    assert!(!envs.check());
    envs.environments.pop();
    stage_task_create(&mut envs, "PJ1", "noop", "x", "d", "T1".into(), "E2".into(), "J2".into(), T0)
        .unwrap();
    envs.tasks.push(work::db::types::clone_task(&envs.tasks[0]));
    assert!(!envs.check());
}

#[test]
fn staging_under_a_key_that_is_held_queues_no_second_job() {
    let mut store = store_with_project();
    let held = insert_job_tx(
        &mut store,
        JobType::RunTask,
        env_payload("E7"),
        Some("prepare_environment:env:E7"),
        "J1".into(),
        T0,
    )
    .unwrap();
    assert_eq!(held, "J1");
    let env =
        stage_prepare_environment(&mut store, "PJ1", "slow", false, "E7".into(), "J2".into(), T0 + 1)
            .unwrap();
    assert_eq!(env.id, "E7");
    assert_eq!(env.status, EnvironmentStatus::Preparing);
    assert_eq!(store.environments.len(), 1);
    assert_eq!(store.jobs.len(), 1);
    assert_eq!(store.jobs[0].id, "J1");
    assert_eq!(store.jobs[0].job_type, JobType::RunTask);
    assert_eq!(active_jobs_with_key(&store, "prepare_environment:env:E7"), 1);
}

#[test]
fn a_job_is_claimed_where_fewer_than_the_limit_come_before_it() {
    let mut store = store_with_project();
    for (id, at) in [("J1", T0 + 40), ("J2", T0 + 10), ("J3", T0 + 30), ("J4", T0 + 20)] {
        insert_job_tx(&mut store, JobType::RunTask, env_payload("E"), None, id.into(), at).unwrap();
    }
    // J2 runs and its lease ends; it is still the oldest job
    let first = claim_pending_jobs(&mut store, 1, 30, T0 + 50).unwrap();
    assert_eq!(first[0].id, "J2");
    let after_lease = T0 + 50 + 30 * SECOND;
    // two jobs come before J3 (J2 and J4): a limit of three reaches it, a limit of two does not
    let mut narrow = Store {
        projects: Vec::new(),
        environments: Vec::new(),
        tasks: Vec::new(),
        jobs: store.jobs.iter().map(work::db::types::clone_job).collect(),
        migrations: Vec::new(),
    };
    let two = claim_pending_jobs(&mut narrow, 2, 30, after_lease).unwrap();
    let ids: Vec<&str> = two.iter().map(|j| j.id.as_str()).collect();
    assert_eq!(ids, vec!["J2", "J4"]);
    let three = claim_pending_jobs(&mut store, 3, 30, after_lease).unwrap();
    let ids: Vec<&str> = three.iter().map(|j| j.id.as_str()).collect();
    assert_eq!(ids, vec!["J2", "J4", "J3"]);
    assert_eq!(three[0].attempt, 2);
    assert_eq!(three[2].attempt, 1);
    assert_eq!(get_job(&store, "J1").unwrap().status, JobStatus::Pending);
    assert_eq!(get_job(&store, "J1").unwrap().attempt, 0);
}
