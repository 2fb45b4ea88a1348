use work::daemon::routes::{
    checks_status, claim_environment, claim_next_environment, create_project, create_task,
    delete_project, environment_tail_ends, error_status, get_environment, get_task, health,
    list_environments, list_projects, list_tasks, next_chunk, prepare_environment,
    remove_environment, remove_task, reset_database, tail_environment_logs, tail_task_logs,
    task_tail_ends, update_environment, ClaimNextEnvironmentRequest, CreateProjectRequest,
    CreateTaskRequest, LogMode, PrepareEnvironmentRequest, RemoveQuery,
};
use work::daemon::{cleanup, install, plist_path, refusal_message, start_decision, uninstall, StartDecision};
use work::db::{
    complete_preparing_environment, initialize, update_task_status, EnvironmentStatus, Store,
    StoreError, TaskStatus,
};

const T0: i64 = 1_700_000_000_000_000;

fn project(name: &str, path: &str) -> CreateProjectRequest {
    CreateProjectRequest { name: name.to_string(), path: path.to_string() }
}

fn store_with_project() -> Store {
    let mut store = initialize(T0);
    assert_eq!(create_project(&mut store, &project("myproj", "/tmp/myproj"), "PJ1".into(), T0).status, 201);
    store
}

fn task_request() -> CreateTaskRequest {
    CreateTaskRequest {
        project_id: "PJ1".into(),
        provider: "noop".into(),
        env_provider: "slow".into(),
        description: "x".into(),
    }
}

#[test]
fn api_health() {
    assert_eq!(health(), 200);
}

#[test]
fn api_projects_crud() {
    let mut store = initialize(T0);

    // List should be empty.
    let resp = list_projects(&store);
    assert_eq!(resp.status, 200);
    assert!(resp.result.unwrap().is_empty());

    // Create a project.
    let resp = create_project(&mut store, &project("myproj", "/tmp/myproj"), "PJ1".into(), T0);
    assert_eq!(resp.status, 201);
    assert!(resp.notifies());

    // List should have one project.
    let resp = list_projects(&store);
    assert_eq!(resp.status, 200);
    let projects = resp.result.unwrap();
    assert_eq!(projects.len(), 1);
    assert_eq!(projects[0].name, "myproj");
    assert_eq!(projects[0].path, "/tmp/myproj");

    // Delete the project.
    let resp = delete_project(&mut store, "myproj");
    assert_eq!(resp.status, 204);

    // List should be empty again.
    assert!(list_projects(&store).result.unwrap().is_empty());
}

#[test]
fn api_delete_nonexistent_returns_404() {
    let mut store = initialize(T0);
    let resp = delete_project(&mut store, "nope");
    assert_eq!(resp.status, 404);
    assert_eq!(resp.result, Err(StoreError::NotFound));
    assert!(!resp.notifies());
}

#[test]
fn api_create_duplicate_returns_409() {
    let mut store = initialize(T0);
    let resp = create_project(&mut store, &project("dup", "/tmp/a"), "PJ1".into(), T0);
    assert_eq!(resp.status, 201);

    let resp = create_project(&mut store, &project("dup", "/tmp/b"), "PJ2".into(), T0);
    assert_eq!(resp.status, 409);
    assert_eq!(store.projects.len(), 1);
}

#[test]
fn api_reset_database() {
    let mut store = initialize(T0);
    create_project(&mut store, &project("gone", "/tmp/gone"), "PJ1".into(), T0);

    assert_eq!(reset_database(&mut store, T0 + 1), 204);

    assert!(list_projects(&store).result.unwrap().is_empty());
    assert_eq!(store.migrations.len(), 4);
}

#[test]
fn daemon_start_refuses_if_already_running() {
    assert_eq!(start_decision(true, true, false), StartDecision::Refuse);
    assert_eq!(start_decision(true, false, false), StartDecision::Refuse);
    assert_eq!(start_decision(false, true, false), StartDecision::Refuse);
    assert_eq!(start_decision(false, false, false), StartDecision::Proceed);
    assert_eq!(
        refusal_message("/run/work"),
        "daemon already running (found runtime files in /run/work); use --force to override"
    );
}

#[test]
fn daemon_start_force_overrides_existing_files() {
    assert_eq!(start_decision(true, true, true), StartDecision::RemoveStale);
    assert_eq!(start_decision(false, true, true), StartDecision::RemoveStale);
    assert_eq!(start_decision(false, false, true), StartDecision::Proceed);
    assert_eq!(cleanup("/run/work", true, true), vec!["/run/work/work.pid", "/run/work/work.sock"]);
    assert_eq!(cleanup("/run/work", false, true), vec!["/run/work/work.sock"]);
    assert!(cleanup("/run/work", false, false).is_empty());
}

#[test]
fn error_status_by_kind() {
    assert_eq!(error_status(StoreError::NotFound), 404);
    assert_eq!(error_status(StoreError::Duplicate), 409);
    assert_eq!(error_status(StoreError::Conflict), 409);
    assert_eq!(error_status(StoreError::InvalidState), 500);
    assert_eq!(error_status(StoreError::Storage), 500);
}

#[test]
fn environment_routes() {
    let mut store = store_with_project();
    let body = PrepareEnvironmentRequest {
        project_id: "PJ1".into(),
        provider: "slow".into(),
        claim_after_prepare: false,
    };
    let resp = prepare_environment(&mut store, &body, "E1".into(), "J1".into(), T0);
    assert_eq!(resp.status, 202);
    assert_eq!(resp.result.unwrap().status, EnvironmentStatus::Preparing);
    let missing = PrepareEnvironmentRequest { project_id: "PJ9".into(), ..body };
    assert_eq!(prepare_environment(&mut store, &missing, "E2".into(), "J2".into(), T0).status, 404);

    assert_eq!(get_environment(&store, "E1").status, 200);
    assert_eq!(get_environment(&store, "E9").status, 404);
    assert_eq!(list_environments(&store).result.unwrap().len(), 1);

    assert_eq!(update_environment(&mut store, "E1", "J3".into(), T0).status, 500);
    assert_eq!(update_environment(&mut store, "E9", "J3".into(), T0).status, 404);
    assert_eq!(claim_environment(&mut store, "E1", "J3".into(), T0).status, 500);
    let next = ClaimNextEnvironmentRequest { provider: "slow".into(), project_id: "PJ1".into() };
    assert_eq!(claim_next_environment(&mut store, &next, "J3".into(), T0).status, 404);

    complete_preparing_environment(&mut store, "E1", EnvironmentStatus::Pool, "{}", T0).unwrap();
    let staged = update_environment(&mut store, "E1", "J3".into(), T0);
    assert_eq!(staged.status, 202);
    assert_eq!(staged.result.unwrap().job_id, "J3");
    let again = update_environment(&mut store, "E1", "J9".into(), T0);
    assert_eq!(again.status, 202);
    assert_eq!(again.result.unwrap().job_id, "J3");
    let resp = claim_next_environment(&mut store, &next, "J4".into(), T0);
    assert_eq!(resp.status, 202);
    assert_eq!(resp.result.unwrap().id, "E1");
    assert_eq!(claim_environment(&mut store, "E1", "J5".into(), T0).status, 500);
}

#[test]
fn remove_routes() {
    let mut store = store_with_project();
    let staged = RemoveQuery { skip_provider: false };
    let forced = RemoveQuery { skip_provider: true };
    assert!(!RemoveQuery::default().skip_provider);

    let resp = create_task(&mut store, &task_request(), "T1".into(), "E1".into(), "J1".into(), T0);
    assert_eq!(resp.status, 202);
    assert_eq!(resp.result.unwrap().environment_id, "E1");

    // an environment that belongs to a task
    assert_eq!(remove_environment(&mut store, "E1", &staged, "J2".into(), T0).status, 409);
    assert_eq!(remove_environment(&mut store, "E1", &forced, "J2".into(), T0).status, 409);
    assert_eq!(remove_environment(&mut store, "E9", &staged, "J2".into(), T0).status, 404);
    assert_eq!(remove_environment(&mut store, "E9", &forced, "J2".into(), T0).status, 404);

    assert_eq!(remove_task(&mut store, "T9", &staged, "J2".into(), T0).status, 404);
    assert_eq!(remove_task(&mut store, "T1", &staged, "J2".into(), T0).status, 202);
    assert_eq!(get_task(&store, "T1").status, 200);
    assert_eq!(remove_task(&mut store, "T1", &forced, "J3".into(), T0).status, 204);
    assert_eq!(get_task(&store, "T1").status, 404);
    assert_eq!(get_environment(&store, "E1").status, 404);

    // a free environment: removal is staged once, then it conflicts
    let body = PrepareEnvironmentRequest {
        project_id: "PJ1".into(),
        provider: "slow".into(),
        claim_after_prepare: false,
    };
    prepare_environment(&mut store, &body, "E2".into(), "J4".into(), T0);
    assert_eq!(remove_environment(&mut store, "E2", &staged, "J5".into(), T0).status, 202);
    assert_eq!(remove_environment(&mut store, "E2", &staged, "J6".into(), T0).status, 409);
    assert_eq!(remove_environment(&mut store, "E2", &forced, "J6".into(), T0).status, 204);
    assert!(list_tasks(&store).result.unwrap().is_empty());
}

#[test]
fn task_log_routes() {
    let mut store = store_with_project();
    create_task(&mut store, &task_request(), "T1".into(), "E1".into(), "J1".into(), T0);
    assert_eq!(tail_task_logs(&store, "T1").result, Ok(LogMode::Follow));
    assert!(!task_tail_ends(&store, "T1"));
    update_task_status(&mut store, "T1", TaskStatus::Started, T0).unwrap();
    assert_eq!(tail_task_logs(&store, "T1").result, Ok(LogMode::Follow));
    update_task_status(&mut store, "T1", TaskStatus::Failed, T0).unwrap();
    let resp = tail_task_logs(&store, "T1");
    assert_eq!(resp.status, 200);
    assert_eq!(resp.result, Ok(LogMode::Whole));
    assert!(task_tail_ends(&store, "T1"));
    assert_eq!(tail_task_logs(&store, "T9").status, 404);
    assert!(!task_tail_ends(&store, "T9"));

    assert_eq!(tail_environment_logs(&store, "E1").result, Ok(LogMode::Follow));
    assert_eq!(tail_environment_logs(&store, "E9").status, 404);
    assert!(!environment_tail_ends(&store, "E1"));
    assert!(environment_tail_ends(&store, "E9"));
}

#[test]
fn log_tail_steps() {
    assert_eq!(next_chunk(0, 0), None);
    assert_eq!(next_chunk(0, 10), Some((0, 10)));
    assert_eq!(next_chunk(10, 25), Some((10, 15)));
    assert_eq!(next_chunk(25, 25), None);
    assert_eq!(next_chunk(30, 25), None);
    assert_eq!(next_chunk(0, u64::MAX), Some((0, u64::MAX)));
    assert!(checks_status(0));
    assert!(!checks_status(1));
    assert!(!checks_status(9));
    assert!(checks_status(10));
    assert!(checks_status(20));
}

#[test]
fn login_service_plans() {
    assert_eq!(
        plist_path(Some("/Users/u")).as_deref(),
        Some("/Users/u/Library/LaunchAgents/com.jclem.work.plist")
    );
    assert_eq!(plist_path(None), None);
    let plan = install("/usr/local/bin/work", "/state", "501", "/p/com.jclem.work.plist");
    assert_eq!(plan.launchctl_args, vec!["bootstrap", "gui/501", "/p/com.jclem.work.plist"]);
    assert_eq!(
        plan.plist,
        r#"<?xml version="1.0" encoding="UTF-8"?>
<!DOCTYPE plist PUBLIC "-//Apple//DTD PLIST 1.0//EN" "http://www.apple.com/DTDs/PropertyList-1.0.dtd">
<plist version="1.0">
<dict>
    <key>Label</key>
    <string>com.jclem.work</string>
    <key>ProgramArguments</key>
    <array>
        <string>/usr/local/bin/work</string>
        <string>daemon</string>
        <string>start</string>
        <string>--force</string>
    </array>
    <key>KeepAlive</key>
    <true/>
    <key>StandardOutPath</key>
    <string>/state/daemon.out.log</string>
    <key>StandardErrorPath</key>
    <string>/state/daemon.err.log</string>
</dict>
</plist>
"#
    );
    assert_eq!(uninstall("501", "/p/x.plist"), vec!["bootout", "gui/501", "/p/x.plist"]);
}

#[test]
fn reset_database_clears_data() {
    let mut store = initialize(T0);
    assert_eq!(create_project(&mut store, &project("test-proj", "/tmp/test-proj"), "PJ1".into(), T0).status, 201);
    create_task(&mut store, &task_request(), "T1".into(), "E1".into(), "J1".into(), T0);

    assert_eq!(reset_database(&mut store, T0 + 5), 204);

    assert!(work::cli::project_table(&list_projects(&store).result.unwrap()).is_empty());
    assert!(store.environments.is_empty());
    assert!(store.tasks.is_empty());
    assert!(store.jobs.is_empty());
    assert!(store.migrations.iter().all(|m| m.applied_at == T0 + 5));
}

#[test]
fn project_new_creates_project_with_explicit_name_and_path() {
    let mut store = initialize(T0);
    let resp = create_project(&mut store, &project("myproject", "/tmp/somewhere"), "PJ1".into(), T0);
    assert_eq!(resp.status, 201);
    let projects = list_projects(&store).result.unwrap();
    assert_eq!(projects.len(), 1);
    assert_eq!(projects[0].name, "myproject");
    assert_eq!(projects[0].path, "/tmp/somewhere");
    assert_eq!(projects[0].id, "PJ1");
}

#[test]
fn project_new_rejects_duplicate_name() {
    let mut store = initialize(T0);
    let first = create_project(&mut store, &project("dupe", "/tmp/a"), "PJ1".into(), T0);
    assert!(work::client::is_success(first.status));
    let second = create_project(&mut store, &project("dupe", "/tmp/b"), "PJ2".into(), T0);
    assert!(!work::client::is_success(second.status));
    assert_eq!(second.result, Err(StoreError::Duplicate));
}

#[test]
fn project_list_human_format() {
    let mut store = initialize(T0);
    create_project(&mut store, &project("beta", "/tmp/beta"), "PJ1".into(), T0);
    create_project(&mut store, &project("alpha", "/tmp/alpha"), "PJ2".into(), T0);

    let lines = work::cli::project_table(&list_projects(&store).result.unwrap());

    assert_eq!(lines.len(), 3); // header + 2 projects
    assert!(lines[0].contains("NAME"));
    assert!(lines[0].contains("PATH"));
    assert!(lines[1].starts_with("alpha"));
    assert!(lines[2].starts_with("beta"));
}

#[test]
fn project_list_plain_format() {
    let mut store = initialize(T0);
    create_project(&mut store, &project("myproj", "/tmp/myproj"), "PJ1".into(), T0);

    let projects = list_projects(&store).result.unwrap();
    let lines: Vec<String> = projects.iter().map(work::cli::project_line).collect();

    assert_eq!(lines.len(), 1);
    let parts: Vec<&str> = lines[0].split('\t').collect();
    assert_eq!(parts[0], "myproj");
    assert_eq!(parts[1], "/tmp/myproj");
}

#[test]
fn project_remove_deletes_existing_project() {
    let mut store = initialize(T0);
    create_project(&mut store, &project("removeme", "/tmp/removeme"), "PJ1".into(), T0);

    assert_eq!(delete_project(&mut store, "removeme").status, 204);

    assert!(work::cli::project_table(&list_projects(&store).result.unwrap()).is_empty());
}
