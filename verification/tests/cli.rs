use work::cli::{
    complete, environment_card, environment_header, environment_help, environment_line,
    environment_provider_for, environment_result_line, environment_row, find_by_name,
    find_holding, log_level, metadata_or, offers_environment, plan_task, project_line,
    project_table, resolve_project, tab_join, task_card, task_header, task_help, task_line,
    task_row, CliError, LogLevel, OutputFormat,
};
use work::config::{Config, ProjectConfig, TaskProviderConfig, TasksConfig};
use work::db::{Environment, EnvironmentStatus, Project, Task, TaskStatus};
use work::text::pad;

fn project(id: &str, name: &str, path: &str) -> Project {
    Project { id: id.into(), name: name.into(), path: path.into(), created_at: 0, updated_at: 0 }
}

fn projects() -> Vec<Project> {
    vec![project("PJ0", "api", "/src/api"), project("PJ1", "website", "/src/web"), project("PJ2", "api2", "/src/api/v2")]
}

fn environment() -> Environment {
    Environment {
        id: "E1".into(),
        project_id: "PJ0".into(),
        provider: "git-worktree".into(),
        status: EnvironmentStatus::InUse,
        metadata: "{\"branch\":\"work-env-E1\",\"worktree_path\":\"/w/E1\"}".into(),
        created_at: 0,
        updated_at: 0,
    }
}

fn task() -> Task {
    Task {
        id: "T1".into(),
        environment_id: "E1".into(),
        project_id: "PJ0".into(),
        provider: "noop".into(),
        description: "fix it".into(),
        status: TaskStatus::Started,
        created_at: 0,
        updated_at: 0,
    }
}

fn config() -> Config {
    Config {
        daemon: None,
        environment_provider: Some("global-env".into()),
        task_provider: None,
        projects: Some(vec![(
            "api".to_string(),
            ProjectConfig { environment_provider: None, task_provider: Some("noop".into()) },
        )]),
        tasks: Some(TasksConfig {
            providers: vec![(
                "noop".to_string(),
                TaskProviderConfig::Command { command: "true".into(), args: Vec::new() },
            )],
        }),
        environments: None,
    }
}

#[test]
fn log_levels() {
    assert_eq!(log_level(true, false, false), LogLevel::Debug);
    assert_eq!(log_level(false, true, true), LogLevel::Debug);
    assert_eq!(log_level(false, false, true), LogLevel::Info);
    assert_eq!(log_level(false, false, false), LogLevel::Warn);
    assert_ne!(OutputFormat::Human, OutputFormat::Json);
}

#[test]
fn resolve_project_by_name_or_directory() {
    let all = projects();
    assert_eq!(resolve_project(&all, Some("website"), "/").unwrap().id, "PJ1");
    let err = resolve_project(&all, Some("nope"), "/src/api").unwrap_err();
    assert_eq!(err.message(), "project not found: nope");
    assert_eq!(resolve_project(&all, None, "/src/api").unwrap().id, "PJ0");
    assert_eq!(resolve_project(&all, None, "/src/api/v2/x").unwrap().id, "PJ0");
    assert_eq!(resolve_project(&all, None, "/src/web/css").unwrap().id, "PJ1");
    let err = resolve_project(&all, None, "/src/apiary").unwrap_err();
    assert_eq!(
        err.message(),
        "could not determine project from current directory; specify a project name"
    );
    assert!(resolve_project(&Vec::new(), None, "/").is_err());
    assert_eq!(find_by_name(&all, "api2"), Some(2));
    assert_eq!(find_by_name(&all, "ap"), None);
    assert_eq!(find_holding(&all, "/src/api/v2"), Some(0));
    assert_eq!(find_holding(&all, "/src"), None);
}

#[test]
fn providers_come_from_the_flag_or_the_configuration() {
    let c = config();
    assert_eq!(
        environment_provider_for(&c, "api", Some("mine".into()), CliError::EnvironmentProviderRequired)
            .unwrap(),
        "mine"
    );
    assert_eq!(
        environment_provider_for(&c, "api", None, CliError::EnvironmentProviderRequired).unwrap(),
        "global-env"
    );
    let err = environment_provider_for(
        &Config::default(),
        "api",
        None,
        CliError::EnvironmentProviderRequiredForClaim,
    )
    .unwrap_err();
    assert_eq!(
        err.message(),
        "--provider is required when no id is given (or set environment-provider in config)"
    );
    assert_eq!(
        CliError::EnvironmentProviderRequired.message(),
        "--provider is required (or set environment-provider in config)"
    );
    assert_eq!(CliError::ProjectRequired.message(), "--project is required when no id is given");
    assert_eq!(CliError::NoLogs { task_id: "T1".into() }.message(), "no logs found for task T1");
}

#[test]
fn task_plans() {
    let c = config();
    let plan = plan_task(&c, "api", None, None).unwrap();
    assert_eq!(plan.task_provider, "noop");
    assert_eq!(plan.env_provider, "global-env");
    let plan = plan_task(&c, "website", Some("noop".into()), Some("slow".into())).unwrap();
    assert_eq!(plan.env_provider, "slow");
    let err = plan_task(&c, "website", None, None).unwrap_err();
    assert_eq!(err.message(), "--provider is required (or set task-provider in config)");
    let err = plan_task(&c, "api", Some("ghost".into()), None).unwrap_err();
    assert_eq!(err.message(), "task provider not found: ghost");
    let bare = Config { environment_provider: None, ..config() };
    let err = plan_task(&bare, "api", None, None).unwrap_err();
    assert_eq!(err.message(), "--env-provider is required (or set environment-provider in config)");
    // the task provider is looked for before its entry is
    let err = plan_task(&Config::default(), "api", None, Some("slow".into())).unwrap_err();
    assert_eq!(err.message(), "--provider is required (or set task-provider in config)");
}

#[test]
fn completion_by_prefix() {
    let names: Vec<String> = ["git-worktree", "sandbox", "git-lfs", "Git"].iter().map(|s| s.to_string()).collect();
    assert_eq!(complete(&names, "git"), vec!["git-worktree", "git-lfs"]);
    assert_eq!(complete(&names, ""), names);
    assert_eq!(complete(&names, "sandboxes"), Vec::<String>::new());
    assert_eq!(complete(&names, "sandbox"), vec!["sandbox"]);
    let all = projects();
    let env = environment();
    assert!(offers_environment(&env, None, "E"));
    assert!(offers_environment(&env, Some(&all[0]), "E1"));
    assert!(!offers_environment(&env, Some(&all[1]), "E1"));
    assert!(!offers_environment(&env, None, "X"));
    assert_eq!(environment_help(&env, &all), "api (in_use)");
    assert_eq!(environment_help(&env, &Vec::new()), "in_use");
    assert_eq!(task_help(&task()), "fix it (started)");
}

#[test]
fn plain_lines() {
    assert_eq!(project_line(&projects()[1]), "website\t/src/web");
    assert_eq!(environment_line(&environment()), "E1\tgit-worktree\tin_use\tPJ0");
    assert_eq!(environment_result_line(&environment()), "E1\tgit-worktree\tin_use\t/w/E1");
    let bare = Environment { metadata: "{}".into(), ..environment() };
    assert_eq!(environment_result_line(&bare), "E1\tgit-worktree\tin_use\t");
    assert_eq!(task_line(&task()), "T1\tnoop\tstarted\tfix it");
    assert_eq!(tab_join(&vec!["a", "", "c"]), "a\t\tc");
    assert_eq!(tab_join(&vec!["a"]), "a");
    assert_eq!(tab_join(&Vec::new()), "");
    assert_eq!(metadata_or("{\"k\":\"v\"}", "k", "-"), "v");
    assert_eq!(metadata_or("{\"k\":1}", "k", "-"), "-");
}

#[test]
fn tables() {
    assert_eq!(
        project_table(&projects()),
        vec!["NAME     PATH", "api      /src/api", "website  /src/web", "api2     /src/api/v2"]
    );
    assert_eq!(project_table(&vec![project("P", "a", "/a")]), vec!["NAME  PATH", "a     /a"]);
    assert!(project_table(&Vec::new()).is_empty());
    assert_eq!(
        environment_header(),
        format!("{:<22}  {:<12}  {:<14}  {:<22}  PATH", "ID", "PROVIDER", "STATUS", "PROJ")
    );
    assert_eq!(
        environment_row(&environment()),
        format!("{:<22}  {:<12}  {:<14}  {:<22}  {}", "E1", "git-worktree", "in_use", "PJ0", "/w/E1")
    );
    let bare = Environment { metadata: "nope".into(), ..environment() };
    assert!(environment_row(&bare).ends_with("  -"));
    assert_eq!(task_header(), format!("{:<22}  {:<12}  {:<10}  DESCRIPTION", "ID", "PROVIDER", "STATUS"));
    assert_eq!(
        task_row(&task()),
        format!("{:<22}  {:<12}  {:<10}  {}", "T1", "noop", "started", "fix it")
    );
    assert_eq!(pad("abc", 5), "abc  ");
    assert_eq!(pad("abcdef", 5), "abcdef");
    assert_eq!(pad("äb", 4), format!("{:<4}", "äb"));
    assert_eq!(pad("", 0), "");
}

#[test]
fn cards() {
    assert_eq!(
        environment_card(&environment()),
        vec![
            "\x1b[1;32min_use\x1b[0m \x1b[2m(id: E1)\x1b[0m",
            "  \x1b[1mprovider:\x1b[0m  git-worktree",
            "  \x1b[1mproject:\x1b[0m   PJ0",
            "  \x1b[1mbranch:\x1b[0m    work-env-E1",
            "  \x1b[1mpath:\x1b[0m      /w/E1",
        ]
    );
    let bare = Environment { metadata: "{}".into(), ..environment() };
    assert_eq!(environment_card(&bare)[3], "  \x1b[1mbranch:\x1b[0m    -");
    assert_eq!(
        task_card(&task()),
        vec![
            "\x1b[1;32mstarted\x1b[0m \x1b[2m(id: T1)\x1b[0m",
            "  \x1b[1mprovider:\x1b[0m      noop",
            "  \x1b[1mproject:\x1b[0m       PJ0",
            "  \x1b[1menvironment:\x1b[0m   E1",
            "  \x1b[1mdescription:\x1b[0m   fix it",
        ]
    );
}
