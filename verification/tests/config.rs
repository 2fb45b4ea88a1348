use work::config::{
    lookup, Config, DaemonConfig, EnvironmentProviderConfig, EnvironmentsConfig, ProjectConfig,
    TaskProviderConfig, TasksConfig,
};

fn text(table: &toml::Table, keys: &[&str]) -> Option<String> {
    keys.iter().find_map(|k| table.get(*k).and_then(|v| v.as_str()).map(|s| s.to_string()))
}

fn project(table: &toml::Table) -> ProjectConfig {
    ProjectConfig {
        environment_provider: text(table, &["environment-provider", "default-environment-provider"]),
        task_provider: text(table, &["task-provider", "default-task-provider"]),
    }
}

fn task_provider(table: &toml::Table) -> TaskProviderConfig {
    assert_eq!(table.get("type").and_then(|v| v.as_str()), Some("command"));
    TaskProviderConfig::Command {
        command: table["command"].as_str().unwrap().to_string(),
        args: table["args"]
            .as_array()
            .unwrap()
            .iter()
            .map(|a| a.as_str().unwrap().to_string())
            .collect(),
    }
}

fn environment_provider(table: &toml::Table) -> EnvironmentProviderConfig {
    assert_eq!(table.get("type").and_then(|v| v.as_str()), Some("script"));
    EnvironmentProviderConfig::Script { path: table["path"].as_str().unwrap().to_string() }
}

/// Reads a configuration file as the program does.
fn parse(source: &str) -> Config {
    let table: toml::Table = toml::from_str(source).unwrap();
    let section = |name: &str| table.get(name).and_then(|v| v.as_table());
    let providers = |name: &str| {
        section(name).and_then(|t| t.get("providers")).and_then(|v| v.as_table())
    };
    Config {
        daemon: section("daemon").map(|d| DaemonConfig {
            debug: d.get("debug").and_then(|v| v.as_bool()).unwrap_or(false),
        }),
        environment_provider: text(&table, &["environment-provider", "default-environment-provider"]),
        task_provider: text(&table, &["task-provider", "default-task-provider"]),
        projects: section("projects").map(|projects| {
            projects
                .iter()
                .map(|(name, value)| (name.clone(), project(value.as_table().unwrap())))
                .collect()
        }),
        tasks: providers("tasks").map(|entries| TasksConfig {
            providers: entries
                .iter()
                .map(|(name, value)| (name.clone(), task_provider(value.as_table().unwrap())))
                .collect(),
        }),
        environments: providers("environments").map(|entries| EnvironmentsConfig {
            providers: entries
                .iter()
                .map(|(name, value)| (name.clone(), environment_provider(value.as_table().unwrap())))
                .collect(),
        }),
    }
}

#[test]
fn project_specific_defaults_override_global_defaults() {
    let config = parse(
        r#"
task-provider = "global-task"
environment-provider = "global-env"

[projects.backend]
task-provider = "backend-task"
environment-provider = "backend-env"
"#,
    );

    assert_eq!(
        config.default_task_provider_for_project("backend").as_deref(),
        Some("backend-task")
    );
    assert_eq!(
        config.default_environment_provider_for_project("backend").as_deref(),
        Some("backend-env")
    );
}

#[test]
fn project_defaults_fall_back_to_global_defaults() {
    let config = parse(
        r#"
task-provider = "global-task"
environment-provider = "global-env"

[projects.frontend]
task-provider = "frontend-task"
"#,
    );

    assert_eq!(
        config.default_task_provider_for_project("unknown").as_deref(),
        Some("global-task")
    );
    assert_eq!(
        config.default_environment_provider_for_project("frontend").as_deref(),
        Some("global-env")
    );
}

#[test]
fn old_default_keys_still_deserialize() {
    let config = parse(
        r#"
default-task-provider = "global-task"
default-environment-provider = "global-env"

[projects.frontend]
default-task-provider = "frontend-task"
default-environment-provider = "frontend-env"
"#,
    );

    assert_eq!(config.task_provider.as_deref(), Some("global-task"));
    assert_eq!(config.environment_provider.as_deref(), Some("global-env"));
    assert_eq!(
        config.default_task_provider_for_project("frontend").as_deref(),
        Some("frontend-task")
    );
    assert_eq!(
        config.default_environment_provider_for_project("frontend").as_deref(),
        Some("frontend-env")
    );
}

#[test]
fn environment_script_provider_uses_path_key() {
    let config = parse(
        r#"
[environments.providers.sandbox]
type = "script"
path = "/tmp/sandbox-provider.sh"
"#,
    );

    let provider = config.get_environment_provider("sandbox").unwrap();
    assert!(matches!(
        provider,
        EnvironmentProviderConfig::Script { path }
        if path == "/tmp/sandbox-provider.sh"
    ));
}

#[test]
fn defaults_without_any_configuration() {
    let config = Config::default();
    assert_eq!(config.default_task_provider_for_project("any"), None);
    assert_eq!(config.default_environment_provider_for_project("any"), None);
    assert!(config.get_task_provider("any").is_err());
    assert!(config.get_environment_provider("any").is_err());
    assert!(config.daemon.is_none());
}

#[test]
fn task_provider_lookup() {
    let config = parse(
        r#"
[tasks.providers.agent]
type = "command"
command = "agent"
args = ["-p", "{task_description}"]

[tasks.providers.echo]
type = "command"
command = "echo"
args = []
"#,
    );
    let TaskProviderConfig::Command { command, args } = config.get_task_provider("agent").unwrap();
    assert_eq!(command, "agent");
    assert_eq!(args, &vec!["-p".to_string(), "{task_description}".to_string()]);
    let TaskProviderConfig::Command { command, args } = config.get_task_provider("echo").unwrap();
    assert_eq!(command, "echo");
    assert!(args.is_empty());
    let err = config.get_task_provider("missing").unwrap_err();
    assert_eq!(err.message("missing"), "task provider not found: missing");
    let err = config.get_environment_provider("agent").unwrap_err();
    assert_eq!(err.message("agent"), "environment provider not found in config: agent");
}

#[test]
fn lookup_finds_the_first_entry_of_a_name() {
    let entries = vec![
        ("a".to_string(), 1),
        ("b".to_string(), 2),
        ("a".to_string(), 3),
    ];
    assert_eq!(lookup(&entries, "a"), Some(0));
    assert_eq!(lookup(&entries, "b"), Some(1));
    assert_eq!(lookup(&entries, "c"), None);
    assert_eq!(lookup(&entries, ""), None);
    assert_eq!(lookup(&Vec::<(String, u8)>::new(), "a"), None);
}

#[test]
fn a_project_without_its_own_default_uses_the_global_one() {
    let config = parse(
        r#"
task-provider = "global-task"

[projects.docs]
environment-provider = "docs-env"
"#,
    );
    assert_eq!(config.default_task_provider_for_project("docs").as_deref(), Some("global-task"));
    assert_eq!(
        config.default_environment_provider_for_project("docs").as_deref(),
        Some("docs-env")
    );
    assert_eq!(config.default_environment_provider_for_project("other"), None);
}
