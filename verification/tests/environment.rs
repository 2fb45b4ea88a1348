use work::config::{Config, EnvironmentProviderConfig, EnvironmentsConfig};
use work::environment::json::{
    get_string_field, json_normalize, write_object, write_string_array,
};
use work::environment::{
    get_provider, list_providers, metadata_string, script_result, step_outcome,
    ApfsWorktreeProvider, CommandStep, GitWorktreeProvider, Provider, ProviderCall, ProviderError,
    ScriptProvider,
};

fn config_with_script(name: &str, path: &str) -> Config {
    Config {
        daemon: None,
        environment_provider: None,
        task_provider: None,
        projects: None,
        tasks: None,
        environments: Some(EnvironmentsConfig {
            providers: vec![(
                name.to_string(),
                EnvironmentProviderConfig::Script { path: path.to_string() },
            )],
        }),
    }
}

fn strings(items: &[&str]) -> Vec<String> {
    items.iter().map(|s| s.to_string()).collect()
}

#[test]
fn git_worktree_exec_commands_include_cd() {
    let provider = GitWorktreeProvider;
    let commands = provider.exec_commands("{}");

    assert_eq!(commands.len(), 1);
    assert_eq!(commands[0].name, "cd");
}

#[test]
fn git_worktree_exec_cd_runs_shell_in_worktree() {
    let provider = GitWorktreeProvider;
    let metadata = "{\"worktree_path\":\"/tmp/worktree\"}";

    let run_spec = provider.exec(metadata, "cd", &Vec::new(), Some("/bin/zsh")).unwrap();
    assert_eq!(run_spec.program, "/bin/zsh");
    assert_eq!(run_spec.args, Vec::<String>::new());
    assert_eq!(run_spec.cwd, Some("/tmp/worktree".to_string()));

    let run_spec = provider.exec(metadata, "cd", &Vec::new(), None).unwrap();
    assert_eq!(run_spec.program, "sh");
    assert_eq!(run_spec.args, Vec::<String>::new());
    assert_eq!(run_spec.cwd, Some("/tmp/worktree".to_string()));
}

#[test]
fn git_worktree_exec_non_cd_passthrough() {
    let provider = GitWorktreeProvider;
    let metadata = "{\"worktree_path\":\"/tmp/worktree\"}";
    let args = vec!["-la".to_string()];

    let run_spec = provider.exec(metadata, "ls", &args, Some("/bin/zsh")).unwrap();

    assert_eq!(run_spec.program, "ls");
    assert_eq!(run_spec.args, args);
    assert_eq!(run_spec.cwd, Some("/tmp/worktree".to_string()));
}

#[test]
fn apfs_worktree_exec_commands_include_cd() {
    let provider = ApfsWorktreeProvider;
    let commands = provider.exec_commands("{}");

    assert_eq!(commands.len(), 1);
    assert_eq!(commands[0].name, "cd");
    assert_eq!(commands[0].help.as_deref(), Some("Open a shell in the worktree directory"));
}

#[test]
fn apfs_worktree_exec_cd_runs_shell_in_worktree() {
    let provider = ApfsWorktreeProvider;
    let metadata = "{\"worktree_path\":\"/tmp/worktree\"}";

    let run_spec = provider.exec(metadata, "cd", &Vec::new(), Some("/bin/fish")).unwrap();

    assert_eq!(run_spec.program, "/bin/fish");
    assert_eq!(run_spec.args, Vec::<String>::new());
    assert_eq!(run_spec.cwd, Some("/tmp/worktree".to_string()));
    assert_eq!(provider.exec(metadata, "cd", &Vec::new(), None).unwrap().program, "sh");
}

#[test]
fn apfs_worktree_exec_non_cd_passthrough() {
    let provider = ApfsWorktreeProvider;
    let metadata = "{\"worktree_path\":\"/tmp/worktree\"}";
    let args = vec!["-la".to_string()];

    let run_spec = provider.exec(metadata, "ls", &args, None).unwrap();

    assert_eq!(run_spec.program, "ls");
    assert_eq!(run_spec.args, args);
    assert_eq!(run_spec.cwd, Some("/tmp/worktree".to_string()));
}

#[test]
fn worktree_run_needs_the_worktree_path() {
    let provider = GitWorktreeProvider;
    let spec = provider.run("{\"worktree_path\":\"/w\"}", "make", &strings(&["test"])).unwrap();
    assert_eq!(spec.program, "make");
    assert_eq!(spec.args, strings(&["test"]));
    assert_eq!(spec.cwd.as_deref(), Some("/w"));
    assert_eq!(spec.stdin_data, None);
    assert!(spec.env.is_empty());
    for metadata in ["{}", "{\"worktree_path\":5}", "not json", "[\"worktree_path\"]"] {
        let err = provider.run(metadata, "make", &Vec::new()).unwrap_err();
        assert_eq!(err.message(), "missing worktree_path in metadata");
        let err = ApfsWorktreeProvider.exec(metadata, "cd", &Vec::new(), None).unwrap_err();
        assert_eq!(err.message(), "missing worktree_path in metadata");
    }
}

#[test]
fn builtin_claim_keeps_the_metadata() {
    assert_eq!(GitWorktreeProvider.claim("{\"a\": 1}"), "{\"a\": 1}");
    assert_eq!(ApfsWorktreeProvider.claim("anything"), "anything");
}

#[test]
fn git_prepare_plan() {
    let call = GitWorktreeProvider.prepare("/src/app", "/data", "E1");
    match call {
        ProviderCall::Commands { make_dirs, steps, metadata } => {
            assert_eq!(make_dirs, strings(&["/data/worktrees"]));
            assert_eq!(steps.len(), 1);
            assert_eq!(steps[0].program, "git");
            assert_eq!(
                steps[0].args,
                strings(&["worktree", "add", "-b", "work-env-E1", "/data/worktrees/E1"])
            );
            assert_eq!(steps[0].cwd.as_deref(), Some("/src/app"));
            assert_eq!(steps[0].error_prefix, "git worktree add failed");
            assert_eq!(steps[0].tolerated, None);
            assert_eq!(
                metadata,
                "{\"branch\":\"work-env-E1\",\"project_path\":\"/src/app\",\"worktree_path\":\"/data/worktrees/E1\"}"
            );
            assert_eq!(get_string_field(&metadata, "branch").as_deref(), Some("work-env-E1"));
        }
        other => panic!("unexpected call {other:?}"),
    }
}

#[test]
fn git_update_and_remove_plans() {
    let metadata =
        "{\"branch\":\"work-env-E1\",\"project_path\":\"/src/app\",\"worktree_path\":\"/w/E1\"}";
    match GitWorktreeProvider.update(metadata).unwrap() {
        ProviderCall::Commands { make_dirs, steps, metadata: kept } => {
            assert!(make_dirs.is_empty());
            assert_eq!(kept, metadata);
            assert_eq!(steps.len(), 2);
            assert_eq!(steps[0].args, strings(&["fetch", "origin"]));
            assert_eq!(steps[0].cwd.as_deref(), Some("/w/E1"));
            assert_eq!(steps[0].error_prefix, "git fetch failed");
            assert_eq!(steps[1].args, strings(&["merge", "origin/HEAD"]));
            assert_eq!(steps[1].error_prefix, "git merge failed");
        }
        other => panic!("unexpected call {other:?}"),
    }
    match GitWorktreeProvider.remove(metadata).unwrap() {
        ProviderCall::Commands { steps, .. } => {
            assert_eq!(steps.len(), 2);
            assert_eq!(steps[0].args, strings(&["worktree", "remove", "--force", "/w/E1"]));
            assert_eq!(steps[0].cwd.as_deref(), Some("/src/app"));
            assert_eq!(steps[0].tolerated.as_deref(), Some("is not a working tree"));
            assert_eq!(steps[1].args, strings(&["branch", "-D", "work-env-E1"]));
            assert_eq!(steps[1].tolerated.as_deref(), Some("not found"));
            assert_eq!(steps[1].error_prefix, "git branch -D failed");
        }
        other => panic!("unexpected call {other:?}"),
    }
    let err = GitWorktreeProvider.remove("{\"worktree_path\":\"/w\"}").unwrap_err();
    assert_eq!(err.message(), "missing project_path in metadata");
    let err = GitWorktreeProvider
        .remove("{\"worktree_path\":\"/w\",\"project_path\":\"/p\"}")
        .unwrap_err();
    assert_eq!(err.message(), "missing branch in metadata");
    let err = GitWorktreeProvider.update("{}").unwrap_err();
    assert_eq!(err.message(), "missing worktree_path in metadata");
    let err = ApfsWorktreeProvider.remove("{\"worktree_path\":\"/w\"}").unwrap_err();
    assert_eq!(err.message(), "missing project_path in metadata");
}

#[test]
fn apfs_prepare_plan_copies_everything_but_git() {
    let entries = strings(&["src", ".git", "README.md", ".worktrees", ".gitignore"]);
    match ApfsWorktreeProvider.prepare("/src/app", "/data/", "E1", &entries) {
        ProviderCall::Commands { make_dirs, steps, metadata } => {
            assert_eq!(make_dirs, strings(&["/data/worktrees"]));
            let args: Vec<Vec<String>> = steps.iter().map(|s| s.args.clone()).collect();
            assert_eq!(
                args,
                vec![
                    strings(&["fetch", "origin", "main"]),
                    strings(&["branch", "work-env-E1", "origin/main"]),
                    strings(&["worktree", "add", "--no-checkout", "/data/worktrees/E1", "work-env-E1"]),
                    strings(&["-cR", "/src/app/src", "/data/worktrees/E1"]),
                    strings(&["-cR", "/src/app/README.md", "/data/worktrees/E1"]),
                    strings(&["-cR", "/src/app/.gitignore", "/data/worktrees/E1"]),
                    strings(&["reset", "--hard", "work-env-E1"]),
                ]
            );
            assert_eq!(steps[1].tolerated.as_deref(), Some("already exists"));
            assert_eq!(steps[3].program, "cp");
            assert_eq!(steps[3].cwd, None);
            assert_eq!(steps[3].error_prefix, "apfs clone copy failed");
            assert_eq!(steps[6].cwd.as_deref(), Some("/data/worktrees/E1"));
            assert_eq!(
                metadata,
                "{\"base_branch\":\"main\",\"branch\":\"work-env-E1\",\"project_path\":\"/src/app\",\"worktree_path\":\"/data/worktrees/E1\"}"
            );
        }
        other => panic!("unexpected call {other:?}"),
    }
}

#[test]
fn apfs_update_uses_the_base_branch_of_the_metadata() {
    let with_base = "{\"project_path\":\"/p\",\"worktree_path\":\"/w\",\"base_branch\":\"develop\"}";
    match ApfsWorktreeProvider.update(with_base).unwrap() {
        ProviderCall::Commands { steps, .. } => {
            assert_eq!(steps[0].args, strings(&["fetch", "origin", "develop"]));
            assert_eq!(steps[0].cwd.as_deref(), Some("/p"));
            assert_eq!(steps[1].args, strings(&["reset", "--hard", "origin/develop"]));
            assert_eq!(steps[1].cwd.as_deref(), Some("/w"));
            assert_eq!(steps[1].error_prefix, "git reset --hard origin failed");
        }
        other => panic!("unexpected call {other:?}"),
    }
    match ApfsWorktreeProvider.update("{\"project_path\":\"/p\",\"worktree_path\":\"/w\"}").unwrap() {
        ProviderCall::Commands { steps, .. } => {
            assert_eq!(steps[0].args, strings(&["fetch", "origin", "main"]));
            assert_eq!(steps[1].args, strings(&["reset", "--hard", "origin/main"]));
        }
        other => panic!("unexpected call {other:?}"),
    }
}

#[test]
fn step_outcome_tolerates_named_failures() {
    let step = CommandStep {
        program: "git".into(),
        args: Vec::new(),
        cwd: None,
        error_prefix: "git branch -D failed".into(),
        tolerated: Some("not found".into()),
    };
    assert!(step_outcome(&step, true, "whatever").is_ok());
    assert!(step_outcome(&step, false, "error: branch 'x' not found.").is_ok());
    let err = step_outcome(&step, false, "fatal: permission denied").unwrap_err();
    assert_eq!(err.message(), "git branch -D failed: fatal: permission denied");
    let strict = CommandStep { tolerated: None, ..step };
    let err = step_outcome(&strict, false, "branch not found").unwrap_err();
    assert_eq!(err.message(), "git branch -D failed: branch not found");
}

#[test]
fn script_run_feeds_a_document() {
    let provider = ScriptProvider { path: "/opt/p.sh".into() };
    let spec = provider.run("{\"k\": [1, 2]}", "say \"hi\"", &strings(&["a", "b\\c"])).unwrap();
    assert_eq!(spec.program, "/opt/p.sh");
    assert_eq!(spec.args, strings(&["run"]));
    assert_eq!(spec.cwd, None);
    assert!(spec.env.is_empty());
    assert_eq!(
        String::from_utf8(spec.stdin_data.unwrap()).unwrap(),
        "{\"args\":[\"a\",\"b\\\\c\"],\"command\":\"say \\\"hi\\\"\",\"metadata\":{\"k\":[1,2]}}"
    );
    let spec = provider.run("broken", "c", &Vec::new()).unwrap();
    assert_eq!(
        String::from_utf8(spec.stdin_data.unwrap()).unwrap(),
        "{\"args\":[],\"command\":\"c\",\"metadata\":{}}"
    );
}

#[test]
fn script_exec_passes_metadata_in_the_environment() {
    let provider = ScriptProvider { path: "/opt/p.sh".into() };
    let spec = provider.exec("{ \"a\" : 1 }", "cd", &strings(&["x", "y"])).unwrap();
    assert_eq!(spec.program, "/opt/p.sh");
    assert_eq!(spec.args, strings(&["exec", "cd", "x", "y"]));
    assert_eq!(spec.stdin_data, None);
    assert_eq!(spec.env, vec![("WORK_ENV_METADATA".to_string(), "{\"a\":1}".to_string())]);
}

#[test]
fn script_documents() {
    let provider = ScriptProvider { path: "/opt/p.sh".into() };
    assert_eq!(
        provider.prepare_input("alpha", "/src/\"a\"", "E1"),
        "{\"env_id\":\"E1\",\"project_name\":\"alpha\",\"project_path\":\"/src/\\\"a\\\"\"}"
    );
    assert_eq!(provider.metadata_input("{\"a\": true}"), "{\"metadata\":{\"a\":true}}");
    assert_eq!(provider.metadata_document(" [1, 2] "), "[1,2]");
    assert_eq!(provider.metadata_document("nope"), "{}");
    assert_eq!(
        provider.failure_message("prepare", "exit status: 1"),
        "/opt/p.sh prepare failed with status exit status: 1"
    );
}

#[test]
fn parse_exec_commands_reads_arrays_and_objects() {
    let commands = ScriptProvider::parse_exec_commands(
        "[\"shell\", {\"name\": \"logs\", \"help\": \"Show logs\"}, {\"name\": \"ps\", \"description\": \"List\"}, {\"name\": \"x\", \"help\": 3, \"description\": \"d\"}, {\"name\": \"bare\"}]",
    )
    .unwrap();
    let seen: Vec<(String, Option<String>)> =
        commands.into_iter().map(|c| (c.name, c.help)).collect();
    assert_eq!(
        seen,
        vec![
            ("shell".to_string(), None),
            ("logs".to_string(), Some("Show logs".to_string())),
            ("ps".to_string(), Some("List".to_string())),
            ("x".to_string(), Some("d".to_string())),
            ("bare".to_string(), None),
        ]
    );
    let commands =
        ScriptProvider::parse_exec_commands("{\"a\": \"first\", \"b\": 7}").unwrap();
    let seen: Vec<(String, Option<String>)> =
        commands.into_iter().map(|c| (c.name, c.help)).collect();
    assert_eq!(seen, vec![("a".to_string(), Some("first".to_string())), ("b".to_string(), None)]);
    assert!(ScriptProvider::parse_exec_commands("[]").unwrap().is_empty());
    assert!(ScriptProvider::parse_exec_commands("{}").unwrap().is_empty());
}

#[test]
fn parse_exec_commands_errors() {
    let err = ScriptProvider::parse_exec_commands("[\"ok\", 5]").unwrap_err();
    assert_eq!(err.message(), "commands entries must be strings or objects");
    let err = ScriptProvider::parse_exec_commands("[{\"help\": \"h\"}, 5]").unwrap_err();
    assert_eq!(err.message(), "commands object entries must include name");
    let err = ScriptProvider::parse_exec_commands("[{\"name\": 1}]").unwrap_err();
    assert_eq!(err.message(), "commands object entries must include name");
    for text in ["\"cd\"", "17", "null", "not json", ""] {
        let err = ScriptProvider::parse_exec_commands(text).unwrap_err();
        assert_eq!(err.message(), "commands output must be an array or object");
    }
}

#[test]
fn script_result_is_the_printed_document() {
    assert_eq!(script_result("{ \"path\" : \"/w\" }\n").unwrap(), "{\"path\":\"/w\"}");
    assert_eq!(script_result("{}").unwrap(), "{}");
    let err = script_result("oops").unwrap_err();
    assert!(matches!(err, ProviderError::InvalidOutput));
    assert_eq!(err.message(), "provider output is not valid JSON");
    assert!(script_result("").is_err());
}

#[test]
fn json_helpers() {
    assert_eq!(get_string_field("{\"a\":\"x\",\"b\":2}", "a").as_deref(), Some("x"));
    assert_eq!(get_string_field("{\"a\":\"x\",\"b\":2}", "b"), None);
    assert_eq!(get_string_field("{\"a\":\"x\"}", "c"), None);
    assert_eq!(get_string_field("{\"a\":\"\\u00e9\\n\"}", "a").as_deref(), Some("é\n"));
    assert_eq!(get_string_field("[1]", "a"), None);
    assert_eq!(json_normalize("{ \"b\" : 1, \"a\" : [ ] }"), "{\"a\":[],\"b\":1}");
    assert_eq!(json_normalize("{"), "{}");
    assert_eq!(metadata_string("{\"a\":\"x\"}", "a").unwrap(), "x");
    assert_eq!(
        write_object(&vec![("k\"".to_string(), "1".to_string()), ("l".to_string(), "[]".to_string())]),
        "{\"k\\\"\":1,\"l\":[]}"
    );
    assert_eq!(write_object(&Vec::new()), "{}");
    assert_eq!(write_string_array(&strings(&["a", "b\tc"])), "[\"a\",\"b\\tc\"]");
    assert_eq!(write_string_array(&Vec::new()), "[]");
}

#[test]
fn get_provider_resolves_builtins_and_scripts() {
    let config = config_with_script("sandbox", "/tmp/sandbox-provider.sh");
    assert!(matches!(get_provider(&config, "git-worktree"), Ok(Provider::GitWorktree(_))));
    assert!(matches!(get_provider(&config, "apfs-worktree"), Ok(Provider::ApfsWorktree(_))));
    match get_provider(&config, "sandbox").unwrap() {
        Provider::Script(s) => assert_eq!(s.path, "/tmp/sandbox-provider.sh"),
        other => panic!("unexpected provider {other:?}"),
    }
    let err = get_provider(&config, "nope").unwrap_err();
    assert_eq!(err.message("nope"), "environment provider not found in config: nope");
    assert!(get_provider(&Config::default(), "sandbox").is_err());
    assert!(get_provider(&Config::default(), "git-worktree").is_ok());
}

#[test]
fn list_providers_starts_with_the_builtin() {
    let config = config_with_script("sandbox", "/tmp/sandbox-provider.sh");
    assert_eq!(list_providers(Some(&config)), strings(&["git-worktree", "sandbox"]));
    assert_eq!(list_providers(Some(&Config::default())), strings(&["git-worktree"]));
    assert_eq!(list_providers(None), strings(&["git-worktree"]));
}

#[test]
fn provider_calls_by_kind() {
    let script = Provider::Script(ScriptProvider { path: "/p.sh".into() });
    match script.prepare("alpha", "/src", "/data", "E1", &Vec::new()) {
        ProviderCall::Script { program, action, input, reads_output } => {
            assert_eq!(program, "/p.sh");
            assert_eq!(action, "prepare");
            assert_eq!(input, "{\"env_id\":\"E1\",\"project_name\":\"alpha\",\"project_path\":\"/src\"}");
            assert!(reads_output);
        }
        other => panic!("unexpected call {other:?}"),
    }
    match script.remove("{\"a\":1}").unwrap() {
        ProviderCall::Script { action, input, reads_output, .. } => {
            assert_eq!(action, "remove");
            assert_eq!(input, "{\"metadata\":{\"a\":1}}");
            assert!(!reads_output);
        }
        other => panic!("unexpected call {other:?}"),
    }
    match script.claim("{\"a\":1}") {
        ProviderCall::Script { action, input, .. } => {
            assert_eq!(action, "claim");
            assert_eq!(input, "{\"a\":1}");
        }
        other => panic!("unexpected call {other:?}"),
    }
    match script.update("{\"a\":1}").unwrap() {
        ProviderCall::Script { action, .. } => assert_eq!(action, "update"),
        other => panic!("unexpected call {other:?}"),
    }
    let git = Provider::GitWorktree(GitWorktreeProvider);
    match git.claim("{\"a\": 1}") {
        ProviderCall::Ready { metadata } => assert_eq!(metadata, "{\"a\": 1}"),
        other => panic!("unexpected call {other:?}"),
    }
    assert!(matches!(git.prepare("alpha", "/src", "/data", "E1", &Vec::new()), ProviderCall::Commands { .. }));
    assert_eq!(git.exec_commands("{}").unwrap().len(), 1);
    assert!(script.exec_commands("{}").is_none());
    assert_eq!(script.run("{}", "c", &Vec::new()).unwrap().program, "/p.sh");
    assert_eq!(git.run("{\"worktree_path\":\"/w\"}", "c", &Vec::new()).unwrap().program, "c");
    assert_eq!(script.exec("{}", "cd", &Vec::new(), Some("/bin/zsh")).unwrap().args, strings(&["exec", "cd"]));
}
