use work::paths::{
    config_dir, data_dir, db_path, ensure_dirs, environment_log_path, init, join, pid_path,
    runtime_dir, socket_path, state_dir, state_file_path, task_log_dir, task_log_path,
    tui_log_path, PathError, Paths,
};

fn s(v: &str) -> Option<String> {
    Some(v.to_string())
}

fn xdg() -> Paths {
    init(None, None, s("/xdg/data"), s("/run/user/1"), s("/xdg/config"), s("/xdg/state"), s("/home/u"), "/tmp".into())
}

fn bare(home: Option<String>) -> Paths {
    init(None, None, None, None, None, None, home, "/tmp".into())
}

#[test]
fn work_home_flag_overrides_env() {
    let paths = init(s("/flag"), s("/env"), s("/xdg/data"), None, None, None, s("/home/u"), "/tmp".into());
    assert_eq!(paths.work_home.as_deref(), Some("/flag"));
    assert_eq!(data_dir(&paths).unwrap(), "/flag/data");
    assert_eq!(runtime_dir(&paths).unwrap(), "/flag/runtime");
    assert_eq!(config_dir(&paths).unwrap(), "/flag/config");
    assert_eq!(state_dir(&paths).unwrap(), "/flag/state");
}

#[test]
fn work_home_from_the_environment() {
    let paths = init(None, s("/env"), s("/xdg/data"), None, None, None, None, "/tmp".into());
    assert_eq!(data_dir(&paths).unwrap(), "/env/data");
    let paths = init(None, s(""), s("/xdg/data"), None, None, None, None, "/tmp".into());
    assert_eq!(paths.work_home, None);
    assert_eq!(data_dir(&paths).unwrap(), "/xdg/data/work");
    let paths = init(s(""), s("/env"), None, None, None, None, None, "/tmp".into());
    assert_eq!(data_dir(&paths).unwrap(), "data");
}

#[test]
fn xdg_variables_decide_without_a_work_home() {
    let paths = xdg();
    assert_eq!(data_dir(&paths).unwrap(), "/xdg/data/work");
    assert_eq!(runtime_dir(&paths).unwrap(), "/run/user/1/work");
    assert_eq!(config_dir(&paths).unwrap(), "/xdg/config/work");
    assert_eq!(state_dir(&paths).unwrap(), "/xdg/state/work");
}

#[test]
fn home_is_the_fallback() {
    let paths = bare(s("/home/u"));
    assert_eq!(data_dir(&paths).unwrap(), "/home/u/.local/share/work");
    assert_eq!(runtime_dir(&paths).unwrap(), "/tmp/work");
    assert_eq!(config_dir(&paths).unwrap(), "/home/u/.config/work");
    assert_eq!(state_dir(&paths).unwrap(), "/home/u/.local/state/work");
    let empty = init(None, None, s(""), s(""), s(""), s(""), s("/home/u/"), "/tmp/".into());
    assert_eq!(data_dir(&empty).unwrap(), "/home/u/.local/share/work");
    assert_eq!(runtime_dir(&empty).unwrap(), "/tmp/work");
}

#[test]
fn without_a_home_only_the_runtime_directory_is_known() {
    let paths = bare(None);
    assert_eq!(data_dir(&paths).unwrap_err(), PathError::NoHomeDirectory);
    assert_eq!(config_dir(&paths).unwrap_err(), PathError::NoHomeDirectory);
    assert_eq!(state_dir(&paths).unwrap_err(), PathError::NoHomeDirectory);
    assert_eq!(runtime_dir(&paths).unwrap(), "/tmp/work");
    assert_eq!(task_log_path(&paths, "T1").unwrap_err(), PathError::NoHomeDirectory);
    assert_eq!(state_file_path(&paths), None);
    assert_eq!(ensure_dirs(&paths).unwrap_err(), PathError::NoHomeDirectory);
    assert_eq!(PathError::NoHomeDirectory.message(), "could not determine home directory");
}

#[test]
fn files_below_the_directories() {
    let paths = xdg();
    assert_eq!(task_log_dir(&paths).unwrap(), "/xdg/data/work/logs/tasks");
    assert_eq!(task_log_path(&paths, "T1").unwrap(), "/xdg/data/work/logs/tasks/T1.log");
    assert_eq!(
        environment_log_path(&paths, "E1").unwrap(),
        "/xdg/data/work/logs/environments/E1.log"
    );
    assert_eq!(tui_log_path(&paths).unwrap(), "/xdg/state/work/tui.log");
    assert_eq!(state_file_path(&paths).as_deref(), Some("/xdg/state/work/tui.json"));
    assert_eq!(db_path(&paths).unwrap(), "/xdg/data/work/database.sqlite3");
    assert_eq!(pid_path("/run/work"), "/run/work/work.pid");
    assert_eq!(socket_path("/run/work/"), "/run/work/work.sock");
    assert_eq!(
        ensure_dirs(&paths).unwrap(),
        vec!["/xdg/data/work", "/run/user/1/work", "/xdg/state/work"]
    );
}

#[test]
fn join_puts_one_separator_between() {
    assert_eq!(join("/a", "b"), "/a/b");
    assert_eq!(join("/a/", "b"), "/a/b");
    assert_eq!(join("", "b"), "b");
    assert_eq!(join("/", "b"), "/b");
    assert_eq!(join("a", ""), "a/");
    assert_eq!(join("päth", "ü"), "päth/ü");
    for (base, name) in [("/a", "b"), ("/a/", "b"), ("", "b"), ("/", "b"), ("a", ""), ("a/b", "c/d")] {
        let std_joined = std::path::Path::new(base).join(name);
        assert_eq!(join(base, name), std_joined.to_string_lossy());
    }
}

#[test]
fn join_lets_a_rooted_name_stand_for_itself() {
    assert_eq!(join("/a", "/b"), "/b");
    assert_eq!(join("", "/b"), "/b");
    assert_eq!(join("/a/", "/"), "/");
    assert_eq!(join("/a", "/b"), std::path::Path::new("/a").join("/b").to_string_lossy());
}
