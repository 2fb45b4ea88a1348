//! Where the daemon keeps its files: directories resolved from a work
//! home or from the XDG variables, and the files below them.

use vstd::prelude::*;

verus! {

/// What the environment says about where files go. Each field holds what
/// the variable of that name held, or what the platform reports.
#[derive(Debug)]
pub struct Paths {
    /// The work home: everything lives below it where it is set.
    pub work_home: Option<String>,
    pub xdg_data_home: Option<String>,
    pub xdg_runtime_dir: Option<String>,
    pub xdg_config_home: Option<String>,
    pub xdg_state_home: Option<String>,
    /// The user's home directory, where it is known.
    pub home: Option<String>,
    /// The directory for temporary files.
    pub temp_dir: String,
}

/// The home directory is needed and not known.
#[derive(Clone, Copy, Debug, PartialEq, Eq, Structural)]
pub enum PathError {
    NoHomeDirectory,
}

impl PathError {
    /// The message of the error.
    pub fn message(self) -> (r: &'static str)
        ensures
            r@ == "could not determine home directory"@,
    {
        "could not determine home directory"
    }
}

/// `name` below `base`: the two with one `/` between them. A `name` that
/// starts at the root stands for itself, and so does one below an empty
/// base.
pub open spec fn join_spec(base: Seq<char>, name: Seq<char>) -> Seq<char> {
    if name.len() > 0 && name[0] == '/' {
        name
    } else if base.len() == 0 {
        name
    } else if base.last() == '/' {
        base + name
    } else {
        base + "/"@ + name
    }
}

/// Builds [`join_spec`].
pub fn join(base: &str, name: &str) -> (r: String)
    ensures
        r@ == join_spec(base@, name@),
{
    let n = base.unicode_len();
    if name.unicode_len() > 0 && name.get_char(0) == '/' {
        String::from_str(name)
    } else if n == 0 {
        assert(base@ =~= Seq::empty());
        String::from_str(name)
    } else if base.get_char(n - 1) == '/' {
        String::from_str(base).concat(name)
    } else {
        String::from_str(base).concat("/").concat(name)
    }
}

/// A variable counts where it is set and not empty.
pub open spec fn set_value(v: Option<Seq<char>>) -> Option<Seq<char>> {
    match v {
        Some(s) if s.len() > 0 => Some(s),
        _ => None,
    }
}

/// Decides [`set_value`]: the value, where the variable counts.
pub fn value_of(v: &Option<String>) -> (r: Option<&str>)
    ensures
        match r {
            Some(s) => set_value(v.deep_view()) == Some(s@),
            None => set_value(v.deep_view()) is None,
        },
{
    match v {
        Some(s) => if s.as_str().unicode_len() > 0 {
            Some(s.as_str())
        } else {
            None
        },
        None => None,
    }
}

/// The work home: the one given on the command line, else the one from
/// the environment where that is set and not empty.
pub open spec fn work_home_spec(flag: Option<Seq<char>>, env: Option<Seq<char>>) -> Option<Seq<char>> {
    match flag {
        Some(p) => Some(p),
        None => set_value(env),
    }
}

/// Gathers what decides where files go. `work_home` is the override from
/// the command line, `env_work_home` what the variable `WORK_HOME` holds.
pub fn init(
    work_home: Option<String>,
    env_work_home: Option<String>,
    xdg_data_home: Option<String>,
    xdg_runtime_dir: Option<String>,
    xdg_config_home: Option<String>,
    xdg_state_home: Option<String>,
    home: Option<String>,
    temp_dir: String,
) -> (r: Paths)
    ensures
        r.work_home.deep_view() == work_home_spec(work_home.deep_view(), env_work_home.deep_view()),
        r.xdg_data_home == xdg_data_home,
        r.xdg_runtime_dir == xdg_runtime_dir,
        r.xdg_config_home == xdg_config_home,
        r.xdg_state_home == xdg_state_home,
        r.home == home,
        r.temp_dir == temp_dir,
{
    let chosen = match work_home {
        Some(p) => Some(p),
        None => match value_of(&env_work_home) {
            Some(s) => Some(String::from_str(s)),
            None => None,
        },
    };
    Paths {
        work_home: chosen,
        xdg_data_home,
        xdg_runtime_dir,
        xdg_config_home,
        xdg_state_home,
        home,
        temp_dir,
    }
}

/// A directory of the daemon: `leaf` below the work home where that is
/// set; else `work` below the XDG variable where that counts; else `work`
/// below the fallback, which may be unknown.
pub open spec fn dir_spec(
    work_home: Option<Seq<char>>,
    leaf: Seq<char>,
    xdg: Option<Seq<char>>,
    fallback: Option<Seq<char>>,
) -> Result<Seq<char>, PathError> {
    match work_home {
        Some(wp) => Ok(join_spec(wp, leaf)),
        None => match set_value(xdg) {
            Some(base) => Ok(join_spec(base, "work"@)),
            None => match fallback {
                Some(base) => Ok(join_spec(base, "work"@)),
                None => Err(PathError::NoHomeDirectory),
            },
        },
    }
}

/// Two names below the home directory, where that is known.
pub open spec fn below_home(home: Option<Seq<char>>, first: Seq<char>, second: Option<Seq<char>>) -> Option<
    Seq<char>,
> {
    match home {
        Some(h) => match second {
            Some(s) => Some(join_spec(join_spec(h, first), s)),
            None => Some(join_spec(h, first)),
        },
        None => None,
    }
}

/// A path and its expected value agree.
pub open spec fn path_is(r: Result<String, PathError>, expected: Result<Seq<char>, PathError>) -> bool {
    match expected {
        Ok(p) => r is Ok && r->Ok_0@ == p,
        Err(e) => r is Err && r->Err_0 == e,
    }
}

/// `name` below a directory that may be unknown.
pub open spec fn below(dir: Result<Seq<char>, PathError>, name: Seq<char>) -> Result<Seq<char>, PathError> {
    match dir {
        Ok(d) => Ok(join_spec(d, name)),
        Err(e) => Err(e),
    }
}

fn dir(work_home: &Option<String>, leaf: &str, xdg: &Option<String>, fallback: Option<String>) -> (r: Result<
    String,
    PathError,
>)
    ensures
        path_is(r, dir_spec(work_home.deep_view(), leaf@, xdg.deep_view(), fallback.deep_view())),
{
    match work_home {
        Some(wp) => Ok(join(wp.as_str(), leaf)),
        None => match value_of(xdg) {
            Some(base) => Ok(join(base, "work")),
            None => match fallback {
                Some(base) => Ok(join(base.as_str(), "work")),
                None => Err(PathError::NoHomeDirectory),
            },
        },
    }
}

fn home_dir(home: &Option<String>, first: &str, second: Option<&str>) -> (r: Option<String>)
    ensures
        r.deep_view() == below_home(
            home.deep_view(),
            first@,
            match second {
                Some(s) => Some(s@),
                None => None,
            },
        ),
{
    match home {
        Some(h) => {
            let one = join(h.as_str(), first);
            match second {
                Some(s) => Some(join(one.as_str(), s)),
                None => Some(one),
            }
        },
        None => None,
    }
}

fn file_in(dir: Result<String, PathError>, name: &str) -> (r: Result<String, PathError>)
    ensures
        path_is(
            r,
            below(
                match dir {
                    Ok(d) => Ok(d@),
                    Err(e) => Err(e),
                },
                name@,
            ),
        ),
{
    match dir {
        Ok(d) => Ok(join(d.as_str(), name)),
        Err(e) => Err(e),
    }
}

impl Paths {
    /// Where data lives.
    pub open spec fn data(&self) -> Result<Seq<char>, PathError> {
        dir_spec(
            self.work_home.deep_view(),
            "data"@,
            self.xdg_data_home.deep_view(),
            below_home(self.home.deep_view(), ".local"@, Some("share"@)),
        )
    }

    /// Where the socket and the PID file live.
    pub open spec fn runtime(&self) -> Result<Seq<char>, PathError> {
        dir_spec(
            self.work_home.deep_view(),
            "runtime"@,
            self.xdg_runtime_dir.deep_view(),
            Some(self.temp_dir@),
        )
    }

    /// Where the configuration lives.
    pub open spec fn config(&self) -> Result<Seq<char>, PathError> {
        dir_spec(
            self.work_home.deep_view(),
            "config"@,
            self.xdg_config_home.deep_view(),
            below_home(self.home.deep_view(), ".config"@, None),
        )
    }

    /// Where state lives.
    pub open spec fn state(&self) -> Result<Seq<char>, PathError> {
        dir_spec(
            self.work_home.deep_view(),
            "state"@,
            self.xdg_state_home.deep_view(),
            below_home(self.home.deep_view(), ".local"@, Some("state"@)),
        )
    }

    /// Where logs live: `logs` below the data directory.
    pub open spec fn logs(&self) -> Result<Seq<char>, PathError> {
        below(self.data(), "logs"@)
    }
}

/// The data directory.
pub fn data_dir(paths: &Paths) -> (r: Result<String, PathError>)
    ensures
        path_is(r, paths.data()),
{
    dir(&paths.work_home, "data", &paths.xdg_data_home, home_dir(&paths.home, ".local", Some("share")))
}

/// The runtime directory.
pub fn runtime_dir(paths: &Paths) -> (r: Result<String, PathError>)
    ensures
        path_is(r, paths.runtime()),
{
    dir(&paths.work_home, "runtime", &paths.xdg_runtime_dir, Some(paths.temp_dir.clone()))
}

/// The configuration directory.
pub fn config_dir(paths: &Paths) -> (r: Result<String, PathError>)
    ensures
        path_is(r, paths.config()),
{
    dir(&paths.work_home, "config", &paths.xdg_config_home, home_dir(&paths.home, ".config", None))
}

/// The state directory.
pub fn state_dir(paths: &Paths) -> (r: Result<String, PathError>)
    ensures
        path_is(r, paths.state()),
{
    dir(&paths.work_home, "state", &paths.xdg_state_home, home_dir(&paths.home, ".local", Some("state")))
}

/// The directory of the task logs: `logs/tasks` below the data directory.
pub fn task_log_dir(paths: &Paths) -> (r: Result<String, PathError>)
    ensures
        path_is(r, below(paths.logs(), "tasks"@)),
{
    file_in(file_in(data_dir(paths), "logs"), "tasks")
}

/// The log of a task: `<task id>.log` in the directory of the task logs.
pub fn task_log_path(paths: &Paths, task_id: &str) -> (r: Result<String, PathError>)
    ensures
        path_is(r, below(below(paths.logs(), "tasks"@), task_id@ + ".log"@)),
{
    let name = String::from_str(task_id).concat(".log");
    file_in(task_log_dir(paths), name.as_str())
}

/// The lifecycle log of an environment: `<environment id>.log` in
/// `logs/environments` below the data directory.
pub fn environment_log_path(paths: &Paths, env_id: &str) -> (r: Result<String, PathError>)
    ensures
        path_is(r, below(below(paths.logs(), "environments"@), env_id@ + ".log"@)),
{
    let name = String::from_str(env_id).concat(".log");
    file_in(file_in(file_in(data_dir(paths), "logs"), "environments"), name.as_str())
}

/// The log of the terminal interface: `tui.log` in the state directory.
pub fn tui_log_path(paths: &Paths) -> (r: Result<String, PathError>)
    ensures
        path_is(r, below(paths.state(), "tui.log"@)),
{
    file_in(state_dir(paths), "tui.log")
}

/// The saved state of the terminal interface: `tui.json` in the state
/// directory.
pub fn state_file_path(paths: &Paths) -> (r: Option<String>)
    ensures
        match below(paths.state(), "tui.json"@) {
            Ok(p) => r.deep_view() == Some(p),
            Err(_) => r is None,
        },
{
    match file_in(state_dir(paths), "tui.json") {
        Ok(p) => Some(p),
        Err(_) => None,
    }
}

/// The store's file: `database.sqlite3` in the data directory.
pub fn db_path(paths: &Paths) -> (r: Result<String, PathError>)
    ensures
        path_is(r, below(paths.data(), "database.sqlite3"@)),
{
    file_in(data_dir(paths), "database.sqlite3")
}

/// The PID file: `work.pid` in the runtime directory given.
pub fn pid_path(runtime_dir: &str) -> (r: String)
    ensures
        r@ == join_spec(runtime_dir@, "work.pid"@),
{
    join(runtime_dir, "work.pid")
}

/// The socket: `work.sock` in the runtime directory given.
pub fn socket_path(runtime_dir: &str) -> (r: String)
    ensures
        r@ == join_spec(runtime_dir@, "work.sock"@),
{
    join(runtime_dir, "work.sock")
}

/// The directories that have to exist before the daemon starts: data,
/// runtime and state, in this order.
pub fn ensure_dirs(paths: &Paths) -> (r: Result<Vec<String>, PathError>)
    ensures
        match r {
            Ok(dirs) => paths.data() is Ok && paths.runtime() is Ok && paths.state() is Ok && dirs.deep_view()
                == seq![paths.data()->Ok_0, paths.runtime()->Ok_0, paths.state()->Ok_0],
            Err(e) => paths.data() == Err::<Seq<char>, PathError>(e) || paths.state() == Err::<
                Seq<char>,
                PathError,
            >(e),
        },
{
    let data = match data_dir(paths) {
        Ok(d) => d,
        Err(e) => {
            return Err(e);
        },
    };
    let runtime = match runtime_dir(paths) {
        Ok(d) => d,
        Err(e) => {
            return Err(e);
        },
    };
    let state = match state_dir(paths) {
        Ok(d) => d,
        Err(e) => {
            return Err(e);
        },
    };
    let mut dirs: Vec<String> = Vec::new();
    dirs.push(data);
    dirs.push(runtime);
    dirs.push(state);
    assert(dirs.deep_view() =~= seq![paths.data()->Ok_0, paths.runtime()->Ok_0, paths.state()->Ok_0]);
    Ok(dirs)
}

} // verus!
