//! What the command line decides and prints: which project and which
//! providers a command means, and the lines of its output.

use crate::config::Config;
use crate::db::types::{Environment, Project, Task};
use crate::db::query::{lemma_position_is, position};
use crate::environment::json::{get_string_field, string_field};
use crate::text::{is_prefix, pad, padded, path_starts_with, path_within, str_eq, str_starts_with};
use vstd::prelude::*;

verus! {

/// How a command writes its result.
#[derive(Clone, Copy, Debug, PartialEq, Eq, Structural)]
pub enum OutputFormat {
    /// A table or a card for people.
    Human,
    /// Tab-separated fields, one row per line.
    Plain,
    /// JSON.
    Json,
}

/// How much the program logs.
#[derive(Clone, Copy, Debug, PartialEq, Eq, Structural)]
pub enum LogLevel {
    Debug,
    Info,
    Warn,
}

/// Debugging may be asked for on the command line or in the
/// configuration; else the daemon logs more than the commands.
pub fn log_level(debug: bool, config_debug: bool, is_daemon: bool) -> (r: LogLevel)
    ensures
        r == (if debug || config_debug {
            LogLevel::Debug
        } else if is_daemon {
            LogLevel::Info
        } else {
            LogLevel::Warn
        }),
{
    if debug || config_debug {
        LogLevel::Debug
    } else if is_daemon {
        LogLevel::Info
    } else {
        LogLevel::Warn
    }
}

/// Why a command cannot go on.
#[derive(Debug)]
pub enum CliError {
    /// No project has the name.
    ProjectNotFound { name: String },
    /// No project holds the current directory.
    NoProjectHere,
    /// No environment provider was named and none is configured.
    EnvironmentProviderRequired,
    /// As before, for a claim without an id.
    EnvironmentProviderRequiredForClaim,
    /// No environment provider was named for a task and none is
    /// configured.
    TaskEnvironmentProviderRequired,
    /// No task provider was named and none is configured.
    TaskProviderRequired,
    /// The configuration does not hold the task provider.
    TaskProviderNotFound { name: String },
    /// A claim names neither an id nor a project.
    ProjectRequired,
    /// A task has no log.
    NoLogs { task_id: String },
}

/// The value of a [`CliError`].
pub enum CliErrorView {
    ProjectNotFound { name: Seq<char> },
    NoProjectHere,
    EnvironmentProviderRequired,
    EnvironmentProviderRequiredForClaim,
    TaskEnvironmentProviderRequired,
    TaskProviderRequired,
    TaskProviderNotFound { name: Seq<char> },
    ProjectRequired,
    NoLogs { task_id: Seq<char> },
}

impl View for CliError {
    type V = CliErrorView;

    open spec fn view(&self) -> CliErrorView {
        match self {
            CliError::ProjectNotFound { name } => CliErrorView::ProjectNotFound { name: name@ },
            CliError::NoProjectHere => CliErrorView::NoProjectHere,
            CliError::EnvironmentProviderRequired => CliErrorView::EnvironmentProviderRequired,
            CliError::EnvironmentProviderRequiredForClaim => CliErrorView::EnvironmentProviderRequiredForClaim,
            CliError::TaskEnvironmentProviderRequired => CliErrorView::TaskEnvironmentProviderRequired,
            CliError::TaskProviderRequired => CliErrorView::TaskProviderRequired,
            CliError::TaskProviderNotFound { name } => CliErrorView::TaskProviderNotFound { name: name@ },
            CliError::ProjectRequired => CliErrorView::ProjectRequired,
            CliError::NoLogs { task_id } => CliErrorView::NoLogs { task_id: task_id@ },
        }
    }
}

impl CliErrorView {
    /// The message of the error.
    pub open spec fn text(self) -> Seq<char> {
        match self {
            CliErrorView::ProjectNotFound { name } => "project not found: "@ + name,
            CliErrorView::NoProjectHere => "could not determine project from current directory; specify a project name"@,
            CliErrorView::EnvironmentProviderRequired => "--provider is required (or set environment-provider in config)"@,
            CliErrorView::EnvironmentProviderRequiredForClaim => "--provider is required when no id is given (or set environment-provider in config)"@,
            CliErrorView::TaskEnvironmentProviderRequired => "--env-provider is required (or set environment-provider in config)"@,
            CliErrorView::TaskProviderRequired => "--provider is required (or set task-provider in config)"@,
            CliErrorView::TaskProviderNotFound { name } => "task provider not found: "@ + name,
            CliErrorView::ProjectRequired => "--project is required when no id is given"@,
            CliErrorView::NoLogs { task_id } => "no logs found for task "@ + task_id,
        }
    }
}

impl CliError {
    /// The message of the error.
    pub fn message(&self) -> (r: String)
        ensures
            r@ == self@.text(),
    {
        match self {
            CliError::ProjectNotFound { name } => String::from_str("project not found: ").concat(name.as_str()),
            CliError::NoProjectHere => String::from_str(
                "could not determine project from current directory; specify a project name",
            ),
            CliError::EnvironmentProviderRequired => String::from_str(
                "--provider is required (or set environment-provider in config)",
            ),
            CliError::EnvironmentProviderRequiredForClaim => String::from_str(
                "--provider is required when no id is given (or set environment-provider in config)",
            ),
            CliError::TaskEnvironmentProviderRequired => String::from_str(
                "--env-provider is required (or set environment-provider in config)",
            ),
            CliError::TaskProviderRequired => String::from_str(
                "--provider is required (or set task-provider in config)",
            ),
            CliError::TaskProviderNotFound { name } => String::from_str("task provider not found: ").concat(
                name.as_str(),
            ),
            CliError::ProjectRequired => String::from_str("--project is required when no id is given"),
            CliError::NoLogs { task_id } => String::from_str("no logs found for task ").concat(task_id.as_str()),
        }
    }
}

/// The names of a list of projects.
pub open spec fn names_of(projects: Seq<Project>) -> Seq<Seq<char>> {
    Seq::new(projects.len(), |i: int| projects[i].name@)
}

/// Which projects hold the directory `cwd`.
pub open spec fn holders(projects: Seq<Project>, cwd: Seq<char>) -> Seq<bool> {
    Seq::new(projects.len(), |i: int| path_within(cwd, projects[i].path@))
}

/// The project that a command means: the one of the name given, else the
/// first that holds the current directory.
pub open spec fn resolved_project(projects: Seq<Project>, name: Option<Seq<char>>, cwd: Seq<char>) -> Result<
    int,
    CliErrorView,
> {
    match name {
        Some(n) => match position(names_of(projects), n) {
            Some(i) => Ok(i),
            None => Err(CliErrorView::ProjectNotFound { name: n }),
        },
        None => match position(holders(projects, cwd), true) {
            Some(i) => Ok(i),
            None => Err(CliErrorView::NoProjectHere),
        },
    }
}

/// The first project of a name.
pub fn find_by_name(projects: &Vec<Project>, name: &str) -> (r: Option<usize>)
    ensures
        match r {
            Some(i) => position(names_of(projects@), name@) == Some(i as int) && i < projects.len(),
            None => position(names_of(projects@), name@) is None,
        },
{
    let ghost names = names_of(projects@);
    let mut i: usize = 0;
    while i < projects.len()
        invariant
            i <= projects.len(),
            names == names_of(projects@),
            forall|j: int| 0 <= j < i ==> names[j] != name@,
        decreases projects.len() - i,
    {
        if str_eq(projects[i].name.as_str(), name) {
            proof {
                lemma_position_is(names, name@, i as int);
            }
            return Some(i);
        }
        i += 1;
    }
    None
}

/// The first project that holds the directory `cwd`.
pub fn find_holding(projects: &Vec<Project>, cwd: &str) -> (r: Option<usize>)
    ensures
        match r {
            Some(i) => position(holders(projects@, cwd@), true) == Some(i as int) && i < projects.len(),
            None => position(holders(projects@, cwd@), true) is None,
        },
{
    let ghost marks = holders(projects@, cwd@);
    let mut i: usize = 0;
    while i < projects.len()
        invariant
            i <= projects.len(),
            marks == holders(projects@, cwd@),
            forall|j: int| 0 <= j < i ==> marks[j] != true,
        decreases projects.len() - i,
    {
        if path_starts_with(cwd, projects[i].path.as_str()) {
            proof {
                lemma_position_is(marks, true, i as int);
            }
            return Some(i);
        }
        i += 1;
    }
    None
}

/// Finds the project that a command means; `cwd` is the current
/// directory.
pub fn resolve_project<'a>(projects: &'a Vec<Project>, name: Option<&str>, cwd: &str) -> (r: Result<
    &'a Project,
    CliError,
>)
    ensures
        match resolved_project(
            projects@,
            match name {
                Some(n) => Some(n@),
                None => None,
            },
            cwd@,
        ) {
            Ok(i) => r is Ok && 0 <= i < projects@.len() && *r->Ok_0 == projects@[i],
            Err(e) => r is Err && r->Err_0@ == e,
        },
{
    match name {
        Some(n) => match find_by_name(projects, n) {
            Some(i) => Ok(&projects[i]),
            None => Err(CliError::ProjectNotFound { name: String::from_str(n) }),
        },
        None => match find_holding(projects, cwd) {
            Some(i) => Ok(&projects[i]),
            None => Err(CliError::NoProjectHere),
        },
    }
}

/// The provider of a command: the one given, else the default.
pub open spec fn chosen(given: Option<Seq<char>>, default: Option<Seq<char>>) -> Option<Seq<char>> {
    match given {
        Some(g) => Some(g),
        None => default,
    }
}

/// The environment provider of a command for a project: the one given,
/// else the project's default; `missing` is the error where there is
/// neither.
pub fn environment_provider_for(
    config: &Config,
    project_name: &str,
    given: Option<String>,
    missing: CliError,
) -> (r: Result<String, CliError>)
    ensures
        match chosen(given.deep_view(), config.default_environment_provider(project_name@)) {
            Some(p) => r is Ok && r->Ok_0@ == p,
            None => r is Err && r->Err_0 == missing,
        },
{
    match given {
        Some(g) => Ok(g),
        None => match config.default_environment_provider_for_project(project_name) {
            Some(p) => Ok(p),
            None => Err(missing),
        },
    }
}

/// The providers of a new task.
#[derive(Debug)]
pub struct TaskPlan {
    pub task_provider: String,
    pub env_provider: String,
}

/// The providers of a new task for a project: those given, else the
/// project's defaults. The task provider has to be in the configuration.
pub open spec fn task_plan(
    config: &Config,
    project_name: Seq<char>,
    provider: Option<Seq<char>>,
    env_provider: Option<Seq<char>>,
) -> Result<(Seq<char>, Seq<char>), CliErrorView> {
    match chosen(provider, config.default_task_provider(project_name)) {
        None => Err(CliErrorView::TaskProviderRequired),
        Some(task) => match chosen(env_provider, config.default_environment_provider(project_name)) {
            None => Err(CliErrorView::TaskEnvironmentProviderRequired),
            Some(env) => if config.task_provider_entry(task) is None {
                Err(CliErrorView::TaskProviderNotFound { name: task })
            } else {
                Ok((task, env))
            },
        },
    }
}

/// Finds [`task_plan`].
pub fn plan_task(config: &Config, project_name: &str, provider: Option<String>, env_provider: Option<String>) -> (r:
    Result<TaskPlan, CliError>)
    ensures
        match task_plan(config, project_name@, provider.deep_view(), env_provider.deep_view()) {
            Ok((task, env)) => r is Ok && r->Ok_0.task_provider@ == task && r->Ok_0.env_provider@ == env,
            Err(e) => r is Err && r->Err_0@ == e,
        },
{
    let task_provider = match provider {
        Some(p) => p,
        None => match config.default_task_provider_for_project(project_name) {
            Some(p) => p,
            None => {
                return Err(CliError::TaskProviderRequired);
            },
        },
    };
    let env_provider = match env_provider {
        Some(p) => p,
        None => match config.default_environment_provider_for_project(project_name) {
            Some(p) => p,
            None => {
                return Err(CliError::TaskEnvironmentProviderRequired);
            },
        },
    };
    if config.get_task_provider(task_provider.as_str()).is_err() {
        return Err(CliError::TaskProviderNotFound { name: task_provider });
    }
    Ok(TaskPlan { task_provider, env_provider })
}

/// The candidates among the first `n` names that start with `current`.
pub open spec fn completions(names: Seq<Seq<char>>, current: Seq<char>, n: int) -> Seq<Seq<char>>
    decreases n,
{
    if n <= 0 {
        Seq::empty()
    } else {
        let before = completions(names, current, n - 1);
        if is_prefix(names[n - 1], current) {
            before.push(names[n - 1])
        } else {
            before
        }
    }
}

/// The names that complete what was typed so far.
pub fn complete(names: &Vec<String>, current: &str) -> (r: Vec<String>)
    ensures
        r.deep_view() == completions(names.deep_view(), current@, names.len() as int),
{
    let mut r: Vec<String> = Vec::new();
    let mut i: usize = 0;
    while i < names.len()
        invariant
            i <= names.len(),
            r.deep_view() =~= completions(names.deep_view(), current@, i as int),
        decreases names.len() - i,
    {
        let ghost before = r.deep_view();
        if str_starts_with(names[i].as_str(), current) {
            r.push(names[i].clone());
            assert(r.deep_view() =~= before.push(names@[i as int]@));
        }
        i += 1;
    }
    r
}

/// The field of the metadata to show, or `missing` where it has none.
pub fn metadata_or(metadata: &str, field: &str, missing: &str) -> (r: String)
    ensures
        r@ == (match string_field(metadata@, field@) {
            Some(v) => v,
            None => missing@,
        }),
{
    match get_string_field(metadata, field) {
        Some(v) => v,
        None => String::from_str(missing),
    }
}

/// Fields joined by tabs.
pub open spec fn tabbed(fields: Seq<Seq<char>>, n: int) -> Seq<char>
    decreases n,
{
    if n <= 0 {
        Seq::empty()
    } else if n == 1 {
        fields[0]
    } else {
        tabbed(fields, n - 1) + seq!['\t'] + fields[n - 1]
    }
}

/// Joins fields by tabs.
pub fn tab_join(fields: &Vec<&str>) -> (r: String)
    ensures
        r@ == tabbed(Seq::new(fields.len() as nat, |i: int| fields@[i]@), fields.len() as int),
{
    let ghost views = Seq::new(fields.len() as nat, |i: int| fields@[i]@);
    let mut out = String::new();
    let mut i: usize = 0;
    while i < fields.len()
        invariant
            i <= fields.len(),
            views == Seq::new(fields.len() as nat, |k: int| fields@[k]@),
            out@ =~= tabbed(views, i as int),
        decreases fields.len() - i,
    {
        if i > 0 {
            crate::text::push_char(&mut out, '\t');
        }
        out.append(fields[i]);
        assert(views[i as int] == fields@[i as int]@);
        i += 1;
    }
    out
}

/// The line of a project in plain format.
pub fn project_line(p: &Project) -> (r: String)
    ensures
        r@ == p.name@ + seq!['\t'] + p.path@,
{
    let fields = vec![p.name.as_str(), p.path.as_str()];
    let r = tab_join(&fields);
    proof {
        let views = Seq::new(2nat, |i: int| fields@[i]@);
        reveal_with_fuel(tabbed, 3);
        assert(r@ =~= p.name@ + seq!['\t'] + p.path@);
    }
    r
}

/// The line of an environment in plain format.
pub fn environment_line(e: &Environment) -> (r: String)
    ensures
        r@ == e.id@ + seq!['\t'] + e.provider@ + seq!['\t'] + e.status.name() + seq!['\t'] + e.project_id@,
{
    let fields = vec![e.id.as_str(), e.provider.as_str(), e.status.as_str(), e.project_id.as_str()];
    let r = tab_join(&fields);
    proof {
        reveal_with_fuel(tabbed, 5);
        assert(r@ =~= e.id@ + seq!['\t'] + e.provider@ + seq!['\t'] + e.status.name() + seq!['\t']
            + e.project_id@);
    }
    r
}

/// The line of a task in plain format.
pub fn task_line(t: &Task) -> (r: String)
    ensures
        r@ == t.id@ + seq!['\t'] + t.provider@ + seq!['\t'] + t.status.name() + seq!['\t'] + t.description@,
{
    let fields = vec![t.id.as_str(), t.provider.as_str(), t.status.as_str(), t.description.as_str()];
    let r = tab_join(&fields);
    proof {
        reveal_with_fuel(tabbed, 5);
        assert(r@ =~= t.id@ + seq!['\t'] + t.provider@ + seq!['\t'] + t.status.name() + seq!['\t']
            + t.description@);
    }
    r
}

/// The widest name of the first `n` projects, in characters, and at
/// least 4.
pub open spec fn name_width(projects: Seq<Project>, n: int) -> int
    decreases n,
{
    if n <= 0 {
        4
    } else {
        let before = name_width(projects, n - 1);
        let len = projects[n - 1].name@.len() as int;
        if len > before {
            len
        } else {
            before
        }
    }
}

/// A row of the project table: the name, padded to `width`, two spaces,
/// and the path.
pub open spec fn project_row(name: Seq<char>, path: Seq<char>, width: int) -> Seq<char> {
    padded(name, width) + "  "@ + path
}

/// The project table for people: a header and one row per project, the
/// names in a column as wide as the widest; nothing for no projects.
pub fn project_table(projects: &Vec<Project>) -> (r: Vec<String>)
    ensures
        projects@.len() == 0 ==> r@.len() == 0,
        projects@.len() > 0 ==> {
            let width = name_width(projects@, projects@.len() as int);
            &&& r@.len() == projects@.len() + 1
            &&& r@[0]@ == project_row("NAME"@, "PATH"@, width)
            &&& forall|k: int|
                1 <= k <= projects@.len() ==> (#[trigger] r@[k])@ == project_row(
                    projects@[k - 1].name@,
                    projects@[k - 1].path@,
                    width,
                )
        },
{
    let mut r: Vec<String> = Vec::new();
    if projects.len() == 0 {
        return r;
    }
    let mut width: usize = 4;
    let mut i: usize = 0;
    while i < projects.len()
        invariant
            i <= projects.len(),
            width == name_width(projects@, i as int),
        decreases projects.len() - i,
    {
        let len = projects[i].name.as_str().unicode_len();
        if len > width {
            width = len;
        }
        i += 1;
    }
    r.push(pad("NAME", width).concat("  ").concat("PATH"));
    let mut i: usize = 0;
    while i < projects.len()
        invariant
            i <= projects.len(),
            r@.len() == i + 1,
            r@[0]@ == project_row("NAME"@, "PATH"@, width as int),
            forall|k: int|
                1 <= k <= i ==> (#[trigger] r@[k])@ == project_row(
                    projects@[k - 1].name@,
                    projects@[k - 1].path@,
                    width as int,
                ),
        decreases projects.len() - i,
    {
        r.push(pad(projects[i].name.as_str(), width).concat("  ").concat(projects[i].path.as_str()));
        i += 1;
    }
    r
}

/// The header of the environment table.
pub fn environment_header() -> (r: String)
    ensures
        r@ == padded("ID"@, 22) + "  "@ + padded("PROVIDER"@, 12) + "  "@ + padded("STATUS"@, 14) + "  "@
            + padded("PROJ"@, 22) + "  "@ + "PATH"@,
{
    pad("ID", 22).concat("  ").concat(pad("PROVIDER", 12).as_str()).concat("  ").concat(
        pad("STATUS", 14).as_str(),
    ).concat("  ").concat(pad("PROJ", 22).as_str()).concat("  ").concat("PATH")
}

/// A row of the environment table; the path is that of its worktree, or
/// `-`.
pub fn environment_row(e: &Environment) -> (r: String)
    ensures
        r@ == padded(e.id@, 22) + "  "@ + padded(e.provider@, 12) + "  "@ + padded(e.status.name(), 14)
            + "  "@ + padded(e.project_id@, 22) + "  "@ + (match string_field(
            e.metadata@,
            "worktree_path"@,
        ) {
            Some(p) => p,
            None => "-"@,
        }),
{
    let path = metadata_or(e.metadata.as_str(), "worktree_path", "-");
    pad(e.id.as_str(), 22).concat("  ").concat(pad(e.provider.as_str(), 12).as_str()).concat("  ").concat(
        pad(e.status.as_str(), 14).as_str(),
    ).concat("  ").concat(pad(e.project_id.as_str(), 22).as_str()).concat("  ").concat(path.as_str())
}

/// The header of the task table.
pub fn task_header() -> (r: String)
    ensures
        r@ == padded("ID"@, 22) + "  "@ + padded("PROVIDER"@, 12) + "  "@ + padded("STATUS"@, 10) + "  "@
            + "DESCRIPTION"@,
{
    pad("ID", 22).concat("  ").concat(pad("PROVIDER", 12).as_str()).concat("  ").concat(
        pad("STATUS", 10).as_str(),
    ).concat("  ").concat("DESCRIPTION")
}

/// A row of the task table.
pub fn task_row(t: &Task) -> (r: String)
    ensures
        r@ == padded(t.id@, 22) + "  "@ + padded(t.provider@, 12) + "  "@ + padded(t.status.name(), 10) + "  "@
            + t.description@,
{
    pad(t.id.as_str(), 22).concat("  ").concat(pad(t.provider.as_str(), 12).as_str()).concat("  ").concat(
        pad(t.status.as_str(), 10).as_str(),
    ).concat("  ").concat(t.description.as_str())
}

/// The first line of a card: the status in bold green, the id dimmed.
pub open spec fn card_head(status: Seq<char>, id: Seq<char>) -> Seq<char> {
    "\x1b[1;32m"@ + status + "\x1b[0m \x1b[2m(id: "@ + id + ")\x1b[0m"@
}

/// A line of a card: the label in bold, then the value.
pub open spec fn card_line(label: Seq<char>, value: Seq<char>) -> Seq<char> {
    "  \x1b[1m"@ + label + "\x1b[0m"@ + value
}

fn head(status: &str, id: &str) -> (r: String)
    ensures
        r@ == card_head(status@, id@),
{
    String::from_str("\x1b[1;32m").concat(status).concat("\x1b[0m \x1b[2m(id: ").concat(id).concat(")\x1b[0m")
}

fn line(label: &str, value: &str) -> (r: String)
    ensures
        r@ == card_line(label@, value@),
{
    String::from_str("  \x1b[1m").concat(label).concat("\x1b[0m").concat(value)
}

/// The card of an environment for people.
pub fn environment_card(e: &Environment) -> (r: Vec<String>)
    ensures
        r.deep_view() == seq![
            card_head(e.status.name(), e.id@),
            card_line("provider:"@, "  "@ + e.provider@),
            card_line("project:"@, "   "@ + e.project_id@),
            card_line(
                "branch:"@,
                "    "@ + (match string_field(e.metadata@, "branch"@) {
                    Some(v) => v,
                    None => "-"@,
                }),
            ),
            card_line(
                "path:"@,
                "      "@ + (match string_field(e.metadata@, "worktree_path"@) {
                    Some(v) => v,
                    None => "-"@,
                }),
            ),
        ],
{
    let path = metadata_or(e.metadata.as_str(), "worktree_path", "-");
    let branch = metadata_or(e.metadata.as_str(), "branch", "-");
    let mut r: Vec<String> = Vec::new();
    r.push(head(e.status.as_str(), e.id.as_str()));
    r.push(line("provider:", String::from_str("  ").concat(e.provider.as_str()).as_str()));
    r.push(line("project:", String::from_str("   ").concat(e.project_id.as_str()).as_str()));
    r.push(line("branch:", String::from_str("    ").concat(branch.as_str()).as_str()));
    r.push(line("path:", String::from_str("      ").concat(path.as_str()).as_str()));
    assert(r.deep_view() =~= seq![
        card_head(e.status.name(), e.id@),
        card_line("provider:"@, "  "@ + e.provider@),
        card_line("project:"@, "   "@ + e.project_id@),
        card_line("branch:"@, "    "@ + branch@),
        card_line("path:"@, "      "@ + path@),
    ]);
    r
}

/// The line of an environment that was just made, in plain format: its
/// id, provider, status and worktree path.
pub fn environment_result_line(e: &Environment) -> (r: String)
    ensures
        r@ == e.id@ + seq!['\t'] + e.provider@ + seq!['\t'] + e.status.name() + seq!['\t'] + (match string_field(
            e.metadata@,
            "worktree_path"@,
        ) {
            Some(v) => v,
            None => Seq::empty(),
        }),
{
    let path = metadata_or(e.metadata.as_str(), "worktree_path", "");
    proof {
        reveal_strlit("");
    }
    let fields = vec![e.id.as_str(), e.provider.as_str(), e.status.as_str(), path.as_str()];
    let r = tab_join(&fields);
    proof {
        reveal_with_fuel(tabbed, 5);
        assert(r@ =~= e.id@ + seq!['\t'] + e.provider@ + seq!['\t'] + e.status.name() + seq!['\t'] + path@);
    }
    r
}

/// The card of a task for people.
pub fn task_card(t: &Task) -> (r: Vec<String>)
    ensures
        r.deep_view() == seq![
            card_head(t.status.name(), t.id@),
            card_line("provider:"@, "      "@ + t.provider@),
            card_line("project:"@, "       "@ + t.project_id@),
            card_line("environment:"@, "   "@ + t.environment_id@),
            card_line("description:"@, "   "@ + t.description@),
        ],
{
    let mut r: Vec<String> = Vec::new();
    r.push(head(t.status.as_str(), t.id.as_str()));
    r.push(line("provider:", String::from_str("      ").concat(t.provider.as_str()).as_str()));
    r.push(line("project:", String::from_str("       ").concat(t.project_id.as_str()).as_str()));
    r.push(line("environment:", String::from_str("   ").concat(t.environment_id.as_str()).as_str()));
    r.push(line("description:", String::from_str("   ").concat(t.description.as_str()).as_str()));
    assert(r.deep_view() =~= seq![
        card_head(t.status.name(), t.id@),
        card_line("provider:"@, "      "@ + t.provider@),
        card_line("project:"@, "       "@ + t.project_id@),
        card_line("environment:"@, "   "@ + t.environment_id@),
        card_line("description:"@, "   "@ + t.description@),
    ]);
    r
}

/// What completing a task id offers as help: its description and status.
pub fn task_help(t: &Task) -> (r: String)
    ensures
        r@ == t.description@ + " ("@ + t.status.name() + ")"@,
{
    t.description.clone().concat(" (").concat(t.status.as_str()).concat(")")
}

/// What completing an environment id offers as help: the name of its
/// project and its status, or the status alone for an unknown project.
pub fn environment_help(e: &Environment, projects: &Vec<Project>) -> (r: String)
    ensures
        r@ == (match position(crate::tui::app::project_id_list(projects@), e.project_id@) {
            Some(i) => projects@[i].name@ + " ("@ + e.status.name() + ")"@,
            None => e.status.name(),
        }),
{
    match crate::tui::app::find_project_id(projects, e.project_id.as_str()) {
        Some(i) => projects[i].name.clone().concat(" (").concat(e.status.as_str()).concat(")"),
        None => String::from_str(e.status.as_str()),
    }
}

/// Whether an environment id is offered as a completion: it starts with
/// what was typed, and belongs to the project of the current directory
/// where there is one.
pub fn offers_environment(e: &Environment, current_project: Option<&Project>, current: &str) -> (r: bool)
    ensures
        r == (is_prefix(e.id@, current@) && match current_project {
            Some(p) => e.project_id@ == p.id@,
            None => true,
        }),
{
    let ours = match current_project {
        Some(p) => str_eq(e.project_id.as_str(), p.id.as_str()),
        None => true,
    };
    ours && str_starts_with(e.id.as_str(), current)
}

} // verus!
