//! Environment providers: the closed set of kinds, and what each decides
//! without touching the machine.

pub mod json;
pub mod apfs_worktree;
pub mod git_worktree;
pub mod script;

use crate::config::{Config, ConfigError, EnvironmentProviderConfig};
use crate::text::{has_substring, str_contains, str_eq};
use vstd::prelude::*;

pub use apfs_worktree::ApfsWorktreeProvider;
pub use git_worktree::GitWorktreeProvider;
pub use script::ScriptProvider;

verus! {

/// How to execute a command: the program, its arguments, and optionally
/// the directory to run it in, bytes to feed it, and extra environment
/// variables.
#[derive(Debug)]
pub struct RunSpec {
    pub program: String,
    pub args: Vec<String>,
    pub cwd: Option<String>,
    pub stdin_data: Option<Vec<u8>>,
    pub env: Vec<(String, String)>,
}

/// The value of a [`RunSpec`].
pub struct RunSpecView {
    pub program: Seq<char>,
    pub args: Seq<Seq<char>>,
    pub cwd: Option<Seq<char>>,
    pub stdin_data: Option<Seq<u8>>,
    pub env: Seq<(Seq<char>, Seq<char>)>,
}

impl View for RunSpec {
    type V = RunSpecView;

    open spec fn view(&self) -> RunSpecView {
        RunSpecView {
            program: self.program@,
            args: self.args.deep_view(),
            cwd: self.cwd.deep_view(),
            stdin_data: match self.stdin_data {
                Some(bytes) => Some(bytes@),
                None => None,
            },
            env: self.env.deep_view(),
        }
    }
}

/// An interactive verb that a provider offers.
#[derive(Debug)]
pub struct ProviderExecCommand {
    pub name: String,
    pub help: Option<String>,
}

/// The value of a [`ProviderExecCommand`].
pub struct ProviderExecCommandView {
    pub name: Seq<char>,
    pub help: Option<Seq<char>>,
}

impl View for ProviderExecCommand {
    type V = ProviderExecCommandView;

    open spec fn view(&self) -> ProviderExecCommandView {
        ProviderExecCommandView { name: self.name@, help: self.help.deep_view() }
    }
}

impl DeepView for ProviderExecCommand {
    type V = ProviderExecCommandView;

    open spec fn deep_view(&self) -> ProviderExecCommandView {
        self@
    }
}

/// Why a provider could not do what was asked.
#[derive(Debug)]
pub enum ProviderError {
    /// The metadata lacks a field, or the field holds no string.
    MissingField { field: String },
    /// An entry of a command list is neither a string nor an object.
    CommandsEntryShape,
    /// An object entry of a command list has no string `name`.
    CommandsEntryName,
    /// A command list is neither an array nor an object.
    CommandsShape,
    /// A command ended in failure; the message says which and why.
    CommandFailed { message: String },
    /// The program printed something that is no JSON document.
    InvalidOutput,
}

/// The value of a [`ProviderError`].
pub enum ProviderErrorView {
    MissingField { field: Seq<char> },
    CommandsEntryShape,
    CommandsEntryName,
    CommandsShape,
    CommandFailed { message: Seq<char> },
    InvalidOutput,
}

impl View for ProviderError {
    type V = ProviderErrorView;

    open spec fn view(&self) -> ProviderErrorView {
        match self {
            ProviderError::MissingField { field } => ProviderErrorView::MissingField { field: field@ },
            ProviderError::CommandsEntryShape => ProviderErrorView::CommandsEntryShape,
            ProviderError::CommandsEntryName => ProviderErrorView::CommandsEntryName,
            ProviderError::CommandsShape => ProviderErrorView::CommandsShape,
            ProviderError::CommandFailed { message } => ProviderErrorView::CommandFailed { message: message@ },
            ProviderError::InvalidOutput => ProviderErrorView::InvalidOutput,
        }
    }
}

impl ProviderErrorView {
    /// The message of the error.
    pub open spec fn text(self) -> Seq<char> {
        match self {
            ProviderErrorView::MissingField { field } => "missing "@ + field + " in metadata"@,
            ProviderErrorView::CommandsEntryShape => "commands entries must be strings or objects"@,
            ProviderErrorView::CommandsEntryName => "commands object entries must include name"@,
            ProviderErrorView::CommandsShape => "commands output must be an array or object"@,
            ProviderErrorView::CommandFailed { message } => message,
            ProviderErrorView::InvalidOutput => "provider output is not valid JSON"@,
        }
    }
}

impl ProviderError {
    /// The message of the error.
    pub fn message(&self) -> (r: String)
        ensures
            r@ == self@.text(),
    {
        match self {
            ProviderError::MissingField { field } => String::from_str("missing ").concat(field.as_str()).concat(
                " in metadata",
            ),
            ProviderError::CommandsEntryShape => String::from_str("commands entries must be strings or objects"),
            ProviderError::CommandsEntryName => String::from_str("commands object entries must include name"),
            ProviderError::CommandsShape => String::from_str("commands output must be an array or object"),
            ProviderError::CommandFailed { message } => message.clone(),
            ProviderError::InvalidOutput => String::from_str("provider output is not valid JSON"),
        }
    }
}

/// One command of a provider's plan, and how its failure is judged.
#[derive(Debug)]
pub struct CommandStep {
    pub program: String,
    pub args: Vec<String>,
    /// The directory to run the command in.
    pub cwd: Option<String>,
    /// What the error message starts with where the command fails.
    pub error_prefix: String,
    /// A failure whose error output holds this text counts as success.
    pub tolerated: Option<String>,
}

/// The value of a [`CommandStep`].
pub struct CommandStepView {
    pub program: Seq<char>,
    pub args: Seq<Seq<char>>,
    pub cwd: Option<Seq<char>>,
    pub error_prefix: Seq<char>,
    pub tolerated: Option<Seq<char>>,
}

impl View for CommandStep {
    type V = CommandStepView;

    open spec fn view(&self) -> CommandStepView {
        CommandStepView {
            program: self.program@,
            args: self.args.deep_view(),
            cwd: self.cwd.deep_view(),
            error_prefix: self.error_prefix@,
            tolerated: self.tolerated.deep_view(),
        }
    }
}

impl DeepView for CommandStep {
    type V = CommandStepView;

    open spec fn deep_view(&self) -> CommandStepView {
        self@
    }
}

/// What has to be executed for one operation of a provider.
#[derive(Debug)]
pub enum ProviderCall {
    /// Nothing: the operation's result is the metadata given.
    Ready { metadata: String },
    /// The directories are made, then the steps are run in order; where
    /// every step ends well, the operation's result is the metadata given.
    Commands { make_dirs: Vec<String>, steps: Vec<CommandStep>, metadata: String },
    /// The program is run with the action as its argument and the input
    /// on its standard input. Where `reads_output` is set, the
    /// operation's result is the JSON document that the program prints.
    Script { program: String, action: String, input: String, reads_output: bool },
}

/// The value of a [`ProviderCall`].
pub enum ProviderCallView {
    Ready { metadata: Seq<char> },
    Commands { make_dirs: Seq<Seq<char>>, steps: Seq<CommandStepView>, metadata: Seq<char> },
    Script { program: Seq<char>, action: Seq<char>, input: Seq<char>, reads_output: bool },
}

impl View for ProviderCall {
    type V = ProviderCallView;

    open spec fn view(&self) -> ProviderCallView {
        match self {
            ProviderCall::Ready { metadata } => ProviderCallView::Ready { metadata: metadata@ },
            ProviderCall::Commands { make_dirs, steps, metadata } => ProviderCallView::Commands {
                make_dirs: make_dirs.deep_view(),
                steps: steps.deep_view(),
                metadata: metadata@,
            },
            ProviderCall::Script { program, action, input, reads_output } => ProviderCallView::Script {
                program: program@,
                action: action@,
                input: input@,
                reads_output: *reads_output,
            },
        }
    }
}

/// A call and its expected value agree.
pub open spec fn call_is(r: Result<ProviderCall, ProviderError>, expected: Result<
    ProviderCallView,
    ProviderErrorView,
>) -> bool {
    match expected {
        Ok(call) => r is Ok && r->Ok_0@ == call,
        Err(e) => r is Err && r->Err_0@ == e,
    }
}

/// A step given by its parts.
pub open spec fn step_of(
    program: Seq<char>,
    args: Seq<Seq<char>>,
    cwd: Seq<char>,
    error_prefix: Seq<char>,
    tolerated: Option<Seq<char>>,
) -> CommandStepView {
    CommandStepView { program, args, cwd: Some(cwd), error_prefix, tolerated }
}

/// The steps that remove a worktree and its branch. Both put up with
/// what is gone already.
pub open spec fn worktree_remove_steps(project_path: Seq<char>, worktree_path: Seq<char>, branch: Seq<char>) -> Seq<
    CommandStepView,
> {
    seq![
        step_of(
            "git"@,
            seq!["worktree"@, "remove"@, "--force"@, worktree_path],
            project_path,
            "git worktree remove failed"@,
            Some("is not a working tree"@),
        ),
        step_of(
            "git"@,
            seq!["branch"@, "-D"@, branch],
            project_path,
            "git branch -D failed"@,
            Some("not found"@),
        ),
    ]
}

/// Builds [`worktree_remove_steps`].
pub fn remove_worktree_steps(project_path: &str, worktree_path: &str, branch: &str) -> (r: Vec<CommandStep>)
    ensures
        r.deep_view() == worktree_remove_steps(project_path@, worktree_path@, branch@),
{
    let mut steps: Vec<CommandStep> = Vec::new();
    let first = vec!["worktree", "remove", "--force", worktree_path];
    steps.push(step("git", &first, project_path, "git worktree remove failed", Some("is not a working tree")));
    let second = vec!["branch", "-D", branch];
    steps.push(step("git", &second, project_path, "git branch -D failed", Some("not found")));
    proof {
        let want = worktree_remove_steps(project_path@, worktree_path@, branch@);
        assert(steps@[0]@.args =~= want[0].args);
        assert(steps@[1]@.args =~= want[1].args);
        assert(steps.deep_view() =~= want);
    }
    steps
}

/// The branch of an environment.
pub open spec fn branch_name(env_id: Seq<char>) -> Seq<char> {
    "work-env-"@ + env_id
}

/// The worktree of an environment: `worktrees/<environment id>` below
/// the data directory.
pub open spec fn worktree_path_of(data_dir: Seq<char>, env_id: Seq<char>) -> Seq<char> {
    crate::paths::join_spec(crate::paths::join_spec(data_dir, "worktrees"@), env_id)
}

/// The error of a step that ended as given: none where it succeeded or
/// its failure is tolerated, else the prefix, a colon and the error output.
pub open spec fn step_error(step: CommandStepView, success: bool, stderr: Seq<char>) -> Option<Seq<char>> {
    if success {
        None
    } else if step.tolerated is Some && has_substring(stderr, step.tolerated->0) {
        None
    } else {
        Some(step.error_prefix + ": "@ + stderr)
    }
}

/// Judges how a step ended.
pub fn step_outcome(step: &CommandStep, success: bool, stderr: &str) -> (r: Result<(), ProviderError>)
    ensures
        match step_error(step@, success, stderr@) {
            None => r is Ok,
            Some(message) => r is Err && r->Err_0@ == (ProviderErrorView::CommandFailed { message }),
        },
{
    if success {
        return Ok(());
    }
    if let Some(t) = &step.tolerated {
        if str_contains(stderr, t.as_str()) {
            return Ok(());
        }
    }
    Err(
        ProviderError::CommandFailed {
            message: step.error_prefix.clone().concat(": ").concat(stderr),
        },
    )
}

/// The string that a field of the metadata holds, or the error that names
/// the field.
pub fn metadata_string(metadata: &str, field: &str) -> (r: Result<String, ProviderError>)
    ensures
        match json::string_field(metadata@, field@) {
            Some(value) => r is Ok && r->Ok_0@ == value,
            None => r is Err && r->Err_0@ == (ProviderErrorView::MissingField { field: field@ }),
        },
{
    match json::get_string_field(metadata, field) {
        Some(value) => Ok(value),
        None => Err(ProviderError::MissingField { field: String::from_str(field) }),
    }
}

/// Owned copies of a list of string slices.
pub fn owned(items: &Vec<&str>) -> (r: Vec<String>)
    ensures
        r.deep_view() == Seq::new(items.len() as nat, |i: int| items@[i]@),
{
    let mut r: Vec<String> = Vec::new();
    let mut i: usize = 0;
    while i < items.len()
        invariant
            i <= items.len(),
            r.len() == i,
            forall|j: int| 0 <= j < i ==> (#[trigger] r@[j])@ == items@[j]@,
        decreases items.len() - i,
    {
        r.push(String::from_str(items[i]));
        i += 1;
    }
    assert(r.deep_view() =~= Seq::new(items.len() as nat, |i: int| items@[i]@));
    r
}

/// Builds one step of a plan.
pub fn step(program: &str, args: &Vec<&str>, cwd: &str, error_prefix: &str, tolerated: Option<&str>) -> (r:
    CommandStep)
    ensures
        r@ == (CommandStepView {
            program: program@,
            args: Seq::new(args.len() as nat, |i: int| args@[i]@),
            cwd: Some(cwd@),
            error_prefix: error_prefix@,
            tolerated: match tolerated {
                Some(t) => Some(t@),
                None => None,
            },
        }),
{
    CommandStep {
        program: String::from_str(program),
        args: owned(args),
        cwd: Some(String::from_str(cwd)),
        error_prefix: String::from_str(error_prefix),
        tolerated: match tolerated {
            Some(t) => Some(String::from_str(t)),
            None => None,
        },
    }
}

/// A copy of a list of strings.
pub fn clone_strings(items: &Vec<String>) -> (r: Vec<String>)
    ensures
        r.deep_view() == items.deep_view(),
{
    let mut r: Vec<String> = Vec::new();
    let mut i: usize = 0;
    while i < items.len()
        invariant
            i <= items.len(),
            r.len() == i,
            forall|j: int| 0 <= j < i ==> (#[trigger] r@[j])@ == items@[j]@,
        decreases items.len() - i,
    {
        r.push(items[i].clone());
        i += 1;
    }
    assert(r.deep_view() =~= items.deep_view());
    r
}

/// The verbs that the built-in providers offer: `cd`.
pub open spec fn builtin_exec_commands() -> Seq<ProviderExecCommandView> {
    seq![
        ProviderExecCommandView {
            name: "cd"@,
            help: Some("Open a shell in the worktree directory"@),
        },
    ]
}

/// How a built-in provider runs a command in its worktree.
pub open spec fn worktree_run(metadata: Seq<char>, command: Seq<char>, args: Seq<Seq<char>>) -> Result<
    RunSpecView,
    ProviderErrorView,
> {
    match json::string_field(metadata, "worktree_path"@) {
        Some(path) => Ok(
            RunSpecView { program: command, args, cwd: Some(path), stdin_data: None, env: Seq::empty() },
        ),
        None => Err(ProviderErrorView::MissingField { field: "worktree_path"@ }),
    }
}

/// How a built-in provider runs an interactive verb: `cd` opens the
/// user's shell, or `sh` where none is known, in the worktree; any other
/// verb is run as a command there.
pub open spec fn worktree_exec(
    metadata: Seq<char>,
    command: Seq<char>,
    args: Seq<Seq<char>>,
    shell: Option<Seq<char>>,
) -> Result<RunSpecView, ProviderErrorView> {
    match json::string_field(metadata, "worktree_path"@) {
        Some(path) => if command == "cd"@ {
            Ok(
                RunSpecView {
                    program: match shell {
                        Some(s) => s,
                        None => "sh"@,
                    },
                    args: Seq::empty(),
                    cwd: Some(path),
                    stdin_data: None,
                    env: Seq::empty(),
                },
            )
        } else {
            Ok(RunSpecView { program: command, args, cwd: Some(path), stdin_data: None, env: Seq::empty() })
        },
        None => Err(ProviderErrorView::MissingField { field: "worktree_path"@ }),
    }
}

/// A run specification and its expected value agree.
pub open spec fn run_result_is(r: Result<RunSpec, ProviderError>, expected: Result<RunSpecView, ProviderErrorView>) -> bool {
    match expected {
        Ok(spec) => r is Ok && r->Ok_0@ == spec,
        Err(e) => r is Err && r->Err_0@ == e,
    }
}

/// Builds [`builtin_exec_commands`].
pub fn builtin_commands() -> (r: Vec<ProviderExecCommand>)
    ensures
        r.deep_view() == builtin_exec_commands(),
{
    let mut r: Vec<ProviderExecCommand> = Vec::new();
    r.push(
        ProviderExecCommand {
            name: String::from_str("cd"),
            help: Some(String::from_str("Open a shell in the worktree directory")),
        },
    );
    assert(r.deep_view() =~= builtin_exec_commands());
    r
}

/// Builds [`worktree_run`].
pub fn run_in_worktree(metadata: &str, command: &str, args: &Vec<String>) -> (r: Result<RunSpec, ProviderError>)
    ensures
        run_result_is(r, worktree_run(metadata@, command@, args.deep_view())),
{
    let path = match metadata_string(metadata, "worktree_path") {
        Ok(path) => path,
        Err(e) => {
            return Err(e);
        },
    };
    let env: Vec<(String, String)> = Vec::new();
    assert(env.deep_view() =~= Seq::empty());
    Ok(
        RunSpec {
            program: String::from_str(command),
            args: clone_strings(args),
            cwd: Some(path),
            stdin_data: None,
            env,
        },
    )
}

/// Builds [`worktree_exec`].
pub fn exec_in_worktree(metadata: &str, command: &str, args: &Vec<String>, shell: Option<&str>) -> (r: Result<
    RunSpec,
    ProviderError,
>)
    ensures
        run_result_is(
            r,
            worktree_exec(
                metadata@,
                command@,
                args.deep_view(),
                match shell {
                    Some(s) => Some(s@),
                    None => None,
                },
            ),
        ),
{
    if str_eq(command, "cd") {
        let path = match metadata_string(metadata, "worktree_path") {
            Ok(path) => path,
            Err(e) => {
                return Err(e);
            },
        };
        let env: Vec<(String, String)> = Vec::new();
        assert(env.deep_view() =~= Seq::empty());
        let no_args: Vec<String> = Vec::new();
        assert(no_args.deep_view() =~= Seq::empty());
        let program = match shell {
            Some(s) => String::from_str(s),
            None => String::from_str("sh"),
        };
        Ok(RunSpec { program, args: no_args, cwd: Some(path), stdin_data: None, env })
    } else {
        run_in_worktree(metadata, command, args)
    }
}

/// The closed set of environment providers.
#[derive(Debug)]
pub enum Provider {
    GitWorktree(GitWorktreeProvider),
    ApfsWorktree(ApfsWorktreeProvider),
    Script(ScriptProvider),
}

/// The value of a [`Provider`].
pub enum ProviderView {
    GitWorktree,
    ApfsWorktree,
    Script { path: Seq<char> },
}

impl View for Provider {
    type V = ProviderView;

    open spec fn view(&self) -> ProviderView {
        match self {
            Provider::GitWorktree(_) => ProviderView::GitWorktree,
            Provider::ApfsWorktree(_) => ProviderView::ApfsWorktree,
            Provider::Script(s) => ProviderView::Script { path: s.path@ },
        }
    }
}

/// Which provider a name stands for: a built-in one by its fixed name,
/// else the script that the configuration holds under the name.
pub open spec fn provider_of(config: &Config, name: Seq<char>) -> Result<ProviderView, ConfigError> {
    if name == "git-worktree"@ {
        Ok(ProviderView::GitWorktree)
    } else if name == "apfs-worktree"@ {
        Ok(ProviderView::ApfsWorktree)
    } else {
        match config.environment_provider_entry(name) {
            Some(EnvironmentProviderConfig::Script { path }) => Ok(ProviderView::Script { path: path@ }),
            None => Err(ConfigError::EnvironmentProviderNotFound),
        }
    }
}

/// Resolves a provider name.
pub fn get_provider(config: &Config, name: &str) -> (r: Result<Provider, ConfigError>)
    ensures
        match provider_of(config, name@) {
            Ok(p) => r is Ok && r->Ok_0@ == p,
            Err(e) => r is Err && r->Err_0 == e,
        },
{
    if str_eq(name, "git-worktree") {
        Ok(Provider::GitWorktree(GitWorktreeProvider))
    } else if str_eq(name, "apfs-worktree") {
        Ok(Provider::ApfsWorktree(ApfsWorktreeProvider))
    } else {
        match config.get_environment_provider(name) {
            Ok(EnvironmentProviderConfig::Script { path }) => Ok(
                Provider::Script(ScriptProvider { path: path.clone() }),
            ),
            Err(e) => Err(e),
        }
    }
}

/// What the program of a script provider is asked.
pub open spec fn script_call(program: Seq<char>, action: Seq<char>, input: Seq<char>, reads_output: bool) -> ProviderCallView {
    ProviderCallView::Script { program, action, input, reads_output }
}

impl ProviderView {
    /// What preparing an environment takes.
    pub open spec fn prepare(
        self,
        project_name: Seq<char>,
        project_path: Seq<char>,
        data_dir: Seq<char>,
        env_id: Seq<char>,
        entries: Seq<Seq<char>>,
    ) -> ProviderCallView {
        match self {
            ProviderView::GitWorktree => git_worktree::git_prepare(project_path, data_dir, env_id),
            ProviderView::ApfsWorktree => apfs_worktree::apfs_prepare(project_path, data_dir, env_id, entries),
            ProviderView::Script { path } => script_call(
                path,
                "prepare"@,
                script::prepare_input_text(project_name, project_path, env_id),
                true,
            ),
        }
    }

    /// What updating an environment takes.
    pub open spec fn update(self, metadata: Seq<char>) -> Result<ProviderCallView, ProviderErrorView> {
        match self {
            ProviderView::GitWorktree => git_worktree::git_update(metadata),
            ProviderView::ApfsWorktree => apfs_worktree::apfs_update(metadata),
            ProviderView::Script { path } => Ok(
                script_call(path, "update"@, json::json_normal_of(metadata), true),
            ),
        }
    }

    /// What claiming an environment takes: nothing for the built-in
    /// providers.
    pub open spec fn claim(self, metadata: Seq<char>) -> ProviderCallView {
        match self {
            ProviderView::Script { path } => script_call(path, "claim"@, json::json_normal_of(metadata), true),
            _ => ProviderCallView::Ready { metadata },
        }
    }

    /// How a task's command is run in the environment.
    pub open spec fn run(self, metadata: Seq<char>, command: Seq<char>, args: Seq<Seq<char>>) -> Result<
        RunSpecView,
        ProviderErrorView,
    > {
        match self {
            ProviderView::Script { path } => Ok(script::script_run(path, metadata, command, args)),
            _ => worktree_run(metadata, command, args),
        }
    }

    /// How an interactive verb is run in the environment; a script does
    /// not ask for the shell.
    pub open spec fn exec(
        self,
        metadata: Seq<char>,
        command: Seq<char>,
        args: Seq<Seq<char>>,
        shell: Option<Seq<char>>,
    ) -> Result<RunSpecView, ProviderErrorView> {
        match self {
            ProviderView::Script { path } => Ok(script::script_exec(path, metadata, command, args)),
            _ => worktree_exec(metadata, command, args, shell),
        }
    }

    /// What removing an environment takes.
    pub open spec fn remove(self, metadata: Seq<char>) -> Result<ProviderCallView, ProviderErrorView> {
        match self {
            ProviderView::GitWorktree => git_worktree::git_remove(metadata),
            ProviderView::ApfsWorktree => apfs_worktree::apfs_remove(metadata),
            ProviderView::Script { path } => Ok(
                script_call(path, "remove"@, script::metadata_input_text(metadata), false),
            ),
        }
    }
}

impl Provider {
    /// Plans the preparation of an environment for a project. `entries`
    /// are the names in the project directory.
    pub fn prepare(
        &self,
        project_name: &str,
        project_path: &str,
        data_dir: &str,
        env_id: &str,
        entries: &Vec<String>,
    ) -> (r: ProviderCall)
        ensures
            r@ == self@.prepare(project_name@, project_path@, data_dir@, env_id@, entries.deep_view()),
    {
        match self {
            Provider::GitWorktree(p) => p.prepare(project_path, data_dir, env_id),
            Provider::ApfsWorktree(p) => p.prepare(project_path, data_dir, env_id, entries),
            Provider::Script(p) => ProviderCall::Script {
                program: p.path.clone(),
                action: String::from_str("prepare"),
                input: p.prepare_input(project_name, project_path, env_id),
                reads_output: true,
            },
        }
    }

    /// Plans the update of an environment.
    pub fn update(&self, metadata: &str) -> (r: Result<ProviderCall, ProviderError>)
        ensures
            call_is(r, self@.update(metadata@)),
    {
        match self {
            Provider::GitWorktree(p) => p.update(metadata),
            Provider::ApfsWorktree(p) => p.update(metadata),
            Provider::Script(p) => Ok(
                ProviderCall::Script {
                    program: p.path.clone(),
                    action: String::from_str("update"),
                    input: p.metadata_document(metadata),
                    reads_output: true,
                },
            ),
        }
    }

    /// Plans the claim of an environment.
    pub fn claim(&self, metadata: &str) -> (r: ProviderCall)
        ensures
            r@ == self@.claim(metadata@),
    {
        match self {
            Provider::GitWorktree(p) => ProviderCall::Ready { metadata: p.claim(metadata) },
            Provider::ApfsWorktree(p) => ProviderCall::Ready { metadata: p.claim(metadata) },
            Provider::Script(p) => ProviderCall::Script {
                program: p.path.clone(),
                action: String::from_str("claim"),
                input: p.metadata_document(metadata),
                reads_output: true,
            },
        }
    }

    /// Plans the removal of an environment.
    pub fn remove(&self, metadata: &str) -> (r: Result<ProviderCall, ProviderError>)
        ensures
            call_is(r, self@.remove(metadata@)),
    {
        match self {
            Provider::GitWorktree(p) => p.remove(metadata),
            Provider::ApfsWorktree(p) => p.remove(metadata),
            Provider::Script(p) => Ok(
                ProviderCall::Script {
                    program: p.path.clone(),
                    action: String::from_str("remove"),
                    input: p.metadata_input(metadata),
                    reads_output: false,
                },
            ),
        }
    }

    /// How to run a task's command in the environment.
    pub fn run(&self, metadata: &str, command: &str, args: &Vec<String>) -> (r: Result<RunSpec, ProviderError>)
        ensures
            run_result_is(r, self@.run(metadata@, command@, args.deep_view())),
    {
        match self {
            Provider::GitWorktree(p) => p.run(metadata, command, args),
            Provider::ApfsWorktree(p) => p.run(metadata, command, args),
            Provider::Script(p) => p.run(metadata, command, args),
        }
    }

    /// How to run an interactive verb in the environment.
    pub fn exec(&self, metadata: &str, command: &str, args: &Vec<String>, shell: Option<&str>) -> (r: Result<
        RunSpec,
        ProviderError,
    >)
        ensures
            run_result_is(
                r,
                self@.exec(
                    metadata@,
                    command@,
                    args.deep_view(),
                    match shell {
                        Some(s) => Some(s@),
                        None => None,
                    },
                ),
            ),
    {
        match self {
            Provider::GitWorktree(p) => p.exec(metadata, command, args, shell),
            Provider::ApfsWorktree(p) => p.exec(metadata, command, args, shell),
            Provider::Script(p) => p.exec(metadata, command, args),
        }
    }

    /// The interactive verbs of a built-in provider; `None` for a script,
    /// which has to be asked.
    pub fn exec_commands(&self, metadata: &str) -> (r: Option<Vec<ProviderExecCommand>>)
        ensures
            match self@ {
                ProviderView::Script { .. } => r is None,
                _ => r is Some && r->0.deep_view() == builtin_exec_commands(),
            },
    {
        match self {
            Provider::GitWorktree(p) => Some(p.exec_commands(metadata)),
            Provider::ApfsWorktree(p) => Some(p.exec_commands(metadata)),
            Provider::Script(_) => None,
        }
    }
}

/// The metadata that a script's answer gives: the document it printed,
/// in compact form.
pub fn script_result(output: &str) -> (r: Result<String, ProviderError>)
    ensures
        match json::json_parsed_of(output@) {
            Some(document) => r is Ok && r->Ok_0@ == document,
            None => r is Err && r->Err_0@ == ProviderErrorView::InvalidOutput,
        },
{
    match json::json_parse(output) {
        Some(document) => Ok(document),
        None => Err(ProviderError::InvalidOutput),
    }
}

/// The provider names on offer: `git-worktree`, then the names of the
/// configured environment providers in the order of the configuration.
pub open spec fn provider_names(config: Option<&Config>) -> Seq<Seq<char>> {
    match config {
        Some(c) => match c.environments {
            Some(e) => seq!["git-worktree"@] + crate::config::entry_names(e.providers@),
            None => seq!["git-worktree"@],
        },
        None => seq!["git-worktree"@],
    }
}

/// Lists [`provider_names`]; `None` stands for a configuration that could
/// not be read.
pub fn list_providers(config: Option<&Config>) -> (r: Vec<String>)
    ensures
        r.deep_view() == provider_names(config),
{
    let mut r: Vec<String> = Vec::new();
    r.push(String::from_str("git-worktree"));
    assert(r.deep_view() =~= seq!["git-worktree"@]);
    if let Some(c) = config {
        if let Some(e) = &c.environments {
            let mut i: usize = 0;
            while i < e.providers.len()
                invariant
                    i <= e.providers.len(),
                    r.len() == i + 1,
                    r@[0]@ == "git-worktree"@,
                    forall|k: int| 1 <= k <= i ==> (#[trigger] r@[k])@ == e.providers@[k - 1].0@,
                decreases e.providers.len() - i,
            {
                r.push(e.providers[i].0.clone());
                i += 1;
            }
            assert(r.deep_view() =~= seq!["git-worktree"@] + crate::config::entry_names(e.providers@));
        }
    }
    r
}

} // verus!
