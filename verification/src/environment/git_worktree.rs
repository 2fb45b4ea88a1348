//! The git-worktree provider: one branch and one worktree per environment.

use super::json::{json_quote, json_quote_of, object_text, string_field, write_object};
use super::{
    branch_name,
    builtin_commands,
    builtin_exec_commands,
    call_is,
    exec_in_worktree,
    metadata_string,
    remove_worktree_steps,
    run_in_worktree,
    run_result_is,
    step,
    step_of,
    worktree_exec,
    worktree_path_of,
    worktree_remove_steps,
    worktree_run,
    CommandStep,
    ProviderCall,
    ProviderCallView,
    ProviderError,
    ProviderErrorView,
    ProviderExecCommand,
    RunSpec,
};
use crate::paths::{join, join_spec};
use vstd::prelude::*;

verus! {

/// The built-in provider that keeps each environment in a git worktree.
#[derive(Debug)]
pub struct GitWorktreeProvider;

/// What preparing does: a new branch with a worktree of its own below the
/// data directory, made from the project.
pub open spec fn git_prepare(project_path: Seq<char>, data_dir: Seq<char>, env_id: Seq<char>) -> ProviderCallView {
    let worktree = worktree_path_of(data_dir, env_id);
    let branch = branch_name(env_id);
    ProviderCallView::Commands {
        make_dirs: seq![join_spec(data_dir, "worktrees"@)],
        steps: seq![
            step_of(
                "git"@,
                seq!["worktree"@, "add"@, "-b"@, branch, worktree],
                project_path,
                "git worktree add failed"@,
                None,
            ),
        ],
        metadata: object_text(
            seq![
                ("branch"@, json_quote_of(branch)),
                ("project_path"@, json_quote_of(project_path)),
                ("worktree_path"@, json_quote_of(worktree)),
            ],
        ),
    }
}

/// What updating does: the worktree fetches and merges the remote head.
/// The metadata stays as it is.
pub open spec fn git_update(metadata: Seq<char>) -> Result<ProviderCallView, ProviderErrorView> {
    match string_field(metadata, "worktree_path"@) {
        None => Err(ProviderErrorView::MissingField { field: "worktree_path"@ }),
        Some(worktree) => Ok(
            ProviderCallView::Commands {
                make_dirs: Seq::empty(),
                steps: seq![
                    step_of("git"@, seq!["fetch"@, "origin"@], worktree, "git fetch failed"@, None),
                    step_of("git"@, seq!["merge"@, "origin/HEAD"@], worktree, "git merge failed"@, None),
                ],
                metadata,
            },
        ),
    }
}

/// What removing does: the worktree and the branch go.
pub open spec fn git_remove(metadata: Seq<char>) -> Result<ProviderCallView, ProviderErrorView> {
    match string_field(metadata, "worktree_path"@) {
        None => Err(ProviderErrorView::MissingField { field: "worktree_path"@ }),
        Some(worktree) => match string_field(metadata, "project_path"@) {
            None => Err(ProviderErrorView::MissingField { field: "project_path"@ }),
            Some(project) => match string_field(metadata, "branch"@) {
                None => Err(ProviderErrorView::MissingField { field: "branch"@ }),
                Some(branch) => Ok(
                    ProviderCallView::Commands {
                        make_dirs: Seq::empty(),
                        steps: worktree_remove_steps(project, worktree, branch),
                        metadata,
                    },
                ),
            },
        },
    }
}

impl GitWorktreeProvider {
    /// Plans the preparation of an environment.
    pub fn prepare(&self, project_path: &str, data_dir: &str, env_id: &str) -> (r: ProviderCall)
        ensures
            r@ == git_prepare(project_path@, data_dir@, env_id@),
    {
        let worktrees = join(data_dir, "worktrees");
        let worktree = join(worktrees.as_str(), env_id);
        let branch = String::from_str("work-env-").concat(env_id);
        let mut make_dirs: Vec<String> = Vec::new();
        make_dirs.push(worktrees);
        let mut steps: Vec<CommandStep> = Vec::new();
        let args = vec!["worktree", "add", "-b", branch.as_str(), worktree.as_str()];
        steps.push(step("git", &args, project_path, "git worktree add failed", None));
        let mut members: Vec<(String, String)> = Vec::new();
        members.push((String::from_str("branch"), json_quote(branch.as_str())));
        members.push((String::from_str("project_path"), json_quote(project_path)));
        members.push((String::from_str("worktree_path"), json_quote(worktree.as_str())));
        proof {
            let want = git_prepare(project_path@, data_dir@, env_id@);
            assert(make_dirs.deep_view() =~= want->Commands_make_dirs);
            assert(steps@[0]@.args =~= want->Commands_steps[0].args);
            assert(steps.deep_view() =~= want->Commands_steps);
            assert(members.deep_view() =~= seq![
                ("branch"@, json_quote_of(branch@)),
                ("project_path"@, json_quote_of(project_path@)),
                ("worktree_path"@, json_quote_of(worktree@)),
            ]);
        }
        ProviderCall::Commands { make_dirs, steps, metadata: write_object(&members) }
    }

    /// Plans the update of an environment.
    pub fn update(&self, metadata: &str) -> (r: Result<ProviderCall, ProviderError>)
        ensures
            call_is(r, git_update(metadata@)),
    {
        let worktree = match metadata_string(metadata, "worktree_path") {
            Ok(v) => v,
            Err(e) => {
                return Err(e);
            },
        };
        let make_dirs: Vec<String> = Vec::new();
        let mut steps: Vec<CommandStep> = Vec::new();
        let fetch = vec!["fetch", "origin"];
        steps.push(step("git", &fetch, worktree.as_str(), "git fetch failed", None));
        let merge = vec!["merge", "origin/HEAD"];
        steps.push(step("git", &merge, worktree.as_str(), "git merge failed", None));
        proof {
            let want = git_update(metadata@)->Ok_0;
            assert(make_dirs.deep_view() =~= want->Commands_make_dirs);
            assert(steps@[0]@.args =~= want->Commands_steps[0].args);
            assert(steps@[1]@.args =~= want->Commands_steps[1].args);
            assert(steps.deep_view() =~= want->Commands_steps);
        }
        Ok(ProviderCall::Commands { make_dirs, steps, metadata: String::from_str(metadata) })
    }

    /// Claiming changes nothing: the metadata stays as it is.
    pub fn claim(&self, metadata: &str) -> (r: String)
        ensures
            r@ == metadata@,
    {
        String::from_str(metadata)
    }

    /// Plans the removal of an environment.
    pub fn remove(&self, metadata: &str) -> (r: Result<ProviderCall, ProviderError>)
        ensures
            call_is(r, git_remove(metadata@)),
    {
        let worktree = match metadata_string(metadata, "worktree_path") {
            Ok(v) => v,
            Err(e) => {
                return Err(e);
            },
        };
        let project = match metadata_string(metadata, "project_path") {
            Ok(v) => v,
            Err(e) => {
                return Err(e);
            },
        };
        let branch = match metadata_string(metadata, "branch") {
            Ok(v) => v,
            Err(e) => {
                return Err(e);
            },
        };
        let make_dirs: Vec<String> = Vec::new();
        assert(make_dirs.deep_view() =~= Seq::empty());
        Ok(
            ProviderCall::Commands {
                make_dirs,
                steps: remove_worktree_steps(project.as_str(), worktree.as_str(), branch.as_str()),
                metadata: String::from_str(metadata),
            },
        )
    }

    /// How to run a task's command: in the worktree, as given.
    pub fn run(&self, metadata: &str, command: &str, args: &Vec<String>) -> (r: Result<RunSpec, ProviderError>)
        ensures
            run_result_is(r, worktree_run(metadata@, command@, args.deep_view())),
    {
        run_in_worktree(metadata, command, args)
    }

    /// How to run an interactive verb; `shell` is the user's shell, where
    /// one is known.
    pub fn exec(&self, metadata: &str, command: &str, args: &Vec<String>, shell: Option<&str>) -> (r: Result<
        RunSpec,
        ProviderError,
    >)
        ensures
            run_result_is(
                r,
                worktree_exec(
                    metadata@,
                    command@,
                    args.deep_view(),
                    match shell {
                        Some(s) => Some(s@),
                        None => None,
                    },
                ),
            ),
    {
        exec_in_worktree(metadata, command, args, shell)
    }

    /// The interactive verbs on offer.
    pub fn exec_commands(&self, _metadata: &str) -> (r: Vec<ProviderExecCommand>)
        ensures
            r.deep_view() == builtin_exec_commands(),
    {
        builtin_commands()
    }
}

} // verus!
