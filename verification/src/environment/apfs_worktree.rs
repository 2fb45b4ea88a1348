//! The apfs-worktree provider: a git worktree filled by clone-on-write
//! copies of the project's files.

use super::json::{json_quote, json_quote_of, object_text, string_field, write_object};
use super::{
    branch_name, builtin_commands, builtin_exec_commands, call_is, exec_in_worktree,
    metadata_string, owned, remove_worktree_steps, run_in_worktree, run_result_is, step, step_of,
    worktree_exec, worktree_path_of, worktree_remove_steps, worktree_run, CommandStep,
    CommandStepView, ProviderCall, ProviderCallView, ProviderError, ProviderErrorView,
    ProviderExecCommand, RunSpec,
};
use crate::paths::{join, join_spec};
use crate::text::str_eq;
use vstd::prelude::*;

verus! {

/// The built-in provider that fills a git worktree by clone-on-write
/// copies.
#[derive(Debug)]
pub struct ApfsWorktreeProvider;

/// The branch that new environments start from.
pub open spec fn base_branch() -> Seq<char> {
    "main"@
}

/// An entry of the project directory is copied unless it belongs to git
/// or holds worktrees.
pub open spec fn is_copied(name: Seq<char>) -> bool {
    name != ".git"@ && name != ".worktrees"@
}

/// The step that copies one entry of the project into the worktree.
pub open spec fn copy_step(project_path: Seq<char>, worktree: Seq<char>, name: Seq<char>) -> CommandStepView {
    CommandStepView {
        program: "cp"@,
        args: seq!["-cR"@, join_spec(project_path, name), worktree],
        cwd: None,
        error_prefix: "apfs clone copy failed"@,
        tolerated: None,
    }
}

/// The copy steps for the first `n` entries of the project directory.
pub open spec fn copy_steps(entries: Seq<Seq<char>>, project_path: Seq<char>, worktree: Seq<char>, n: int) -> Seq<
    CommandStepView,
>
    decreases n,
{
    if n <= 0 {
        Seq::empty()
    } else {
        let before = copy_steps(entries, project_path, worktree, n - 1);
        if is_copied(entries[n - 1]) {
            before.push(copy_step(project_path, worktree, entries[n - 1]))
        } else {
            before
        }
    }
}

/// What preparing does: the base branch is fetched, the environment's
/// branch is made from it unless it exists, a worktree is added without
/// a checkout, the project's entries are copied into it, and the
/// worktree is reset to its branch.
pub open spec fn apfs_prepare(
    project_path: Seq<char>,
    data_dir: Seq<char>,
    env_id: Seq<char>,
    entries: Seq<Seq<char>>,
) -> ProviderCallView {
    let worktree = worktree_path_of(data_dir, env_id);
    let branch = branch_name(env_id);
    ProviderCallView::Commands {
        make_dirs: seq![join_spec(data_dir, "worktrees"@)],
        steps: seq![
            step_of("git"@, seq!["fetch"@, "origin"@, base_branch()], project_path, "git fetch failed"@, None),
            step_of(
                "git"@,
                seq!["branch"@, branch, "origin/"@ + base_branch()],
                project_path,
                "git branch failed"@,
                Some("already exists"@),
            ),
            step_of(
                "git"@,
                seq!["worktree"@, "add"@, "--no-checkout"@, worktree, branch],
                project_path,
                "git worktree add failed"@,
                None,
            ),
        ] + copy_steps(entries, project_path, worktree, entries.len() as int) + seq![
            step_of("git"@, seq!["reset"@, "--hard"@, branch], worktree, "git reset --hard failed"@, None),
        ],
        metadata: object_text(
            seq![
                ("base_branch"@, json_quote_of(base_branch())),
                ("branch"@, json_quote_of(branch)),
                ("project_path"@, json_quote_of(project_path)),
                ("worktree_path"@, json_quote_of(worktree)),
            ],
        ),
    }
}

/// The base branch that the metadata names, else the standard one.
pub open spec fn base_of(metadata: Seq<char>) -> Seq<char> {
    match string_field(metadata, "base_branch"@) {
        Some(b) => b,
        None => base_branch(),
    }
}

/// What updating does: the base branch is fetched and the worktree is
/// reset to it. The metadata stays as it is.
pub open spec fn apfs_update(metadata: Seq<char>) -> Result<ProviderCallView, ProviderErrorView> {
    match string_field(metadata, "project_path"@) {
        None => Err(ProviderErrorView::MissingField { field: "project_path"@ }),
        Some(project) => match string_field(metadata, "worktree_path"@) {
            None => Err(ProviderErrorView::MissingField { field: "worktree_path"@ }),
            Some(worktree) => Ok(
                ProviderCallView::Commands {
                    make_dirs: Seq::empty(),
                    steps: seq![
                        step_of(
                            "git"@,
                            seq!["fetch"@, "origin"@, base_of(metadata)],
                            project,
                            "git fetch failed"@,
                            None,
                        ),
                        step_of(
                            "git"@,
                            seq!["reset"@, "--hard"@, "origin/"@ + base_of(metadata)],
                            worktree,
                            "git reset --hard origin failed"@,
                            None,
                        ),
                    ],
                    metadata,
                },
            ),
        },
    }
}

/// What removing does: the worktree and the branch go.
pub open spec fn apfs_remove(metadata: Seq<char>) -> Result<ProviderCallView, ProviderErrorView> {
    match string_field(metadata, "project_path"@) {
        None => Err(ProviderErrorView::MissingField { field: "project_path"@ }),
        Some(project) => match string_field(metadata, "worktree_path"@) {
            None => Err(ProviderErrorView::MissingField { field: "worktree_path"@ }),
            Some(worktree) => match string_field(metadata, "branch"@) {
                None => Err(ProviderErrorView::MissingField { field: "branch"@ }),
                Some(branch) => Ok(
                    ProviderCallView::Commands {
                        make_dirs: Seq::empty(),
                        steps: worktree_remove_steps(project, worktree, branch),
                        metadata,
                    },
                ),
            },
        },
    }
}

impl ApfsWorktreeProvider {
    /// Plans the preparation of an environment; `entries` are the names
    /// in the project directory.
    pub fn prepare(&self, project_path: &str, data_dir: &str, env_id: &str, entries: &Vec<String>) -> (r:
        ProviderCall)
        ensures
            r@ == apfs_prepare(project_path@, data_dir@, env_id@, entries.deep_view()),
    {
        let worktrees = join(data_dir, "worktrees");
        let worktree = join(worktrees.as_str(), env_id);
        let branch = String::from_str("work-env-").concat(env_id);
        let start = String::from_str("origin/").concat("main");
        let mut make_dirs: Vec<String> = Vec::new();
        make_dirs.push(worktrees);
        let ghost want = apfs_prepare(project_path@, data_dir@, env_id@, entries.deep_view());
        let ghost head = want->Commands_steps.subrange(0, 3);
        let mut steps: Vec<CommandStep> = Vec::new();
        let fetch = vec!["fetch", "origin", "main"];
        steps.push(step("git", &fetch, project_path, "git fetch failed", None));
        let make_branch = vec!["branch", branch.as_str(), start.as_str()];
        steps.push(step("git", &make_branch, project_path, "git branch failed", Some("already exists")));
        let add = vec!["worktree", "add", "--no-checkout", worktree.as_str(), branch.as_str()];
        steps.push(step("git", &add, project_path, "git worktree add failed", None));
        proof {
            assert(steps@[0]@.args =~= head[0].args);
            assert(steps@[1]@.args =~= head[1].args);
            assert(steps@[2]@.args =~= head[2].args);
            assert(steps.deep_view() =~= head);
        }
        let mut i: usize = 0;
        while i < entries.len()
            invariant
                i <= entries.len(),
                steps.deep_view() == head + copy_steps(entries.deep_view(), project_path@, worktree@, i as int),
            decreases entries.len() - i,
        {
            let ghost before = steps.deep_view();
            let name = entries[i].as_str();
            if !str_eq(name, ".git") && !str_eq(name, ".worktrees") {
                let from = join(project_path, name);
                let args = vec!["-cR", from.as_str(), worktree.as_str()];
                let copy = CommandStep {
                    program: String::from_str("cp"),
                    args: owned(&args),
                    cwd: None,
                    error_prefix: String::from_str("apfs clone copy failed"),
                    tolerated: None,
                };
                proof {
                    assert(copy@.args =~= copy_step(project_path@, worktree@, name@).args);
                }
                let ghost v = copy@;
                steps.push(copy);
                assert(steps.deep_view() =~= before.push(v));
            }
            assert(steps.deep_view() =~= head + copy_steps(
                entries.deep_view(),
                project_path@,
                worktree@,
                i as int + 1,
            ));
            i += 1;
        }
        let ghost before = steps.deep_view();
        let reset = vec!["reset", "--hard", branch.as_str()];
        let last = step("git", &reset, worktree.as_str(), "git reset --hard failed", None);
        let ghost v = last@;
        steps.push(last);
        let mut members: Vec<(String, String)> = Vec::new();
        members.push((String::from_str("base_branch"), json_quote("main")));
        members.push((String::from_str("branch"), json_quote(branch.as_str())));
        members.push((String::from_str("project_path"), json_quote(project_path)));
        members.push((String::from_str("worktree_path"), json_quote(worktree.as_str())));
        proof {
            assert(make_dirs.deep_view() =~= want->Commands_make_dirs);
            assert(v.args =~= seq!["reset"@, "--hard"@, branch@]);
            assert(steps.deep_view() =~= before.push(v));
            assert(steps.deep_view() =~= want->Commands_steps);
            assert(members.deep_view() =~= seq![
                ("base_branch"@, json_quote_of(base_branch())),
                ("branch"@, json_quote_of(branch@)),
                ("project_path"@, json_quote_of(project_path@)),
                ("worktree_path"@, json_quote_of(worktree@)),
            ]);
        }
        ProviderCall::Commands { make_dirs, steps, metadata: write_object(&members) }
    }

    /// Plans the update of an environment.
    pub fn update(&self, metadata: &str) -> (r: Result<ProviderCall, ProviderError>)
        ensures
            call_is(r, apfs_update(metadata@)),
    {
        let project = match metadata_string(metadata, "project_path") {
            Ok(v) => v,
            Err(e) => {
                return Err(e);
            },
        };
        let worktree = match metadata_string(metadata, "worktree_path") {
            Ok(v) => v,
            Err(e) => {
                return Err(e);
            },
        };
        let base = match super::json::get_string_field(metadata, "base_branch") {
            Some(b) => b,
            None => String::from_str("main"),
        };
        let target = String::from_str("origin/").concat(base.as_str());
        let make_dirs: Vec<String> = Vec::new();
        let mut steps: Vec<CommandStep> = Vec::new();
        let fetch = vec!["fetch", "origin", base.as_str()];
        steps.push(step("git", &fetch, project.as_str(), "git fetch failed", None));
        let reset = vec!["reset", "--hard", target.as_str()];
        steps.push(step("git", &reset, worktree.as_str(), "git reset --hard origin failed", None));
        proof {
            let want = apfs_update(metadata@)->Ok_0;
            assert(make_dirs.deep_view() =~= want->Commands_make_dirs);
            assert(steps@[0]@.args =~= want->Commands_steps[0].args);
            assert(steps@[1]@.args =~= want->Commands_steps[1].args);
            assert(steps.deep_view() =~= want->Commands_steps);
        }
        Ok(ProviderCall::Commands { make_dirs, steps, metadata: String::from_str(metadata) })
    }

    /// Claiming changes nothing: the metadata stays as it is.
    pub fn claim(&self, metadata: &str) -> (r: String)
        ensures
            r@ == metadata@,
    {
        String::from_str(metadata)
    }

    /// Plans the removal of an environment.
    pub fn remove(&self, metadata: &str) -> (r: Result<ProviderCall, ProviderError>)
        ensures
            call_is(r, apfs_remove(metadata@)),
    {
        let project = match metadata_string(metadata, "project_path") {
            Ok(v) => v,
            Err(e) => {
                return Err(e);
            },
        };
        let worktree = match metadata_string(metadata, "worktree_path") {
            Ok(v) => v,
            Err(e) => {
                return Err(e);
            },
        };
        let branch = match metadata_string(metadata, "branch") {
            Ok(v) => v,
            Err(e) => {
                return Err(e);
            },
        };
        let make_dirs: Vec<String> = Vec::new();
        assert(make_dirs.deep_view() =~= Seq::empty());
        Ok(
            ProviderCall::Commands {
                make_dirs,
                steps: remove_worktree_steps(project.as_str(), worktree.as_str(), branch.as_str()),
                metadata: String::from_str(metadata),
            },
        )
    }

    /// How to run a task's command: in the worktree, as given.
    pub fn run(&self, metadata: &str, command: &str, args: &Vec<String>) -> (r: Result<RunSpec, ProviderError>)
        ensures
            run_result_is(r, worktree_run(metadata@, command@, args.deep_view())),
    {
        run_in_worktree(metadata, command, args)
    }

    /// How to run an interactive verb; `shell` is the user's shell, where
    /// one is known.
    pub fn exec(&self, metadata: &str, command: &str, args: &Vec<String>, shell: Option<&str>) -> (r: Result<
        RunSpec,
        ProviderError,
    >)
        ensures
            run_result_is(
                r,
                worktree_exec(
                    metadata@,
                    command@,
                    args.deep_view(),
                    match shell {
                        Some(s) => Some(s@),
                        None => None,
                    },
                ),
            ),
    {
        exec_in_worktree(metadata, command, args, shell)
    }

    /// The interactive verbs on offer.
    pub fn exec_commands(&self, _metadata: &str) -> (r: Vec<ProviderExecCommand>)
        ensures
            r.deep_view() == builtin_exec_commands(),
    {
        builtin_commands()
    }
}

} // verus!
