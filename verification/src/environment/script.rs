//! The script provider: an external program that is told what to do by an
//! action name and a JSON document.

use super::json::{
    get_string_member, json_array_items, json_array_items_of, json_as_string, json_normal_of,
    json_normalize, json_object_entries, json_object_entries_of, json_quote, json_quote_of,
    json_string_of, object_text, string_array_text, string_member, write_object,
    write_string_array,
};
use super::{
    ProviderError, ProviderErrorView, ProviderExecCommand, ProviderExecCommandView, RunSpec,
    RunSpecView,
};
use vstd::prelude::*;

verus! {

/// A provider that shells out to the program at `path`.
#[derive(Debug)]
pub struct ScriptProvider {
    pub path: String,
}

/// The document that asks the program to prepare an environment.
pub open spec fn prepare_input_text(project_name: Seq<char>, project_path: Seq<char>, env_id: Seq<char>) -> Seq<
    char,
> {
    object_text(
        seq![
            ("env_id"@, json_quote_of(env_id)),
            ("project_name"@, json_quote_of(project_name)),
            ("project_path"@, json_quote_of(project_path)),
        ],
    )
}

/// The document that hands the metadata to the program under the key
/// `metadata`.
pub open spec fn metadata_input_text(metadata: Seq<char>) -> Seq<char> {
    object_text(seq![("metadata"@, json_normal_of(metadata))])
}

/// The document that asks the program to run a task's command.
pub open spec fn run_input_text(metadata: Seq<char>, command: Seq<char>, args: Seq<Seq<char>>) -> Seq<char> {
    object_text(
        seq![
            ("args"@, string_array_text(args)),
            ("command"@, json_quote_of(command)),
            ("metadata"@, json_normal_of(metadata)),
        ],
    )
}

/// How a script runs a task's command: the program with the action
/// `run`, fed the metadata, the command and its arguments.
pub open spec fn script_run(path: Seq<char>, metadata: Seq<char>, command: Seq<char>, args: Seq<Seq<char>>) -> RunSpecView {
    RunSpecView {
        program: path,
        args: seq!["run"@],
        cwd: None,
        stdin_data: Some(vstd::utf8::encode_utf8(run_input_text(metadata, command, args))),
        env: Seq::empty(),
    }
}

/// How a script runs an interactive verb: the program with the action
/// `exec`, the verb and its arguments, and the metadata in the variable
/// `WORK_ENV_METADATA`.
pub open spec fn script_exec(path: Seq<char>, metadata: Seq<char>, command: Seq<char>, args: Seq<Seq<char>>) -> RunSpecView {
    RunSpecView {
        program: path,
        args: seq!["exec"@, command] + args,
        cwd: None,
        stdin_data: None,
        env: seq![("WORK_ENV_METADATA"@, json_normal_of(metadata))],
    }
}

/// The verb that one entry of a command list declares: a string is a
/// name; an object gives `name` and, as help, `help` or else
/// `description`.
pub open spec fn command_of_entry(item: Seq<char>) -> Result<ProviderExecCommandView, ProviderErrorView> {
    match json_string_of(item) {
        Some(name) => Ok(ProviderExecCommandView { name, help: None }),
        None => match json_object_entries_of(item) {
            None => Err(ProviderErrorView::CommandsEntryShape),
            Some(entries) => match string_member(entries, "name"@) {
                None => Err(ProviderErrorView::CommandsEntryName),
                Some(name) => Ok(
                    ProviderExecCommandView {
                        name,
                        help: match string_member(entries, "help"@) {
                            Some(h) => Some(h),
                            None => string_member(entries, "description"@),
                        },
                    },
                ),
            },
        },
    }
}

/// The verbs that the first `n` entries of a command list declare, or the
/// error of the first entry that declares none.
pub open spec fn commands_upto(items: Seq<Seq<char>>, n: int) -> Result<
    Seq<ProviderExecCommandView>,
    ProviderErrorView,
>
    decreases n,
{
    if n <= 0 {
        Ok(Seq::empty())
    } else {
        match commands_upto(items, n - 1) {
            Err(e) => Err(e),
            Ok(before) => match command_of_entry(items[n - 1]) {
                Ok(c) => Ok(before.push(c)),
                Err(e) => Err(e),
            },
        }
    }
}

/// The verbs that an object declares: each key is a name, its value the
/// help where that is a string.
pub open spec fn commands_of_object(entries: Seq<(Seq<char>, Seq<char>)>) -> Seq<ProviderExecCommandView> {
    Seq::new(
        entries.len(),
        |i: int| ProviderExecCommandView { name: entries[i].0, help: json_string_of(entries[i].1) },
    )
}

/// The verbs that the program's answer declares: an array of entries, or
/// an object from names to help.
pub open spec fn parsed_commands(text: Seq<char>) -> Result<Seq<ProviderExecCommandView>, ProviderErrorView> {
    match json_array_items_of(text) {
        Some(items) => commands_upto(items, items.len() as int),
        None => match json_object_entries_of(text) {
            Some(entries) => Ok(commands_of_object(entries)),
            None => Err(ProviderErrorView::CommandsShape),
        },
    }
}

fn parse_entry(item: &str) -> (r: Result<ProviderExecCommand, ProviderError>)
    ensures
        match command_of_entry(item@) {
            Ok(c) => r is Ok && r->Ok_0@ == c,
            Err(e) => r is Err && r->Err_0@ == e,
        },
{
    if let Some(name) = json_as_string(item) {
        return Ok(ProviderExecCommand { name, help: None });
    }
    let entries = match json_object_entries(item) {
        Some(entries) => entries,
        None => {
            return Err(ProviderError::CommandsEntryShape);
        },
    };
    let name = match get_string_member(&entries, "name") {
        Some(name) => name,
        None => {
            return Err(ProviderError::CommandsEntryName);
        },
    };
    let help = match get_string_member(&entries, "help") {
        Some(h) => Some(h),
        None => get_string_member(&entries, "description"),
    };
    Ok(ProviderExecCommand { name, help })
}

impl ScriptProvider {
    /// The document for the action `prepare`.
    pub fn prepare_input(&self, project_name: &str, project_path: &str, env_id: &str) -> (r: String)
        ensures
            r@ == prepare_input_text(project_name@, project_path@, env_id@),
    {
        let mut members: Vec<(String, String)> = Vec::new();
        members.push((String::from_str("env_id"), json_quote(env_id)));
        members.push((String::from_str("project_name"), json_quote(project_name)));
        members.push((String::from_str("project_path"), json_quote(project_path)));
        assert(members.deep_view() =~= seq![
            ("env_id"@, json_quote_of(env_id@)),
            ("project_name"@, json_quote_of(project_name@)),
            ("project_path"@, json_quote_of(project_path@)),
        ]);
        write_object(&members)
    }

    /// The document for the actions `update` and `claim`: the metadata.
    pub fn metadata_document(&self, metadata: &str) -> (r: String)
        ensures
            r@ == json_normal_of(metadata@),
    {
        json_normalize(metadata)
    }

    /// The document for the actions `remove` and `commands`.
    pub fn metadata_input(&self, metadata: &str) -> (r: String)
        ensures
            r@ == metadata_input_text(metadata@),
    {
        let mut members: Vec<(String, String)> = Vec::new();
        members.push((String::from_str("metadata"), json_normalize(metadata)));
        assert(members.deep_view() =~= seq![("metadata"@, json_normal_of(metadata@))]);
        write_object(&members)
    }

    /// What the program is said to have failed with.
    pub fn failure_message(&self, action: &str, status: &str) -> (r: String)
        ensures
            r@ == self.path@ + " "@ + action@ + " failed with status "@ + status@,
    {
        self.path.clone().concat(" ").concat(action).concat(" failed with status ").concat(status)
    }

    /// How to run a task's command: the program with the action `run`,
    /// fed the metadata, the command and its arguments.
    pub fn run(&self, metadata: &str, command: &str, args: &Vec<String>) -> (r: Result<RunSpec, ProviderError>)
        ensures
            r is Ok,
            r->Ok_0@ == script_run(self.path@, metadata@, command@, args.deep_view()),
    {
        let mut members: Vec<(String, String)> = Vec::new();
        members.push((String::from_str("args"), write_string_array(args)));
        members.push((String::from_str("command"), json_quote(command)));
        members.push((String::from_str("metadata"), json_normalize(metadata)));
        assert(members.deep_view() =~= seq![
            ("args"@, string_array_text(args.deep_view())),
            ("command"@, json_quote_of(command@)),
            ("metadata"@, json_normal_of(metadata@)),
        ]);
        let input = write_object(&members);
        let mut run_args: Vec<String> = Vec::new();
        run_args.push(String::from_str("run"));
        assert(run_args.deep_view() =~= seq!["run"@]);
        let env: Vec<(String, String)> = Vec::new();
        assert(env.deep_view() =~= Seq::empty());
        Ok(
            RunSpec {
                program: self.path.clone(),
                args: run_args,
                cwd: None,
                stdin_data: Some(input.as_str().as_bytes_vec()),
                env,
            },
        )
    }

    /// How to run an interactive verb: the program with the action
    /// `exec`, the verb and its arguments, and the metadata in the
    /// variable `WORK_ENV_METADATA`.
    pub fn exec(&self, metadata: &str, command: &str, args: &Vec<String>) -> (r: Result<RunSpec, ProviderError>)
        ensures
            r is Ok,
            r->Ok_0@ == script_exec(self.path@, metadata@, command@, args.deep_view()),
    {
        let mut run_args: Vec<String> = Vec::new();
        run_args.push(String::from_str("exec"));
        run_args.push(String::from_str(command));
        let mut i: usize = 0;
        while i < args.len()
            invariant
                i <= args.len(),
                run_args.len() == i + 2,
                run_args@[0]@ == "exec"@,
                run_args@[1]@ == command@,
                forall|k: int| 2 <= k < i + 2 ==> (#[trigger] run_args@[k])@ == args@[k - 2]@,
            decreases args.len() - i,
        {
            run_args.push(args[i].clone());
            i += 1;
        }
        assert(run_args.deep_view() =~= seq!["exec"@, command@] + args.deep_view());
        let mut env: Vec<(String, String)> = Vec::new();
        env.push((String::from_str("WORK_ENV_METADATA"), json_normalize(metadata)));
        assert(env.deep_view() =~= seq![("WORK_ENV_METADATA"@, json_normal_of(metadata@))]);
        Ok(RunSpec { program: self.path.clone(), args: run_args, cwd: None, stdin_data: None, env })
    }

    /// Reads the verbs that the program declares in answer to the action
    /// `commands`.
    pub fn parse_exec_commands(text: &str) -> (r: Result<Vec<ProviderExecCommand>, ProviderError>)
        ensures
            match parsed_commands(text@) {
                Ok(commands) => r is Ok && r->Ok_0.deep_view() == commands,
                Err(e) => r is Err && r->Err_0@ == e,
            },
    {
        if let Some(items) = json_array_items(text) {
            let mut commands: Vec<ProviderExecCommand> = Vec::new();
            let mut i: usize = 0;
            while i < items.len()
                invariant
                    i <= items.len(),
                    json_array_items_of(text@) == Some(items.deep_view()),
                    commands_upto(items.deep_view(), i as int) is Ok,
                    commands_upto(items.deep_view(), i as int)->Ok_0 =~= commands.deep_view(),
                decreases items.len() - i,
            {
                let ghost before = commands.deep_view();
                assert(items.deep_view()[i as int] == items@[i as int]@);
                match parse_entry(items[i].as_str()) {
                    Ok(c) => {
                        let ghost v = c@;
                        commands.push(c);
                        assert(commands.deep_view() =~= before.push(v));
                    },
                    Err(e) => {
                        proof {
                            assert(commands_upto(items.deep_view(), i as int + 1) == Err::<
                                Seq<ProviderExecCommandView>,
                                ProviderErrorView,
                            >(e@));
                            lemma_commands_error(items.deep_view(), i as int + 1, items.len() as int);
                        }
                        return Err(e);
                    },
                }
                i += 1;
            }
            return Ok(commands);
        }
        if let Some(entries) = json_object_entries(text) {
            let mut commands: Vec<ProviderExecCommand> = Vec::new();
            let mut i: usize = 0;
            while i < entries.len()
                invariant
                    i <= entries.len(),
                    commands.len() == i,
                    forall|k: int|
                        0 <= k < i ==> (#[trigger] commands@[k])@ == commands_of_object(entries.deep_view())[k],
                decreases entries.len() - i,
            {
                assert(entries.deep_view()[i as int] == entries@[i as int].deep_view());
                commands.push(
                    ProviderExecCommand {
                        name: entries[i].0.clone(),
                        help: json_as_string(entries[i].1.as_str()),
                    },
                );
                i += 1;
            }
            assert(commands.deep_view() =~= commands_of_object(entries.deep_view()));
            return Ok(commands);
        }
        Err(ProviderError::CommandsShape)
    }
}

/// An error among the first `n` entries is the error of any longer list.
proof fn lemma_commands_error(items: Seq<Seq<char>>, n: int, m: int)
    requires
        0 <= n <= m,
        commands_upto(items, n) is Err,
    ensures
        commands_upto(items, m) == commands_upto(items, n),
    decreases m - n,
{
    if n < m {
        lemma_commands_error(items, n, m - 1);
    }
}

} // verus!
