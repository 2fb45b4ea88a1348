//! The daemon's decisions: what the worker pool does with a job, and how
//! requests are answered.

pub mod handlers;
pub mod jobs;
pub mod laws;
pub mod routes;

use crate::paths::{join, join_spec, pid_path, socket_path};
use vstd::prelude::*;

verus! {

/// What starting the daemon does about runtime files of an earlier run.
#[derive(Clone, Copy, Debug, PartialEq, Eq, Structural)]
pub enum StartDecision {
    /// No runtime file is there: the daemon starts.
    Proceed,
    /// Runtime files are there and are to be removed first.
    RemoveStale,
    /// Runtime files are there: the daemon does not start.
    Refuse,
}

/// The daemon refuses to start beside runtime files, unless it is forced
/// to, and then removes them first.
pub open spec fn start_decision_spec(pid_exists: bool, socket_exists: bool, force: bool) -> StartDecision {
    if !pid_exists && !socket_exists {
        StartDecision::Proceed
    } else if force {
        StartDecision::RemoveStale
    } else {
        StartDecision::Refuse
    }
}

/// Computes [`start_decision_spec`].
pub fn start_decision(pid_exists: bool, socket_exists: bool, force: bool) -> (r: StartDecision)
    ensures
        r == start_decision_spec(pid_exists, socket_exists, force),
{
    if !pid_exists && !socket_exists {
        StartDecision::Proceed
    } else if force {
        StartDecision::RemoveStale
    } else {
        StartDecision::Refuse
    }
}

/// Why the daemon did not start.
pub fn refusal_message(runtime_dir: &str) -> (r: String)
    ensures
        r@ == "daemon already running (found runtime files in "@ + runtime_dir@
            + "); use --force to override"@,
{
    String::from_str("daemon already running (found runtime files in ").concat(runtime_dir).concat(
        "); use --force to override",
    )
}

/// The runtime files to remove: the PID file and the socket, each where
/// it exists.
pub open spec fn stale_files(runtime_dir: Seq<char>, pid_exists: bool, socket_exists: bool) -> Seq<Seq<char>> {
    let pid = if pid_exists {
        seq![join_spec(runtime_dir, "work.pid"@)]
    } else {
        Seq::empty()
    };
    let socket = if socket_exists {
        seq![join_spec(runtime_dir, "work.sock"@)]
    } else {
        Seq::empty()
    };
    pid + socket
}

/// Lists [`stale_files`].
pub fn cleanup(runtime_dir: &str, pid_exists: bool, socket_exists: bool) -> (r: Vec<String>)
    ensures
        r.deep_view() == stale_files(runtime_dir@, pid_exists, socket_exists),
{
    let mut r: Vec<String> = Vec::new();
    if pid_exists {
        r.push(pid_path(runtime_dir));
    }
    if socket_exists {
        r.push(socket_path(runtime_dir));
    }
    assert(r.deep_view() =~= stale_files(runtime_dir@, pid_exists, socket_exists));
    r
}

/// The file that describes the login service: `<label>.plist` in
/// `Library/LaunchAgents` below the home directory.
pub open spec fn plist_path_spec(home: Seq<char>) -> Seq<char> {
    join_spec(join_spec(home, "Library/LaunchAgents"@), "com.jclem.work.plist"@)
}

/// Builds [`plist_path_spec`]; `None` where the home directory is not
/// known.
pub fn plist_path(home: Option<&str>) -> (r: Option<String>)
    ensures
        match home {
            Some(h) => r is Some && r->0@ == plist_path_spec(h@),
            None => r is None,
        },
{
    match home {
        Some(h) => {
            let agents = join(h, "Library/LaunchAgents");
            Some(join(agents.as_str(), "com.jclem.work.plist"))
        },
        None => None,
    }
}

/// The description of the login service: it keeps `<binary> daemon start
/// --force` alive and sends its output to the two logs.
pub open spec fn plist_text(binary: Seq<char>, out_log: Seq<char>, err_log: Seq<char>) -> Seq<char> {
    "<?xml version=\"1.0\" encoding=\"UTF-8\"?>\n<!DOCTYPE plist PUBLIC \"-//Apple//DTD PLIST 1.0//EN\" \"http://www.apple.com/DTDs/PropertyList-1.0.dtd\">\n<plist version=\"1.0\">\n<dict>\n    <key>Label</key>\n    <string>com.jclem.work</string>\n    <key>ProgramArguments</key>\n    <array>\n        <string>"@
        + binary
        + "</string>\n        <string>daemon</string>\n        <string>start</string>\n        <string>--force</string>\n    </array>\n    <key>KeepAlive</key>\n    <true/>\n    <key>StandardOutPath</key>\n    <string>"@
        + out_log + "</string>\n    <key>StandardErrorPath</key>\n    <string>"@ + err_log
        + "</string>\n</dict>\n</plist>\n"@
}

/// What installing the login service writes and runs.
#[derive(Debug)]
pub struct InstallPlan {
    /// The text of the service description.
    pub plist: String,
    /// The arguments for `launchctl`.
    pub launchctl_args: Vec<String>,
}

/// The arguments that make `launchctl` act on the service of a user.
pub open spec fn launchctl_args(action: Seq<char>, uid: Seq<char>, plist_path: Seq<char>) -> Seq<Seq<char>> {
    seq![action, "gui/"@ + uid, plist_path]
}

fn launchctl(action: &str, uid: &str, plist_path: &str) -> (r: Vec<String>)
    ensures
        r.deep_view() == launchctl_args(action@, uid@, plist_path@),
{
    let mut r: Vec<String> = Vec::new();
    r.push(String::from_str(action));
    r.push(String::from_str("gui/").concat(uid));
    r.push(String::from_str(plist_path));
    assert(r.deep_view() =~= launchctl_args(action@, uid@, plist_path@));
    r
}

/// Plans the installation of the login service: the description to write
/// to `plist_path`, with the logs in the state directory, and the
/// `launchctl bootstrap` that starts it.
pub fn install(binary: &str, state_dir: &str, uid: &str, plist_path: &str) -> (r: InstallPlan)
    ensures
        r.plist@ == plist_text(
            binary@,
            join_spec(state_dir@, "daemon.out.log"@),
            join_spec(state_dir@, "daemon.err.log"@),
        ),
        r.launchctl_args.deep_view() == launchctl_args("bootstrap"@, uid@, plist_path@),
{
    let out_log = join(state_dir, "daemon.out.log");
    let err_log = join(state_dir, "daemon.err.log");
    let plist = String::from_str(
        "<?xml version=\"1.0\" encoding=\"UTF-8\"?>\n<!DOCTYPE plist PUBLIC \"-//Apple//DTD PLIST 1.0//EN\" \"http://www.apple.com/DTDs/PropertyList-1.0.dtd\">\n<plist version=\"1.0\">\n<dict>\n    <key>Label</key>\n    <string>com.jclem.work</string>\n    <key>ProgramArguments</key>\n    <array>\n        <string>",
    ).concat(binary).concat(
        "</string>\n        <string>daemon</string>\n        <string>start</string>\n        <string>--force</string>\n    </array>\n    <key>KeepAlive</key>\n    <true/>\n    <key>StandardOutPath</key>\n    <string>",
    ).concat(out_log.as_str()).concat("</string>\n    <key>StandardErrorPath</key>\n    <string>").concat(
        err_log.as_str(),
    ).concat("</string>\n</dict>\n</plist>\n");
    InstallPlan { plist, launchctl_args: launchctl("bootstrap", uid, plist_path) }
}

/// Plans the removal of the login service: the `launchctl bootout` that
/// stops it; the description is deleted after it.
pub fn uninstall(uid: &str, plist_path: &str) -> (r: Vec<String>)
    ensures
        r.deep_view() == launchctl_args("bootout"@, uid@, plist_path@),
{
    launchctl("bootout", uid, plist_path)
}

} // verus!
