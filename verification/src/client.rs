//! The client's side of the protocol: which request stands for which
//! operation, and how an answer is read.

use crate::environment::json::{
    get_string_field,
    json_quote,
    json_quote_of,
    object_text,
    string_field,
    write_object,
};
use crate::paths::{join, join_spec, runtime_dir, PathError, Paths};
use vstd::prelude::*;

verus! {

/// The request methods in use.
#[derive(Clone, Copy, Debug, PartialEq, Eq, Structural)]
pub enum Method {
    Get,
    Post,
    Delete,
}

/// One request to the daemon.
#[derive(Debug)]
pub struct Request {
    pub method: Method,
    pub uri: String,
    pub body: Option<String>,
}

/// The value of a [`Request`].
pub struct RequestView {
    pub method: Method,
    pub uri: Seq<char>,
    pub body: Option<Seq<char>>,
}

impl View for Request {
    type V = RequestView;

    open spec fn view(&self) -> RequestView {
        RequestView { method: self.method, uri: self.uri@, body: self.body.deep_view() }
    }
}

/// A client of the daemon, bound to its socket.
#[derive(Debug)]
pub struct DaemonClient {
    pub socket_path: String,
}

/// A status code of the 2xx class.
pub open spec fn is_success_spec(status: u16) -> bool {
    200 <= status < 300
}

/// Decides [`is_success_spec`].
pub fn is_success(status: u16) -> (r: bool)
    ensures
        r == is_success_spec(status),
{
    200 <= status && status < 300
}

/// The message of an error answer: the string under `error` where the
/// body is a JSON object that holds one, else the body as it is.
pub open spec fn error_text(body: Seq<char>) -> Seq<char> {
    match string_field(body, "error"@) {
        Some(message) => message,
        None => body,
    }
}

/// Reads the message of an error answer.
pub fn extract_error(body: &str) -> (r: String)
    ensures
        r@ == error_text(body@),
{
    match get_string_field(body, "error") {
        Some(message) => message,
        None => String::from_str(body),
    }
}

/// A request without a body.
pub open spec fn bare(method: Method, uri: Seq<char>) -> RequestView {
    RequestView { method, uri, body: None }
}

/// A query that asks to skip the provider, where that is wanted.
pub open spec fn skip_query(skip_provider: bool) -> Seq<char> {
    if skip_provider {
        "?skip_provider=true"@
    } else {
        Seq::empty()
    }
}

fn with_skip(uri: String, skip_provider: bool) -> (r: String)
    ensures
        r@ == uri@ + skip_query(skip_provider),
{
    if skip_provider {
        uri.concat("?skip_provider=true")
    } else {
        assert(uri@ =~= uri@ + skip_query(false));
        uri
    }
}

impl DaemonClient {
    /// A client for the daemon whose socket is `work.sock` in the runtime
    /// directory.
    pub fn new(paths: &Paths) -> (r: Result<DaemonClient, PathError>)
        ensures
            match paths.runtime() {
                Ok(dir) => r is Ok && r->Ok_0.socket_path@ == join_spec(dir, "work.sock"@),
                Err(e) => r is Err && r->Err_0 == e,
            },
    {
        match runtime_dir(paths) {
            Ok(dir) => Ok(DaemonClient { socket_path: join(dir.as_str(), "work.sock") }),
            Err(e) => Err(e),
        }
    }

    /// `GET /projects`.
    pub fn list_projects(&self) -> (r: Request)
        ensures
            r@ == bare(Method::Get, "/projects"@),
    {
        Request { method: Method::Get, uri: String::from_str("/projects"), body: None }
    }

    /// `POST /projects`.
    pub fn create_project(&self, name: &str, path: &str) -> (r: Request)
        ensures
            r@ == (RequestView {
                method: Method::Post,
                uri: "/projects"@,
                body: Some(object_text(seq![("name"@, json_quote_of(name@)), ("path"@, json_quote_of(path@))])),
            }),
    {
        let mut members: Vec<(String, String)> = Vec::new();
        members.push((String::from_str("name"), json_quote(name)));
        members.push((String::from_str("path"), json_quote(path)));
        assert(members.deep_view() =~= seq![("name"@, json_quote_of(name@)), ("path"@, json_quote_of(path@))]);
        Request { method: Method::Post, uri: String::from_str("/projects"), body: Some(write_object(&members)) }
    }

    /// `DELETE /projects/{name}`.
    pub fn delete_project(&self, name: &str) -> (r: Request)
        ensures
            r@ == bare(Method::Delete, "/projects/"@ + name@),
    {
        Request { method: Method::Delete, uri: String::from_str("/projects/").concat(name), body: None }
    }

    /// `POST /reset-database`.
    pub fn reset_database(&self) -> (r: Request)
        ensures
            r@ == bare(Method::Post, "/reset-database"@),
    {
        Request { method: Method::Post, uri: String::from_str("/reset-database"), body: None }
    }

    /// `POST /environments`.
    pub fn prepare_environment(&self, project_id: &str, provider: &str) -> (r: Request)
        ensures
            r@ == (RequestView {
                method: Method::Post,
                uri: "/environments"@,
                body: Some(
                    object_text(
                        seq![
                            ("project_id"@, json_quote_of(project_id@)),
                            ("provider"@, json_quote_of(provider@)),
                        ],
                    ),
                ),
            }),
    {
        let mut members: Vec<(String, String)> = Vec::new();
        members.push((String::from_str("project_id"), json_quote(project_id)));
        members.push((String::from_str("provider"), json_quote(provider)));
        assert(members.deep_view() =~= seq![
            ("project_id"@, json_quote_of(project_id@)),
            ("provider"@, json_quote_of(provider@)),
        ]);
        Request {
            method: Method::Post,
            uri: String::from_str("/environments"),
            body: Some(write_object(&members)),
        }
    }

    /// `GET /environments`.
    pub fn list_environments(&self) -> (r: Request)
        ensures
            r@ == bare(Method::Get, "/environments"@),
    {
        Request { method: Method::Get, uri: String::from_str("/environments"), body: None }
    }

    /// `POST /environments/{id}/update`.
    pub fn update_environment(&self, id: &str) -> (r: Request)
        ensures
            r@ == bare(Method::Post, "/environments/"@ + id@ + "/update"@),
    {
        Request {
            method: Method::Post,
            uri: String::from_str("/environments/").concat(id).concat("/update"),
            body: None,
        }
    }

    /// `POST /environments/{id}/claim`.
    pub fn claim_environment(&self, id: &str) -> (r: Request)
        ensures
            r@ == bare(Method::Post, "/environments/"@ + id@ + "/claim"@),
    {
        Request {
            method: Method::Post,
            uri: String::from_str("/environments/").concat(id).concat("/claim"),
            body: None,
        }
    }

    /// `POST /environments/claim`.
    pub fn claim_next_environment(&self, provider: &str, project_id: &str) -> (r: Request)
        ensures
            r@ == (RequestView {
                method: Method::Post,
                uri: "/environments/claim"@,
                body: Some(
                    object_text(
                        seq![
                            ("project_id"@, json_quote_of(project_id@)),
                            ("provider"@, json_quote_of(provider@)),
                        ],
                    ),
                ),
            }),
    {
        let mut members: Vec<(String, String)> = Vec::new();
        members.push((String::from_str("project_id"), json_quote(project_id)));
        members.push((String::from_str("provider"), json_quote(provider)));
        assert(members.deep_view() =~= seq![
            ("project_id"@, json_quote_of(project_id@)),
            ("provider"@, json_quote_of(provider@)),
        ]);
        Request {
            method: Method::Post,
            uri: String::from_str("/environments/claim"),
            body: Some(write_object(&members)),
        }
    }

    /// `DELETE /environments/{id}`, with the query that skips the
    /// provider where that is wanted.
    pub fn remove_environment(&self, id: &str, skip_provider: bool) -> (r: Request)
        ensures
            r@ == bare(Method::Delete, "/environments/"@ + id@ + skip_query(skip_provider)),
    {
        Request {
            method: Method::Delete,
            uri: with_skip(String::from_str("/environments/").concat(id), skip_provider),
            body: None,
        }
    }

    /// `POST /tasks`.
    pub fn create_task(&self, project_id: &str, provider: &str, env_provider: &str, description: &str) -> (r:
        Request)
        ensures
            r@ == (RequestView {
                method: Method::Post,
                uri: "/tasks"@,
                body: Some(
                    object_text(
                        seq![
                            ("description"@, json_quote_of(description@)),
                            ("env_provider"@, json_quote_of(env_provider@)),
                            ("project_id"@, json_quote_of(project_id@)),
                            ("provider"@, json_quote_of(provider@)),
                        ],
                    ),
                ),
            }),
    {
        let mut members: Vec<(String, String)> = Vec::new();
        members.push((String::from_str("description"), json_quote(description)));
        members.push((String::from_str("env_provider"), json_quote(env_provider)));
        members.push((String::from_str("project_id"), json_quote(project_id)));
        members.push((String::from_str("provider"), json_quote(provider)));
        assert(members.deep_view() =~= seq![
            ("description"@, json_quote_of(description@)),
            ("env_provider"@, json_quote_of(env_provider@)),
            ("project_id"@, json_quote_of(project_id@)),
            ("provider"@, json_quote_of(provider@)),
        ]);
        Request { method: Method::Post, uri: String::from_str("/tasks"), body: Some(write_object(&members)) }
    }

    /// `GET /tasks`.
    pub fn list_tasks(&self) -> (r: Request)
        ensures
            r@ == bare(Method::Get, "/tasks"@),
    {
        Request { method: Method::Get, uri: String::from_str("/tasks"), body: None }
    }

    /// `DELETE /tasks/{id}`, with the query that skips the provider where
    /// that is wanted.
    pub fn remove_task(&self, id: &str, skip_provider: bool) -> (r: Request)
        ensures
            r@ == bare(Method::Delete, "/tasks/"@ + id@ + skip_query(skip_provider)),
    {
        Request {
            method: Method::Delete,
            uri: with_skip(String::from_str("/tasks/").concat(id), skip_provider),
            body: None,
        }
    }

    /// `GET /tasks/{id}/logs`.
    pub fn tail_task_logs(&self, task_id: &str) -> (r: Request)
        ensures
            r@ == bare(Method::Get, "/tasks/"@ + task_id@ + "/logs"@),
    {
        Request { method: Method::Get, uri: String::from_str("/tasks/").concat(task_id).concat("/logs"), body: None }
    }
}

} // verus!
