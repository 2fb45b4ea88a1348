//! The user's configuration: default providers, per project and global,
//! and the named provider entries.

use crate::db::query::{lemma_position_is, position};
use crate::text::{clone_opt, str_eq};
use vstd::prelude::*;

verus! {

/// Settings of the daemon itself.
#[derive(Debug, Default)]
pub struct DaemonConfig {
    pub debug: bool,
}

/// How a task provider runs a task.
#[derive(Debug)]
pub enum TaskProviderConfig {
    /// Runs a command; an argument may hold the placeholder
    /// `{task_description}`.
    Command { command: String, args: Vec<String> },
}

/// How an environment provider is reached.
#[derive(Debug)]
pub enum EnvironmentProviderConfig {
    /// An external program at `path`.
    Script { path: String },
}

/// The named task providers. A name stands for the first entry that
/// carries it.
#[derive(Debug)]
pub struct TasksConfig {
    pub providers: Vec<(String, TaskProviderConfig)>,
}

/// The named environment providers. A name stands for the first entry
/// that carries it.
#[derive(Debug)]
pub struct EnvironmentsConfig {
    pub providers: Vec<(String, EnvironmentProviderConfig)>,
}

/// Defaults of one project.
#[derive(Debug)]
pub struct ProjectConfig {
    pub environment_provider: Option<String>,
    pub task_provider: Option<String>,
}

/// The whole configuration.
#[derive(Debug)]
pub struct Config {
    pub daemon: Option<DaemonConfig>,
    pub environment_provider: Option<String>,
    pub task_provider: Option<String>,
    pub projects: Option<Vec<(String, ProjectConfig)>>,
    pub tasks: Option<TasksConfig>,
    pub environments: Option<EnvironmentsConfig>,
}

/// A provider name that the configuration does not hold.
#[derive(Clone, Copy, Debug, PartialEq, Eq, Structural)]
pub enum ConfigError {
    TaskProviderNotFound,
    EnvironmentProviderNotFound,
}

impl ConfigError {
    /// The start of the message; the provider's name follows it.
    pub open spec fn text(self) -> Seq<char> {
        match self {
            ConfigError::TaskProviderNotFound => "task provider not found: "@,
            ConfigError::EnvironmentProviderNotFound => "environment provider not found in config: "@,
        }
    }

    /// The message for the provider `name`.
    pub fn message(self, name: &str) -> (r: String)
        ensures
            r@ == self.text() + name@,
    {
        match self {
            ConfigError::TaskProviderNotFound => String::from_str("task provider not found: ").concat(name),
            ConfigError::EnvironmentProviderNotFound => String::from_str(
                "environment provider not found in config: ",
            ).concat(name),
        }
    }
}

/// The names of a list of named entries.
pub open spec fn entry_names<T>(entries: Seq<(String, T)>) -> Seq<Seq<char>> {
    Seq::new(entries.len(), |i: int| entries[i].0@)
}

/// The first entry with the given name.
pub fn lookup<T>(entries: &Vec<(String, T)>, name: &str) -> (r: Option<usize>)
    ensures
        match r {
            Some(i) => position(entry_names(entries@), name@) == Some(i as int) && i < entries.len(),
            None => position(entry_names(entries@), name@) is None,
        },
{
    let ghost names = entry_names(entries@);
    let mut i: usize = 0;
    while i < entries.len()
        invariant
            i <= entries.len(),
            names == entry_names(entries@),
            forall|j: int| 0 <= j < i ==> names[j] != name@,
        decreases entries.len() - i,
    {
        if str_eq(entries[i].0.as_str(), name) {
            proof {
                lemma_position_is(names, name@, i as int);
            }
            return Some(i);
        }
        i += 1;
    }
    None
}

impl Default for Config {
    fn default() -> (r: Config)
        ensures
            r.daemon is None,
            r.environment_provider is None,
            r.task_provider is None,
            r.projects is None,
            r.tasks is None,
            r.environments is None,
    {
        Config {
            daemon: None,
            environment_provider: None,
            task_provider: None,
            projects: None,
            tasks: None,
            environments: None,
        }
    }
}

impl Config {
    /// The defaults of the project `name`, where the configuration has any.
    pub open spec fn project(&self, name: Seq<char>) -> Option<ProjectConfig> {
        match self.projects {
            Some(projects) => match position(entry_names(projects@), name) {
                Some(i) => Some(projects@[i].1),
                None => None,
            },
            None => None,
        }
    }

    /// The task provider that a project uses by default: its own, else
    /// the global one.
    pub open spec fn default_task_provider(&self, project_name: Seq<char>) -> Option<Seq<char>> {
        match self.project(project_name) {
            Some(p) if p.task_provider is Some => p.task_provider.deep_view(),
            _ => self.task_provider.deep_view(),
        }
    }

    /// The environment provider that a project uses by default: its own,
    /// else the global one.
    pub open spec fn default_environment_provider(&self, project_name: Seq<char>) -> Option<Seq<char>> {
        match self.project(project_name) {
            Some(p) if p.environment_provider is Some => p.environment_provider.deep_view(),
            _ => self.environment_provider.deep_view(),
        }
    }

    /// The task provider entry `name`, where there is one.
    pub open spec fn task_provider_entry(&self, name: Seq<char>) -> Option<TaskProviderConfig> {
        match self.tasks {
            Some(t) => match position(entry_names(t.providers@), name) {
                Some(i) => Some(t.providers@[i].1),
                None => None,
            },
            None => None,
        }
    }

    /// The environment provider entry `name`, where there is one.
    pub open spec fn environment_provider_entry(&self, name: Seq<char>) -> Option<EnvironmentProviderConfig> {
        match self.environments {
            Some(e) => match position(entry_names(e.providers@), name) {
                Some(i) => Some(e.providers@[i].1),
                None => None,
            },
            None => None,
        }
    }

    fn project_config(&self, name: &str) -> (r: Option<&ProjectConfig>)
        ensures
            match r {
                Some(p) => self.project(name@) == Some(*p),
                None => self.project(name@) is None,
            },
    {
        match &self.projects {
            Some(projects) => match lookup(projects, name) {
                Some(i) => Some(&projects[i].1),
                None => None,
            },
            None => None,
        }
    }

    /// The task provider that a project uses by default.
    pub fn default_task_provider_for_project(&self, project_name: &str) -> (r: Option<String>)
        ensures
            r.deep_view() == self.default_task_provider(project_name@),
    {
        match self.project_config(project_name) {
            Some(p) => match &p.task_provider {
                Some(name) => Some(name.clone()),
                None => clone_opt(&self.task_provider),
            },
            None => clone_opt(&self.task_provider),
        }
    }

    /// The environment provider that a project uses by default.
    pub fn default_environment_provider_for_project(&self, project_name: &str) -> (r: Option<String>)
        ensures
            r.deep_view() == self.default_environment_provider(project_name@),
    {
        match self.project_config(project_name) {
            Some(p) => match &p.environment_provider {
                Some(name) => Some(name.clone()),
                None => clone_opt(&self.environment_provider),
            },
            None => clone_opt(&self.environment_provider),
        }
    }

    /// The task provider entry with the given name.
    pub fn get_task_provider(&self, name: &str) -> (r: Result<&TaskProviderConfig, ConfigError>)
        ensures
            match self.task_provider_entry(name@) {
                Some(entry) => r is Ok && *r->Ok_0 == entry,
                None => r is Err && r->Err_0 == ConfigError::TaskProviderNotFound,
            },
    {
        match &self.tasks {
            Some(t) => match lookup(&t.providers, name) {
                Some(i) => Ok(&t.providers[i].1),
                None => Err(ConfigError::TaskProviderNotFound),
            },
            None => Err(ConfigError::TaskProviderNotFound),
        }
    }

    /// The environment provider entry with the given name.
    pub fn get_environment_provider(&self, name: &str) -> (r: Result<
        &EnvironmentProviderConfig,
        ConfigError,
    >)
        ensures
            match self.environment_provider_entry(name@) {
                Some(entry) => r is Ok && *r->Ok_0 == entry,
                None => r is Err && r->Err_0 == ConfigError::EnvironmentProviderNotFound,
            },
    {
        match &self.environments {
            Some(e) => match lookup(&e.providers, name) {
                Some(i) => Ok(&e.providers[i].1),
                None => Err(ConfigError::EnvironmentProviderNotFound),
            },
            None => Err(ConfigError::EnvironmentProviderNotFound),
        }
    }
}

} // verus!
