//! The rows of the store and their mathematical views.

use vstd::prelude::*;

verus! {

/// Why a store operation was refused.
#[derive(Clone, Copy, Debug, PartialEq, Eq, Structural)]
pub enum StoreError {
    /// The row asked for does not exist.
    NotFound,
    /// A row with the same unique key exists already.
    Duplicate,
    /// A business rule forbids the operation.
    Conflict,
    /// The row is not in the status that the operation starts from.
    InvalidState,
    /// The store itself failed.
    Storage,
}

/// Lifecycle status of an environment.
#[derive(Clone, Copy, Debug, PartialEq, Eq, Structural)]
pub enum EnvironmentStatus {
    Preparing,
    Pool,
    InUse,
    Removing,
    Failed,
}

/// Lifecycle status of a task.
#[derive(Clone, Copy, Debug, PartialEq, Eq, Structural)]
pub enum TaskStatus {
    Pending,
    Started,
    Complete,
    Failed,
}

/// Queue status of a job.
#[derive(Clone, Copy, Debug, PartialEq, Eq, Structural)]
pub enum JobStatus {
    Pending,
    Running,
    Complete,
    Failed,
}

/// The closed set of job kinds.
#[derive(Clone, Copy, Debug, PartialEq, Eq, Structural)]
pub enum JobType {
    PrepareEnvironment,
    UpdateEnvironment,
    ClaimEnvironment,
    RemoveEnvironment,
    RemoveTask,
    RunTask,
}

impl StoreError {
    /// A short description of the error.
    pub open spec fn text(self) -> Seq<char> {
        match self {
            StoreError::NotFound => "not found"@,
            StoreError::Duplicate => "duplicate"@,
            StoreError::Conflict => "conflict"@,
            StoreError::InvalidState => "invalid state"@,
            StoreError::Storage => "storage failure"@,
        }
    }

    /// A short description of the error.
    pub fn as_str(self) -> (r: &'static str)
        ensures
            r@ == self.text(),
    {
        match self {
            StoreError::NotFound => "not found",
            StoreError::Duplicate => "duplicate",
            StoreError::Conflict => "conflict",
            StoreError::InvalidState => "invalid state",
            StoreError::Storage => "storage failure",
        }
    }
}

impl EnvironmentStatus {
    /// The status as it is written in the store and on the wire.
    pub open spec fn name(self) -> Seq<char> {
        match self {
            EnvironmentStatus::Preparing => "preparing"@,
            EnvironmentStatus::Pool => "pool"@,
            EnvironmentStatus::InUse => "in_use"@,
            EnvironmentStatus::Removing => "removing"@,
            EnvironmentStatus::Failed => "failed"@,
        }
    }

    /// The status as text.
    pub fn as_str(self) -> (r: &'static str)
        ensures
            r@ == self.name(),
    {
        match self {
            EnvironmentStatus::Preparing => "preparing",
            EnvironmentStatus::Pool => "pool",
            EnvironmentStatus::InUse => "in_use",
            EnvironmentStatus::Removing => "removing",
            EnvironmentStatus::Failed => "failed",
        }
    }

    /// The status that a text names, if it names one.
    pub open spec fn parse_spec(s: Seq<char>) -> Option<EnvironmentStatus> {
        if s == "preparing"@ {
            Some(EnvironmentStatus::Preparing)
        } else if s == "pool"@ {
            Some(EnvironmentStatus::Pool)
        } else if s == "in_use"@ {
            Some(EnvironmentStatus::InUse)
        } else if s == "removing"@ {
            Some(EnvironmentStatus::Removing)
        } else if s == "failed"@ {
            Some(EnvironmentStatus::Failed)
        } else {
            None
        }
    }

    /// Reads a status from text.
    pub fn parse(s: &str) -> (r: Option<EnvironmentStatus>)
        ensures
            r == Self::parse_spec(s@),
    {
        if crate::text::str_eq(s, "preparing") {
            Some(EnvironmentStatus::Preparing)
        } else if crate::text::str_eq(s, "pool") {
            Some(EnvironmentStatus::Pool)
        } else if crate::text::str_eq(s, "in_use") {
            Some(EnvironmentStatus::InUse)
        } else if crate::text::str_eq(s, "removing") {
            Some(EnvironmentStatus::Removing)
        } else if crate::text::str_eq(s, "failed") {
            Some(EnvironmentStatus::Failed)
        } else {
            None
        }
    }
}

impl TaskStatus {
    /// The status as it is written in the store and on the wire.
    pub open spec fn name(self) -> Seq<char> {
        match self {
            TaskStatus::Pending => "pending"@,
            TaskStatus::Started => "started"@,
            TaskStatus::Complete => "complete"@,
            TaskStatus::Failed => "failed"@,
        }
    }

    /// The status as text.
    pub fn as_str(self) -> (r: &'static str)
        ensures
            r@ == self.name(),
    {
        match self {
            TaskStatus::Pending => "pending",
            TaskStatus::Started => "started",
            TaskStatus::Complete => "complete",
            TaskStatus::Failed => "failed",
        }
    }

    /// The status that a text names, if it names one.
    pub open spec fn parse_spec(s: Seq<char>) -> Option<TaskStatus> {
        if s == "pending"@ {
            Some(TaskStatus::Pending)
        } else if s == "started"@ {
            Some(TaskStatus::Started)
        } else if s == "complete"@ {
            Some(TaskStatus::Complete)
        } else if s == "failed"@ {
            Some(TaskStatus::Failed)
        } else {
            None
        }
    }

    /// Reads a status from text.
    pub fn parse(s: &str) -> (r: Option<TaskStatus>)
        ensures
            r == Self::parse_spec(s@),
    {
        if crate::text::str_eq(s, "pending") {
            Some(TaskStatus::Pending)
        } else if crate::text::str_eq(s, "started") {
            Some(TaskStatus::Started)
        } else if crate::text::str_eq(s, "complete") {
            Some(TaskStatus::Complete)
        } else if crate::text::str_eq(s, "failed") {
            Some(TaskStatus::Failed)
        } else {
            None
        }
    }

    /// Complete and failed tasks are terminal.
    pub open spec fn is_terminal(self) -> bool {
        self == TaskStatus::Complete || self == TaskStatus::Failed
    }

    /// Decides [`TaskStatus::is_terminal`].
    pub fn terminal(self) -> (r: bool)
        ensures
            r == self.is_terminal(),
    {
        match self {
            TaskStatus::Complete | TaskStatus::Failed => true,
            _ => false,
        }
    }
}

impl JobStatus {
    /// The status as it is written in the store and on the wire.
    pub open spec fn name(self) -> Seq<char> {
        match self {
            JobStatus::Pending => "pending"@,
            JobStatus::Running => "running"@,
            JobStatus::Complete => "complete"@,
            JobStatus::Failed => "failed"@,
        }
    }

    /// The status as text.
    pub fn as_str(self) -> (r: &'static str)
        ensures
            r@ == self.name(),
    {
        match self {
            JobStatus::Pending => "pending",
            JobStatus::Running => "running",
            JobStatus::Complete => "complete",
            JobStatus::Failed => "failed",
        }
    }

    /// The status that a text names, if it names one.
    pub open spec fn parse_spec(s: Seq<char>) -> Option<JobStatus> {
        if s == "pending"@ {
            Some(JobStatus::Pending)
        } else if s == "running"@ {
            Some(JobStatus::Running)
        } else if s == "complete"@ {
            Some(JobStatus::Complete)
        } else if s == "failed"@ {
            Some(JobStatus::Failed)
        } else {
            None
        }
    }

    /// Reads a status from text.
    pub fn parse(s: &str) -> (r: Option<JobStatus>)
        ensures
            r == Self::parse_spec(s@),
    {
        if crate::text::str_eq(s, "pending") {
            Some(JobStatus::Pending)
        } else if crate::text::str_eq(s, "running") {
            Some(JobStatus::Running)
        } else if crate::text::str_eq(s, "complete") {
            Some(JobStatus::Complete)
        } else if crate::text::str_eq(s, "failed") {
            Some(JobStatus::Failed)
        } else {
            None
        }
    }

    /// Pending and running jobs are active; complete and failed ones are terminal.
    pub open spec fn is_active(self) -> bool {
        self == JobStatus::Pending || self == JobStatus::Running
    }

    /// Decides [`JobStatus::is_active`].
    pub fn active(self) -> (r: bool)
        ensures
            r == self.is_active(),
    {
        match self {
            JobStatus::Pending | JobStatus::Running => true,
            _ => false,
        }
    }
}

impl JobType {
    /// The name of the job kind, as it is written in the store, in dedupe
    /// keys and in logs.
    pub open spec fn name(self) -> Seq<char> {
        match self {
            JobType::PrepareEnvironment => "prepare_environment"@,
            JobType::UpdateEnvironment => "update_environment"@,
            JobType::ClaimEnvironment => "claim_environment"@,
            JobType::RemoveEnvironment => "remove_environment"@,
            JobType::RemoveTask => "remove_task"@,
            JobType::RunTask => "run_task"@,
        }
    }

    /// The name of the job kind.
    pub fn as_str(self) -> (r: &'static str)
        ensures
            r@ == self.name(),
    {
        match self {
            JobType::PrepareEnvironment => "prepare_environment",
            JobType::UpdateEnvironment => "update_environment",
            JobType::ClaimEnvironment => "claim_environment",
            JobType::RemoveEnvironment => "remove_environment",
            JobType::RemoveTask => "remove_task",
            JobType::RunTask => "run_task",
        }
    }

    /// The job kind that a text names, if it names one.
    pub open spec fn parse_spec(s: Seq<char>) -> Option<JobType> {
        if s == "prepare_environment"@ {
            Some(JobType::PrepareEnvironment)
        } else if s == "update_environment"@ {
            Some(JobType::UpdateEnvironment)
        } else if s == "claim_environment"@ {
            Some(JobType::ClaimEnvironment)
        } else if s == "remove_environment"@ {
            Some(JobType::RemoveEnvironment)
        } else if s == "remove_task"@ {
            Some(JobType::RemoveTask)
        } else if s == "run_task"@ {
            Some(JobType::RunTask)
        } else {
            None
        }
    }

    /// Reads a job kind from text; `None` for an unknown kind.
    pub fn parse(s: &str) -> (r: Option<JobType>)
        ensures
            r == Self::parse_spec(s@),
    {
        if crate::text::str_eq(s, "prepare_environment") {
            Some(JobType::PrepareEnvironment)
        } else if crate::text::str_eq(s, "update_environment") {
            Some(JobType::UpdateEnvironment)
        } else if crate::text::str_eq(s, "claim_environment") {
            Some(JobType::ClaimEnvironment)
        } else if crate::text::str_eq(s, "remove_environment") {
            Some(JobType::RemoveEnvironment)
        } else if crate::text::str_eq(s, "remove_task") {
            Some(JobType::RemoveTask)
        } else if crate::text::str_eq(s, "run_task") {
            Some(JobType::RunTask)
        } else {
            None
        }
    }
}

/// A user-declared project.
#[derive(Debug)]
pub struct Project {
    pub id: String,
    pub name: String,
    pub path: String,
    pub created_at: i64,
    pub updated_at: i64,
}

/// The value of a [`Project`].
pub struct ProjectView {
    pub id: Seq<char>,
    pub name: Seq<char>,
    pub path: Seq<char>,
    pub created_at: int,
    pub updated_at: int,
}

impl View for Project {
    type V = ProjectView;

    open spec fn view(&self) -> ProjectView {
        ProjectView {
            id: self.id@,
            name: self.name@,
            path: self.path@,
            created_at: self.created_at as int,
            updated_at: self.updated_at as int,
        }
    }
}

impl DeepView for Project {
    type V = ProjectView;

    open spec fn deep_view(&self) -> ProjectView {
        self@
    }
}

/// A prepared workspace owned by a provider. `metadata` is the provider's
/// own JSON document, kept as text.
#[derive(Debug)]
pub struct Environment {
    pub id: String,
    pub project_id: String,
    pub provider: String,
    pub status: EnvironmentStatus,
    pub metadata: String,
    pub created_at: i64,
    pub updated_at: i64,
}

/// The value of an [`Environment`].
pub struct EnvironmentView {
    pub id: Seq<char>,
    pub project_id: Seq<char>,
    pub provider: Seq<char>,
    pub status: EnvironmentStatus,
    pub metadata: Seq<char>,
    pub created_at: int,
    pub updated_at: int,
}

impl View for Environment {
    type V = EnvironmentView;

    open spec fn view(&self) -> EnvironmentView {
        EnvironmentView {
            id: self.id@,
            project_id: self.project_id@,
            provider: self.provider@,
            status: self.status,
            metadata: self.metadata@,
            created_at: self.created_at as int,
            updated_at: self.updated_at as int,
        }
    }
}

impl DeepView for Environment {
    type V = EnvironmentView;

    open spec fn deep_view(&self) -> EnvironmentView {
        self@
    }
}

/// A unit of work that runs inside one environment.
#[derive(Debug)]
pub struct Task {
    pub id: String,
    pub environment_id: String,
    pub project_id: String,
    pub provider: String,
    pub description: String,
    pub status: TaskStatus,
    pub created_at: i64,
    pub updated_at: i64,
}

/// The value of a [`Task`].
pub struct TaskView {
    pub id: Seq<char>,
    pub environment_id: Seq<char>,
    pub project_id: Seq<char>,
    pub provider: Seq<char>,
    pub description: Seq<char>,
    pub status: TaskStatus,
    pub created_at: int,
    pub updated_at: int,
}

impl View for Task {
    type V = TaskView;

    open spec fn view(&self) -> TaskView {
        TaskView {
            id: self.id@,
            environment_id: self.environment_id@,
            project_id: self.project_id@,
            provider: self.provider@,
            description: self.description@,
            status: self.status,
            created_at: self.created_at as int,
            updated_at: self.updated_at as int,
        }
    }
}

impl DeepView for Task {
    type V = TaskView;

    open spec fn deep_view(&self) -> TaskView {
        self@
    }
}

/// What a job acts on: the entities it names, by id.
#[derive(Debug)]
pub struct JobPayload {
    pub env_id: Option<String>,
    pub task_id: Option<String>,
    pub claim_after_prepare: bool,
}

/// The value of a [`JobPayload`].
pub struct JobPayloadView {
    pub env_id: Option<Seq<char>>,
    pub task_id: Option<Seq<char>>,
    pub claim_after_prepare: bool,
}

impl View for JobPayload {
    type V = JobPayloadView;

    open spec fn view(&self) -> JobPayloadView {
        JobPayloadView {
            env_id: self.env_id.deep_view(),
            task_id: self.task_id.deep_view(),
            claim_after_prepare: self.claim_after_prepare,
        }
    }
}

impl DeepView for JobPayload {
    type V = JobPayloadView;

    open spec fn deep_view(&self) -> JobPayloadView {
        self@
    }
}

/// A unit of deferred work for the worker pool. Timestamps are
/// microseconds since the Unix epoch, UTC.
#[derive(Debug)]
pub struct Job {
    pub id: String,
    pub job_type: JobType,
    pub payload: JobPayload,
    pub status: JobStatus,
    pub attempt: i64,
    pub created_at: i64,
    pub updated_at: i64,
    pub dedupe_key: Option<String>,
    pub not_before: Option<i64>,
    pub lease_expires_at: Option<i64>,
    pub last_error: Option<String>,
}

/// The value of a [`Job`].
pub struct JobView {
    pub id: Seq<char>,
    pub job_type: JobType,
    pub payload: JobPayloadView,
    pub status: JobStatus,
    pub attempt: int,
    pub created_at: int,
    pub updated_at: int,
    pub dedupe_key: Option<Seq<char>>,
    pub not_before: Option<int>,
    pub lease_expires_at: Option<int>,
    pub last_error: Option<Seq<char>>,
}

/// An optional timestamp as an optional integer.
pub open spec fn opt_int(t: Option<i64>) -> Option<int> {
    match t {
        Some(v) => Some(v as int),
        None => None,
    }
}

impl View for Job {
    type V = JobView;

    open spec fn view(&self) -> JobView {
        JobView {
            id: self.id@,
            job_type: self.job_type,
            payload: self.payload@,
            status: self.status,
            attempt: self.attempt as int,
            created_at: self.created_at as int,
            updated_at: self.updated_at as int,
            dedupe_key: self.dedupe_key.deep_view(),
            not_before: opt_int(self.not_before),
            lease_expires_at: opt_int(self.lease_expires_at),
            last_error: self.last_error.deep_view(),
        }
    }
}

impl DeepView for Job {
    type V = JobView;

    open spec fn deep_view(&self) -> JobView {
        self@
    }
}

/// One applied migration in the ledger.
#[derive(Debug)]
pub struct AppliedMigration {
    pub version: i64,
    pub name: String,
    pub applied_at: i64,
}

/// The value of an [`AppliedMigration`].
pub struct AppliedMigrationView {
    pub version: int,
    pub name: Seq<char>,
    pub applied_at: int,
}

impl View for AppliedMigration {
    type V = AppliedMigrationView;

    open spec fn view(&self) -> AppliedMigrationView {
        AppliedMigrationView {
            version: self.version as int,
            name: self.name@,
            applied_at: self.applied_at as int,
        }
    }
}

impl DeepView for AppliedMigration {
    type V = AppliedMigrationView;

    open spec fn deep_view(&self) -> AppliedMigrationView {
        self@
    }
}

/// The whole store: one table per kind of row, in insertion order.
#[derive(Debug)]
pub struct Store {
    pub projects: Vec<Project>,
    pub environments: Vec<Environment>,
    pub tasks: Vec<Task>,
    pub jobs: Vec<Job>,
    pub migrations: Vec<AppliedMigration>,
}

/// The value of a [`Store`].
pub struct StoreView {
    pub projects: Seq<ProjectView>,
    pub environments: Seq<EnvironmentView>,
    pub tasks: Seq<TaskView>,
    pub jobs: Seq<JobView>,
    pub migrations: Seq<AppliedMigrationView>,
}

impl View for Store {
    type V = StoreView;

    open spec fn view(&self) -> StoreView {
        StoreView {
            projects: self.projects.deep_view(),
            environments: self.environments.deep_view(),
            tasks: self.tasks.deep_view(),
            jobs: self.jobs.deep_view(),
            migrations: self.migrations.deep_view(),
        }
    }
}

/// A row that can be copied out of its table.
pub trait Row: DeepView + Sized {
    /// A copy with the same value.
    fn duplicate(&self) -> (r: Self)
        ensures
            r.deep_view() == self.deep_view(),
    ;
}

impl Row for Project {
    fn duplicate(&self) -> (r: Project) {
        clone_project(self)
    }
}

impl Row for Environment {
    fn duplicate(&self) -> (r: Environment) {
        clone_environment(self)
    }
}

impl Row for Task {
    fn duplicate(&self) -> (r: Task) {
        clone_task(self)
    }
}

impl Row for Job {
    fn duplicate(&self) -> (r: Job) {
        clone_job(self)
    }
}

/// A copy of a project.
pub fn clone_project(p: &Project) -> (r: Project)
    ensures
        r@ == p@,
{
    Project {
        id: p.id.clone(),
        name: p.name.clone(),
        path: p.path.clone(),
        created_at: p.created_at,
        updated_at: p.updated_at,
    }
}

/// A copy of an environment.
pub fn clone_environment(e: &Environment) -> (r: Environment)
    ensures
        r@ == e@,
{
    Environment {
        id: e.id.clone(),
        project_id: e.project_id.clone(),
        provider: e.provider.clone(),
        status: e.status,
        metadata: e.metadata.clone(),
        created_at: e.created_at,
        updated_at: e.updated_at,
    }
}

/// A copy of a task.
pub fn clone_task(t: &Task) -> (r: Task)
    ensures
        r@ == t@,
{
    Task {
        id: t.id.clone(),
        environment_id: t.environment_id.clone(),
        project_id: t.project_id.clone(),
        provider: t.provider.clone(),
        description: t.description.clone(),
        status: t.status,
        created_at: t.created_at,
        updated_at: t.updated_at,
    }
}

/// A copy of a job payload.
pub fn clone_payload(p: &JobPayload) -> (r: JobPayload)
    ensures
        r@ == p@,
{
    JobPayload {
        env_id: crate::text::clone_opt(&p.env_id),
        task_id: crate::text::clone_opt(&p.task_id),
        claim_after_prepare: p.claim_after_prepare,
    }
}

/// A copy of a job.
pub fn clone_job(j: &Job) -> (r: Job)
    ensures
        r@ == j@,
{
    Job {
        id: j.id.clone(),
        job_type: j.job_type,
        payload: clone_payload(&j.payload),
        status: j.status,
        attempt: j.attempt,
        created_at: j.created_at,
        updated_at: j.updated_at,
        dedupe_key: crate::text::clone_opt(&j.dedupe_key),
        not_before: j.not_before,
        lease_expires_at: j.lease_expires_at,
        last_error: crate::text::clone_opt(&j.last_error),
    }
}

} // verus!
