//! The store: projects, environments, tasks, jobs and the migration ledger,
//! with the operations that the lifecycle is built from.

pub mod entities;
pub mod jobs;
pub mod laws;
pub mod migrations;
pub mod query;
pub mod staging;
pub mod types;

pub use types::{
    AppliedMigration, AppliedMigrationView, Environment, EnvironmentStatus, EnvironmentView, Job,
    JobPayload, JobPayloadView, JobStatus, JobType, JobView, Project, ProjectView, Store,
    StoreError, StoreView, Task, TaskStatus, TaskView,
};

pub use entities::{
    claim_environment_tx, complete_preparing_environment, create_project, delete_environment,
    delete_project, delete_task_and_environment, get_environment, get_project,
    get_project_by_name, get_task, list_environments, list_projects, list_tasks, start_task,
    update_environment_metadata, update_environment_status, update_task_status,
};
pub use jobs::{
    claim_pending_jobs, create_job_with_dedupe, get_job, insert_job_tx, mark_job_complete,
    mark_job_failed, refresh_job_lease, requeue_job,
};
pub use migrations::{initialize, Migration};
pub use staging::{
    Staged, force_delete_environment, force_delete_task, stage_claim_environment,
    stage_claim_next_environment, stage_prepare_environment, stage_remove_environment,
    stage_remove_task, stage_task_create, stage_update_environment,
};
