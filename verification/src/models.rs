//! The records the server stores and serves. Times are whole seconds since
//! the Unix epoch, in UTC.

use vstd::prelude::*;
use crate::text::{concat3, owned};

verus! {

/// A registered repository.
#[derive(Debug, Clone)]
pub struct Project {
    pub id: String,
    pub name: String,
    pub repo_url: String,
    pub dist_path: String,
    pub build_branch: String,
    /// When true, the remote is fetched periodically and `auto_run_task` is
    /// run when new commits appear.
    pub auto_run_on_change: bool,
    /// Basename of a `.mini-ci/*.sh` script (e.g. `build.sh`).
    pub auto_run_task: String,
    pub created_at: i64,
}

/// The body of a request that registers a project.
#[derive(Debug, Clone)]
pub struct CreateProject {
    pub name: String,
    pub repo_url: String,
    pub dist_path: String,
    pub build_branch: String,
    pub auto_run_on_change: bool,
    pub auto_run_task: String,
}

/// The body of a request that changes a project's automatic runs.
#[derive(Debug, Clone)]
pub struct PatchProject {
    pub auto_run_on_change: bool,
    pub auto_run_task: String,
}

/// One run of a task, with its whole log.
#[derive(Debug, Clone)]
pub struct RunRow {
    pub id: String,
    pub project_id: String,
    pub task_name: String,
    pub status: String,
    pub log: String,
    pub started_at: Option<i64>,
    pub finished_at: Option<i64>,
}

/// Run fields without the log body; `log_char_len` counts the log's
/// characters, the unit of incremental log offsets.
#[derive(Debug, Clone)]
pub struct RunMeta {
    pub id: String,
    pub project_id: String,
    pub task_name: String,
    pub status: String,
    pub log_char_len: usize,
    pub started_at: Option<i64>,
    pub finished_at: Option<i64>,
}

/// The body of a request that starts a task.
#[derive(Debug, Clone)]
pub struct RunTaskBody {
    pub task_name: String,
}

/// A task that a repository offers.
#[derive(Debug, Clone)]
pub struct TaskInfo {
    pub name: String,
}

/// A stored zip of a project's build output.
#[derive(Debug, Clone)]
pub struct ArtifactRow {
    pub id: String,
    pub project_id: String,
    pub filename: String,
    pub rel_path: String,
    pub bytes: u64,
    pub created_at: i64,
}

/// The state of a run.
#[derive(Debug, Clone, Copy, PartialEq, Eq, Structural)]
pub enum RunStatus {
    Running,
    Success,
    Failed,
}

/// The text under which a status is stored and served.
pub open spec fn status_text(s: RunStatus) -> Seq<char> {
    match s {
        RunStatus::Running => "running"@,
        RunStatus::Success => "success"@,
        RunStatus::Failed => "failed"@,
    }
}

impl RunStatus {
    /// The text under which this status is stored and served.
    pub fn as_string(&self) -> (res: String)
        ensures
            res@ == status_text(*self),
    {
        match self {
            RunStatus::Running => owned("running"),
            RunStatus::Success => owned("success"),
            RunStatus::Failed => owned("failed"),
        }
    }
}

impl Project {
    /// A new project from a creation request, with its id and creation time.
    pub fn from_request(id: String, created_at: i64, body: CreateProject) -> (res: Project)
        ensures
            res.id == id,
            res.name == body.name,
            res.repo_url == body.repo_url,
            res.dist_path == body.dist_path,
            res.build_branch == body.build_branch,
            res.auto_run_on_change == body.auto_run_on_change,
            res.auto_run_task == body.auto_run_task,
            res.created_at == created_at,
    {
        Project {
            id,
            name: body.name,
            repo_url: body.repo_url,
            dist_path: body.dist_path,
            build_branch: body.build_branch,
            auto_run_on_change: body.auto_run_on_change,
            auto_run_task: body.auto_run_task,
            created_at,
        }
    }

    /// Sets the automatic-run settings from a patch request; nothing else
    /// changes.
    pub fn apply_patch(&mut self, patch: PatchProject)
        ensures
            final(self).auto_run_on_change == patch.auto_run_on_change,
            final(self).auto_run_task == patch.auto_run_task,
            final(self).id == old(self).id,
            final(self).name == old(self).name,
            final(self).repo_url == old(self).repo_url,
            final(self).dist_path == old(self).dist_path,
            final(self).build_branch == old(self).build_branch,
            final(self).created_at == old(self).created_at,
    {
        self.auto_run_on_change = patch.auto_run_on_change;
        self.auto_run_task = patch.auto_run_task;
    }
}

impl RunRow {
    /// The row of a run that has just started: status `running`, empty log,
    /// not finished.
    pub fn started(id: String, project_id: String, task_name: String, started_at: i64) -> (res:
        RunRow)
        ensures
            res.id == id,
            res.project_id == project_id,
            res.task_name == task_name,
            res.status@ == status_text(RunStatus::Running),
            res.log@ == Seq::<char>::empty(),
            res.started_at == Some(started_at),
            res.finished_at is None,
    {
        RunRow {
            id,
            project_id,
            task_name,
            status: RunStatus::Running.as_string(),
            log: String::new(),
            started_at: Some(started_at),
            finished_at: None,
        }
    }

    /// Whether this run belongs to the project `project_id`; a run is only
    /// served or deleted under its own project.
    pub fn in_project(&self, project_id: &str) -> (res: bool)
        ensures
            res == (self.project_id@ == project_id@),
    {
        let other = owned(project_id);
        self.project_id == other
    }
}

impl ArtifactRow {
    /// The row of a newly stored artifact; its relative path is
    /// `<project-id>/<filename>`.
    pub fn stored(id: String, project_id: String, filename: String, bytes: u64, created_at: i64)
        -> (res: ArtifactRow)
        ensures
            res.id == id,
            res.project_id == project_id,
            res.filename == filename,
            res.rel_path@ == project_id@ + "/"@ + filename@,
            res.bytes == bytes,
            res.created_at == created_at,
    {
        let rel_path = concat3(project_id.as_str(), "/", filename.as_str());
        ArtifactRow { id, project_id, filename, rel_path, bytes, created_at }
    }
}

} // verus!
