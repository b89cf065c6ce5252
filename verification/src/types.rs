use vstd::prelude::*;

verus! {

/// States for commit statuses, pipelines and jobs.
#[derive(Clone, Copy, Debug, PartialEq, Eq, Structural)]
pub enum StatusState {
    Created,
    WaitingForResource,
    Preparing,
    Pending,
    Running,
    Success,
    Failed,
    Canceled,
    Skipped,
    Manual,
    Scheduled,
}

/// What is printed of a job.
#[derive(Clone, Debug, PartialEq, Eq)]
pub struct Job {
    pub id: u64,
    pub status: StatusState,
    pub stage: String,
    pub name: String,
    pub web_url: String,
}

/// What is printed of a pipeline.
#[derive(Clone, Debug, PartialEq, Eq)]
pub struct PipelineBasic {
    pub id: u64,
    pub status: StatusState,
    pub web_url: String,
}

/// What is printed of a project.
#[derive(Clone, Debug, PartialEq, Eq)]
pub struct Project {
    pub id: u64,
    pub name_with_namespace: String,
    pub web_url: String,
}

/// A `Job` as contracts see it.
pub struct JobView {
    pub id: nat,
    pub status: StatusState,
    pub stage: Seq<char>,
    pub name: Seq<char>,
    pub web_url: Seq<char>,
}

/// A `PipelineBasic` as contracts see it.
pub struct PipelineView {
    pub id: nat,
    pub status: StatusState,
    pub web_url: Seq<char>,
}

/// A `Project` as contracts see it.
pub struct ProjectView {
    pub id: nat,
    pub name_with_namespace: Seq<char>,
    pub web_url: Seq<char>,
}

impl View for Job {
    type V = JobView;

    open spec fn view(&self) -> JobView {
        JobView {
            id: self.id as nat,
            status: self.status,
            stage: self.stage@,
            name: self.name@,
            web_url: self.web_url@,
        }
    }
}

impl View for PipelineBasic {
    type V = PipelineView;

    open spec fn view(&self) -> PipelineView {
        PipelineView { id: self.id as nat, status: self.status, web_url: self.web_url@ }
    }
}

impl View for Project {
    type V = ProjectView;

    open spec fn view(&self) -> ProjectView {
        ProjectView {
            id: self.id as nat,
            name_with_namespace: self.name_with_namespace@,
            web_url: self.web_url@,
        }
    }
}

/// The name that a status is printed by.
pub open spec fn status_text(status: StatusState) -> Seq<char> {
    match status {
        StatusState::Created => "Created"@,
        StatusState::WaitingForResource => "WaitingForResource"@,
        StatusState::Preparing => "Preparing"@,
        StatusState::Pending => "Pending"@,
        StatusState::Running => "Running"@,
        StatusState::Success => "Success"@,
        StatusState::Failed => "Failed"@,
        StatusState::Canceled => "Canceled"@,
        StatusState::Skipped => "Skipped"@,
        StatusState::Manual => "Manual"@,
        StatusState::Scheduled => "Scheduled"@,
    }
}

impl StatusState {
    /// The name of the status.
    pub fn name(self) -> (text: &'static str)
        ensures
            text@ == status_text(self),
    {
        match self {
            StatusState::Created => "Created",
            StatusState::WaitingForResource => "WaitingForResource",
            StatusState::Preparing => "Preparing",
            StatusState::Pending => "Pending",
            StatusState::Running => "Running",
            StatusState::Success => "Success",
            StatusState::Failed => "Failed",
            StatusState::Canceled => "Canceled",
            StatusState::Skipped => "Skipped",
            StatusState::Manual => "Manual",
            StatusState::Scheduled => "Scheduled",
        }
    }
}

} // verus!
