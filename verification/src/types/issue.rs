use vstd::prelude::*;
use super::{Cycle, Project, Team, User};

verus! {

/// An issue, with the records it refers to.
#[derive(Debug, Clone)]
pub struct Issue {
    pub id: String,
    /// The human-facing identifier: team key and sequence number.
    pub identifier: String,
    pub title: String,
    pub description: Option<String>,
    pub priority: i32,
    pub state: Option<WorkflowState>,
    pub assignee: Option<User>,
    pub team: Team,
    pub project: Option<Project>,
    pub cycle: Option<Cycle>,
    pub created_at: String,
    pub updated_at: String,
}

/// The workflow state an issue is in.
#[derive(Debug, Clone)]
pub struct WorkflowState {
    pub id: String,
    pub name: String,
    pub color: String,
}

} // verus!
