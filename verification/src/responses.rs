//! Shared response shapes used across commands.

use vstd::prelude::*;

verus! {

/// Pagination info for cursor-based pagination.
#[derive(Debug, Clone)]
pub struct PageInfo {
    pub has_next_page: bool,
    pub end_cursor: Option<String>,
}

/// A paged collection: the records of one page and where the next one starts.
pub struct Connection<T> {
    pub nodes: Vec<T>,
    pub page_info: PageInfo,
}

/// Viewer (current user) response.
pub struct ViewerResponse {
    pub viewer: Viewer,
}

/// The authenticated user.
pub struct Viewer {
    pub id: String,
}

/// Workflow state for status lookups.
#[derive(Debug, Clone)]
pub struct WorkflowStateNode {
    pub id: String,
    pub name: String,
    /// The category of the state: `unstarted`, `started`, `completed`, `canceled`, ...
    pub state_type: String,
}

/// Team node with minimal fields for ID lookups.
pub struct TeamNode {
    pub id: String,
}

/// Minimal issue info returned after create/update.
pub struct CreatedIssue {
    pub identifier: String,
    pub title: String,
}

} // verus!
