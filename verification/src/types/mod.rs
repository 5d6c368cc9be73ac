//! The records of the issue-tracking service.

pub mod attachment;
pub mod cycle;
pub mod issue;
pub mod priority;
pub mod project;
pub mod relation;
pub mod team;
pub mod user;

pub use attachment::Attachment;
pub use cycle::Cycle;
pub use issue::{Issue, WorkflowState};
pub use priority::Priority;
pub use project::Project;
pub use relation::{IssueRelation, IssueRelationType, RelatedIssueRef};
pub use team::Team;
pub use user::User;
