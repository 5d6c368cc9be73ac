//! What each command decides and shows.

pub mod attachments;
pub mod comments;
pub mod cycles;
pub mod images;
pub mod init;
pub mod issues;
pub mod labels;
pub mod projects;
pub mod relations;
pub mod teams;
