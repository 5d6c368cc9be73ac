use vstd::prelude::*;

verus! {

/// A link or file attached to an issue.
#[derive(Debug, Clone)]
pub struct Attachment {
    pub id: String,
    pub title: String,
    pub url: Option<String>,
    pub subtitle: Option<String>,
    pub created_at: String,
}

} // verus!
