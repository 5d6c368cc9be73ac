//! Comments on an issue.

use vstd::prelude::*;
use vstd::string::StringExecFns;
use crate::cli::CommentArgs;
use crate::clock::unix_now;
use crate::dates::{format_relative_at, relative_text};
use crate::error::{ErrorView, LinearError};
use crate::output::truncate;
use crate::text::{opt_text, replace_char, replaced, truncated};

verus! {

/// The widest comment shown in a table.
pub const BODY_WIDTH: usize = 60;

/// A comment on an issue.
#[derive(Debug, Clone)]
pub struct Comment {
    pub id: String,
    pub body: String,
    pub created_at: String,
    pub user: Option<CommentUser>,
}

/// The author of a comment.
#[derive(Debug, Clone)]
pub struct CommentUser {
    pub id: String,
    pub name: String,
}

/// A row of the table of comments.
pub struct CommentRow {
    pub author: String,
    pub body: String,
    pub created_at: String,
}

/// An issue with its comments.
pub struct IssueWithComments {
    pub comments: Vec<Comment>,
}

/// What is sent to add a comment.
pub struct CommentInput {
    pub issue_id: String,
    pub body: String,
}

/// What a listing shows.
pub enum Listing {
    /// The issue has no comments: the message that says so.
    Nothing(String),
    /// The comments, to be rendered.
    Items(Vec<Comment>),
}

/// The author shown for a comment: `Unknown` where it has none.
pub open spec fn author_text(comment: Comment) -> Seq<char> {
    match comment.user {
        Some(u) => u.name@,
        None => "Unknown"@,
    }
}

/// The body shown for a comment: on one line, cut to `BODY_WIDTH`.
pub open spec fn body_text(comment: Comment) -> Seq<char> {
    truncated(replaced(comment.body@, '\n', " "@), BODY_WIDTH as nat)
}

impl CommentRow {
    /// The headers of the table's columns, in order.
    pub fn headers() -> (h: Vec<&'static str>)
        ensures
            h@.len() == 3,
            h@[0]@ == "Author"@,
            h@[1]@ == "Comment"@,
            h@[2]@ == "When"@,
    {
        let mut h: Vec<&'static str> = Vec::new();
        h.push("Author");
        h.push("Comment");
        h.push("When");
        h
    }

    /// The cells of the row, in the order of the columns.
    pub fn cells(&self) -> (c: Vec<String>)
        ensures
            c@.len() == 3,
            c@[0]@ == self.author@,
            c@[1]@ == self.body@,
            c@[2]@ == self.created_at@,
    {
        let mut c: Vec<String> = Vec::new();
        c.push(self.author.clone());
        c.push(self.body.clone());
        c.push(self.created_at.clone());
        c
    }
}

impl CommentRow {
    /// The row that shows a comment at `now`, in seconds since the Unix epoch.
    pub fn from_at(comment: &Comment, now: u64) -> (row: CommentRow)
        ensures
            row.author@ == author_text(*comment),
            row.body@ == body_text(*comment),
            row.created_at@ == relative_text(comment.created_at@, now),
    {
        let one_line = replace_char(comment.body.as_str(), '\n', " ");
        CommentRow {
            author: match &comment.user {
                Some(u) => u.name.clone(),
                None => String::from_str("Unknown"),
            },
            body: truncate(one_line.as_str(), BODY_WIDTH),
            created_at: format_relative_at(comment.created_at.as_str(), now),
        }
    }

    /// The row that shows a comment now.
    pub fn from(comment: &Comment) -> (row: CommentRow)
        ensures
            row.author@ == author_text(*comment),
            row.body@ == body_text(*comment),
            exists|now: u64| row.created_at@ == relative_text(comment.created_at@, now),
    {
        let now = unix_now();
        let row = CommentRow::from_at(comment, now);
        assert(row.created_at@ == relative_text(comment.created_at@, now));
        row
    }
}

/// What a listing of comments shows, given what the lookup of the issue
/// gave: a failure without the issue, a message without comments, else the
/// comments.
pub fn list_plan(issue: Option<IssueWithComments>, issue_id: &str) -> (r: Result<
    Listing,
    LinearError,
>)
    ensures
        match issue {
            None => r matches Err(e) && e@ == ErrorView::IssueNotFound(issue_id@),
            Some(i) => if i.comments@.len() == 0 {
                r matches Ok(Listing::Nothing(m)) && m@ == "No comments on "@ + issue_id@
            } else {
                r matches Ok(Listing::Items(items)) && items == i.comments
            },
        },
{
    match issue {
        None => Err(LinearError::IssueNotFound(String::from_str(issue_id))),
        Some(i) => {
            if i.comments.len() == 0 {
                let mut m = String::from_str("No comments on ");
                m.append(issue_id);
                Ok(Listing::Nothing(m))
            } else {
                Ok(Listing::Items(i.comments))
            }
        },
    }
}

/// What is sent to add a comment.
pub fn comment_input(args: &CommentArgs) -> (r: CommentInput)
    ensures
        r.issue_id@ == args.id@,
        r.body@ == args.body@,
{
    CommentInput { issue_id: args.id.clone(), body: args.body.clone() }
}

/// The message for an added comment; none where the service did not report
/// success.
pub fn added_message(success: bool, id: &str) -> (r: Option<String>)
    ensures
        success ==> opt_text(r) == Some("Added comment to "@ + id@),
        !success ==> r is None,
{
    if success {
        let mut m = String::from_str("Added comment to ");
        m.append(id);
        Some(m)
    } else {
        None
    }
}

} // verus!
