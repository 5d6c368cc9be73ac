//! The command line as plain values: what was asked for, once the arguments
//! have been read.

use vstd::prelude::*;
use crate::types::{IssueRelationType, Priority};

verus! {

/// How results are presented.
#[derive(Debug, Clone, Copy, PartialEq, Eq, Structural)]
pub enum OutputFormat {
    Table,
    Json,
    Compact,
}

impl Default for OutputFormat {
    fn default() -> (r: OutputFormat)
        ensures
            r == OutputFormat::Table,
    {
        OutputFormat::Table
    }
}

/// The format in force: the `--json` flag wins over `--format`.
pub open spec fn effective_format(format: OutputFormat, json: bool) -> OutputFormat {
    if json {
        OutputFormat::Json
    } else {
        format
    }
}

/// The whole command line.
pub struct Cli {
    pub command: Commands,
    /// Output format (table, json, compact)
    pub format: OutputFormat,
    /// Output as JSON (alias for `--format json`)
    pub json: bool,
    /// Suppress success messages
    pub quiet: bool,
    /// Show detailed error information
    pub verbose: bool,
}

impl Cli {
    /// Get the effective output format, considering --json flag
    pub fn output_format(&self) -> (r: OutputFormat)
        ensures
            r == effective_format(self.format, self.json),
    {
        if self.json {
            OutputFormat::Json
        } else {
            self.format
        }
    }
}

/// What is to be done.
#[allow(inconsistent_fields)]
pub enum Commands {
    /// Manage issues
    Issue { action: IssueCommands },
    /// List issues (alias for 'issue list')
    Issues(IssueListArgs),
    /// List teams
    Teams,
    /// List projects
    Projects { team: Option<String> },
    /// Manage cycles/sprints
    Cycle { action: CycleCommands },
    /// List cycles (alias for 'cycle list')
    Cycles(CycleListArgs),
    /// List labels
    Labels { team: Option<String> },
    /// Generate shell completions for the named shell
    Completions { shell: String },
    /// Initialize configuration file interactively
    Init,
}

/// What is to be done with issues.
#[allow(inconsistent_fields)]
pub enum IssueCommands {
    /// List issues
    List(IssueListArgs),
    /// View issue details
    View(IssueViewArgs),
    /// Download images from an issue's description
    Download(DownloadImagesArgs),
    /// Create a new issue
    Create(IssueCreateArgs),
    /// Update an existing issue
    Update(IssueUpdateArgs),
    /// Close an issue
    Close { id: String },
    /// List attachments on an issue
    Attachments { id: String },
    /// Attach a URL to an issue
    Attach(AttachUrlArgs),
    /// Upload a file and attach it to an issue
    Upload(UploadFileArgs),
    /// List comments on an issue
    Comments { id: String },
    /// Add a comment to an issue
    Comment(CommentArgs),
    /// List issue relations
    Relations { id: String },
    /// Create a relation between two issues
    Relate(RelateArgs),
    /// Remove a relation between two issues
    Unrelate { source: String, target: String },
    /// Set the parent of an issue (creates sub-issue)
    Parent { id: String, parent_id: String },
    /// Remove the parent from an issue
    Unparent { id: String },
}

/// What is to be done with cycles.
pub enum CycleCommands {
    /// List cycles
    List(CycleListArgs),
    /// View cycle details
    View { id: String },
}

/// Which cycles to list.
#[derive(Clone)]
pub struct CycleListArgs {
    /// Filter by team key (e.g., ENG)
    pub team: Option<String>,
}

/// Which issues to list, and how many.
#[derive(Clone)]
pub struct IssueListArgs {
    /// Show only my issues
    pub mine: bool,
    /// Filter by team key (e.g., ENG)
    pub team: Option<String>,
    /// Filter by status name
    pub status: Option<String>,
    /// Filter by project name
    pub project: Option<String>,
    /// Filter by label name
    pub label: Option<String>,
    /// Filter by cycle name
    pub cycle: Option<String>,
    /// Maximum number of issues to show (default: 25, max: 250)
    pub limit: u32,
    /// Fetch all results (may be slow for large result sets)
    pub all: bool,
}

/// The issue to create.
pub struct IssueCreateArgs {
    /// Issue title
    pub title: String,
    /// Issue description
    pub description: Option<String>,
    /// Team key (uses default if not specified)
    pub team: Option<String>,
    /// Project name
    pub project: Option<String>,
    /// Priority level
    pub priority: Option<Priority>,
}

/// The issue to update, and what to change of it.
pub struct IssueUpdateArgs {
    /// Issue identifier (e.g., ENG-123) or UUID
    pub id: String,
    /// New title
    pub title: Option<String>,
    /// New description
    pub description: Option<String>,
    /// New status
    pub status: Option<String>,
    /// New priority level
    pub priority: Option<Priority>,
    /// Assign to user (ID or "me")
    pub assignee: Option<String>,
}

/// The URL to attach, and to which issue.
pub struct AttachUrlArgs {
    /// Issue identifier (e.g., ENG-123) or UUID
    pub id: String,
    /// URL to attach
    pub url: String,
    /// Title for the attachment
    pub title: Option<String>,
}

/// The file to upload, and to which issue.
pub struct UploadFileArgs {
    /// Issue identifier (e.g., ENG-123) or UUID
    pub id: String,
    /// Path to file to upload
    pub file: String,
    /// Title for the attachment (defaults to filename)
    pub title: Option<String>,
}

/// The comment to add, and to which issue.
pub struct CommentArgs {
    /// Issue identifier (e.g., ENG-123) or UUID
    pub id: String,
    /// Comment body (markdown supported)
    pub body: String,
}

/// The issue to view, and whether to fetch its images.
pub struct IssueViewArgs {
    /// Issue identifier (e.g., ENG-123) or UUID
    pub id: String,
    /// Download images from the issue description
    pub fetch_images: bool,
    /// Output directory for downloaded images
    pub output: Option<String>,
}

/// The issue whose images to download, and where to.
pub struct DownloadImagesArgs {
    /// Issue identifier (e.g., ENG-123) or UUID
    pub id: String,
    /// Output directory for downloaded images
    pub output: String,
    /// Download only image at specific index (1-based)
    pub index: Option<usize>,
}

/// The relation to create.
pub struct RelateArgs {
    /// Source issue identifier (e.g., ENG-123)
    pub source: String,
    /// Relation type
    pub relation: IssueRelationType,
    /// Target issue identifier (e.g., ENG-456)
    pub target: String,
}

} // verus!
