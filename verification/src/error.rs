//! The failures this library reports, and the one-line text of each.

use vstd::prelude::*;
use vstd::string::StringExecFns;
use crate::text::{decimal, joined, join_texts, push_decimal, texts};

verus! {

/// Everything that can end a command early.
///
/// Failures that come from the transport, the file system or a codec are held
/// by their message text.
#[derive(Debug)]
pub enum LinearError {
    /// A request could not be sent or its answer could not be read; holds the transport's message.
    Http(String),
    /// A file operation failed; holds the system's message.
    Io(String),
    /// A document could not be encoded or decoded; holds the codec's message.
    Json(String),
    /// The service answered with a status outside the success range.
    ApiError { status: u16, message: String },
    /// The service answered with a list of application-level errors.
    GraphQL { messages: Vec<String> },
    /// The service answered with success but without data.
    EmptyResponse,
    /// The configuration file could not be read.
    ConfigRead { path: String, source: String },
    /// The configuration file could not be parsed.
    ConfigParse { path: String, source: String },
    /// No per-user configuration directory is known.
    NoConfigDir,
    /// Neither the environment nor the configuration holds a credential.
    MissingApiKey,
    /// No team was given and none is configured.
    NoTeam,
    /// No issue has this identifier.
    IssueNotFound(String),
    /// No cycle has this identifier.
    CycleNotFound(String),
    /// No team has this key.
    TeamNotFound(String),
    /// The team has no workflow state of this name.
    WorkflowStateNotFound(String),
    /// The text is no URL.
    InvalidUrl(String),
    /// No file is at this path.
    FileNotFound(String),
    /// The file could not be read.
    FileRead { path: String, source: String },
    /// The upload target refused the file.
    UploadFailed { status: u16, message: String },
    /// An image could not be fetched.
    ImageDownloadFailed { url: String, status: u16 },
    /// The output directory does not exist.
    OutputDirNotFound(String),
    /// The issue has no image at this 1-based position.
    ImageIndexOutOfBounds { index: usize, total: usize },
    /// The issue has no attachment at this 1-based position.
    AttachmentIndexOutOfBounds { index: usize, total: usize },
    /// An attachment could not be fetched.
    AttachmentDownloadFailed { url: String, status: u16 },
    /// The issue has no attachments.
    NoAttachments(String),
    /// No relation links the two issues.
    RelationNotFound(String, String),
    /// No label has this name.
    LabelNotFound(String),
}

/// A failure with its texts as character sequences: what contracts compare.
pub enum ErrorView {
    Http(Seq<char>),
    Io(Seq<char>),
    Json(Seq<char>),
    ApiError { status: u16, message: Seq<char> },
    GraphQL { messages: Seq<Seq<char>> },
    EmptyResponse,
    ConfigRead { path: Seq<char>, source: Seq<char> },
    ConfigParse { path: Seq<char>, source: Seq<char> },
    NoConfigDir,
    MissingApiKey,
    NoTeam,
    IssueNotFound(Seq<char>),
    CycleNotFound(Seq<char>),
    TeamNotFound(Seq<char>),
    WorkflowStateNotFound(Seq<char>),
    InvalidUrl(Seq<char>),
    FileNotFound(Seq<char>),
    FileRead { path: Seq<char>, source: Seq<char> },
    UploadFailed { status: u16, message: Seq<char> },
    ImageDownloadFailed { url: Seq<char>, status: u16 },
    OutputDirNotFound(Seq<char>),
    ImageIndexOutOfBounds { index: usize, total: usize },
    AttachmentIndexOutOfBounds { index: usize, total: usize },
    AttachmentDownloadFailed { url: Seq<char>, status: u16 },
    NoAttachments(Seq<char>),
    RelationNotFound(Seq<char>, Seq<char>),
    LabelNotFound(Seq<char>),
}

impl View for LinearError {
    type V = ErrorView;

    open spec fn view(&self) -> ErrorView {
        match self {
            LinearError::Http(detail) => ErrorView::Http(detail@),
            LinearError::Io(detail) => ErrorView::Io(detail@),
            LinearError::Json(detail) => ErrorView::Json(detail@),
            LinearError::ApiError { status, message } => ErrorView::ApiError { status: *status, message: message@ },
            LinearError::GraphQL { messages } => ErrorView::GraphQL { messages: texts(messages@) },
            LinearError::EmptyResponse => ErrorView::EmptyResponse,
            LinearError::ConfigRead { path, source } => ErrorView::ConfigRead { path: path@, source: source@ },
            LinearError::ConfigParse { path, source } => ErrorView::ConfigParse { path: path@, source: source@ },
            LinearError::NoConfigDir => ErrorView::NoConfigDir,
            LinearError::MissingApiKey => ErrorView::MissingApiKey,
            LinearError::NoTeam => ErrorView::NoTeam,
            LinearError::IssueNotFound(detail) => ErrorView::IssueNotFound(detail@),
            LinearError::CycleNotFound(detail) => ErrorView::CycleNotFound(detail@),
            LinearError::TeamNotFound(detail) => ErrorView::TeamNotFound(detail@),
            LinearError::WorkflowStateNotFound(detail) => ErrorView::WorkflowStateNotFound(detail@),
            LinearError::InvalidUrl(detail) => ErrorView::InvalidUrl(detail@),
            LinearError::FileNotFound(detail) => ErrorView::FileNotFound(detail@),
            LinearError::FileRead { path, source } => ErrorView::FileRead { path: path@, source: source@ },
            LinearError::UploadFailed { status, message } => ErrorView::UploadFailed { status: *status, message: message@ },
            LinearError::ImageDownloadFailed { url, status } => ErrorView::ImageDownloadFailed { url: url@, status: *status },
            LinearError::OutputDirNotFound(detail) => ErrorView::OutputDirNotFound(detail@),
            LinearError::ImageIndexOutOfBounds { index, total } => ErrorView::ImageIndexOutOfBounds { index: *index, total: *total },
            LinearError::AttachmentIndexOutOfBounds { index, total } => ErrorView::AttachmentIndexOutOfBounds { index: *index, total: *total },
            LinearError::AttachmentDownloadFailed { url, status } => ErrorView::AttachmentDownloadFailed { url: url@, status: *status },
            LinearError::NoAttachments(detail) => ErrorView::NoAttachments(detail@),
            LinearError::RelationNotFound(detail, other) => ErrorView::RelationNotFound(detail@, other@),
            LinearError::LabelNotFound(detail) => ErrorView::LabelNotFound(detail@),
        }
    }
}

impl ErrorView {
    /// The one-line text shown for the failure.
    pub open spec fn message(self) -> Seq<char> {
        match self {
            ErrorView::Http(detail) => "HTTP request failed: "@ + detail,
            ErrorView::Io(detail) => "I/O error: "@ + detail,
            ErrorView::Json(detail) => "JSON error: "@ + detail,
            ErrorView::ApiError { status, message } => "API error (status "@ + decimal(status as nat) + "): "@ + message,
            ErrorView::GraphQL { messages } => "GraphQL errors: "@ + joined(messages, ", "@),
            ErrorView::EmptyResponse => "Empty response from API"@,
            ErrorView::ConfigRead { path, source } => "Failed to read config file at "@ + path + ": "@ + source,
            ErrorView::ConfigParse { path, source } => "Failed to parse config file at "@ + path + ": "@ + source,
            ErrorView::NoConfigDir => "Could not determine config directory"@,
            ErrorView::MissingApiKey => "No API key found. Set LINEAR_API_KEY env var or add api_key to ~/.config/linear/config.toml"@,
            ErrorView::NoTeam => "Team not specified and no default_team in config"@,
            ErrorView::IssueNotFound(detail) => "Issue not found: "@ + detail,
            ErrorView::CycleNotFound(detail) => "Cycle not found: "@ + detail,
            ErrorView::TeamNotFound(detail) => "Team not found: "@ + detail,
            ErrorView::WorkflowStateNotFound(detail) => "Workflow state not found: "@ + detail,
            ErrorView::InvalidUrl(detail) => "Invalid URL: "@ + detail,
            ErrorView::FileNotFound(detail) => "File not found: "@ + detail,
            ErrorView::FileRead { path, source } => "Failed to read file "@ + path + ": "@ + source,
            ErrorView::UploadFailed { status, message } => "File upload failed (status "@ + decimal(status as nat) + "): "@ + message,
            ErrorView::ImageDownloadFailed { url, status } => "Image download failed for "@ + url + " (status "@ + decimal(status as nat) + ")"@,
            ErrorView::OutputDirNotFound(detail) => "Output directory not found: "@ + detail,
            ErrorView::ImageIndexOutOfBounds { index, total } => "Image index "@ + decimal(index as nat) + " out of bounds (issue has "@ + decimal(total as nat) + " images)"@,
            ErrorView::AttachmentIndexOutOfBounds { index, total } => "Attachment index "@ + decimal(index as nat) + " out of bounds (issue has "@ + decimal(total as nat) + " attachments)"@,
            ErrorView::AttachmentDownloadFailed { url, status } => "Attachment download failed for "@ + url + " (status "@ + decimal(status as nat) + ")"@,
            ErrorView::NoAttachments(detail) => "No attachments found for issue "@ + detail,
            ErrorView::RelationNotFound(detail, other) => "No relation found between "@ + detail + " and "@ + other,
            ErrorView::LabelNotFound(detail) => "Label not found: "@ + detail,
        }
    }

    /// The text of the failure underneath this one, where there is one.
    pub open spec fn source(self) -> Option<Seq<char>> {
        match self {
            ErrorView::Http(detail) => Some(detail),
            ErrorView::Io(detail) => Some(detail),
            ErrorView::Json(detail) => Some(detail),
            ErrorView::ConfigRead { path, source } => Some(source),
            ErrorView::ConfigParse { path, source } => Some(source),
            ErrorView::FileRead { path, source } => Some(source),
            _ => None,
        }
    }
}

impl LinearError {
    /// The one-line text shown for the failure.
    pub fn message(&self) -> (r: String)
        ensures
            r@ == self@.message(),
    {
        match self {
            LinearError::Http(detail) => {
                let mut r = String::from_str("HTTP request failed: ");
                r.append(detail.as_str());
                r
            },
            LinearError::Io(detail) => {
                let mut r = String::from_str("I/O error: ");
                r.append(detail.as_str());
                r
            },
            LinearError::Json(detail) => {
                let mut r = String::from_str("JSON error: ");
                r.append(detail.as_str());
                r
            },
            LinearError::ApiError { status, message } => {
                let mut r = String::from_str("API error (status ");
                push_decimal(&mut r, *status as u64);
                r.append("): ");
                r.append(message.as_str());
                r
            },
            LinearError::GraphQL { messages } => {
                let mut r = String::from_str("GraphQL errors: ");
                let list = join_texts(messages, ", ");
                r.append(list.as_str());
                r
            },
            LinearError::EmptyResponse => {
                let mut r = String::from_str("Empty response from API");
                r
            },
            LinearError::ConfigRead { path, source } => {
                let mut r = String::from_str("Failed to read config file at ");
                r.append(path.as_str());
                r.append(": ");
                r.append(source.as_str());
                r
            },
            LinearError::ConfigParse { path, source } => {
                let mut r = String::from_str("Failed to parse config file at ");
                r.append(path.as_str());
                r.append(": ");
                r.append(source.as_str());
                r
            },
            LinearError::NoConfigDir => {
                let mut r = String::from_str("Could not determine config directory");
                r
            },
            LinearError::MissingApiKey => {
                let mut r = String::from_str("No API key found. Set LINEAR_API_KEY env var or add api_key to ~/.config/linear/config.toml");
                r
            },
            LinearError::NoTeam => {
                let mut r = String::from_str("Team not specified and no default_team in config");
                r
            },
            LinearError::IssueNotFound(detail) => {
                let mut r = String::from_str("Issue not found: ");
                r.append(detail.as_str());
                r
            },
            LinearError::CycleNotFound(detail) => {
                let mut r = String::from_str("Cycle not found: ");
                r.append(detail.as_str());
                r
            },
            LinearError::TeamNotFound(detail) => {
                let mut r = String::from_str("Team not found: ");
                r.append(detail.as_str());
                r
            },
            LinearError::WorkflowStateNotFound(detail) => {
                let mut r = String::from_str("Workflow state not found: ");
                r.append(detail.as_str());
                r
            },
            LinearError::InvalidUrl(detail) => {
                let mut r = String::from_str("Invalid URL: ");
                r.append(detail.as_str());
                r
            },
            LinearError::FileNotFound(detail) => {
                let mut r = String::from_str("File not found: ");
                r.append(detail.as_str());
                r
            },
            LinearError::FileRead { path, source } => {
                let mut r = String::from_str("Failed to read file ");
                r.append(path.as_str());
                r.append(": ");
                r.append(source.as_str());
                r
            },
            LinearError::UploadFailed { status, message } => {
                let mut r = String::from_str("File upload failed (status ");
                push_decimal(&mut r, *status as u64);
                r.append("): ");
                r.append(message.as_str());
                r
            },
            LinearError::ImageDownloadFailed { url, status } => {
                let mut r = String::from_str("Image download failed for ");
                r.append(url.as_str());
                r.append(" (status ");
                push_decimal(&mut r, *status as u64);
                r.append(")");
                r
            },
            LinearError::OutputDirNotFound(detail) => {
                let mut r = String::from_str("Output directory not found: ");
                r.append(detail.as_str());
                r
            },
            LinearError::ImageIndexOutOfBounds { index, total } => {
                let mut r = String::from_str("Image index ");
                push_decimal(&mut r, *index as u64);
                r.append(" out of bounds (issue has ");
                push_decimal(&mut r, *total as u64);
                r.append(" images)");
                r
            },
            LinearError::AttachmentIndexOutOfBounds { index, total } => {
                let mut r = String::from_str("Attachment index ");
                push_decimal(&mut r, *index as u64);
                r.append(" out of bounds (issue has ");
                push_decimal(&mut r, *total as u64);
                r.append(" attachments)");
                r
            },
            LinearError::AttachmentDownloadFailed { url, status } => {
                let mut r = String::from_str("Attachment download failed for ");
                r.append(url.as_str());
                r.append(" (status ");
                push_decimal(&mut r, *status as u64);
                r.append(")");
                r
            },
            LinearError::NoAttachments(detail) => {
                let mut r = String::from_str("No attachments found for issue ");
                r.append(detail.as_str());
                r
            },
            LinearError::RelationNotFound(detail, other) => {
                let mut r = String::from_str("No relation found between ");
                r.append(detail.as_str());
                r.append(" and ");
                r.append(other.as_str());
                r
            },
            LinearError::LabelNotFound(detail) => {
                let mut r = String::from_str("Label not found: ");
                r.append(detail.as_str());
                r
            },
        }
    }

    /// The text of the failure underneath this one, where there is one.
    pub fn source_text(&self) -> (r: Option<String>)
        ensures
            r is Some == self@.source() is Some,
            r matches Some(t) ==> t@ == self@.source()->0,
    {
        match self {
            LinearError::Http(detail) => Some(detail.clone()),
            LinearError::Io(detail) => Some(detail.clone()),
            LinearError::Json(detail) => Some(detail.clone()),
            LinearError::ConfigRead { path, source } => Some(source.clone()),
            LinearError::ConfigParse { path, source } => Some(source.clone()),
            LinearError::FileRead { path, source } => Some(source.clone()),
            _ => None,
        }
    }
}

} // verus!
