//! Attachments of an issue: listing them, linking a URL, and uploading a file.

use vstd::prelude::*;
use vstd::string::StringExecFns;
use crate::batch::Asset;
use crate::cli::{AttachUrlArgs, UploadFileArgs};
use crate::client::{is_success, success, Header};
use crate::commands::images::{asset_view, assets_view, select_assets, selection, AssetKind};
use crate::dates::{day_text, format_date_only};
use crate::error::{ErrorView, LinearError};
use crate::output::truncate;
use crate::text::{
    after_last, lowercase, opt_text, same_text, text_after_last, text_or, truncated,
};
use crate::types::Attachment;

verus! {

/// The content type for a file extension in lowercase; a file of an unknown
/// kind is a stream of bytes.
pub open spec fn content_type_of(ext: Seq<char>) -> Seq<char> {
    if ext == "png"@ {
        "image/png"@
    } else if ext == "jpg"@ || ext == "jpeg"@ {
        "image/jpeg"@
    } else if ext == "gif"@ {
        "image/gif"@
    } else if ext == "webp"@ {
        "image/webp"@
    } else if ext == "svg"@ {
        "image/svg+xml"@
    } else if ext == "pdf"@ {
        "application/pdf"@
    } else if ext == "txt"@ {
        "text/plain"@
    } else if ext == "md"@ {
        "text/markdown"@
    } else if ext == "json"@ {
        "application/json"@
    } else if ext == "xml"@ {
        "application/xml"@
    } else if ext == "zip"@ {
        "application/zip"@
    } else if ext == "tar"@ {
        "application/x-tar"@
    } else if ext == "gz"@ {
        "application/gzip"@
    } else {
        "application/octet-stream"@
    }
}

/// Whether an extension in lowercase is one whose content type is known.
pub open spec fn known_extension(ext: Seq<char>) -> bool {
    ext == "png"@ || ext == "jpg"@ || ext == "jpeg"@ || ext == "gif"@ || ext == "webp"@ || ext
        == "svg"@ || ext == "pdf"@ || ext == "txt"@ || ext == "md"@ || ext == "json"@ || ext
        == "xml"@ || ext == "zip"@ || ext == "tar"@ || ext == "gz"@
}

/// The extension of a file name: what follows its last dot, in lowercase;
/// the whole name where it has no dot.
pub open spec fn extension_of(filename: Seq<char>) -> Seq<char> {
    lowercase(after_last(filename, '.'))
}

/// The extension of a file name, in lowercase.
pub fn file_extension(filename: &str) -> (r: String)
    ensures
        r@ == extension_of(filename@),
{
    let ext = text_after_last(filename, '.');
    ext.as_str().to_lowercase()
}

/// Whether an extension in lowercase is one whose content type is known.
pub fn is_known_extension(ext: &str) -> (r: bool)
    ensures
        r == known_extension(ext@),
{
    same_text(ext, "png") || same_text(ext, "jpg") || same_text(ext, "jpeg") || same_text(
        ext,
        "gif",
    ) || same_text(ext, "webp") || same_text(ext, "svg") || same_text(ext, "pdf") || same_text(
        ext,
        "txt",
    ) || same_text(ext, "md") || same_text(ext, "json") || same_text(ext, "xml") || same_text(
        ext,
        "zip",
    ) || same_text(ext, "tar") || same_text(ext, "gz")
}

/// The content type for an extension in lowercase.
pub fn content_type_for(ext: &str) -> (r: String)
    ensures
        r@ == content_type_of(ext@),
{
    let e = ext;
    let kind = if same_text(e, "png") {
        "image/png"
    } else if same_text(e, "jpg") || same_text(e, "jpeg") {
        "image/jpeg"
    } else if same_text(e, "gif") {
        "image/gif"
    } else if same_text(e, "webp") {
        "image/webp"
    } else if same_text(e, "svg") {
        "image/svg+xml"
    } else if same_text(e, "pdf") {
        "application/pdf"
    } else if same_text(e, "txt") {
        "text/plain"
    } else if same_text(e, "md") {
        "text/markdown"
    } else if same_text(e, "json") {
        "application/json"
    } else if same_text(e, "xml") {
        "application/xml"
    } else if same_text(e, "zip") {
        "application/zip"
    } else if same_text(e, "tar") {
        "application/x-tar"
    } else if same_text(e, "gz") {
        "application/gzip"
    } else {
        "application/octet-stream"
    };
    String::from_str(kind)
}

/// The content type to declare for a file, by its name's extension.
pub fn guess_content_type(filename: &str) -> (r: String)
    ensures
        r@ == content_type_of(extension_of(filename@)),
{
    let ext = file_extension(filename);
    content_type_for(ext.as_str())
}

/* Listing */

/// The widest title shown in a table of attachments.
pub const TITLE_WIDTH: usize = 40;

/// The widest URL shown in a table of attachments.
pub const URL_WIDTH: usize = 50;

/// A row of the table of attachments.
pub struct AttachmentRow {
    pub title: String,
    pub url: String,
    pub created_at: String,
}

/// An issue with its attachments.
pub struct IssueWithAttachments {
    pub attachments: Vec<Attachment>,
}

impl AttachmentRow {
    /// The headers of the table's columns, in order.
    pub fn headers() -> (h: Vec<&'static str>)
        ensures
            h@.len() == 3,
            h@[0]@ == "Title"@,
            h@[1]@ == "URL"@,
            h@[2]@ == "Created"@,
    {
        let mut h: Vec<&'static str> = Vec::new();
        h.push("Title");
        h.push("URL");
        h.push("Created");
        h
    }

    /// The cells of the row, in the order of the columns.
    pub fn cells(&self) -> (c: Vec<String>)
        ensures
            c@.len() == 3,
            c@[0]@ == self.title@,
            c@[1]@ == self.url@,
            c@[2]@ == self.created_at@,
    {
        let mut c: Vec<String> = Vec::new();
        c.push(self.title.clone());
        c.push(self.url.clone());
        c.push(self.created_at.clone());
        c
    }
}

impl AttachmentRow {
    /// The row that shows an attachment: its title and its URL, each cut to
    /// its width, a dash for a missing URL, and the day it was created.
    pub fn from(attachment: &Attachment) -> (row: AttachmentRow)
        ensures
            row.title@ == truncated(attachment.title@, TITLE_WIDTH as nat),
            row.url@ == truncated(
                match attachment.url {
                    Some(u) => u@,
                    None => "-"@,
                },
                URL_WIDTH as nat,
            ),
            row.created_at@ == day_text(attachment.created_at@),
    {
        let url = text_or(&attachment.url, "-");
        AttachmentRow {
            title: truncate(attachment.title.as_str(), TITLE_WIDTH),
            url: truncate(url.as_str(), URL_WIDTH),
            created_at: format_date_only(attachment.created_at.as_str()),
        }
    }
}

/// What a listing shows.
pub enum Listing {
    /// The issue has no attachments: the message that says so.
    Nothing(String),
    /// The attachments, to be rendered.
    Items(Vec<Attachment>),
}

/// What a listing of attachments shows, given what the lookup of the issue
/// gave: a failure without the issue, a message without attachments, else
/// the attachments.
pub fn list_plan(issue: Option<IssueWithAttachments>, issue_id: &str) -> (r: Result<
    Listing,
    LinearError,
>)
    ensures
        match issue {
            None => r matches Err(e) && e@ == ErrorView::IssueNotFound(issue_id@),
            Some(i) => if i.attachments@.len() == 0 {
                r matches Ok(Listing::Nothing(m)) && m@ == "No attachments found for "@
                    + issue_id@
            } else {
                r matches Ok(Listing::Items(items)) && items == i.attachments
            },
        },
{
    match issue {
        None => Err(LinearError::IssueNotFound(String::from_str(issue_id))),
        Some(i) => {
            if i.attachments.len() == 0 {
                let mut m = String::from_str("No attachments found for ");
                m.append(issue_id);
                Ok(Listing::Nothing(m))
            } else {
                Ok(Listing::Items(i.attachments))
            }
        },
    }
}

/* Linking a URL */

/// What is sent to link a URL to an issue.
pub struct LinkInput {
    pub issue_id: String,
    pub url: String,
    pub title: String,
}

/// What is sent to link a URL to an issue: the title given, or the URL
/// itself as the title.
pub fn link_input(args: &AttachUrlArgs) -> (r: LinkInput)
    ensures
        r.issue_id@ == args.id@,
        r.url@ == args.url@,
        r.title@ == (match args.title {
            Some(t) => t@,
            None => args.url@,
        }),
{
    LinkInput {
        issue_id: args.id.clone(),
        url: args.url.clone(),
        title: text_or(&args.title, args.url.as_str()),
    }
}

/// The message for a linked URL, with the title that the service gave the
/// attachment; none where the service did not report success or named no
/// attachment.
pub fn attached_message(success: bool, title: Option<String>, id: &str) -> (r: Option<String>)
    ensures
        match title {
            Some(t) if success => opt_text(r) == Some(
                "Attached \""@ + t@ + "\" to "@ + id@,
            ),
            _ => r is None,
        },
{
    match title {
        Some(t) => {
            if success {
                let mut m = String::from_str("Attached \"");
                m.append(t.as_str());
                m.append("\" to ");
                m.append(id);
                Some(m)
            } else {
                None
            }
        },
        None => None,
    }
}

/* Uploading a file: three steps, each of which needs the one before */

/// The largest size that can be declared to the service.
pub const MAX_UPLOAD_SIZE: u64 = 0x7fff_ffff;

/// What is said of a file that is too large to be declared.
pub const TOO_LARGE: &'static str = "file is too large to upload";

/// A header that the upload target asks for.
pub struct UploadHeader {
    pub key: String,
    pub value: String,
}

/// Where a file is to be put, and where it will be found afterwards.
pub struct UploadFileInfo {
    pub upload_url: String,
    pub asset_url: String,
    pub headers: Vec<UploadHeader>,
}

/// The first step: what is asked of the service to get an upload target.
pub struct UploadTargetRequest {
    pub filename: String,
    pub content_type: String,
    pub size: i32,
}

/// The second step: where the file's bytes are put, and with which headers.
pub struct PutRequest {
    pub url: String,
    pub headers: Vec<Header>,
}

/// The third step: the attachment that points at the uploaded file.
pub struct AttachmentInput {
    pub issue_id: String,
    pub url: String,
    pub title: String,
}

/// An upload whose target has been asked for.
pub struct TargetPending {
    issue_id: String,
    title: String,
    content_type: String,
}

/// An upload whose bytes are on their way.
pub struct PutPending {
    issue_id: String,
    title: String,
    asset_url: String,
}

/// An upload whose attachment is being created.
pub struct AttachPending {
    issue_id: String,
    title: String,
}

/// The answer of the upload target.
pub struct PutAnswer {
    pub status: u16,
    /// The body of the answer, where it could be read.
    pub body: Option<String>,
}

/// A header as plain values.
pub open spec fn header_view(h: Header) -> (Seq<char>, Seq<char>) {
    (h.name@, h.value@)
}

/// The headers of the second step: the content type, then those that the
/// service asked for, in its order.
pub open spec fn put_headers(content_type: Seq<char>, asked: Seq<UploadHeader>) -> Seq<
    (Seq<char>, Seq<char>),
> {
    seq![("Content-Type"@, content_type)] + Seq::new(
        asked.len(),
        |i: int| (asked[i].key@, asked[i].value@),
    )
}

/// The headers as plain values.
pub open spec fn headers_view(headers: Seq<Header>) -> Seq<(Seq<char>, Seq<char>)> {
    Seq::new(headers.len(), |i: int| header_view(headers[i]))
}

impl TargetPending {
    /// The issue that gets the attachment.
    pub closed spec fn issue(&self) -> Seq<char> {
        self.issue_id@
    }

    /// The title of the attachment.
    pub closed spec fn title(&self) -> Seq<char> {
        self.title@
    }

    /// The content type of the file.
    pub closed spec fn content_type(&self) -> Seq<char> {
        self.content_type@
    }

    /// The second step, once the service has named the upload target. A
    /// failure to get the target ends the upload.
    pub fn target_answered(self, answer: Result<UploadFileInfo, LinearError>) -> (r: Result<
        (PutPending, PutRequest),
        LinearError,
    >)
        ensures
            match answer {
                Err(failure) => r == Err::<(PutPending, PutRequest), LinearError>(failure),
                Ok(info) => {
                    &&& r matches Ok((pending, request))
                    &&& pending.issue() == self.issue()
                    &&& pending.title() == self.title()
                    &&& pending.asset() == info.asset_url@
                    &&& request.url@ == info.upload_url@
                    &&& headers_view(request.headers@) == put_headers(
                        self.content_type(),
                        info.headers@,
                    )
                },
            },
    {
        match answer {
            Err(failure) => Err(failure),
            Ok(info) => {
                let mut headers: Vec<Header> = Vec::new();
                headers.push(
                    Header { name: String::from_str("Content-Type"), value: self.content_type },
                );
                let mut i: usize = 0;
                while i < info.headers.len()
                    invariant
                        i <= info.headers@.len(),
                        headers@.len() == i + 1,
                        header_view(headers@[0]) == ("Content-Type"@, self.content_type@),
                        forall|k: int|
                            0 <= k < i ==> header_view(#[trigger] headers@[k + 1]) == (
                                info.headers@[k].key@,
                                info.headers@[k].value@,
                            ),
                    decreases info.headers@.len() - i,
                {
                    headers.push(
                        Header {
                            name: info.headers[i].key.clone(),
                            value: info.headers[i].value.clone(),
                        },
                    );
                    i += 1;
                }
                proof {
                    let built = headers_view(headers@);
                    let wanted = put_headers(self.content_type@, info.headers@);
                    assert(built.len() == wanted.len());
                    assert forall|j: int| 0 <= j < built.len() implies built[j] == wanted[j] by {
                        if j > 0 {
                            let k = j - 1;
                            assert(header_view(headers@[k + 1]) == (
                                info.headers@[k].key@,
                                info.headers@[k].value@,
                            ));
                        }
                    }
                    assert(built =~= wanted);
                }
                Ok(
                    (
                        PutPending {
                            issue_id: self.issue_id,
                            title: self.title,
                            asset_url: info.asset_url,
                        },
                        PutRequest { url: info.upload_url, headers },
                    ),
                )
            },
        }
    }
}

impl PutPending {
    /// The issue that gets the attachment.
    pub closed spec fn issue(&self) -> Seq<char> {
        self.issue_id@
    }

    /// The title of the attachment.
    pub closed spec fn title(&self) -> Seq<char> {
        self.title@
    }

    /// Where the file is found once it is uploaded.
    pub closed spec fn asset(&self) -> Seq<char> {
        self.asset_url@
    }

    /// The third step, once the upload target has answered. A failure to
    /// reach the target, or an answer outside the success range, ends the
    /// upload.
    pub fn put_answered(self, answer: Result<PutAnswer, LinearError>) -> (r: Result<
        (AttachPending, AttachmentInput),
        LinearError,
    >)
        ensures
            match answer {
                Err(failure) => r == Err::<(AttachPending, AttachmentInput), LinearError>(failure),
                Ok(a) => if success(a.status) {
                    &&& r matches Ok((pending, input))
                    &&& pending.issue() == self.issue()
                    &&& pending.title() == self.title()
                    &&& input.issue_id@ == self.issue()
                    &&& input.url@ == self.asset()
                    &&& input.title@ == self.title()
                } else {
                    r matches Err(e) && e@ == ErrorView::UploadFailed {
                        status: a.status,
                        message: match a.body {
                            Some(b) => b@,
                            None => Seq::empty(),
                        },
                    }
                },
            },
    {
        match answer {
            Err(failure) => Err(failure),
            Ok(a) => {
                if is_success(a.status) {
                    Ok(
                        (
                            AttachPending {
                                issue_id: self.issue_id.clone(),
                                title: self.title.clone(),
                            },
                            AttachmentInput {
                                issue_id: self.issue_id,
                                url: self.asset_url,
                                title: self.title,
                            },
                        ),
                    )
                } else {
                    Err(
                        LinearError::UploadFailed {
                            status: a.status,
                            message: match a.body {
                                Some(b) => b,
                                None => String::new(),
                            },
                        },
                    )
                }
            },
        }
    }
}

impl AttachPending {
    /// The issue that gets the attachment.
    pub closed spec fn issue(&self) -> Seq<char> {
        self.issue_id@
    }

    /// The title of the attachment.
    pub closed spec fn title(&self) -> Seq<char> {
        self.title@
    }

    /// The end of the upload, once the service has answered the creation of
    /// the attachment: the message to show, if any, or the failure.
    pub fn attached(self, answer: Result<bool, LinearError>) -> (r: Result<
        Option<String>,
        LinearError,
    >)
        ensures
            match answer {
                Err(failure) => r == Err::<Option<String>, LinearError>(failure),
                Ok(done) => {
                    &&& r matches Ok(message)
                    &&& done ==> opt_text(message) == Some(
                        "Uploaded \""@ + self.title() + "\" to "@ + self.issue(),
                    )
                    &&& !done ==> message is None
                },
            },
    {
        match answer {
            Err(failure) => Err(failure),
            Ok(done) => {
                if done {
                    let mut m = String::from_str("Uploaded \"");
                    m.append(self.title.as_str());
                    m.append("\" to ");
                    m.append(self.issue_id.as_str());
                    Ok(Some(m))
                } else {
                    Ok(None)
                }
            },
        }
    }
}

/// The first step of an upload, given what is known of the file: whether
/// it exists, its name without directories, and its size in bytes. Without
/// the file, or with one too large to declare, nothing is sent.
pub fn begin_upload(args: &UploadFileArgs, exists: bool, filename: &str, size: u64) -> (r: Result<
    (TargetPending, UploadTargetRequest),
    LinearError,
>)
    ensures
        !exists ==> (r matches Err(e) && e@ == ErrorView::FileNotFound(args.file@)),
        exists && size > MAX_UPLOAD_SIZE ==> (r matches Err(e) && e@ == ErrorView::FileRead {
            path: args.file@,
            source: TOO_LARGE@,
        }),
        exists && size <= MAX_UPLOAD_SIZE ==> {
            &&& r matches Ok((pending, request))
            &&& pending.issue() == args.id@
            &&& pending.title() == (match args.title {
                Some(t) => t@,
                None => filename@,
            })
            &&& pending.content_type() == content_type_of(extension_of(filename@))
            &&& request.filename@ == filename@
            &&& request.content_type@ == content_type_of(extension_of(filename@))
            &&& request.size == size
        },
{
    if !exists {
        Err(LinearError::FileNotFound(args.file.clone()))
    } else if size > MAX_UPLOAD_SIZE {
        Err(LinearError::FileRead { path: args.file.clone(), source: String::from_str(TOO_LARGE) })
    } else {
        let content_type = guess_content_type(filename);
        Ok(
            (
                TargetPending {
                    issue_id: args.id.clone(),
                    title: text_or(&args.title, filename),
                    content_type: content_type.clone(),
                },
                UploadTargetRequest {
                    filename: String::from_str(filename),
                    content_type,
                    size: size as i32,
                },
            ),
        )
    }
}

/* Downloading */

/// The assets that attachments are: each at its 1-based position, with its
/// title and its URL, which is empty where the attachment has none.
pub open spec fn attachment_assets(attachments: Seq<Attachment>) -> Seq<
    (usize, Seq<char>, Seq<char>),
> {
    Seq::new(
        attachments.len(),
        |i: int|
            (
                (i + 1) as usize,
                attachments[i].title@,
                match attachments[i].url {
                    Some(u) => u@,
                    None => Seq::empty(),
                },
            ),
    )
}

/// The attachments as assets to download, in the same order.
pub fn assets_of_attachments(attachments: &Vec<Attachment>) -> (assets: Vec<Asset>)
    ensures
        assets_view(assets@) == attachment_assets(attachments@),
{
    let mut assets: Vec<Asset> = Vec::new();
    let mut i: usize = 0;
    while i < attachments.len()
        invariant
            i <= attachments@.len(),
            assets@.len() == i,
            forall|k: int|
                0 <= k < i ==> asset_view(#[trigger] assets@[k]) == attachment_assets(
                    attachments@,
                )[k],
        decreases attachments@.len() - i,
    {
        assets.push(
            Asset {
                index: i + 1,
                title: attachments[i].title.clone(),
                url: text_or(&attachments[i].url, ""),
            },
        );
        proof {
            reveal_strlit("");
            assert(""@ =~= Seq::<char>::empty());
        }
        i += 1;
    }
    assert(assets_view(assets@) =~= attachment_assets(attachments@));
    assets
}

/// The attachments of an issue that are to be downloaded: all of them, or
/// the one at the 1-based position `index`. An issue without attachments
/// and a position without an attachment are failures; no download is then
/// attempted.
pub fn download_attachments_plan(
    attachments: &Vec<Attachment>,
    issue_id: &str,
    index: Option<usize>,
) -> (r: Result<Vec<Asset>, LinearError>)
    ensures
        attachments@.len() == 0 ==> (r matches Err(e) && e@ == ErrorView::NoAttachments(
            issue_id@,
        )),
        attachments@.len() > 0 ==> match selection(
            attachment_assets(attachments@),
            index,
            AssetKind::Attachment,
        ) {
            Ok(chosen) => r matches Ok(v) && assets_view(v@) == chosen,
            Err(view) => r matches Err(e) && e@ == view,
        },
{
    if attachments.len() == 0 {
        Err(LinearError::NoAttachments(String::from_str(issue_id)))
    } else {
        select_assets(assets_of_attachments(attachments), index, AssetKind::Attachment)
    }
}

} // verus!
