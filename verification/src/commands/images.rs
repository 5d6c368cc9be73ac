//! Images in an issue's description: finding them, deciding how each is
//! fetched and where it is stored, and reporting what became of them.

use vstd::prelude::*;
use vstd::string::StringExecFns;
use crate::batch::{failures, successes, tally, Asset};
pub use crate::batch::DownloadResult;
use crate::client::{is_success, success};
use crate::commands::attachments::{extension_of, file_extension, is_known_extension, known_extension};
use crate::error::{ErrorView, LinearError};
use crate::text::{
    after_last, after_last_index, before_last, chars_of, contains_char, decimal, ends_with_text,
    has_suffix, lemma_after_last_index_bounds, lemma_after_last_of_join,
    lemma_after_last_without, lemma_decimal_digits, lemma_decimal_injective, push_decimal,
    same_text, text_after_last,
};

verus! {

/// The pattern of an image in markdown: `![alt text](url)`, the alt text
/// possibly empty.
pub const IMAGE_PATTERN: &'static str = "!\\[([^\\]]*)\\]\\(([^)]+)\\)";

/// The extension of a stored file whose URL shows none.
pub const DEFAULT_EXTENSION: &'static str = "png";

/// The host of the service, on which and below which its own assets lie.
pub const SERVICE_HOST: &'static str = "linear.app";

/// Represents an image found in markdown content
#[derive(Debug, Clone)]
pub struct MarkdownImage {
    pub alt_text: String,
    pub url: String,
    /// The 1-based position of the image among those of the text.
    pub index: usize,
}

/// What the first two groups of one match of a pattern captured.
pub struct Captured {
    pub first: Option<String>,
    pub second: Option<String>,
}

/// A URL taken apart: its host, where it has one, and its path.
pub struct UrlParts {
    pub host: Option<String>,
    pub path: String,
}

/// What is downloaded: images of a description, or attachments.
#[derive(Clone, Copy, PartialEq, Eq, Structural)]
pub enum AssetKind {
    Image,
    Attachment,
}

/// Where a line of a report goes.
#[derive(Clone, Copy, PartialEq, Eq, Structural)]
pub enum Channel {
    /// The output channel: a message, which quiet mode suppresses.
    Out,
    /// The error channel.
    Errors,
}

/// A line of a report.
pub struct ReportLine {
    pub channel: Channel,
    pub text: String,
}

/// A download to make: from where, and with which credential, if any.
pub struct DownloadRequest {
    pub url: String,
    pub authorization: Option<String>,
    /// The path of the URL, from which the stored file takes its extension.
    pub path: String,
}

/* Finding the images */

/// What the regex crate finds in a text for a pattern: for each match that
/// does not overlap an earlier one, from left to right, what its first and
/// second group captured; `None` for a pattern that does not compile.
pub uninterp spec fn first_two_groups(pattern: Seq<char>, text: Seq<char>) -> Option<
    Seq<(Option<Seq<char>>, Option<Seq<char>>)>,
>;

/// What one match captured, as character sequences.
pub open spec fn captured_view(c: Captured) -> (Option<Seq<char>>, Option<Seq<char>>) {
    (
        match c.first {
            Some(s) => Some(s@),
            None => None,
        },
        match c.second {
            Some(s) => Some(s@),
            None => None,
        },
    )
}

/// What a list of matches captured.
pub open spec fn captures_view(found: Option<Vec<Captured>>) -> Option<
    Seq<(Option<Seq<char>>, Option<Seq<char>>)>,
> {
    match found {
        Some(v) => Some(Seq::new(v@.len(), |i: int| captured_view(v@[i]))),
        None => None,
    }
}

/// `regex::Regex::new` and `Regex::captures_iter`: compiles `pattern` and
/// walks the matches in `text`; the result is what the crate finds, a
/// function of the two texts alone, and `None` where the pattern is refused.
#[verifier::external_body]
fn find_captures(pattern: &str, text: &str) -> (found: Option<Vec<Captured>>)
    ensures
        captures_view(found) == first_two_groups(pattern@, text@),
{
    match regex::Regex::new(pattern) {
        Ok(re) => Some(
            re.captures_iter(text).map(
                |c|
                    Captured {
                        first: c.get(1).map(|m| m.as_str().to_string()),
                        second: c.get(2).map(|m| m.as_str().to_string()),
                    },
            ).collect(),
        ),
        Err(_) => None,
    }
}

/// An image as plain values: alt text, URL and position.
pub open spec fn image_view(image: MarkdownImage) -> (Seq<char>, Seq<char>, usize) {
    (image.alt_text@, image.url@, image.index)
}

/// The images that a list of matches stands for: the first group is the alt
/// text, the second the URL, each empty where the group took no part, and
/// the positions count from 1.
pub open spec fn images_of(found: Seq<(Option<Seq<char>>, Option<Seq<char>>)>) -> Seq<
    (Seq<char>, Seq<char>, usize),
> {
    Seq::new(
        found.len(),
        |i: int|
            (
                match found[i].0 {
                    Some(alt) => alt,
                    None => Seq::empty(),
                },
                match found[i].1 {
                    Some(url) => url,
                    None => Seq::empty(),
                },
                (i + 1) as usize,
            ),
    )
}

/// The images of a text in markdown.
pub open spec fn markdown_images(markdown: Seq<char>) -> Seq<(Seq<char>, Seq<char>, usize)> {
    match first_two_groups(IMAGE_PATTERN@, markdown) {
        Some(found) => images_of(found),
        None => Seq::empty(),
    }
}

/// The images as plain values.
pub open spec fn images_view(images: Seq<MarkdownImage>) -> Seq<(Seq<char>, Seq<char>, usize)> {
    Seq::new(images.len(), |i: int| image_view(images[i]))
}

/// The images that a list of matches stands for, numbered from 1 in the
/// order of the matches.
pub fn images_from(found: Vec<Captured>) -> (images: Vec<MarkdownImage>)
    ensures
        images_view(images@) == images_of(captures_view(Some(found))->0),
{
    let ghost view = captures_view(Some(found))->0;
    let mut images: Vec<MarkdownImage> = Vec::new();
    let mut i: usize = 0;
    while i < found.len()
        invariant
            i <= found@.len(),
            images@.len() == i,
            view == captures_view(Some(found))->0,
            forall|k: int| 0 <= k < i ==> image_view(#[trigger] images@[k]) == images_of(view)[k],
        decreases found@.len() - i,
    {
        let alt_text = match &found[i].first {
            Some(s) => s.clone(),
            None => String::new(),
        };
        let url = match &found[i].second {
            Some(s) => s.clone(),
            None => String::new(),
        };
        images.push(MarkdownImage { alt_text, url, index: i + 1 });
        i += 1;
    }
    assert(images_view(images@) =~= images_of(view));
    images
}

/// Parse markdown content and extract all image URLs
/// Matches: `![alt text](url)` and `![](url)`
pub fn parse_markdown_images(markdown: &str) -> (images: Vec<MarkdownImage>)
    ensures
        images_view(images@) == markdown_images(markdown@),
{
    match find_captures(IMAGE_PATTERN, markdown) {
        Some(found) => images_from(found),
        None => {
            let images: Vec<MarkdownImage> = Vec::new();
            assert(images_view(images@) =~= Seq::empty());
            images
        },
    }
}

/// An asset as plain values: position, title and URL.
pub open spec fn asset_view(asset: Asset) -> (usize, Seq<char>, Seq<char>) {
    (asset.index, asset.title@, asset.url@)
}

/// The assets as plain values.
pub open spec fn assets_view(assets: Seq<Asset>) -> Seq<(usize, Seq<char>, Seq<char>)> {
    Seq::new(assets.len(), |i: int| asset_view(assets[i]))
}

/// The assets that images are: the alt text is the title.
pub open spec fn image_assets(images: Seq<(Seq<char>, Seq<char>, usize)>) -> Seq<
    (usize, Seq<char>, Seq<char>),
> {
    Seq::new(images.len(), |i: int| (images[i].2, images[i].0, images[i].1))
}

/// The images as assets to download, in the same order.
pub fn assets_of_images(images: &Vec<MarkdownImage>) -> (assets: Vec<Asset>)
    ensures
        assets_view(assets@) == image_assets(images_view(images@)),
{
    let mut assets: Vec<Asset> = Vec::new();
    let mut i: usize = 0;
    while i < images.len()
        invariant
            i <= images@.len(),
            assets@.len() == i,
            forall|k: int|
                0 <= k < i ==> asset_view(#[trigger] assets@[k]) == image_assets(
                    images_view(images@),
                )[k],
        decreases images@.len() - i,
    {
        assets.push(
            Asset {
                index: images[i].index,
                title: images[i].alt_text.clone(),
                url: images[i].url.clone(),
            },
        );
        i += 1;
    }
    assert(assets_view(assets@) =~= image_assets(images_view(images@)));
    assets
}

/* Choosing what to download */

/// The failure for a position at which there is no asset.
pub open spec fn out_of_bounds(kind: AssetKind, index: usize, total: usize) -> ErrorView {
    match kind {
        AssetKind::Image => ErrorView::ImageIndexOutOfBounds { index, total },
        AssetKind::Attachment => ErrorView::AttachmentIndexOutOfBounds { index, total },
    }
}

/// The assets to download: all of them where no position is given; the one
/// at the position where one is given; a failure where there is no asset at
/// the position, also where there is no asset at all.
pub open spec fn selection(
    assets: Seq<(usize, Seq<char>, Seq<char>)>,
    index: Option<usize>,
    kind: AssetKind,
) -> Result<Seq<(usize, Seq<char>, Seq<char>)>, ErrorView> {
    match index {
        None => Ok(assets),
        Some(i) => if 1 <= i <= assets.len() {
            Ok(seq![assets[i - 1]])
        } else {
            Err(out_of_bounds(kind, i, assets.len() as usize))
        },
    }
}

/// Chooses the assets to download. `index` is a 1-based position among
/// `assets`; one outside them is a failure, never an empty batch.
pub fn select_assets(assets: Vec<Asset>, index: Option<usize>, kind: AssetKind) -> (r: Result<
    Vec<Asset>,
    LinearError,
>)
    ensures
        match selection(assets_view(assets@), index, kind) {
            Ok(chosen) => r matches Ok(v) && assets_view(v@) == chosen,
            Err(view) => r matches Err(e) && e@ == view,
        },
{
    match index {
        None => Ok(assets),
        Some(i) => {
            let total = assets.len();
            if 1 <= i && i <= total {
                let mut assets = assets;
                let ghost before = assets@;
                let one = assets.swap_remove(i - 1);
                let mut chosen: Vec<Asset> = Vec::new();
                chosen.push(one);
                assert(assets_view(chosen@) =~= seq![assets_view(before)[i - 1]]);
                Ok(chosen)
            } else {
                Err(
                    match kind {
                        AssetKind::Image => LinearError::ImageIndexOutOfBounds { index: i, total },
                        AssetKind::Attachment => LinearError::AttachmentIndexOutOfBounds {
                            index: i,
                            total,
                        },
                    },
                )
            }
        },
    }
}

/// The images of a description that are to be downloaded: all of them, or
/// the one at the 1-based position `index`.
pub fn download_images_plan(description: &str, index: Option<usize>) -> (r: Result<
    Vec<Asset>,
    LinearError,
>)
    ensures
        match selection(image_assets(markdown_images(description@)), index, AssetKind::Image) {
            Ok(chosen) => r matches Ok(v) && assets_view(v@) == chosen,
            Err(view) => r matches Err(e) && e@ == view,
        },
{
    let images = parse_markdown_images(description);
    let assets = assets_of_images(&images);
    select_assets(assets, index, AssetKind::Image)
}

/// What is known of an issue whose images are downloaded.
pub struct IssueBasic {
    pub identifier: String,
    pub description: Option<String>,
}

/// What the download command does once the issue is known.
pub enum ImagesPlan {
    /// Nothing is downloaded: the message that says why.
    Message(String),
    /// These images of the issue with this identifier are downloaded.
    Download { identifier: String, assets: Vec<Asset> },
}

/// What the download command does, as plain values.
pub enum PlanView {
    Message(Seq<char>),
    Download(Seq<(usize, Seq<char>, Seq<char>)>),
}

/// What the download command does for an issue with this identifier and
/// description: a message where there is no description, or no image in it
/// and no position asked for, else the download of the images chosen; a
/// failure where there is no image at the position asked for.
pub open spec fn images_plan(
    identifier: Seq<char>,
    description: Option<Seq<char>>,
    index: Option<usize>,
) -> Result<PlanView, ErrorView> {
    match description {
        Some(d) if d.len() > 0 => match selection(
            image_assets(markdown_images(d)),
            index,
            AssetKind::Image,
        ) {
            Err(e) => Err(e),
            Ok(chosen) => if chosen.len() == 0 {
                Ok(PlanView::Message("No images found in "@ + identifier + " description"@))
            } else {
                Ok(PlanView::Download(chosen))
            },
        },
        _ => Ok(PlanView::Message("Issue "@ + identifier + " has no description"@)),
    }
}

/// What the download command does, given what the lookup of the issue
/// gave: a failure without the issue, else what its description asks for.
pub fn plan_images_command(issue: Option<IssueBasic>, id: &str, index: Option<usize>) -> (r: Result<
    ImagesPlan,
    LinearError,
>)
    ensures
        match issue {
            None => r matches Err(e) && e@ == ErrorView::IssueNotFound(id@),
            Some(i) => match images_plan(
                i.identifier@,
                match i.description {
                    Some(d) => Some(d@),
                    None => None,
                },
                index,
            ) {
                Err(view) => r matches Err(e) && e@ == view,
                Ok(PlanView::Message(text)) => r matches Ok(ImagesPlan::Message(m)) && m@ == text,
                Ok(PlanView::Download(chosen)) => r matches Ok(
                    ImagesPlan::Download { identifier, assets },
                ) && identifier@ == i.identifier@ && assets_view(assets@) == chosen,
            },
        },
{
    match issue {
        None => Err(LinearError::IssueNotFound(String::from_str(id))),
        Some(i) => {
            let has_text = match &i.description {
                Some(d) => chars_of(d.as_str()).len() > 0,
                None => false,
            };
            if !has_text {
                let mut m = String::from_str("Issue ");
                m.append(i.identifier.as_str());
                m.append(" has no description");
                return Ok(ImagesPlan::Message(m));
            }
            let description = match &i.description {
                Some(d) => d.as_str(),
                None => "",
            };
            match download_images_plan(description, index) {
                Err(e) => Err(e),
                Ok(assets) => {
                    if assets.len() == 0 {
                        let mut m = String::from_str("No images found in ");
                        m.append(i.identifier.as_str());
                        m.append(" description");
                        Ok(ImagesPlan::Message(m))
                    } else {
                        Ok(ImagesPlan::Download { identifier: i.identifier, assets })
                    }
                },
            }
        },
    }
}

/* Fetching one asset */

/// What the url crate makes of a text: `None` where it is no URL, else the
/// URL's host, where it has one, and its path.
pub uninterp spec fn url_parts(text: Seq<char>) -> Option<(Option<Seq<char>>, Seq<char>)>;

/// The parts as character sequences.
pub open spec fn parts_view(parts: Option<UrlParts>) -> Option<(Option<Seq<char>>, Seq<char>)> {
    match parts {
        Some(p) => Some(
            (
                match p.host {
                    Some(h) => Some(h@),
                    None => None,
                },
                p.path@,
            ),
        ),
        None => None,
    }
}

/// `url::Url::parse`, with `Url::host_str` and `Url::path` of the result:
/// what the crate makes of the text, a function of the text alone.
#[verifier::external_body]
fn split_url(text: &str) -> (parts: Option<UrlParts>)
    ensures
        parts_view(parts) == url_parts(text@),
{
    match url::Url::parse(text) {
        Ok(u) => Some(
            UrlParts { host: u.host_str().map(|h| h.to_string()), path: u.path().to_string() },
        ),
        Err(_) => None,
    }
}

/// Whether a host is the service's own: its host itself or one below it.
pub open spec fn service_host(host: Seq<char>) -> bool {
    host == SERVICE_HOST@ || has_suffix(host, "."@ + SERVICE_HOST@)
}

/// Whether requests to a URL carry the credential: only where its host is
/// the service's own.
pub open spec fn authenticated(parts: Option<(Option<Seq<char>>, Seq<char>)>) -> bool {
    parts matches Some((Some(host), _)) && service_host(host)
}

/// Whether a host is the service's own.
pub fn is_service_host(host: &str) -> (r: bool)
    ensures
        r == service_host(host@),
{
    let mut below = String::from_str(".");
    below.append(SERVICE_HOST);
    same_text(host, SERVICE_HOST) || ends_with_text(host, below.as_str())
}

/// Whether the parts are those of a URL on a host of the service.
pub fn parts_need_auth(parts: &Option<UrlParts>) -> (r: bool)
    ensures
        r == authenticated(parts_view(*parts)),
{
    match parts {
        Some(p) => match &p.host {
            Some(h) => is_service_host(h.as_str()),
            None => false,
        },
        None => false,
    }
}

/// Determine if a URL is an asset hosted by the service (needs auth)
pub fn is_linear_url(url: &str) -> (r: bool)
    ensures
        r == authenticated(url_parts(url@)),
{
    let parts = split_url(url);
    parts_need_auth(&parts)
}

/// The request that downloads an asset, given what its URL is made of: a
/// failure where the text is no URL; the credential only for a host of the
/// service.
pub fn download_request(url: &str, parts: Option<UrlParts>, api_key: &str) -> (r: Result<
    DownloadRequest,
    LinearError,
>)
    ensures
        match parts {
            None => r matches Err(e) && e@ == ErrorView::InvalidUrl(url@),
            Some(p) => {
                &&& r matches Ok(request)
                &&& request.url@ == url@
                &&& request.path@ == p.path@
                &&& authenticated(parts_view(parts)) ==> (request.authorization matches Some(k)
                    && k@ == api_key@)
                &&& !authenticated(parts_view(parts)) ==> request.authorization is None
            },
        },
{
    let auth = parts_need_auth(&parts);
    match parts {
        None => Err(LinearError::InvalidUrl(String::from_str(url))),
        Some(p) => Ok(
            DownloadRequest {
                url: String::from_str(url),
                authorization: if auth {
                    Some(String::from_str(api_key))
                } else {
                    None
                },
                path: p.path,
            },
        ),
    }
}

/// The request that downloads an asset: a failure where its URL is none; the
/// credential only where the URL's host is the service's own.
pub fn plan_download(asset: &Asset, api_key: &str) -> (r: Result<DownloadRequest, LinearError>)
    ensures
        match url_parts(asset.url@) {
            None => r matches Err(e) && e@ == ErrorView::InvalidUrl(asset.url@),
            Some(parts) => {
                &&& r matches Ok(request)
                &&& request.url@ == asset.url@
                &&& request.path@ == parts.1
                &&& authenticated(Some(parts)) ==> (request.authorization matches Some(k) && k@
                    == api_key@)
                &&& !authenticated(Some(parts)) ==> request.authorization is None
            },
        },
{
    let parts = split_url(asset.url.as_str());
    download_request(asset.url.as_str(), parts, api_key)
}

/// The failure of a download that was answered with this status.
pub open spec fn download_failed(kind: AssetKind, url: Seq<char>, status: u16) -> ErrorView {
    match kind {
        AssetKind::Image => ErrorView::ImageDownloadFailed { url, status },
        AssetKind::Attachment => ErrorView::AttachmentDownloadFailed { url, status },
    }
}

/// What the status of a download's answer means: only one in the success
/// range lets the body be stored.
pub fn check_download(kind: AssetKind, url: &str, status: u16) -> (r: Result<(), LinearError>)
    ensures
        success(status) ==> r is Ok,
        !success(status) ==> (r matches Err(e) && e@ == download_failed(kind, url@, status)),
{
    if is_success(status) {
        Ok(())
    } else {
        Err(
            match kind {
                AssetKind::Image => LinearError::ImageDownloadFailed {
                    url: String::from_str(url),
                    status,
                },
                AssetKind::Attachment => LinearError::AttachmentDownloadFailed {
                    url: String::from_str(url),
                    status,
                },
            },
        )
    }
}

/// The failure of a download into a directory that does not exist.
pub fn require_output_dir(exists: bool, dir: &str) -> (r: Result<(), LinearError>)
    ensures
        exists ==> r is Ok,
        !exists ==> (r matches Err(e) && e@ == ErrorView::OutputDirNotFound(dir@)),
{
    if exists {
        Ok(())
    } else {
        Err(LinearError::OutputDirNotFound(String::from_str(dir)))
    }
}

/* Naming the stored file */

/// The characters that a file name keeps as they are.
pub open spec fn safe_char(c: char) -> bool {
    ('a' <= c && c <= 'z') || ('A' <= c && c <= 'Z') || ('0' <= c && c <= '9') || c == '.' || c
        == '_' || c == '-'
}

/// A title with every character outside `[A-Za-z0-9._-]` replaced by `_`.
pub open spec fn sanitized(title: Seq<char>) -> Seq<char> {
    Seq::new(
        title.len(),
        |i: int|
            if safe_char(title[i]) {
                title[i]
            } else {
                '_'
            },
    )
}

/// Whether a file name carries an extension whose content type is known.
pub open spec fn carries_extension(name: Seq<char>) -> bool {
    name.contains('.') && known_extension(extension_of(name))
}

/// The extension that a URL's path shows: what follows the last dot of its
/// last segment; the default where the path does not start with a slash or
/// its last segment has no dot.
pub open spec fn path_extension(path: Seq<char>) -> Seq<char> {
    let segment = after_last(path, '/');
    if path.len() > 0 && path[0] == '/' && segment.contains('.') {
        after_last(segment, '.')
    } else {
        DEFAULT_EXTENSION@
    }
}

/// The name of an asset within its issue. A title that, sanitized,
/// carries a known extension is the name. Otherwise the name is made of the
/// sanitized title, or `image` where the title is empty, then `_` and the
/// position, then a dot and the extension that the URL's path shows.
pub open spec fn filename(title: Seq<char>, index: usize, path: Seq<char>) -> Seq<char> {
    let clean = sanitized(title);
    if carries_extension(clean) {
        clean
    } else {
        (if clean.len() == 0 {
            "image"@
        } else {
            clean
        }) + "_"@ + decimal(index as nat) + "."@ + path_extension(path)
    }
}

/// The whole name of a stored file: the identifier of the issue, two
/// underscores, and the name of the asset.
pub open spec fn stored_name(
    issue_id: Seq<char>,
    title: Seq<char>,
    index: usize,
    path: Seq<char>,
) -> Seq<char> {
    issue_id + "__"@ + filename(title, index, path)
}

/// A sanitized title is as long as the title, holds only characters that
/// a file name keeps, and is left as it is when sanitized again.
pub proof fn lemma_sanitized_is_safe(title: Seq<char>)
    ensures
        sanitized(title).len() == title.len(),
        forall|i: int| 0 <= i < title.len() ==> safe_char(#[trigger] sanitized(title)[i]),
        sanitized(sanitized(title)) == sanitized(title),
{
    assert(sanitized(sanitized(title)) =~= sanitized(title));
}

/// The name of a stored file never holds a slash, whatever the title and
/// the URL are.
pub proof fn lemma_filename_without_slash(title: Seq<char>, index: usize, path: Seq<char>)
    ensures
        !filename(title, index, path).contains('/'),
{
    let clean = sanitized(title);
    let name = filename(title, index, path);
    lemma_sanitized_is_safe(title);
    assert forall|i: int| 0 <= i < clean.len() implies clean[i] != '/' by {
        assert(safe_char(clean[i]));
    }
    if !carries_extension(clean) {
        let stem = if clean.len() == 0 {
            "image"@
        } else {
            clean
        };
        let number = decimal(index as nat);
        let ext = path_extension(path);
        reveal_strlit("image");
        reveal_strlit("_");
        reveal_strlit(".");
        reveal_strlit("png");
        lemma_decimal_digits(index as nat);
        lemma_after_last_without(path, '/');
        let segment = after_last(path, '/');
        assert forall|i: int| 0 <= i < ext.len() implies ext[i] != '/' by {
            if path.len() > 0 && path[0] == '/' && segment.contains('.') {
                lemma_after_last_index_bounds(segment, '.');
                let k = after_last_index(segment, '.');
                assert(ext[i] == segment[k + i]);
                assert(segment.contains(segment[k + i]));
            }
        }
        assert forall|i: int| 0 <= i < name.len() implies name[i] != '/' by {
            let a = stem.len();
            let b = a + 1;
            let c = b + number.len();
            let d = c + 1;
            if i < a {
                assert(name[i] == stem[i]);
            } else if i < b {
                assert(name[i] == '_');
            } else if i < c {
                assert(name[i] == number[i - b]);
            } else if i < d {
                assert(name[i] == '.');
            } else {
                assert(name[i] == ext[i - d]);
            }
        }
    }
}

/// A stored file lies in the output directory itself: its whole name holds
/// no slash, as long as the issue's identifier holds none.
pub proof fn lemma_stored_name_without_slash(
    issue_id: Seq<char>,
    title: Seq<char>,
    index: usize,
    path: Seq<char>,
)
    requires
        !issue_id.contains('/'),
    ensures
        !stored_name(issue_id, title, index, path).contains('/'),
{
    let name = filename(title, index, path);
    let whole = stored_name(issue_id, title, index, path);
    lemma_filename_without_slash(title, index, path);
    reveal_strlit("__");
    assert forall|i: int| 0 <= i < whole.len() implies whole[i] != '/' by {
        if i < issue_id.len() {
            assert(whole[i] == issue_id[i]);
            assert(issue_id.contains(issue_id[i]));
        } else if i < issue_id.len() + 2 {
            assert(whole[i] == '_');
        } else {
            assert(whole[i] == name[i - issue_id.len() - 2]);
            assert(name.contains(name[i - issue_id.len() - 2]));
        }
    }
}

/// The extension that a URL's path shows holds no dot.
pub proof fn lemma_path_extension_without_dot(path: Seq<char>)
    ensures
        !path_extension(path).contains('.'),
{
    let segment = after_last(path, '/');
    if path.len() > 0 && path[0] == '/' && segment.contains('.') {
        lemma_after_last_without(segment, '.');
    } else {
        reveal_strlit("png");
        let ext = path_extension(path);
        assert forall|i: int| 0 <= i < ext.len() implies ext[i] != '.' by {}
    }
}

/// What a name that is made with a position ends in: an underscore, the
/// position, a dot and the extension, behind whatever comes first.
proof fn lemma_made_name_shape(
    issue_id: Seq<char>,
    title: Seq<char>,
    index: usize,
    path: Seq<char>,
)
    requires
        !carries_extension(sanitized(title)),
    ensures
        after_last(
            before_last(stored_name(issue_id, title, index, path), '.'),
            '_',
        ) == decimal(index as nat),
{
    let clean = sanitized(title);
    let head = issue_id + "__"@ + (if clean.len() == 0 {
        "image"@
    } else {
        clean
    });
    let number = decimal(index as nat);
    let ext = path_extension(path);
    let whole = stored_name(issue_id, title, index, path);
    reveal_strlit("_");
    reveal_strlit(".");
    assert("_"@ =~= seq!['_']);
    assert("."@ =~= seq!['.']);
    assert(whole =~= (head + seq!['_'] + number) + seq!['.'] + ext);
    lemma_path_extension_without_dot(path);
    lemma_after_last_of_join(head + seq!['_'] + number, '.', ext);
    assert(before_last(whole, '.') =~= head + seq!['_'] + number);
    lemma_decimal_digits(index as nat);
    assert(!number.contains('_')) by {
        assert forall|i: int| 0 <= i < number.len() implies number[i] != '_' by {}
    }
    lemma_after_last_of_join(head, '_', number);
}

/// Assets at different positions are stored under different names,
/// whatever their issues, titles and URLs are, unless a title itself is the
/// name.
pub proof fn lemma_positions_do_not_collide(
    first_issue: Seq<char>,
    first_title: Seq<char>,
    first_path: Seq<char>,
    first: usize,
    second_issue: Seq<char>,
    second_title: Seq<char>,
    second_path: Seq<char>,
    second: usize,
)
    requires
        first != second,
        !carries_extension(sanitized(first_title)),
        !carries_extension(sanitized(second_title)),
    ensures
        stored_name(first_issue, first_title, first, first_path) != stored_name(
            second_issue,
            second_title,
            second,
            second_path,
        ),
{
    lemma_made_name_shape(first_issue, first_title, first, first_path);
    lemma_made_name_shape(second_issue, second_title, second, second_path);
    if decimal(first as nat) == decimal(second as nat) {
        lemma_decimal_injective(first as nat, second as nat);
    }
}

/// The assets of different issues are stored under different names where
/// title, position and URL are the same.
pub proof fn lemma_issues_do_not_collide(
    first_issue: Seq<char>,
    second_issue: Seq<char>,
    title: Seq<char>,
    index: usize,
    path: Seq<char>,
)
    requires
        first_issue != second_issue,
    ensures
        stored_name(first_issue, title, index, path) != stored_name(
            second_issue,
            title,
            index,
            path,
        ),
{
    let tail = "__"@ + filename(title, index, path);
    let x = stored_name(first_issue, title, index, path);
    let y = stored_name(second_issue, title, index, path);
    assert(x =~= first_issue + tail);
    assert(y =~= second_issue + tail);
    if x == y {
        assert(first_issue.len() == second_issue.len());
        assert forall|i: int| 0 <= i < first_issue.len() implies first_issue[i]
            == second_issue[i] by {
            assert(x[i] == first_issue[i]);
            assert(y[i] == second_issue[i]);
        }
        assert(first_issue =~= second_issue);
    }
}

fn is_safe_char(c: char) -> (r: bool)
    ensures
        r == safe_char(c),
{
    ('a' <= c && c <= 'z') || ('A' <= c && c <= 'Z') || ('0' <= c && c <= '9') || c == '.' || c
        == '_' || c == '-'
}

/// A title with every character outside `[A-Za-z0-9._-]` replaced by `_`.
pub fn sanitize(title: &str) -> (r: String)
    ensures
        r@ == sanitized(title@),
{
    let v = chars_of(title);
    let mut r = String::new();
    let mut i: usize = 0;
    while i < v.len()
        invariant
            i <= v.len(),
            v@ == title@,
            r@ == sanitized(title@).take(i as int),
        decreases v.len() - i,
    {
        let c = if is_safe_char(v[i]) {
            v[i]
        } else {
            '_'
        };
        r.push(c);
        assert(sanitized(title@).take(i + 1) =~= sanitized(title@).take(i as int).push(c));
        i += 1;
    }
    assert(sanitized(title@).take(v.len() as int) =~= sanitized(title@));
    r
}

/// The extension that a URL's path shows.
pub fn extension_from_path(path: &str) -> (r: String)
    ensures
        r@ == path_extension(path@),
{
    let v = chars_of(path);
    let segment = text_after_last(path, '/');
    if v.len() > 0 && v[0] == '/' && contains_char(segment.as_str(), '.') {
        text_after_last(segment.as_str(), '.')
    } else {
        String::from_str(DEFAULT_EXTENSION)
    }
}

/// Generate a filename for a downloaded asset from the identifier of its
/// issue, its title, its 1-based position and the path of its URL.
pub fn generate_filename(issue_id: &str, title: &str, index: usize, path: &str) -> (r: String)
    ensures
        r@ == stored_name(issue_id@, title@, index, path@),
{
    let mut r = String::from_str(issue_id);
    r.append("__");
    let clean = sanitize(title);
    let ext = file_extension(clean.as_str());
    if contains_char(clean.as_str(), '.') && is_known_extension(ext.as_str()) {
        r.append(clean.as_str());
    } else {
        let empty = chars_of(clean.as_str()).len() == 0;
        if empty {
            r.append("image");
        } else {
            r.append(clean.as_str());
        }
        r.append("_");
        push_decimal(&mut r, index as u64);
        r.append(".");
        let from_url = extension_from_path(path);
        r.append(from_url.as_str());
    }
    assert(r@ =~= stored_name(issue_id@, title@, index, path@));
    r
}

/* Reporting */

/// The word for one asset of a kind.
pub open spec fn noun(kind: AssetKind) -> Seq<char> {
    match kind {
        AssetKind::Image => "image"@,
        AssetKind::Attachment => "attachment"@,
    }
}

/// The line that reports one result, and where it goes: a success is a
/// message, a failure goes to the error channel.
pub open spec fn result_line(kind: AssetKind, result: DownloadResult) -> (Channel, Seq<char>) {
    match result {
        DownloadResult::Success { index, path } => (
            Channel::Out,
            "Downloaded "@ + noun(kind) + " "@ + decimal(index as nat) + " to "@ + path@,
        ),
        DownloadResult::Failed { index, url, error } => (
            Channel::Errors,
            "Failed to download "@ + noun(kind) + " "@ + decimal(index as nat) + " ("@ + url@
                + "): "@ + error@,
        ),
    }
}

/// The line that sums a batch up: with failures, how many of how many
/// succeeded; without, the number of successes where it is more than one;
/// else none.
pub open spec fn summary_line(kind: AssetKind, ok: nat, bad: nat) -> Option<Seq<char>> {
    if bad > 0 {
        Some(
            "Downloaded "@ + decimal(ok) + "/"@ + decimal(ok + bad) + " "@ + noun(kind) + "s ("@
                + decimal(bad) + " failed)"@,
        )
    } else if ok > 1 {
        Some("Downloaded "@ + decimal(ok) + " "@ + noun(kind) + "s"@)
    } else {
        None
    }
}

/// A line as plain values.
pub open spec fn line_view(line: ReportLine) -> (Channel, Seq<char>) {
    (line.channel, line.text@)
}

fn noun_of(kind: AssetKind) -> (r: &'static str)
    ensures
        r@ == noun(kind),
{
    match kind {
        AssetKind::Image => "image",
        AssetKind::Attachment => "attachment",
    }
}

/// The line that reports one result.
pub fn report_line(kind: AssetKind, result: &DownloadResult) -> (line: ReportLine)
    ensures
        line_view(line) == result_line(kind, *result),
{
    match result {
        DownloadResult::Success { index, path } => {
            let mut t = String::from_str("Downloaded ");
            t.append(noun_of(kind));
            t.append(" ");
            push_decimal(&mut t, *index as u64);
            t.append(" to ");
            t.append(path.as_str());
            ReportLine { channel: Channel::Out, text: t }
        },
        DownloadResult::Failed { index, url, error } => {
            let mut t = String::from_str("Failed to download ");
            t.append(noun_of(kind));
            t.append(" ");
            push_decimal(&mut t, *index as u64);
            t.append(" (");
            t.append(url.as_str());
            t.append("): ");
            t.append(error.as_str());
            ReportLine { channel: Channel::Errors, text: t }
        },
    }
}

/// The report of a batch: one line for each result, in order, and the
/// summary where there is one. A failure never keeps a success from being
/// reported, and no result is left out.
pub fn download_report(kind: AssetKind, results: &Vec<DownloadResult>) -> (lines: Vec<ReportLine>)
    ensures
        lines@.len() == results@.len() + (if summary_line(
            kind,
            successes(results@),
            failures(results@),
        ) is Some {
            1int
        } else {
            0int
        }),
        forall|i: int|
            0 <= i < results@.len() ==> line_view(#[trigger] lines@[i]) == result_line(
                kind,
                results@[i],
            ),
        summary_line(kind, successes(results@), failures(results@)) matches Some(text)
            ==> line_view(lines@[results@.len() as int]) == (Channel::Out, text),
{
    let mut lines: Vec<ReportLine> = Vec::new();
    let mut i: usize = 0;
    while i < results.len()
        invariant
            i <= results@.len(),
            lines@.len() == i,
            forall|k: int|
                0 <= k < i ==> line_view(#[trigger] lines@[k]) == result_line(kind, results@[k]),
        decreases results@.len() - i,
    {
        lines.push(report_line(kind, &results[i]));
        i += 1;
    }
    let (ok, bad) = tally(results);
    if bad > 0 {
        let mut t = String::from_str("Downloaded ");
        push_decimal(&mut t, ok as u64);
        t.append("/");
        push_decimal(&mut t, results.len() as u64);
        t.append(" ");
        t.append(noun_of(kind));
        t.append("s (");
        push_decimal(&mut t, bad as u64);
        t.append(" failed)");
        lines.push(ReportLine { channel: Channel::Out, text: t });
    } else if ok > 1 {
        let mut t = String::from_str("Downloaded ");
        push_decimal(&mut t, ok as u64);
        t.append(" ");
        t.append(noun_of(kind));
        t.append("s");
        lines.push(ReportLine { channel: Channel::Out, text: t });
    }
    lines
}

} // verus!
