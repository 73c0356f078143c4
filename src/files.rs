//! Files written by executed code: their metadata as the files API returns
//! it, and the decisions that turn a file id into a file on disk.
use vstd::prelude::*;
use crate::json::{count_at, flag_at, json_count_at, json_flag_at, json_text_at, json_uint_at, opt_text, text_at, uint_at};
use crate::text::{chars_of, copy_text, decimal, push_decimal, push_text};

verus! {

/// Metadata of a stored file.
#[derive(Debug, Clone, PartialEq)]
pub struct FileMetadata {
    pub id: String,
    pub filename: String,
    pub size: u64,
    pub content_type: String,
    pub created_at: Option<String>,
    pub downloadable: Option<bool>,
}

/// One page of the list of stored files.
#[derive(Debug, Clone, PartialEq)]
pub struct ListFilesResponse {
    pub data: Vec<FileMetadata>,
    pub has_more: Option<bool>,
    pub next_page: Option<String>,
}

/// File metadata in mathematical terms.
pub struct MetadataModel {
    pub id: Seq<char>,
    pub filename: Seq<char>,
    pub size: u64,
    pub content_type: Seq<char>,
    pub created_at: Option<Seq<char>>,
    pub downloadable: Option<bool>,
}

impl View for FileMetadata {
    type V = MetadataModel;

    open spec fn view(&self) -> MetadataModel {
        MetadataModel {
            id: self.id@,
            filename: self.filename@,
            size: self.size,
            content_type: self.content_type@,
            created_at: opt_text(self.created_at),
            downloadable: self.downloadable,
        }
    }
}

/// The metadata object that `at` points to in `doc`: `id`, `filename`,
/// `size_bytes` and `mime_type` are required; `created_at` and
/// `downloadable` are kept when present with their types.
pub open spec fn metadata_at(doc: Seq<char>, at: Seq<char>) -> Option<MetadataModel> {
    match (
        json_text_at(doc, at + "/id"@),
        json_text_at(doc, at + "/filename"@),
        json_uint_at(doc, at + "/size_bytes"@),
        json_text_at(doc, at + "/mime_type"@),
    ) {
        (Some(id), Some(filename), Some(size), Some(content_type)) => Some(MetadataModel {
            id,
            filename,
            size: size as u64,
            content_type,
            created_at: json_text_at(doc, at + "/created_at"@),
            downloadable: json_flag_at(doc, at + "/downloadable"@),
        }),
        _ => None,
    }
}

/// The pointer to the `i`-th entry of a file list.
pub open spec fn entry_pointer(i: nat) -> Seq<char> {
    "/data/"@ + decimal(i)
}

/// A page of the file list: `data` must be an array of metadata objects.
pub open spec fn file_list_of(doc: Seq<char>) -> Option<(Seq<MetadataModel>, Option<bool>, Option<Seq<char>>)> {
    match json_count_at(doc, "/data"@) {
        Some(n) => if forall|i: nat| i < n ==> (#[trigger] metadata_at(doc, entry_pointer(i))) is Some {
            Some((
                Seq::new(n, |i: int| metadata_at(doc, entry_pointer(i as nat))->0),
                json_flag_at(doc, "/has_more"@),
                json_text_at(doc, "/next_page"@),
            ))
        } else {
            None
        },
        None => None,
    }
}

/// The pointer `at` followed by `field`.
fn field_pointer(at: &str, field: &str) -> (r: String)
    ensures
        r@ == at@ + field@,
{
    let mut r = copy_text(at);
    push_text(&mut r, field);
    r
}

/// The metadata object that `at` points to in `doc`.
fn metadata_from(doc: &str, at: &str) -> (r: Option<FileMetadata>)
    ensures
        match r {
            Some(m) => metadata_at(doc@, at@) == Some(m@),
            None => metadata_at(doc@, at@) is None,
        },
{
    let id = text_at(doc, field_pointer(at, "/id").as_str());
    let filename = text_at(doc, field_pointer(at, "/filename").as_str());
    let size = uint_at(doc, field_pointer(at, "/size_bytes").as_str());
    let content_type = text_at(doc, field_pointer(at, "/mime_type").as_str());
    match (id, filename, size, content_type) {
        (Some(id), Some(filename), Some(size), Some(content_type)) => {
            let created_at = text_at(doc, field_pointer(at, "/created_at").as_str());
            let downloadable = flag_at(doc, field_pointer(at, "/downloadable").as_str());
            Some(FileMetadata { id, filename, size, content_type, created_at, downloadable })
        },
        _ => None,
    }
}

/// Reads file metadata from a response body of the files API.
pub fn parse_file_metadata(body: &str) -> (r: Option<FileMetadata>)
    ensures
        match r {
            Some(m) => metadata_at(body@, Seq::empty()) == Some(m@),
            None => metadata_at(body@, Seq::empty()) is None,
        },
{
    let r = metadata_from(body, "");
    proof {
        reveal_strlit("");
    }
    r
}

/// Reads a page of the file list from a response body of the files API.
pub fn parse_file_list(body: &str) -> (r: Option<ListFilesResponse>)
    ensures
        match r {
            Some(l) => file_list_of(body@) == Some((l.data@.map_values(|m: FileMetadata| m@), l.has_more, opt_text(l.next_page))),
            None => file_list_of(body@) is None,
        },
{
    let n = match count_at(body, "/data") {
        Some(n) => n,
        None => return None,
    };
    let mut data: Vec<FileMetadata> = Vec::new();
    let mut i: usize = 0;
    while i < n
        invariant
            json_count_at(body@, "/data"@) == Some(n as nat),
            i <= n,
            data@.len() == i,
            forall|j: nat| j < i ==> (#[trigger] metadata_at(body@, entry_pointer(j))) is Some,
            forall|j: int| 0 <= j < i ==> data@[j]@ == metadata_at(body@, entry_pointer(j as nat))->0,
        decreases n - i,
    {
        let mut at = copy_text("/data/");
        push_decimal(&mut at, i as u64);
        assert(at@ == entry_pointer(i as nat));
        match metadata_from(body, at.as_str()) {
            Some(m) => {
                data.push(m);
            },
            None => {
                assert(metadata_at(body@, entry_pointer(i as nat)) is None);
                return None;
            },
        }
        i += 1;
    }
    let has_more = flag_at(body, "/has_more");
    let next_page = text_at(body, "/next_page");
    assert(data@.map_values(|m: FileMetadata| m@)
        == Seq::new(n as nat, |i: int| metadata_at(body@, entry_pointer(i as nat))->0));
    Some(ListFilesResponse { data, has_more, next_page })
}

/// The final component of a path, as `std::path::Path::file_name` gives it.
pub uninterp spec fn path_file_name(path: Seq<char>) -> Option<Seq<char>>;

/// Relies on `std::path::Path::file_name`: the final component of the
/// path, if it has one that is not `..`.
#[verifier::external_body]
fn final_component(path: &str) -> (r: Option<String>)
    ensures
        opt_text(r) == path_file_name(path@),
{
    let name = std::path::Path::new(path).file_name()?;
    Some(name.to_str()?.to_string())
}

/// Whether a character may stay in a file name as it is.
pub open spec fn is_safe_char(c: char) -> bool {
    ('a' <= c && c <= 'z') || ('A' <= c && c <= 'Z') || ('0' <= c && c <= '9') || c == '.' || c == '-' || c == '_'
}

/// A character of a file name, replaced by `_` unless it is safe.
pub open spec fn clean_char(c: char) -> char {
    if is_safe_char(c) { c } else { '_' }
}

/// A file name that is safe to create in the output directory: the final
/// path component only (`unnamed_file` when there is none), with each unsafe
/// character replaced by `_`.
pub open spec fn sanitized(name: Seq<char>) -> Seq<char> {
    match path_file_name(name) {
        Some(n) => n.map_values(|c: char| clean_char(c)),
        None => "unnamed_file"@,
    }
}

/// Makes a resolved file name safe to create in the output directory.
pub fn sanitize_file_name(name: &str) -> (r: String)
    ensures
        r@ == sanitized(name@),
{
    let last = match final_component(name) {
        Some(n) => n,
        None => return copy_text("unnamed_file"),
    };
    let cs = chars_of(last.as_str());
    let mut r = String::new();
    let mut k: usize = 0;
    while k < cs.len()
        invariant
            k <= cs@.len(),
            r@ == cs@.take(k as int).map_values(|c: char| clean_char(c)),
        decreases cs@.len() - k,
    {
        let c = cs[k];
        let safe = ('a' <= c && c <= 'z') || ('A' <= c && c <= 'Z') || ('0' <= c && c <= '9') || c == '.'
            || c == '-' || c == '_';
        r.push(if safe { c } else { '_' });
        assert(cs@.take(k + 1) == cs@.take(k as int).push(c));
        k += 1;
    }
    assert(cs@.take(cs@.len() as int) == cs@);
    r
}

/// Whether an id names a stored file that can be fetched: such ids start
/// with `file_`.
pub open spec fn is_file_id(id: Seq<char>) -> bool {
    id.len() >= 5 && id.subrange(0, 5) == "file_"@
}

/// Whether an id names a stored file that can be fetched.
pub fn is_file_reference(id: &str) -> (r: bool)
    ensures
        r == is_file_id(id@),
{
    let cs = chars_of(id);
    let prefix = chars_of("file_");
    proof {
        reveal_strlit("file_");
    }
    crate::text::has_prefix_at(&cs, 0, &prefix)
}

/// The name a file gets when its metadata cannot be had.
pub open spec fn fallback_name(file_id: Seq<char>) -> Seq<char> {
    file_id + ".bin"@
}

/// The text written in place of a file whose content could not be fetched.
pub open spec fn placeholder_text(file_id: Seq<char>, reason: Seq<char>) -> Seq<char> {
    "Failed to download file from the code execution sandbox.\n\nFile ID: "@ + file_id + "\nError: "@ + reason
        + "\n\nThis could be due to:\n- The file API not being available yet\n- The file having expired\n- Authentication or permission issues\n\nYou can try using the Anthropic Files API directly with the file ID above.\n"@
}

/// How long to wait before asking for metadata a second time.
pub const METADATA_RETRY_DELAY_MS: u64 = 500;

/// Where the resolution of one file stands.
#[derive(PartialEq, Eq, Structural, Clone, Copy, Debug)]
pub enum ResolverStage {
    /// Waiting for the first metadata request.
    FirstMetadata,
    /// Waiting for the second and last metadata request.
    RetryMetadata,
    /// The name is known; waiting for the content.
    Content,
    /// The file has been written, or a placeholder in its place.
    Done,
}

/// What the task that resolves a file must do next.
#[derive(Debug, Clone, PartialEq)]
pub enum ResolverAction {
    /// Wait this long, then request the metadata again.
    RetryMetadataAfter { delay_ms: u64 },
    /// Report the name of the file to the consumer, then request its content.
    ReportName { file_id: String, name: String },
    /// Write the content under this name in the output directory.
    WriteContent { file_name: String },
    /// Write this text under this name in the output directory instead.
    WritePlaceholder { file_name: String, body: String },
    /// Nothing is left to do.
    Nothing,
}

/// A resolver action in mathematical terms.
pub enum ActionModel {
    RetryMetadataAfter { delay_ms: u64 },
    ReportName { file_id: Seq<char>, name: Seq<char> },
    WriteContent { file_name: Seq<char> },
    WritePlaceholder { file_name: Seq<char>, body: Seq<char> },
    Nothing,
}

impl View for ResolverAction {
    type V = ActionModel;

    open spec fn view(&self) -> ActionModel {
        match self {
            ResolverAction::RetryMetadataAfter { delay_ms } => ActionModel::RetryMetadataAfter { delay_ms: *delay_ms },
            ResolverAction::ReportName { file_id, name } => ActionModel::ReportName { file_id: file_id@, name: name@ },
            ResolverAction::WriteContent { file_name } => ActionModel::WriteContent { file_name: file_name@ },
            ResolverAction::WritePlaceholder { file_name, body } =>
                ActionModel::WritePlaceholder { file_name: file_name@, body: body@ },
            ResolverAction::Nothing => ActionModel::Nothing,
        }
    }
}

/// A resolver in mathematical terms.
pub struct ResolverModel {
    pub file_id: Seq<char>,
    pub name: Seq<char>,
    pub stage: ResolverStage,
}

/// The outcome of a metadata request: the file name, or `None` on failure.
pub open spec fn metadata_step(r: ResolverModel, filename: Option<Seq<char>>) -> (ResolverModel, ActionModel) {
    match r.stage {
        ResolverStage::FirstMetadata => match filename {
            Some(n) => (ResolverModel { name: n, stage: ResolverStage::Content, ..r },
                ActionModel::ReportName { file_id: r.file_id, name: n }),
            None => (ResolverModel { stage: ResolverStage::RetryMetadata, ..r },
                ActionModel::RetryMetadataAfter { delay_ms: METADATA_RETRY_DELAY_MS }),
        },
        ResolverStage::RetryMetadata => {
            let n = match filename {
                Some(n) => n,
                None => fallback_name(r.file_id),
            };
            (ResolverModel { name: n, stage: ResolverStage::Content, ..r },
                ActionModel::ReportName { file_id: r.file_id, name: n })
        },
        _ => (r, ActionModel::Nothing),
    }
}

/// The outcome of a content request: success, or the reason it failed.
pub open spec fn content_step(r: ResolverModel, failure: Option<Seq<char>>) -> (ResolverModel, ActionModel) {
    if r.stage == ResolverStage::Content {
        let done = ResolverModel { stage: ResolverStage::Done, ..r };
        match failure {
            None => (done, ActionModel::WriteContent { file_name: sanitized(r.name) }),
            Some(reason) => (done, ActionModel::WritePlaceholder {
                file_name: sanitized(r.name),
                body: placeholder_text(r.file_id, reason),
            }),
        }
    } else {
        (r, ActionModel::Nothing)
    }
}

/// The decisions of resolving one file reference: ask for its metadata,
/// once more after a short delay, then fall back to `{id}.bin`; report the
/// name; fetch the content and write it, or a placeholder, under the
/// sanitized name. Failures never go further than this one file.
pub struct FileResolver {
    file_id: String,
    name: String,
    stage: ResolverStage,
}

impl View for FileResolver {
    type V = ResolverModel;

    closed spec fn view(&self) -> ResolverModel {
        ResolverModel { file_id: self.file_id@, name: self.name@, stage: self.stage }
    }
}

impl FileResolver {
    /// A resolver for `file_id`; its first step is a metadata request.
    pub fn new(file_id: String) -> (r: FileResolver)
        ensures
            r@ == (ResolverModel { file_id: file_id@, name: file_id@, stage: ResolverStage::FirstMetadata }),
    {
        let name = copy_text(file_id.as_str());
        FileResolver { file_id, name, stage: ResolverStage::FirstMetadata }
    }

    /// Where the resolution stands.
    pub fn stage(&self) -> (r: ResolverStage)
        ensures
            r == self@.stage,
    {
        self.stage
    }

    /// The name known so far: the file id until metadata has been had.
    pub fn name(&self) -> (r: String)
        ensures
            r@ == self@.name,
    {
        copy_text(self.name.as_str())
    }

    /// A metadata request finished, with the file name or with `None`.
    pub fn on_metadata(&mut self, filename: Option<String>) -> (a: ResolverAction)
        ensures
            (final(self)@, a@) == metadata_step(old(self)@, opt_text(filename)),
    {
        match self.stage {
            ResolverStage::FirstMetadata => match filename {
                Some(n) => {
                    self.name = copy_text(n.as_str());
                    self.stage = ResolverStage::Content;
                    ResolverAction::ReportName { file_id: copy_text(self.file_id.as_str()), name: n }
                },
                None => {
                    self.stage = ResolverStage::RetryMetadata;
                    ResolverAction::RetryMetadataAfter { delay_ms: METADATA_RETRY_DELAY_MS }
                },
            },
            ResolverStage::RetryMetadata => {
                let n = match filename {
                    Some(n) => n,
                    None => {
                        let mut f = copy_text(self.file_id.as_str());
                        push_text(&mut f, ".bin");
                        f
                    },
                };
                self.name = copy_text(n.as_str());
                self.stage = ResolverStage::Content;
                ResolverAction::ReportName { file_id: copy_text(self.file_id.as_str()), name: n }
            },
            _ => ResolverAction::Nothing,
        }
    }

    /// A content request finished: `Ok` when the bytes are at hand, or the
    /// reason it failed.
    pub fn on_content(&mut self, outcome: Result<(), String>) -> (a: ResolverAction)
        ensures
            (final(self)@, a@) == content_step(old(self)@, match outcome {
                Ok(_) => None,
                Err(e) => Some(e@),
            }),
    {
        if self.stage != ResolverStage::Content {
            return ResolverAction::Nothing;
        }
        self.stage = ResolverStage::Done;
        let file_name = sanitize_file_name(self.name.as_str());
        match outcome {
            Ok(()) => ResolverAction::WriteContent { file_name },
            Err(reason) => {
                let mut body = copy_text("Failed to download file from the code execution sandbox.\n\nFile ID: ");
                push_text(&mut body, self.file_id.as_str());
                push_text(&mut body, "\nError: ");
                push_text(&mut body, reason.as_str());
                push_text(&mut body, "\n\nThis could be due to:\n- The file API not being available yet\n- The file having expired\n- Authentication or permission issues\n\nYou can try using the Anthropic Files API directly with the file ID above.\n");
                ResolverAction::WritePlaceholder { file_name, body }
            },
        }
    }
}

} // verus!
