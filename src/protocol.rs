//! The streaming wire protocol: decoded frame payloads and the domain events
//! that the client hands to its consumer.
use vstd::prelude::*;
use crate::json::{count_at, int_at, json_count_at, json_int_at, json_text_at, opt_text, text_at};
use crate::text::{chars_of, copy_text, decimal, push_decimal, push_text, same_text, string_of_range};

verus! {

/// One message of a conversation, as sent to the API.
#[derive(Debug, Clone, PartialEq)]
pub struct Message {
    pub role: String,
    pub content: String,
}

/// Metadata of the sandbox container that backs code execution.
#[derive(Debug, Clone, PartialEq)]
pub struct Container {
    pub id: String,
    pub expires_at: String,
}

/// The payload of a `message_start` frame.
#[derive(Debug, Clone, PartialEq)]
pub struct MessageStartData {
    pub container: Option<Container>,
}

/// A file written by executed code.
#[derive(Debug, Clone, PartialEq)]
pub enum FileOutput {
    CodeExecutionOutput { file_id: String },
}

/// The outcome of one code execution.
#[derive(Debug, Clone, PartialEq)]
pub enum CodeExecutionResult {
    Success { stdout: String, stderr: String, return_code: i32, content: Vec<FileOutput> },
    Error { error_code: String },
}

/// The block that a `content_block_start` frame opens.
#[derive(Debug, Clone, PartialEq)]
pub enum ContentBlock {
    Text { text: String },
    ServerToolUse { id: String, name: String },
    CodeExecutionToolResult { tool_use_id: String, content: CodeExecutionResult },
}

/// The increment that a `content_block_delta` frame carries.
#[derive(Debug, Clone, PartialEq)]
pub enum Delta {
    TextDelta { text: String },
    InputJsonDelta { partial_json: String },
}

/// A decoded frame payload, tagged by its `type` field.
#[derive(Debug, Clone, PartialEq)]
pub enum StreamEventData {
    MessageStart { message: MessageStartData },
    ContentBlockStart { content_block: ContentBlock },
    ContentBlockDelta { delta: Delta },
    ContentBlockStop,
    MessageDelta,
    MessageStop,
}

/// A domain event, as delivered to the consumer.
#[derive(Debug, Clone, PartialEq)]
pub enum StreamEvent {
    Text(String),
    CodeInput(String),
    CodeOutput { stdout: String, stderr: String, return_code: i32, files: Vec<(String, String)> },
    CodeError(String),
    ContainerInfo { id: String, expires_at: String },
    ConnectionStatus(String),
}

/// What a code execution produced, in mathematical terms.
pub enum ToolResultModel {
    Success { stdout: Seq<char>, stderr: Seq<char>, return_code: i32, files: Seq<Seq<char>> },
    Failure { error_code: Seq<char> },
}

/// What a decoded frame payload says, in mathematical terms.
pub enum FrameData {
    SessionStart { container: Option<(Seq<char>, Seq<char>)> },
    TextBlock { text: Seq<char> },
    ToolUse { id: Seq<char>, name: Seq<char> },
    ToolResult { tool_use_id: Seq<char>, result: ToolResultModel },
    TextDelta { text: Seq<char> },
    JsonDelta { partial_json: Seq<char> },
    BlockStop,
    MessageDelta,
    MessageStop,
}

/// A domain event, in mathematical terms.
pub enum EventModel {
    Text(Seq<char>),
    CodeInput(Seq<char>),
    CodeOutput { stdout: Seq<char>, stderr: Seq<char>, return_code: i32, files: Seq<(Seq<char>, Seq<char>)> },
    CodeError(Seq<char>),
    ContainerInfo { id: Seq<char>, expires_at: Seq<char> },
    ConnectionStatus(Seq<char>),
}

impl FileOutput {
    /// The id of the file.
    pub open spec fn id_view(&self) -> Seq<char> {
        match self {
            FileOutput::CodeExecutionOutput { file_id } => file_id@,
        }
    }
}

/// The ids of a list of file outputs.
pub open spec fn file_ids(v: Seq<FileOutput>) -> Seq<Seq<char>> {
    v.map_values(|f: FileOutput| f.id_view())
}

/// The views of a list of `(id, name)` pairs.
pub open spec fn pairs_view(v: Seq<(String, String)>) -> Seq<(Seq<char>, Seq<char>)> {
    v.map_values(|p: (String, String)| (p.0@, p.1@))
}

impl View for CodeExecutionResult {
    type V = ToolResultModel;

    open spec fn view(&self) -> ToolResultModel {
        match self {
            CodeExecutionResult::Success { stdout, stderr, return_code, content } =>
                ToolResultModel::Success {
                    stdout: stdout@,
                    stderr: stderr@,
                    return_code: *return_code,
                    files: file_ids(content@),
                },
            CodeExecutionResult::Error { error_code } =>
                ToolResultModel::Failure { error_code: error_code@ },
        }
    }
}

impl View for StreamEventData {
    type V = FrameData;

    open spec fn view(&self) -> FrameData {
        match self {
            StreamEventData::MessageStart { message } => FrameData::SessionStart {
                container: match message.container {
                    Some(c) => Some((c.id@, c.expires_at@)),
                    None => None,
                },
            },
            StreamEventData::ContentBlockStart { content_block } => match content_block {
                ContentBlock::Text { text } => FrameData::TextBlock { text: text@ },
                ContentBlock::ServerToolUse { id, name } => FrameData::ToolUse { id: id@, name: name@ },
                ContentBlock::CodeExecutionToolResult { tool_use_id, content } =>
                    FrameData::ToolResult { tool_use_id: tool_use_id@, result: content@ },
            },
            StreamEventData::ContentBlockDelta { delta } => match delta {
                Delta::TextDelta { text } => FrameData::TextDelta { text: text@ },
                Delta::InputJsonDelta { partial_json } => FrameData::JsonDelta { partial_json: partial_json@ },
            },
            StreamEventData::ContentBlockStop => FrameData::BlockStop,
            StreamEventData::MessageDelta => FrameData::MessageDelta,
            StreamEventData::MessageStop => FrameData::MessageStop,
        }
    }
}

impl View for StreamEvent {
    type V = EventModel;

    open spec fn view(&self) -> EventModel {
        match self {
            StreamEvent::Text(t) => EventModel::Text(t@),
            StreamEvent::CodeInput(c) => EventModel::CodeInput(c@),
            StreamEvent::CodeOutput { stdout, stderr, return_code, files } => EventModel::CodeOutput {
                stdout: stdout@,
                stderr: stderr@,
                return_code: *return_code,
                files: pairs_view(files@),
            },
            StreamEvent::CodeError(e) => EventModel::CodeError(e@),
            StreamEvent::ContainerInfo { id, expires_at } =>
                EventModel::ContainerInfo { id: id@, expires_at: expires_at@ },
            StreamEvent::ConnectionStatus(s) => EventModel::ConnectionStatus(s@),
        }
    }
}

/// The views of a list of events.
pub open spec fn events_view(v: Seq<StreamEvent>) -> Seq<EventModel> {
    v.map_values(|e: StreamEvent| e@)
}

/// The view of an optional decoded payload.
pub open spec fn opt_data(o: Option<StreamEventData>) -> Option<FrameData> {
    match o {
        Some(d) => Some(d@),
        None => None,
    }
}

// ---------------------------------------------------------------------------
// Payload extraction

/// The payload of one line of a frame: what follows the `"data: "` marker,
/// if the line starts with it. A line ended by `"\n"` loses a trailing `'\r'`.
pub open spec fn line_payload(line: Seq<char>, terminated: bool) -> Option<Seq<char>> {
    let l = if terminated && line.len() > 0 && line.last() == '\r' {
        line.drop_last()
    } else {
        line
    };
    if l.len() >= 6 && l.subrange(0, 6) == "data: "@ {
        Some(l.subrange(6, l.len() as int))
    } else {
        None
    }
}

/// Scans the lines of `f` from position `i`, the current line starting at
/// `s`: the payload of the first line that carries the marker.
pub open spec fn payload_from(f: Seq<char>, s: int, i: int) -> Option<Seq<char>>
    decreases f.len() - i,
{
    if i < s || s < 0 || i >= f.len() {
        if 0 <= s <= f.len() {
            line_payload(f.subrange(s, f.len() as int), false)
        } else {
            None
        }
    } else if f[i] == '\n' {
        match line_payload(f.subrange(s, i), true) {
            Some(p) => Some(p),
            None => payload_from(f, i + 1, i + 1),
        }
    } else {
        payload_from(f, s, i + 1)
    }
}

/// The payload of a frame: what follows the marker on its first line that
/// starts with `"data: "`.
pub open spec fn payload_of(frame: Seq<char>) -> Option<Seq<char>> {
    payload_from(frame, 0, 0)
}

/// The payload of the line `cs[s..e]`, if it carries the marker.
fn line_payload_exec(cs: &Vec<char>, s: usize, e: usize, terminated: bool) -> (r: Option<String>)
    requires
        s <= e <= cs@.len(),
    ensures
        opt_text(r) == line_payload(cs@.subrange(s as int, e as int), terminated),
{
    let ghost line = cs@.subrange(s as int, e as int);
    let end = if terminated && e > s && cs[e - 1] == '\r' { e - 1 } else { e };
    proof {
        let l = if terminated && line.len() > 0 && line.last() == '\r' { line.drop_last() } else { line };
        assert(l == cs@.subrange(s as int, end as int));
    }
    if end - s >= 6 && cs[s] == 'd' && cs[s + 1] == 'a' && cs[s + 2] == 't' && cs[s + 3] == 'a'
        && cs[s + 4] == ':' && cs[s + 5] == ' ' {
        proof {
            reveal_strlit("data: ");
            assert(cs@.subrange(s as int, end as int).subrange(0, 6) == "data: "@);
            assert(cs@.subrange(s as int, end as int).subrange(6, end - s) == cs@.subrange(s + 6, end as int));
        }
        Some(string_of_range(cs, s + 6, end))
    } else {
        proof {
            reveal_strlit("data: ");
            let l = cs@.subrange(s as int, end as int);
            if l.len() >= 6 && l.subrange(0, 6) == "data: "@ {
                assert(l.subrange(0, 6)[0] == 'd');
                assert(l.subrange(0, 6)[1] == 'a');
                assert(l.subrange(0, 6)[2] == 't');
                assert(l.subrange(0, 6)[3] == 'a');
                assert(l.subrange(0, 6)[4] == ':');
                assert(l.subrange(0, 6)[5] == ' ');
            }
        }
        None
    }
}

/// The payload of a frame: the rest of its first line that starts with
/// `"data: "`, or `None` when no line does.
pub fn frame_payload(frame: &str) -> (r: Option<String>)
    ensures
        opt_text(r) == payload_of(frame@),
{
    let cs = chars_of(frame);
    let mut s: usize = 0;
    let mut i: usize = 0;
    while i < cs.len()
        invariant
            cs@ == frame@,
            s <= i <= cs@.len(),
            payload_of(frame@) == payload_from(frame@, s as int, i as int),
        decreases cs@.len() - i,
    {
        if cs[i] == '\n' {
            let p = line_payload_exec(&cs, s, i, true);
            if p.is_some() {
                return p;
            }
            i = i + 1;
            s = i;
        } else {
            i = i + 1;
        }
    }
    line_payload_exec(&cs, s, cs.len(), false)
}

// ---------------------------------------------------------------------------
// Payload decoding

/// The container metadata of a `message_start` payload, when both fields are
/// strings.
pub open spec fn container_of(p: Seq<char>) -> Option<(Seq<char>, Seq<char>)> {
    match (json_text_at(p, "/message/container/id"@), json_text_at(p, "/message/container/expires_at"@)) {
        (Some(id), Some(e)) => Some((id, e)),
        _ => None,
    }
}

/// The pointer to field `field` of the `i`-th file output of a tool result.
pub open spec fn file_pointer(i: nat, field: Seq<char>) -> Seq<char> {
    "/content_block/content/content/"@ + decimal(i) + "/"@ + field
}

/// Whether the `i`-th file output of a tool result is well formed.
pub open spec fn file_entry_ok(p: Seq<char>, i: nat) -> bool {
    &&& json_text_at(p, file_pointer(i, "type"@)) == Some("code_execution_output"@)
    &&& json_text_at(p, file_pointer(i, "file_id"@)) is Some
}

/// The file ids of a successful tool result; a missing list counts as empty.
pub open spec fn files_of(p: Seq<char>) -> Option<Seq<Seq<char>>> {
    match json_count_at(p, "/content_block/content/content"@) {
        None => Some(Seq::empty()),
        Some(n) => if forall|i: nat| i < n ==> #[trigger] file_entry_ok(p, i) {
            Some(Seq::new(n, |i: int| json_text_at(p, file_pointer(i as nat, "file_id"@))->0))
        } else {
            None
        },
    }
}

/// The tool result nested in a `content_block_start` payload.
pub open spec fn result_of(p: Seq<char>) -> Option<ToolResultModel> {
    match json_text_at(p, "/content_block/content/type"@) {
        Some(k) => if k == "code_execution_result"@ {
            match (
                json_text_at(p, "/content_block/content/stdout"@),
                json_text_at(p, "/content_block/content/stderr"@),
                json_int_at(p, "/content_block/content/return_code"@),
                files_of(p),
            ) {
                (Some(o), Some(e), Some(c), Some(fs)) => if i32::MIN <= c <= i32::MAX {
                    Some(ToolResultModel::Success { stdout: o, stderr: e, return_code: c as i32, files: fs })
                } else {
                    None
                },
                _ => None,
            }
        } else if k == "code_execution_tool_result_error"@ {
            match json_text_at(p, "/content_block/content/error_code"@) {
                Some(c) => Some(ToolResultModel::Failure { error_code: c }),
                None => None,
            }
        } else {
            None
        },
        None => None,
    }
}

/// The block that a `content_block_start` payload opens.
pub open spec fn block_of(p: Seq<char>) -> Option<FrameData> {
    match json_text_at(p, "/content_block/type"@) {
        Some(k) => if k == "text"@ {
            match json_text_at(p, "/content_block/text"@) {
                Some(t) => Some(FrameData::TextBlock { text: t }),
                None => None,
            }
        } else if k == "server_tool_use"@ {
            match (json_text_at(p, "/content_block/id"@), json_text_at(p, "/content_block/name"@)) {
                (Some(id), Some(name)) => Some(FrameData::ToolUse { id, name }),
                _ => None,
            }
        } else if k == "code_execution_tool_result"@ {
            match (json_text_at(p, "/content_block/tool_use_id"@), result_of(p)) {
                (Some(id), Some(r)) => Some(FrameData::ToolResult { tool_use_id: id, result: r }),
                _ => None,
            }
        } else {
            None
        },
        None => None,
    }
}

/// The increment that a `content_block_delta` payload carries.
pub open spec fn delta_of(p: Seq<char>) -> Option<FrameData> {
    match json_text_at(p, "/delta/type"@) {
        Some(k) => if k == "text_delta"@ {
            match json_text_at(p, "/delta/text"@) {
                Some(t) => Some(FrameData::TextDelta { text: t }),
                None => None,
            }
        } else if k == "input_json_delta"@ {
            match json_text_at(p, "/delta/partial_json"@) {
                Some(t) => Some(FrameData::JsonDelta { partial_json: t }),
                None => None,
            }
        } else {
            None
        },
        None => None,
    }
}

/// What a payload says, dispatched on its `type` field; `None` for a payload
/// that does not parse, lacks a recognised type, or misses a field that its
/// type requires.
pub open spec fn frame_data(p: Seq<char>) -> Option<FrameData> {
    match json_text_at(p, "/type"@) {
        Some(t) => if t == "message_start"@ {
            Some(FrameData::SessionStart { container: container_of(p) })
        } else if t == "content_block_start"@ {
            block_of(p)
        } else if t == "content_block_delta"@ {
            delta_of(p)
        } else if t == "content_block_stop"@ {
            Some(FrameData::BlockStop)
        } else if t == "message_delta"@ {
            Some(FrameData::MessageDelta)
        } else if t == "message_stop"@ {
            Some(FrameData::MessageStop)
        } else {
            None
        },
        None => None,
    }
}

/// What a frame says: the decoded payload of its marked line, if any.
pub open spec fn decode_spec(frame: Seq<char>) -> Option<FrameData> {
    match payload_of(frame) {
        Some(p) => frame_data(p),
        None => None,
    }
}

/// Whether the optional string `o` holds exactly the characters of `lit`.
fn holds(o: &Option<String>, lit: &str) -> (r: bool)
    ensures
        r == (opt_text(*o) == Some(lit@)),
{
    match o {
        Some(s) => same_text(s.as_str(), lit),
        None => false,
    }
}

/// Builds the pointer to field `field` of the `i`-th file output.
fn file_pointer_exec(i: usize, field: &str) -> (r: String)
    ensures
        r@ == file_pointer(i as nat, field@),
{
    let mut r = copy_text("/content_block/content/content/");
    push_decimal(&mut r, i as u64);
    push_text(&mut r, "/");
    push_text(&mut r, field);
    r
}

/// The file outputs of a successful tool result.
fn decode_files(p: &str) -> (r: Option<Vec<FileOutput>>)
    ensures
        match r {
            Some(v) => files_of(p@) == Some(file_ids(v@)),
            None => files_of(p@) is None,
        },
{
    let n = match count_at(p, "/content_block/content/content") {
        None => {
            let v: Vec<FileOutput> = Vec::new();
            assert(file_ids(v@) == Seq::<Seq<char>>::empty());
            return Some(v);
        },
        Some(n) => n,
    };
    let mut v: Vec<FileOutput> = Vec::new();
    let mut i: usize = 0;
    while i < n
        invariant
            json_count_at(p@, "/content_block/content/content"@) == Some(n as nat),
            i <= n,
            v@.len() == i,
            forall|j: nat| j < i ==> #[trigger] file_entry_ok(p@, j),
            forall|j: int| 0 <= j < i ==> file_ids(v@)[j] == json_text_at(p@, file_pointer(j as nat, "file_id"@))->0,
        decreases n - i,
    {
        let kind_ptr = file_pointer_exec(i, "type");
        let id_ptr = file_pointer_exec(i, "file_id");
        let kind = text_at(p, kind_ptr.as_str());
        let id = text_at(p, id_ptr.as_str());
        if !holds(&kind, "code_execution_output") || id.is_none() {
            assert(!file_entry_ok(p@, i as nat));
            return None;
        }
        let id = id.unwrap();
        assert(json_text_at(p@, file_pointer(i as nat, "file_id"@)) == Some(id@));
        let ghost before = v@;
        v.push(FileOutput::CodeExecutionOutput { file_id: id });
        proof {
            assert(file_ids(v@)[i as int] == v@[i as int].id_view());
            assert forall|j: int| 0 <= j < i + 1 implies
                file_ids(v@)[j] == json_text_at(p@, file_pointer(j as nat, "file_id"@))->0 by {
                if j < i {
                    assert(v@[j] == before[j]);
                    assert(file_ids(v@)[j] == v@[j].id_view());
                    assert(file_ids(before)[j] == before[j].id_view());
                }
            }
        }
        i += 1;
    }
    assert(file_ids(v@) == Seq::new(n as nat, |i: int| json_text_at(p@, file_pointer(i as nat, "file_id"@))->0));
    Some(v)
}

/// The tool result nested in a `content_block_start` payload.
fn decode_result(p: &str) -> (r: Option<CodeExecutionResult>)
    ensures
        match r {
            Some(x) => result_of(p@) == Some(x@),
            None => result_of(p@) is None,
        },
{
    let kind = text_at(p, "/content_block/content/type");
    if holds(&kind, "code_execution_result") {
        let stdout = text_at(p, "/content_block/content/stdout");
        let stderr = text_at(p, "/content_block/content/stderr");
        let code = int_at(p, "/content_block/content/return_code");
        let files = decode_files(p);
        match (stdout, stderr, code, files) {
            (Some(o), Some(e), Some(c), Some(fs)) => {
                if i32::MIN as i64 <= c && c <= i32::MAX as i64 {
                    Some(CodeExecutionResult::Success { stdout: o, stderr: e, return_code: c as i32, content: fs })
                } else {
                    None
                }
            },
            _ => None,
        }
    } else if holds(&kind, "code_execution_tool_result_error") {
        match text_at(p, "/content_block/content/error_code") {
            Some(c) => Some(CodeExecutionResult::Error { error_code: c }),
            None => None,
        }
    } else {
        None
    }
}

/// The block that a `content_block_start` payload opens.
fn decode_block(p: &str) -> (r: Option<StreamEventData>)
    ensures
        opt_data(r) == block_of(p@),
{
    let kind = text_at(p, "/content_block/type");
    if holds(&kind, "text") {
        match text_at(p, "/content_block/text") {
            Some(t) => Some(StreamEventData::ContentBlockStart { content_block: ContentBlock::Text { text: t } }),
            None => None,
        }
    } else if holds(&kind, "server_tool_use") {
        match (text_at(p, "/content_block/id"), text_at(p, "/content_block/name")) {
            (Some(id), Some(name)) => Some(StreamEventData::ContentBlockStart {
                content_block: ContentBlock::ServerToolUse { id, name },
            }),
            _ => None,
        }
    } else if holds(&kind, "code_execution_tool_result") {
        match (text_at(p, "/content_block/tool_use_id"), decode_result(p)) {
            (Some(id), Some(res)) => Some(StreamEventData::ContentBlockStart {
                content_block: ContentBlock::CodeExecutionToolResult { tool_use_id: id, content: res },
            }),
            _ => None,
        }
    } else {
        None
    }
}

/// The increment that a `content_block_delta` payload carries.
fn decode_delta(p: &str) -> (r: Option<StreamEventData>)
    ensures
        opt_data(r) == delta_of(p@),
{
    let kind = text_at(p, "/delta/type");
    if holds(&kind, "text_delta") {
        match text_at(p, "/delta/text") {
            Some(t) => Some(StreamEventData::ContentBlockDelta { delta: Delta::TextDelta { text: t } }),
            None => None,
        }
    } else if holds(&kind, "input_json_delta") {
        match text_at(p, "/delta/partial_json") {
            Some(t) => Some(StreamEventData::ContentBlockDelta { delta: Delta::InputJsonDelta { partial_json: t } }),
            None => None,
        }
    } else {
        None
    }
}

/// Decodes a frame payload by its `type` field. Unknown types, payloads that
/// do not parse and payloads that miss a required field give `None`.
pub fn decode_payload(p: &str) -> (r: Option<StreamEventData>)
    ensures
        opt_data(r) == frame_data(p@),
{
    let kind = text_at(p, "/type");
    if holds(&kind, "message_start") {
        let id = text_at(p, "/message/container/id");
        let expires = text_at(p, "/message/container/expires_at");
        let container = match (id, expires) {
            (Some(id), Some(expires_at)) => Some(Container { id, expires_at }),
            _ => None,
        };
        Some(StreamEventData::MessageStart { message: MessageStartData { container } })
    } else if holds(&kind, "content_block_start") {
        decode_block(p)
    } else if holds(&kind, "content_block_delta") {
        decode_delta(p)
    } else if holds(&kind, "content_block_stop") {
        Some(StreamEventData::ContentBlockStop)
    } else if holds(&kind, "message_delta") {
        Some(StreamEventData::MessageDelta)
    } else if holds(&kind, "message_stop") {
        Some(StreamEventData::MessageStop)
    } else {
        None
    }
}

/// Decodes a frame: the payload of its marked line, decoded by type. A frame
/// without a marked line, or whose payload does not decode, gives `None`.
pub fn decode_frame(frame: &str) -> (r: Option<StreamEventData>)
    ensures
        opt_data(r) == decode_spec(frame@),
{
    match frame_payload(frame) {
        Some(p) => decode_payload(p.as_str()),
        None => None,
    }
}

} // verus!
