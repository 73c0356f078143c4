//! Tool-call reconstruction and tool-result interpretation: how decoded
//! payloads become domain events.
use vstd::prelude::*;
use crate::json::{json_text_at, text_at};
use crate::protocol::{
    CodeExecutionResult, ContentBlock, Delta, EventModel, FileOutput, FrameData, StreamEvent,
    StreamEventData, ToolResultModel, pairs_view,
};
use crate::text::{copy_text, push_text, same_text};

verus! {

/// The tool accumulator in mathematical terms: whether a code-execution
/// block is open, and the input text gathered for it so far.
pub struct ToolState {
    pub open: bool,
    pub input: Seq<char>,
}

/// The view of an optional event.
pub open spec fn opt_event(o: Option<StreamEvent>) -> Option<EventModel> {
    match o {
        Some(e) => Some(e@),
        None => None,
    }
}

/// Each file id paired with itself: the display name of a file starts as
/// its id, until it is resolved.
pub open spec fn unresolved(ids: Seq<Seq<char>>) -> Seq<(Seq<char>, Seq<char>)> {
    ids.map_values(|id: Seq<char>| (id, id))
}

/// The event that a tool result becomes.
pub open spec fn result_event(r: ToolResultModel) -> EventModel {
    match r {
        ToolResultModel::Success { stdout, stderr, return_code, files } =>
            EventModel::CodeOutput { stdout, stderr, return_code, files: unresolved(files) },
        ToolResultModel::Failure { error_code } => EventModel::CodeError(error_code),
    }
}

/// The name of the code-execution tool.
pub open spec fn code_tool_name() -> Seq<char> {
    "code_execution"@
}

/// The event, if any, that a complete tool input becomes: its `code` field.
pub open spec fn tool_input_event(input: Seq<char>) -> Option<EventModel> {
    match json_text_at(input, "/code"@) {
        Some(c) => Some(EventModel::CodeInput(c)),
        None => None,
    }
}

/// One decoded payload applied to the tool accumulator: the new accumulator
/// and the event emitted, if any.
pub open spec fn apply_data(st: ToolState, d: FrameData) -> (ToolState, Option<EventModel>) {
    match d {
        FrameData::SessionStart { container } => match container {
            Some(c) => (st, Some(EventModel::ContainerInfo { id: c.0, expires_at: c.1 })),
            None => (st, None),
        },
        FrameData::ToolUse { name, .. } => if name == code_tool_name() {
            (ToolState { open: true, input: Seq::empty() }, None)
        } else {
            (st, None)
        },
        FrameData::ToolResult { result, .. } => (st, Some(result_event(result))),
        FrameData::TextDelta { text } => (st, Some(EventModel::Text(text))),
        FrameData::JsonDelta { partial_json } => if st.open {
            (ToolState { open: true, input: st.input + partial_json }, None)
        } else {
            (st, None)
        },
        FrameData::BlockStop => if st.open && st.input.len() > 0 {
            (ToolState { open: false, input: Seq::empty() }, tool_input_event(st.input))
        } else {
            (st, None)
        },
        _ => (st, None),
    }
}

/// Maps a tool result to its event: a success to `CodeOutput`, each file
/// named by its id for now; an error to `CodeError`.
pub fn interpret_result(result: CodeExecutionResult) -> (e: StreamEvent)
    ensures
        e@ == result_event(result@),
{
    match result {
        CodeExecutionResult::Success { stdout, stderr, return_code, content } => {
            let mut files: Vec<(String, String)> = Vec::new();
            let mut k: usize = 0;
            while k < content.len()
                invariant
                    k <= content@.len(),
                    pairs_view(files@) == unresolved(result@->files).take(k as int),
                    result@->files == crate::protocol::file_ids(content@),
                decreases content@.len() - k,
            {
                let id = match &content[k] {
                    FileOutput::CodeExecutionOutput { file_id } => copy_text(file_id.as_str()),
                };
                let name = copy_text(id.as_str());
                let ghost before = files@;
                files.push((id, name));
                proof {
                    assert(pairs_view(files@) == pairs_view(before).push((id@, name@)));
                    assert(unresolved(result@->files).take(k + 1)
                        == unresolved(result@->files).take(k as int).push(unresolved(result@->files)[k as int]));
                }
                k += 1;
            }
            assert(unresolved(result@->files).take(content@.len() as int) == unresolved(result@->files));
            StreamEvent::CodeOutput { stdout, stderr, return_code, files }
        },
        CodeExecutionResult::Error { error_code } => StreamEvent::CodeError(error_code),
    }
}

/// Gathers the fragments of one code-execution tool input between the start
/// and the end of its block. At most one block is open: a new start discards
/// what an earlier one gathered.
pub struct ToolAccumulator {
    open: bool,
    input: String,
}

impl View for ToolAccumulator {
    type V = ToolState;

    closed spec fn view(&self) -> ToolState {
        ToolState { open: self.open, input: self.input@ }
    }
}

impl ToolAccumulator {
    /// An accumulator with no open block.
    pub fn new() -> (r: ToolAccumulator)
        ensures
            r@ == (ToolState { open: false, input: Seq::empty() }),
    {
        ToolAccumulator { open: false, input: String::new() }
    }

    /// Applies one decoded payload: text deltas, session metadata and tool
    /// results become events at once; input fragments are gathered; the end
    /// of a block with gathered input yields its `code`, if that parses.
    pub fn apply(&mut self, data: StreamEventData) -> (r: Option<StreamEvent>)
        ensures
            (final(self)@, opt_event(r)) == apply_data(old(self)@, data@),
    {
        match data {
            StreamEventData::MessageStart { message } => match message.container {
                Some(c) => Some(StreamEvent::ContainerInfo { id: c.id, expires_at: c.expires_at }),
                None => None,
            },
            StreamEventData::ContentBlockStart { content_block } => match content_block {
                ContentBlock::ServerToolUse { name, .. } => {
                    if same_text(name.as_str(), "code_execution") {
                        self.open = true;
                        self.input = String::new();
                    }
                    None
                },
                ContentBlock::CodeExecutionToolResult { content, .. } => Some(interpret_result(content)),
                ContentBlock::Text { .. } => None,
            },
            StreamEventData::ContentBlockDelta { delta } => match delta {
                Delta::TextDelta { text } => Some(StreamEvent::Text(text)),
                Delta::InputJsonDelta { partial_json } => {
                    if self.open {
                        push_text(&mut self.input, partial_json.as_str());
                    }
                    None
                },
            },
            StreamEventData::ContentBlockStop => {
                if self.open && !self.input.as_str().is_empty() {
                    let code = text_at(self.input.as_str(), "/code");
                    self.open = false;
                    self.input = String::new();
                    match code {
                        Some(c) => Some(StreamEvent::CodeInput(c)),
                        None => None,
                    }
                } else {
                    None
                }
            },
            StreamEventData::MessageDelta => None,
            StreamEventData::MessageStop => None,
        }
    }
}

} // verus!
