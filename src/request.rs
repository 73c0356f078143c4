//! What goes into a request: the conversation as the API takes it, and the
//! tools and beta features that code execution needs.
use vstd::prelude::*;
use crate::protocol::Message;
use crate::text::{copy_text, push_text, same_text};
use crate::ui::{ContentModel, MessageContent, ToolMode, contents_view, messages_view};

verus! {

/// A server-side tool declared in a request.
#[derive(Debug, Clone, PartialEq)]
pub struct Tool {
    pub tool_type: String,
    pub name: String,
}

/// The views of a list of messages, each a role and its text.
pub open spec fn request_view(v: Seq<Message>) -> Seq<(Seq<char>, Seq<char>)> {
    v.map_values(|m: Message| (m.role@, m.content@))
}

/// The text parts of a message, concatenated; other parts are left out.
pub open spec fn text_of_parts(parts: Seq<ContentModel>) -> Seq<char>
    decreases parts.len(),
{
    if parts.len() == 0 {
        Seq::empty()
    } else {
        text_of_parts(parts.drop_last()) + match parts.last() {
            ContentModel::Text(t) => t,
            _ => Seq::empty(),
        }
    }
}

/// The conversation as the API takes it: every message but the system
/// ones, reduced to its text, and left out when it has none.
pub open spec fn conversation(ms: Seq<(Seq<char>, Seq<ContentModel>)>) -> Seq<(Seq<char>, Seq<char>)>
    decreases ms.len(),
{
    if ms.len() == 0 {
        Seq::empty()
    } else {
        let init = conversation(ms.drop_last());
        let m = ms.last();
        if m.0 != "system"@ && text_of_parts(m.1).len() > 0 {
            init.push((m.0, text_of_parts(m.1)))
        } else {
            init
        }
    }
}

/// The text parts of a message, concatenated.
fn text_of(parts: &Vec<MessageContent>) -> (r: String)
    ensures
        r@ == text_of_parts(contents_view(parts@)),
{
    let ghost cv = contents_view(parts@);
    let mut r = String::new();
    let mut k: usize = 0;
    while k < parts.len()
        invariant
            k <= parts@.len(),
            cv == contents_view(parts@),
            r@ == text_of_parts(cv.take(k as int)),
        decreases parts@.len() - k,
    {
        match &parts[k] {
            MessageContent::Text(t) => push_text(&mut r, t.as_str()),
            _ => {},
        }
        proof {
            assert(cv.take(k + 1).drop_last() == cv.take(k as int));
            assert(cv.take(k + 1).last() == cv[k as int]);
        }
        k += 1;
    }
    assert(cv.take(parts@.len() as int) == cv);
    r
}

/// Builds the messages of a request from the conversation shown.
pub fn request_messages(messages: &Vec<(String, Vec<MessageContent>)>) -> (r: Vec<Message>)
    ensures
        request_view(r@) == conversation(messages_view(messages@)),
{
    let ghost mv = messages_view(messages@);
    let mut r: Vec<Message> = Vec::new();
    let mut k: usize = 0;
    while k < messages.len()
        invariant
            k <= messages@.len(),
            mv == messages_view(messages@),
            request_view(r@) == conversation(mv.take(k as int)),
        decreases messages@.len() - k,
    {
        let role = &messages[k].0;
        let text = text_of(&messages[k].1);
        let ghost before = r@;
        proof {
            reveal_strlit("system");
            assert(mv[k as int] == (role@, contents_view(messages@[k as int].1@)));
        }
        if !same_text(role.as_str(), "system") && !text.as_str().is_empty() {
            r.push(Message { role: copy_text(role.as_str()), content: text });
            assert(request_view(r@) == request_view(before).push((role@, text@)));
        }
        proof {
            assert(mv.take(k + 1).drop_last() == mv.take(k as int));
            assert(mv.take(k + 1).last() == mv[k as int]);
        }
        k += 1;
    }
    assert(mv.take(messages@.len() as int) == mv);
    r
}

/// Whether a tool mode includes code execution.
pub open spec fn has_code_execution(m: ToolMode) -> bool {
    m == ToolMode::CodeExecution || m == ToolMode::Both
}

/// Whether a tool mode includes code execution.
pub fn code_execution_enabled(mode: ToolMode) -> (r: bool)
    ensures
        r == has_code_execution(mode),
{
    mode == ToolMode::CodeExecution || mode == ToolMode::Both
}

/// The tool mode that the command-line switches select.
pub fn tool_mode_from_flags(code_execution: bool, web_search: bool) -> (r: ToolMode)
    ensures
        r == (if code_execution && web_search {
            ToolMode::Both
        } else if code_execution {
            ToolMode::CodeExecution
        } else if web_search {
            ToolMode::WebSearch
        } else {
            ToolMode::Off
        }),
{
    if code_execution && web_search {
        ToolMode::Both
    } else if code_execution {
        ToolMode::CodeExecution
    } else if web_search {
        ToolMode::WebSearch
    } else {
        ToolMode::Off
    }
}

/// The directory that files are saved to: the one given, or `output` when
/// code execution is on and none was given.
pub fn output_dir_for(mode: ToolMode, dir: Option<String>) -> (r: Option<String>)
    ensures
        crate::json::opt_text(r) == match dir {
            Some(d) => Some(d@),
            None => if has_code_execution(mode) { Some("output"@) } else { None },
        },
{
    match dir {
        Some(d) => Some(d),
        None => if code_execution_enabled(mode) { Some(copy_text("output")) } else { None },
    }
}

/// The tools a request declares: the code-execution tool when enabled.
pub fn request_tools(enable_code_execution: bool) -> (r: Option<Vec<Tool>>)
    ensures
        r is Some <==> enable_code_execution,
        r matches Some(v) ==> v@.len() == 1 && v@[0].tool_type@ == "code_execution_20250522"@
            && v@[0].name@ == "code_execution"@,
{
    if enable_code_execution {
        let mut v: Vec<Tool> = Vec::new();
        v.push(Tool { tool_type: copy_text("code_execution_20250522"), name: copy_text("code_execution") });
        Some(v)
    } else {
        None
    }
}

/// The beta features a request asks for: code execution and the files API
/// when code execution is enabled.
pub fn beta_features(enable_code_execution: bool) -> (r: Option<String>)
    ensures
        crate::json::opt_text(r) == if enable_code_execution {
            Some("code-execution-2025-05-22,files-api-2025-04-14"@)
        } else {
            None
        },
{
    if enable_code_execution {
        Some(copy_text("code-execution-2025-05-22,files-api-2025-04-14"))
    } else {
        None
    }
}

/// The text sent in pipe mode: the input, after the given message and a
/// space when there is one.
pub fn pipe_prompt(message: Option<&str>, input: String) -> (r: String)
    ensures
        r@ == match message {
            Some(m) => m@ + " "@ + input@,
            None => input@,
        },
{
    match message {
        Some(m) => {
            let mut r = copy_text(m);
            push_text(&mut r, " ");
            push_text(&mut r, input.as_str());
            r
        },
        None => input,
    }
}

} // verus!
