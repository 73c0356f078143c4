//! The state of the interactive conversation view: messages, the content
//! being streamed, scrolling, tool toggles and slash-command completion.
//! Drawing it on a terminal is left to the application.
use vstd::prelude::*;
use crate::text::{chars_of, copy_text, has_prefix_at, push_text, same_text};

verus! {

/// Which server-side tools a request enables.
#[derive(Clone, Copy, Debug, PartialEq, Eq, Structural)]
pub enum ToolMode {
    Off,
    CodeExecution,
    WebSearch,
    Both,
}

/// One part of a message as shown.
#[derive(Debug, Clone, PartialEq)]
pub enum MessageContent {
    Text(String),
    Code { input: String },
    CodeOutput { stdout: String, stderr: String, return_code: i32, files: Vec<(String, String)> },
    CodeError(String),
    ApiError(String),
}

/// A message part in mathematical terms.
pub enum ContentModel {
    Text(Seq<char>),
    Code(Seq<char>),
    CodeOutput { stdout: Seq<char>, stderr: Seq<char>, return_code: i32, files: Seq<(Seq<char>, Seq<char>)> },
    CodeError(Seq<char>),
    ApiError(Seq<char>),
}

impl View for MessageContent {
    type V = ContentModel;

    open spec fn view(&self) -> ContentModel {
        match self {
            MessageContent::Text(t) => ContentModel::Text(t@),
            MessageContent::Code { input } => ContentModel::Code(input@),
            MessageContent::CodeOutput { stdout, stderr, return_code, files } => ContentModel::CodeOutput {
                stdout: stdout@,
                stderr: stderr@,
                return_code: *return_code,
                files: crate::protocol::pairs_view(files@),
            },
            MessageContent::CodeError(e) => ContentModel::CodeError(e@),
            MessageContent::ApiError(e) => ContentModel::ApiError(e@),
        }
    }
}

/// The views of a list of message parts.
pub open spec fn contents_view(v: Seq<MessageContent>) -> Seq<ContentModel> {
    v.map_values(|c: MessageContent| c@)
}

/// The views of a list of messages, each a role and its parts.
pub open spec fn messages_view(v: Seq<(String, Vec<MessageContent>)>) -> Seq<(Seq<char>, Seq<ContentModel>)> {
    v.map_values(|m: (String, Vec<MessageContent>)| (m.0@, contents_view(m.1@)))
}

/// What a slash command does.
#[derive(Clone, Copy, Debug, PartialEq, Eq, Structural)]
pub enum SlashCommandAction {
    Clear,
}

/// A command that can be typed after `/`.
#[derive(Clone, Debug)]
pub struct SlashCommand {
    pub name: String,
    pub description: String,
    pub action: SlashCommandAction,
}

/// A slash command in mathematical terms.
pub struct CommandModel {
    pub name: Seq<char>,
    pub description: Seq<char>,
    pub action: SlashCommandAction,
}

impl View for SlashCommand {
    type V = CommandModel;

    open spec fn view(&self) -> CommandModel {
        CommandModel { name: self.name@, description: self.description@, action: self.action }
    }
}

/// The views of a list of commands.
pub open spec fn commands_view(v: Seq<SlashCommand>) -> Seq<CommandModel> {
    v.map_values(|c: SlashCommand| c@)
}

/// Whether `s` starts with `p`.
pub open spec fn starts_with(s: Seq<char>, p: Seq<char>) -> bool {
    p.len() <= s.len() && s.subrange(0, p.len() as int) == p
}

/// The commands whose name starts with `prefix`, in their order.
pub open spec fn matching(cmds: Seq<CommandModel>, prefix: Seq<char>) -> Seq<CommandModel>
    decreases cmds.len(),
{
    if cmds.len() == 0 {
        Seq::empty()
    } else {
        let init = matching(cmds.drop_last(), prefix);
        if starts_with(cmds.last().name, prefix) {
            init.push(cmds.last())
        } else {
            init
        }
    }
}

/// A copy of a command.
fn copy_command(c: &SlashCommand) -> (r: SlashCommand)
    ensures
        r@ == c@,
{
    SlashCommand { name: copy_text(c.name.as_str()), description: copy_text(c.description.as_str()), action: c.action }
}

/// The state of slash-command completion: what was typed after `/`, the
/// commands it matches, and the one selected.
#[derive(Clone, Debug)]
pub struct SlashCommandState {
    pub input_buffer: String,
    pub suggestions: Vec<SlashCommand>,
    pub selected_index: usize,
}

impl SlashCommandState {
    /// Nothing typed, nothing suggested.
    pub fn new() -> (r: SlashCommandState)
        ensures
            r.input_buffer@ == Seq::<char>::empty(),
            r.suggestions@.len() == 0,
            r.selected_index == 0,
    {
        SlashCommandState { input_buffer: String::new(), suggestions: Vec::new(), selected_index: 0 }
    }

    /// Suggests the commands whose name starts with what was typed, and
    /// selects the first.
    pub fn update_suggestions(&mut self, commands: &[SlashCommand])
        ensures
            commands_view(final(self).suggestions@) == matching(commands_view(commands@), old(self).input_buffer@),
            final(self).selected_index == 0,
            final(self).input_buffer == old(self).input_buffer,
    {
        let prefix = chars_of(self.input_buffer.as_str());
        let ghost cmds = commands_view(commands@);
        let mut found: Vec<SlashCommand> = Vec::new();
        let mut k: usize = 0;
        while k < commands.len()
            invariant
                k <= commands@.len(),
                cmds == commands_view(commands@),
                prefix@ == self.input_buffer@,
                commands_view(found@) == matching(cmds.take(k as int), prefix@),
            decreases commands@.len() - k,
        {
            let name = chars_of(commands[k].name.as_str());
            let ghost before = found@;
            if has_prefix_at(&name, 0, &prefix) {
                found.push(copy_command(&commands[k]));
                assert(commands_view(found@) == commands_view(before).push(cmds[k as int]));
            }
            proof {
                assert(cmds.take(k + 1).drop_last() == cmds.take(k as int));
                assert(cmds.take(k + 1).last() == cmds[k as int]);
                assert(name@.subrange(0, prefix@.len() as int) == name@.subrange(0, (0 + prefix@.len()) as int));
            }
            k += 1;
        }
        assert(cmds.take(commands@.len() as int) == cmds);
        self.suggestions = found;
        self.selected_index = 0;
    }

    /// Moves the selection to the next suggestion, wrapping around.
    pub fn next_suggestion(&mut self)
        ensures
            final(self).suggestions == old(self).suggestions,
            final(self).input_buffer == old(self).input_buffer,
            final(self).selected_index == if old(self).suggestions@.len() == 0 {
                old(self).selected_index as int
            } else {
                (old(self).selected_index + 1) % (old(self).suggestions@.len() as int)
            },
    {
        let n = self.suggestions.len();
        if n > 0 {
            let r = self.selected_index % n;
            proof {
                vstd::arithmetic::div_mod::lemma_add_mod_noop(self.selected_index as int, 1, n as int);
                vstd::arithmetic::div_mod::lemma_add_mod_noop(r as int, 1, n as int);
                vstd::arithmetic::div_mod::lemma_small_mod(r as nat, n as nat);
            }
            self.selected_index = (r + 1) % n;
        }
    }

    /// Moves the selection to the previous suggestion, wrapping around.
    pub fn prev_suggestion(&mut self)
        ensures
            final(self).suggestions == old(self).suggestions,
            final(self).input_buffer == old(self).input_buffer,
            final(self).selected_index == if old(self).suggestions@.len() == 0 {
                old(self).selected_index as int
            } else if old(self).selected_index == 0 {
                old(self).suggestions@.len() - 1
            } else {
                old(self).selected_index - 1
            },
    {
        if self.suggestions.len() > 0 {
            self.selected_index = if self.selected_index == 0 {
                self.suggestions.len() - 1
            } else {
                self.selected_index - 1
            };
        }
    }

    /// The selected suggestion, if the selection is within the list.
    pub fn get_selected(&self) -> (r: Option<&SlashCommand>)
        ensures
            r is Some <==> self.selected_index < self.suggestions@.len(),
            r matches Some(c) ==> *c == self.suggestions@[self.selected_index as int],
    {
        if self.selected_index < self.suggestions.len() {
            Some(&self.suggestions[self.selected_index])
        } else {
            None
        }
    }
}

/// The screen rows that a line of `width` characters takes in a view
/// `avail` characters wide; an empty line still takes one.
pub open spec fn rows_of(width: nat, avail: nat) -> nat {
    if width == 0 {
        1
    } else {
        width / avail + if width % avail == 0 { 0nat } else { 1nat }
    }
}

/// The screen rows that lines of the given widths take together.
pub open spec fn wrapped_total(widths: Seq<usize>, avail: nat) -> nat
    decreases widths.len(),
{
    if widths.len() == 0 {
        0
    } else {
        wrapped_total(widths.drop_last(), avail) + rows_of(widths.last() as nat, avail)
    }
}

/// The screen rows that lines of the given widths take in a view
/// `available_width` characters wide, saturating at `usize::MAX`.
pub fn wrapped_line_count(widths: &[usize], available_width: usize) -> (r: usize)
    requires
        available_width > 0,
    ensures
        r == if wrapped_total(widths@, available_width as nat) <= usize::MAX {
            wrapped_total(widths@, available_width as nat)
        } else {
            usize::MAX as nat
        },
{
    let mut total: usize = 0;
    let mut k: usize = 0;
    while k < widths.len()
        invariant
            k <= widths@.len(),
            available_width > 0,
            total == if wrapped_total(widths@.take(k as int), available_width as nat) <= usize::MAX {
                wrapped_total(widths@.take(k as int), available_width as nat)
            } else {
                usize::MAX as nat
            },
        decreases widths@.len() - k,
    {
        let w = widths[k];
        let q = w / available_width;
        let rows: usize = if w == 0 {
            1
        } else if w % available_width == 0 {
            q
        } else {
            proof {
                let d = available_width as int;
                let r = (w % available_width) as int;
                vstd::arithmetic::div_mod::lemma_fundamental_div_mod(w as int, d);
                assert(q < usize::MAX) by (nonlinear_arith)
                    requires
                        w as int == d * (q as int) + r,
                        r > 0,
                        d > 0,
                        w <= usize::MAX,
                ;
            }
            q + 1
        };
        proof {
            assert(widths@.take(k + 1).drop_last() == widths@.take(k as int));
            assert(widths@.take(k + 1).last() == w);
        }
        total = if total <= usize::MAX - rows { total + rows } else { usize::MAX };
        k += 1;
    }
    assert(widths@.take(widths@.len() as int) == widths@);
    total
}

/// The number of line feeds in `s`.
pub open spec fn line_feeds(s: Seq<char>) -> nat
    decreases s.len(),
{
    if s.len() == 0 {
        0
    } else {
        line_feeds(s.drop_last()) + if s.last() == '\n' { 1nat } else { 0nat }
    }
}

/// The height of the input box: its lines plus two border rows, between 3
/// and 10.
pub fn input_height(input: &str) -> (r: u16)
    ensures
        r == if line_feeds(input@) + 3 <= 10 { line_feeds(input@) + 3 } else { 10 },
{
    let cs = chars_of(input);
    let mut feeds: usize = 0;
    let mut k: usize = 0;
    while k < cs.len()
        invariant
            k <= cs@.len(),
            cs@ == input@,
            feeds == if line_feeds(cs@.take(k as int)) <= 7 { line_feeds(cs@.take(k as int)) } else { 8 },
        decreases cs@.len() - k,
    {
        proof {
            assert(cs@.take(k + 1).drop_last() == cs@.take(k as int));
            assert(cs@.take(k + 1).last() == cs@[k as int]);
        }
        if cs[k] == '\n' && feeds < 8 {
            feeds += 1;
        }
        k += 1;
    }
    assert(cs@.take(cs@.len() as int) == cs@);
    if feeds >= 7 { 10 } else { (feeds + 3) as u16 }
}

/// How long each frame of the waiting animation stays, in milliseconds.
pub const ANIMATION_FRAME_MS: u64 = 300;

/// The system prompt used unless another is set; its placeholder is
/// replaced by the current date and time before each request.
pub open spec fn default_system_prompt() -> Seq<char> {
    "You are a helpful assistant. Your knowledge cut-off is March 2025. The current date and time is [DATE_TIME_WITH_WEEKDAY_AND_TIMEZONE]"@
}

/// The state of the conversation view. Times are milliseconds on a clock
/// that the application supplies.
pub struct App {
    pub input: String,
    pub messages: Vec<(String, Vec<MessageContent>)>,
    pub is_waiting: bool,
    pub streaming_content: Vec<MessageContent>,
    pub scroll_position: usize,
    pub auto_scroll: bool,
    pub total_lines: usize,
    pub selection_mode: bool,
    pub container_info: Option<(String, String)>,
    pub tool_mode: ToolMode,
    pub loading_animation_frame: usize,
    pub last_animation_update: u64,
    pub connection_status: Option<String>,
    pub show_help: bool,
    pub slash_command_state: Option<SlashCommandState>,
    pub available_commands: Vec<SlashCommand>,
    pub system_prompt: String,
}

impl Default for App {
    /// An empty conversation with no tools, scrolled to the bottom, that
    /// offers the `clear` command.
    fn default() -> (r: App)
        ensures
            r.input@ == Seq::<char>::empty(),
            r.messages@.len() == 0,
            !r.is_waiting,
            r.streaming_content@.len() == 0,
            r.scroll_position == 0,
            r.auto_scroll,
            r.total_lines == 0,
            !r.selection_mode,
            r.container_info is None,
            r.tool_mode == ToolMode::Off,
            r.loading_animation_frame == 0,
            r.last_animation_update == 0,
            r.connection_status is None,
            !r.show_help,
            r.slash_command_state is None,
            commands_view(r.available_commands@) == seq![CommandModel {
                name: "clear"@,
                description: "Clear the conversation history"@,
                action: SlashCommandAction::Clear,
            }],
            r.system_prompt@ == default_system_prompt(),
    {
        let mut available_commands: Vec<SlashCommand> = Vec::new();
        available_commands.push(SlashCommand {
            name: copy_text("clear"),
            description: copy_text("Clear the conversation history"),
            action: SlashCommandAction::Clear,
        });
        assert(commands_view(available_commands@) == seq![CommandModel {
            name: "clear"@,
            description: "Clear the conversation history"@,
            action: SlashCommandAction::Clear,
        }]);
        App {
            input: String::new(),
            messages: Vec::new(),
            is_waiting: false,
            streaming_content: Vec::new(),
            scroll_position: 0,
            auto_scroll: true,
            total_lines: 0,
            selection_mode: false,
            container_info: None,
            tool_mode: ToolMode::Off,
            loading_animation_frame: 0,
            last_animation_update: 0,
            connection_status: None,
            show_help: false,
            slash_command_state: None,
            available_commands,
            system_prompt: copy_text(
                "You are a helpful assistant. Your knowledge cut-off is March 2025. The current date and time is [DATE_TIME_WITH_WEEKDAY_AND_TIMEZONE]",
            ),
        }
    }
}

/// The tool mode after code execution is switched.
pub open spec fn toggled_code_execution(m: ToolMode) -> ToolMode {
    match m {
        ToolMode::Off => ToolMode::CodeExecution,
        ToolMode::CodeExecution => ToolMode::Off,
        ToolMode::WebSearch => ToolMode::Both,
        ToolMode::Both => ToolMode::WebSearch,
    }
}

/// The tool mode after web search is switched.
pub open spec fn toggled_web_search(m: ToolMode) -> ToolMode {
    match m {
        ToolMode::Off => ToolMode::WebSearch,
        ToolMode::WebSearch => ToolMode::Off,
        ToolMode::CodeExecution => ToolMode::Both,
        ToolMode::Both => ToolMode::CodeExecution,
    }
}

/// The streamed parts after `text` arrives: it extends a trailing text part,
/// or starts a new one.
pub open spec fn appended_text(cs: Seq<ContentModel>, text: Seq<char>) -> Seq<ContentModel> {
    if cs.len() > 0 && cs.last() is Text {
        cs.drop_last().push(ContentModel::Text(cs.last()->Text_0 + text))
    } else {
        cs.push(ContentModel::Text(text))
    }
}

/// A file entry, renamed when its id is `id`.
pub open spec fn renamed_file(p: (Seq<char>, Seq<char>), id: Seq<char>, name: Seq<char>) -> (Seq<char>, Seq<char>) {
    if p.0 == id { (p.0, name) } else { p }
}

/// A message part with every file entry of id `id` renamed.
pub open spec fn renamed_content(c: ContentModel, id: Seq<char>, name: Seq<char>) -> ContentModel {
    match c {
        ContentModel::CodeOutput { stdout, stderr, return_code, files } => ContentModel::CodeOutput {
            stdout,
            stderr,
            return_code,
            files: files.map_values(|p: (Seq<char>, Seq<char>)| renamed_file(p, id, name)),
        },
        _ => c,
    }
}

/// Message parts with every file entry of id `id` renamed.
pub open spec fn renamed_contents(cs: Seq<ContentModel>, id: Seq<char>, name: Seq<char>) -> Seq<ContentModel> {
    cs.map_values(|c: ContentModel| renamed_content(c, id, name))
}

/// Renames the file entries of id `id` in a list of `(id, name)` pairs.
fn rename_files(files: Vec<(String, String)>, id: &str, name: &str) -> (r: Vec<(String, String)>)
    ensures
        crate::protocol::pairs_view(r@) == crate::protocol::pairs_view(files@).map_values(
            |p: (Seq<char>, Seq<char>)| renamed_file(p, id@, name@),
        ),
{
    let ghost src = crate::protocol::pairs_view(files@);
    let mut r: Vec<(String, String)> = Vec::new();
    for p in it: files.into_iter()
        invariant
            src == crate::protocol::pairs_view(it.seq()),
            crate::protocol::pairs_view(r@) == src.take(it.index() as int).map_values(
                |p: (Seq<char>, Seq<char>)| renamed_file(p, id@, name@),
            ),
    {
        let ghost before = r@;
        let (pid, pname) = p;
        let ghost k = it.index();
        if same_text(pid.as_str(), id) {
            r.push((pid, copy_text(name)));
        } else {
            r.push((pid, pname));
        }
        proof {
            assert(src[k] == (it.seq()[k].0@, it.seq()[k].1@));
            assert(src.take(k + 1) == src.take(k).push(src[k]));
            assert(crate::protocol::pairs_view(r@) == crate::protocol::pairs_view(before).push(
                renamed_file(src[k], id@, name@)));
        }
    }
    proof {
        assert(src.take(src.len() as int) == src);
    }
    r
}

/// Renames the file entries of id `id` in a list of message parts.
fn rename_in_contents(contents: Vec<MessageContent>, id: &str, name: &str) -> (r: Vec<MessageContent>)
    ensures
        contents_view(r@) == renamed_contents(contents_view(contents@), id@, name@),
{
    let ghost src = contents_view(contents@);
    let mut r: Vec<MessageContent> = Vec::new();
    for c in it: contents.into_iter()
        invariant
            src == contents_view(it.seq()),
            contents_view(r@) == renamed_contents(src.take(it.index() as int), id@, name@),
    {
        let ghost before = r@;
        let ghost k = it.index();
        let ghost cv = c@;
        let updated = match c {
            MessageContent::CodeOutput { stdout, stderr, return_code, files } =>
                MessageContent::CodeOutput { stdout, stderr, return_code, files: rename_files(files, id, name) },
            other => other,
        };
        r.push(updated);
        proof {
            assert(src[k] == cv);
            assert(src.take(k + 1) == src.take(k).push(src[k]));
            assert(contents_view(r@) == contents_view(before).push(renamed_content(cv, id@, name@)));
        }
    }
    proof {
        assert(src.take(src.len() as int) == src);
    }
    r
}

impl App {
    /// Appends a message with one text part.
    pub fn add_message(&mut self, role: String, content: String)
        ensures
            messages_view(final(self).messages@)
                == messages_view(old(self).messages@).push((role@, seq![ContentModel::Text(content@)])),
            *final(self) == (App { messages: final(self).messages, ..*old(self) }),
    {
        let mut parts: Vec<MessageContent> = Vec::new();
        parts.push(MessageContent::Text(content));
        let ghost before = self.messages@;
        self.messages.push((role, parts));
        assert(contents_view(parts@) == seq![ContentModel::Text(content@)]);
        assert(messages_view(self.messages@) == messages_view(before).push((role@, contents_view(parts@))));
    }

    /// Empties the input line.
    pub fn clear_input(&mut self)
        ensures
            final(self).input@ == Seq::<char>::empty(),
            *final(self) == (App { input: final(self).input, ..*old(self) }),
    {
        self.input = String::new();
    }

    /// Starts a new streamed response at time `now_ms`.
    pub fn start_streaming(&mut self, now_ms: u64)
        ensures
            final(self).streaming_content@.len() == 0,
            *final(self) == (App {
                streaming_content: final(self).streaming_content,
                loading_animation_frame: 0,
                last_animation_update: now_ms,
                ..*old(self)
            }),
    {
        self.streaming_content = Vec::new();
        self.loading_animation_frame = 0;
        self.last_animation_update = now_ms;
    }

    /// Advances the waiting animation by one frame, out of three, once a
    /// frame has lasted its time; `now_ms` is the current time.
    pub fn update_loading_animation(&mut self, now_ms: u64)
        ensures
            if now_ms >= old(self).last_animation_update
                && now_ms - old(self).last_animation_update >= ANIMATION_FRAME_MS {
                *final(self) == (App {
                    loading_animation_frame: ((old(self).loading_animation_frame + 1) % 3) as usize,
                    last_animation_update: now_ms,
                    ..*old(self)
                })
            } else {
                *final(self) == *old(self)
            },
    {
        if now_ms >= self.last_animation_update && now_ms - self.last_animation_update >= ANIMATION_FRAME_MS {
            let r = self.loading_animation_frame % 3;
            proof {
                vstd::arithmetic::div_mod::lemma_add_mod_noop(self.loading_animation_frame as int, 1, 3);
                vstd::arithmetic::div_mod::lemma_add_mod_noop(r as int, 1, 3);
            }
            self.loading_animation_frame = (r + 1) % 3;
            self.last_animation_update = now_ms;
        }
    }

    /// Adds streamed text: it extends the last part when that is text, and
    /// starts a new text part otherwise.
    pub fn append_streaming_text(&mut self, text: &str)
        ensures
            contents_view(final(self).streaming_content@)
                == appended_text(contents_view(old(self).streaming_content@), text@),
            *final(self) == (App { streaming_content: final(self).streaming_content, ..*old(self) }),
    {
        let ghost old_v = contents_view(self.streaming_content@);
        let n = self.streaming_content.len();
        let last_is_text = n > 0 && match &self.streaming_content[n - 1] {
            MessageContent::Text(_) => true,
            _ => false,
        };
        if last_is_text {
            let last = self.streaming_content.pop();
            proof {
                assert(contents_view(self.streaming_content@) == old_v.drop_last());
            }
            match last {
                Some(MessageContent::Text(existing)) => {
                    let mut joined = existing;
                    push_text(&mut joined, text);
                    let ghost rest = self.streaming_content@;
                    self.streaming_content.push(MessageContent::Text(joined));
                    assert(contents_view(self.streaming_content@) == contents_view(rest).push(ContentModel::Text(joined@)));
                },
                _ => {},
            }
        } else {
            let ghost rest = self.streaming_content@;
            self.streaming_content.push(MessageContent::Text(copy_text(text)));
            assert(contents_view(self.streaming_content@) == contents_view(rest).push(ContentModel::Text(text@)));
        }
    }

    /// Adds the code of a tool invocation to the streamed parts.
    pub fn add_streaming_code(&mut self, code: String)
        ensures
            contents_view(final(self).streaming_content@)
                == contents_view(old(self).streaming_content@).push(ContentModel::Code(code@)),
            *final(self) == (App { streaming_content: final(self).streaming_content, ..*old(self) }),
    {
        let ghost before = self.streaming_content@;
        self.streaming_content.push(MessageContent::Code { input: code });
        assert(contents_view(self.streaming_content@) == contents_view(before).push(ContentModel::Code(code@)));
    }

    /// Adds the output of an execution to the streamed parts.
    pub fn add_streaming_output(&mut self, stdout: String, stderr: String, return_code: i32, files: Vec<(String, String)>)
        ensures
            contents_view(final(self).streaming_content@) == contents_view(old(self).streaming_content@).push(
                ContentModel::CodeOutput {
                    stdout: stdout@,
                    stderr: stderr@,
                    return_code,
                    files: crate::protocol::pairs_view(files@),
                },
            ),
            *final(self) == (App { streaming_content: final(self).streaming_content, ..*old(self) }),
    {
        let ghost before = self.streaming_content@;
        let ghost fv = crate::protocol::pairs_view(files@);
        self.streaming_content.push(MessageContent::CodeOutput { stdout, stderr, return_code, files });
        assert(contents_view(self.streaming_content@) == contents_view(before).push(
            ContentModel::CodeOutput { stdout: stdout@, stderr: stderr@, return_code, files: fv }));
    }

    /// Adds an execution error to the streamed parts.
    pub fn add_streaming_error(&mut self, error: String)
        ensures
            contents_view(final(self).streaming_content@)
                == contents_view(old(self).streaming_content@).push(ContentModel::CodeError(error@)),
            *final(self) == (App { streaming_content: final(self).streaming_content, ..*old(self) }),
    {
        let ghost before = self.streaming_content@;
        self.streaming_content.push(MessageContent::CodeError(error));
        assert(contents_view(self.streaming_content@) == contents_view(before).push(ContentModel::CodeError(error@)));
    }

    /// Appends a system message that reports a failed request.
    pub fn add_api_error(&mut self, error: String)
        ensures
            messages_view(final(self).messages@)
                == messages_view(old(self).messages@).push(("system"@, seq![ContentModel::ApiError(error@)])),
            *final(self) == (App { messages: final(self).messages, ..*old(self) }),
    {
        let mut parts: Vec<MessageContent> = Vec::new();
        parts.push(MessageContent::ApiError(error));
        let role = copy_text("system");
        let ghost before = self.messages@;
        self.messages.push((role, parts));
        assert(contents_view(parts@) == seq![ContentModel::ApiError(error@)]);
        assert(messages_view(self.messages@) == messages_view(before).push((role@, contents_view(parts@))));
    }

    /// Records the container that backs code execution.
    pub fn set_container_info(&mut self, id: String, expires_at: String)
        ensures
            final(self).container_info == Some((id, expires_at)),
            *final(self) == (App { container_info: final(self).container_info, ..*old(self) }),
    {
        self.container_info = Some((id, expires_at));
    }

    /// Sets or clears the connection notice.
    pub fn set_connection_status(&mut self, status: Option<String>)
        ensures
            *final(self) == (App { connection_status: status, ..*old(self) }),
    {
        self.connection_status = status;
    }

    /// Ends the streamed response: its parts, if any, become one assistant
    /// message, and the connection notice is cleared.
    pub fn finish_streaming(&mut self)
        ensures
            final(self).streaming_content@.len() == 0,
            messages_view(final(self).messages@) == if old(self).streaming_content@.len() > 0 {
                messages_view(old(self).messages@).push(("assistant"@, contents_view(old(self).streaming_content@)))
            } else {
                messages_view(old(self).messages@)
            },
            *final(self) == (App {
                messages: final(self).messages,
                streaming_content: final(self).streaming_content,
                connection_status: None,
                ..*old(self)
            }),
    {
        if self.streaming_content.len() > 0 {
            let mut content: Vec<MessageContent> = Vec::new();
            std::mem::swap(&mut content, &mut self.streaming_content);
            let role = copy_text("assistant");
            let ghost before = self.messages@;
            let ghost cv = contents_view(content@);
            self.messages.push((role, content));
            assert(messages_view(self.messages@) == messages_view(before).push((role@, cv)));
        }
        self.connection_status = None;
    }

    /// Scrolls up by `amount` lines, stopping at the top, and stops following
    /// the bottom.
    pub fn scroll_up(&mut self, amount: usize)
        ensures
            final(self).scroll_position == if old(self).scroll_position >= amount {
                (old(self).scroll_position - amount) as usize
            } else {
                0
            },
            *final(self) == (App { scroll_position: final(self).scroll_position, auto_scroll: false, ..*old(self) }),
    {
        self.scroll_position = if self.scroll_position >= amount { self.scroll_position - amount } else { 0 };
        self.auto_scroll = false;
    }

    /// Scrolls down by `amount` lines, saturating, and stops following the
    /// bottom until the bounds are next updated.
    pub fn scroll_down(&mut self, amount: usize)
        ensures
            final(self).scroll_position == if old(self).scroll_position + amount <= usize::MAX {
                (old(self).scroll_position + amount) as usize
            } else {
                usize::MAX
            },
            *final(self) == (App { scroll_position: final(self).scroll_position, auto_scroll: false, ..*old(self) }),
    {
        self.scroll_position = if self.scroll_position <= usize::MAX - amount {
            self.scroll_position + amount
        } else {
            usize::MAX
        };
        self.auto_scroll = false;
    }

    /// Records the size of the conversation and of the view: the position is
    /// kept within range, moved to the bottom when following it, and
    /// following resumes once the bottom is reached.
    pub fn update_scroll_bounds(&mut self, total_lines: usize, visible_lines: usize)
        ensures
            ({
                let max = if total_lines >= visible_lines { total_lines - visible_lines } else { 0 };
                let pos = if old(self).auto_scroll {
                    max
                } else if old(self).scroll_position <= max {
                    old(self).scroll_position as int
                } else {
                    max
                };
                &&& final(self).scroll_position == pos
                &&& final(self).auto_scroll == (pos == max)
            }),
            *final(self) == (App {
                total_lines,
                scroll_position: final(self).scroll_position,
                auto_scroll: final(self).auto_scroll,
                ..*old(self)
            }),
    {
        self.total_lines = total_lines;
        let max_scroll = if total_lines >= visible_lines { total_lines - visible_lines } else { 0 };
        if self.auto_scroll {
            self.scroll_position = max_scroll;
        }
        if self.scroll_position > max_scroll {
            self.scroll_position = max_scroll;
        }
        if self.scroll_position == max_scroll {
            self.auto_scroll = true;
        }
    }

    /// Switches text-selection mode.
    pub fn toggle_selection_mode(&mut self)
        ensures
            *final(self) == (App { selection_mode: !old(self).selection_mode, ..*old(self) }),
    {
        self.selection_mode = !self.selection_mode;
    }

    /// Switches code execution on or off, keeping web search as it is.
    pub fn toggle_code_execution(&mut self)
        ensures
            *final(self) == (App { tool_mode: toggled_code_execution(old(self).tool_mode), ..*old(self) }),
    {
        self.tool_mode = match self.tool_mode {
            ToolMode::Off => ToolMode::CodeExecution,
            ToolMode::CodeExecution => ToolMode::Off,
            ToolMode::WebSearch => ToolMode::Both,
            ToolMode::Both => ToolMode::WebSearch,
        };
    }

    /// Switches web search on or off, keeping code execution as it is.
    pub fn toggle_web_search(&mut self)
        ensures
            *final(self) == (App { tool_mode: toggled_web_search(old(self).tool_mode), ..*old(self) }),
    {
        self.tool_mode = match self.tool_mode {
            ToolMode::Off => ToolMode::WebSearch,
            ToolMode::WebSearch => ToolMode::Off,
            ToolMode::CodeExecution => ToolMode::Both,
            ToolMode::Both => ToolMode::CodeExecution,
        };
    }

    /// Shows or hides the help.
    pub fn toggle_help(&mut self)
        ensures
            *final(self) == (App { show_help: !old(self).show_help, ..*old(self) }),
    {
        self.show_help = !self.show_help;
    }

    /// Gives every file of id `file_id`, in the messages and in the streamed
    /// parts, the resolved name `filename`.
    pub fn update_file_metadata(&mut self, file_id: String, filename: String)
        ensures
            messages_view(final(self).messages@) == messages_view(old(self).messages@).map_values(
                |m: (Seq<char>, Seq<ContentModel>)| (m.0, renamed_contents(m.1, file_id@, filename@)),
            ),
            contents_view(final(self).streaming_content@)
                == renamed_contents(contents_view(old(self).streaming_content@), file_id@, filename@),
            *final(self) == (App {
                messages: final(self).messages,
                streaming_content: final(self).streaming_content,
                ..*old(self)
            }),
    {
        let mut messages: Vec<(String, Vec<MessageContent>)> = Vec::new();
        std::mem::swap(&mut messages, &mut self.messages);
        let ghost src = messages_view(messages@);
        let mut updated: Vec<(String, Vec<MessageContent>)> = Vec::new();
        for m in it: messages.into_iter()
            invariant
                src == messages_view(it.seq()),
                messages_view(updated@) == src.take(it.index() as int).map_values(
                    |m: (Seq<char>, Seq<ContentModel>)| (m.0, renamed_contents(m.1, file_id@, filename@)),
                ),
        {
            let ghost before = updated@;
            let ghost k = it.index();
            let (role, contents) = m;
            let renamed = rename_in_contents(contents, file_id.as_str(), filename.as_str());
            updated.push((role, renamed));
            proof {
                assert(src[k] == (it.seq()[k].0@, contents_view(it.seq()[k].1@)));
                assert(src.take(k + 1) == src.take(k).push(src[k]));
                assert(messages_view(updated@) == messages_view(before).push((role@, contents_view(renamed@))));
            }
        }
        proof {
            assert(src.take(src.len() as int) == src);
        }
        self.messages = updated;
        let mut streaming: Vec<MessageContent> = Vec::new();
        std::mem::swap(&mut streaming, &mut self.streaming_content);
        self.streaming_content = rename_in_contents(streaming, file_id.as_str(), filename.as_str());
    }

    /// Opens slash-command completion, suggesting every available command.
    pub fn start_slash_command(&mut self)
        ensures
            final(self).slash_command_state matches Some(s) && s.input_buffer@ == Seq::<char>::empty()
                && s.selected_index == 0
                && commands_view(s.suggestions@) == matching(commands_view(old(self).available_commands@), Seq::empty()),
            *final(self) == (App { slash_command_state: final(self).slash_command_state, ..*old(self) }),
    {
        let mut state = SlashCommandState::new();
        state.update_suggestions(self.available_commands.as_slice());
        self.slash_command_state = Some(state);
    }

    /// Records what was typed after `/` and suggests the matching commands,
    /// if completion is open.
    pub fn update_slash_command(&mut self, input: &str)
        ensures
            old(self).slash_command_state is None ==> *final(self) == *old(self),
            old(self).slash_command_state is Some ==> (final(self).slash_command_state matches Some(s)
                && s.input_buffer@ == input@ && s.selected_index == 0
                && commands_view(s.suggestions@) == matching(commands_view(old(self).available_commands@), input@)),
            *final(self) == (App { slash_command_state: final(self).slash_command_state, ..*old(self) }),
    {
        let mut current: Option<SlashCommandState> = None;
        std::mem::swap(&mut current, &mut self.slash_command_state);
        match current {
            Some(mut state) => {
                state.input_buffer = copy_text(input);
                state.update_suggestions(self.available_commands.as_slice());
                self.slash_command_state = Some(state);
            },
            None => {},
        }
    }

    /// Closes slash-command completion.
    pub fn cancel_slash_command(&mut self)
        ensures
            *final(self) == (App { slash_command_state: None, ..*old(self) }),
    {
        self.slash_command_state = None;
    }

    /// Runs a slash command, then closes completion and empties the input.
    /// `clear` forgets the conversation and the container.
    pub fn execute_slash_command(&mut self, action: SlashCommandAction)
        ensures
            final(self).messages@.len() == 0,
            final(self).streaming_content@.len() == 0,
            final(self).input@ == Seq::<char>::empty(),
            *final(self) == (App {
                messages: final(self).messages,
                streaming_content: final(self).streaming_content,
                scroll_position: 0,
                auto_scroll: true,
                total_lines: 0,
                container_info: None,
                slash_command_state: None,
                input: final(self).input,
                ..*old(self)
            }),
    {
        match action {
            SlashCommandAction::Clear => {
                self.messages = Vec::new();
                self.streaming_content = Vec::new();
                self.scroll_position = 0;
                self.auto_scroll = true;
                self.total_lines = 0;
                self.container_info = None;
            },
        }
        self.slash_command_state = None;
        self.clear_input();
    }
}

} // verus!
