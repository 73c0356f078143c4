//! The decisions of one streaming send: a state machine from what the
//! network reports to the events that the consumer receives. The task that
//! owns the connection performs the I/O and feeds the outcome in here.
use vstd::prelude::*;
use crate::frame::{FrameAssembler, has_separator, lemma_buffer_has_no_separator, split_frames, texts_view};
use crate::protocol::{EventModel, FrameData, StreamEvent, decode_frame, decode_spec, events_view};
use crate::text::{contains_text, copy_text, has_infix, push_text, utf8_text};
use crate::tool::{ToolAccumulator, ToolState, apply_data};

verus! {

/// Where a send operation stands.
#[derive(PartialEq, Eq, Structural, Clone, Copy, Debug)]
pub enum Phase {
    /// The request has not been answered yet.
    AwaitingConnection,
    /// The response was accepted; no bytes have arrived yet.
    Connected,
    /// Bytes of the response body are being decoded.
    Streaming,
    /// The response body ended.
    Finished,
    /// The cancellation token was observed tripped.
    Cancelled,
    /// The request could not be sent, was refused, or nobody listened.
    Failed,
    /// The consumer went away while events were flowing.
    ConsumerGone,
}

/// Why a send failed before any content was streamed.
#[derive(PartialEq, Eq, Structural, Clone, Copy, Debug)]
pub enum FailureCause {
    Network,
    Authentication,
    MalformedRequest,
    RateLimit,
    ServerSide,
    Unclassified,
}

/// A session in mathematical terms.
pub struct SessionModel {
    pub phase: Phase,
    pub buffer: Seq<char>,
    pub tool: ToolState,
    /// Why the request failed, once it has.
    pub failure: Option<FailureCause>,
}

/// Whether a session in this phase accepts response bytes.
pub open spec fn accepts_bytes(p: Phase) -> bool {
    p == Phase::Connected || p == Phase::Streaming
}

/// Whether a session in this phase is still running.
pub open spec fn is_running(p: Phase) -> bool {
    p == Phase::AwaitingConnection || accepts_bytes(p)
}

/// A reachable session: its frame buffer never holds a complete separator.
pub open spec fn session_ok(m: SessionModel) -> bool {
    !has_separator(m.buffer)
}

/// An optional event as a sequence of zero or one events.
pub open spec fn event_seq(o: Option<EventModel>) -> Seq<EventModel> {
    match o {
        Some(e) => seq![e],
        None => Seq::empty(),
    }
}

/// One decoded payload applied to the accumulator, its event as a sequence.
pub open spec fn data_step(st: ToolState, d: FrameData) -> (ToolState, Seq<EventModel>) {
    (apply_data(st, d).0, event_seq(apply_data(st, d).1))
}

/// One frame applied to the accumulator: a frame that does not decode
/// changes nothing and emits nothing.
pub open spec fn frame_step(st: ToolState, f: Seq<char>) -> (ToolState, Seq<EventModel>) {
    match decode_spec(f) {
        Some(d) => data_step(st, d),
        None => (st, Seq::empty()),
    }
}

/// Frames applied in order: the final accumulator and all events emitted.
pub open spec fn run_frames(st: ToolState, fs: Seq<Seq<char>>) -> (ToolState, Seq<EventModel>)
    decreases fs.len(),
{
    if fs.len() == 0 {
        (st, Seq::empty())
    } else {
        let before = run_frames(st, fs.drop_last());
        let last = frame_step(before.0, fs.last());
        (last.0, before.1 + last.1)
    }
}

/// Decoded payloads applied in order: the final accumulator and all events.
pub open spec fn run_data(st: ToolState, ds: Seq<FrameData>) -> (ToolState, Seq<EventModel>)
    decreases ds.len(),
{
    if ds.len() == 0 {
        (st, Seq::empty())
    } else {
        let before = run_data(st, ds.drop_last());
        let last = data_step(before.0, ds.last());
        (last.0, before.1 + last.1)
    }
}

/// Response text arriving: appended to the buffer, cut into frames, and each
/// frame applied in order. Outside the phases that accept bytes nothing
/// happens.
pub open spec fn text_step(m: SessionModel, chunk: Seq<char>) -> (SessionModel, Seq<EventModel>) {
    if accepts_bytes(m.phase) {
        let sp = split_frames(m.buffer + chunk);
        let r = run_frames(m.tool, sp.0);
        (SessionModel { phase: Phase::Streaming, buffer: sp.1, tool: r.0, ..m }, r.1)
    } else {
        (m, Seq::empty())
    }
}

/// Chunks of response text arriving one after another.
pub open spec fn feed_session(m: SessionModel, chunks: Seq<Seq<char>>) -> (SessionModel, Seq<EventModel>)
    decreases chunks.len(),
{
    if chunks.len() == 0 {
        (m, Seq::empty())
    } else {
        let first = text_step(m, chunks[0]);
        let rest = feed_session(first.0, chunks.drop_first());
        (rest.0, first.1 + rest.1)
    }
}

/// A chunk of response bytes arriving: decoded as UTF-8 on its own, and
/// dropped whole when it is not valid UTF-8.
pub open spec fn bytes_step(m: SessionModel, bytes: Seq<u8>) -> (SessionModel, Seq<EventModel>) {
    if vstd::utf8::valid_utf8(bytes) {
        text_step(m, vstd::utf8::decode_utf8(bytes))
    } else {
        (m, Seq::empty())
    }
}

/// Chunks of response bytes arriving one after another.
pub open spec fn feed_session_bytes(m: SessionModel, chunks: Seq<Seq<u8>>) -> (SessionModel, Seq<EventModel>)
    decreases chunks.len(),
{
    if chunks.len() == 0 {
        (m, Seq::empty())
    } else {
        let first = bytes_step(m, chunks[0]);
        let rest = feed_session_bytes(first.0, chunks.drop_first());
        (rest.0, first.1 + rest.1)
    }
}

/// The notices that a starting session emits.
pub open spec fn start_events(m: SessionModel) -> Seq<EventModel> {
    if m.phase == Phase::AwaitingConnection {
        seq![
            EventModel::ConnectionStatus("Connecting to the Anthropic API..."@),
            EventModel::ConnectionStatus("Sending request..."@),
        ]
    } else {
        Seq::empty()
    }
}

/// The text event that reports a terminal failure.
pub open spec fn error_text(msg: Seq<char>) -> Seq<char> {
    "\n\nError: "@ + msg + "\n"@
}

/// The message for a request that could not be sent.
pub open spec fn transport_message(reason: Seq<char>) -> Seq<char> {
    "Failed to connect to Anthropic API: "@ + reason
}

/// Whether an HTTP status is a success (2xx).
pub open spec fn is_success_spec(status: u16) -> bool {
    200 <= status <= 299
}

/// The cause of a refused request, by status and, for 400, by body.
pub open spec fn cause_of(status: u16, body: Seq<char>) -> FailureCause {
    if status == 401 {
        FailureCause::Authentication
    } else if status == 400 {
        FailureCause::MalformedRequest
    } else if status == 429 {
        FailureCause::RateLimit
    } else if 500 <= status <= 599 {
        FailureCause::ServerSide
    } else {
        FailureCause::Unclassified
    }
}

/// The message for a refused request. `status_line` is the status as the
/// HTTP client prints it (code and reason).
pub open spec fn api_error_message(status: u16, status_line: Seq<char>, body: Seq<char>) -> Seq<char> {
    if status == 401 {
        "Invalid or missing API key: "@ + body
    } else if status == 400 {
        if has_infix(body, "model"@) {
            "Invalid model name: "@ + body
        } else {
            "Bad request: "@ + body
        }
    } else if status == 429 {
        "Rate limit exceeded: "@ + body
    } else if 500 <= status <= 599 {
        "Anthropic server error: "@ + body
    } else {
        "API error ("@ + status_line + "): "@ + body
    }
}

/// The request could not be sent.
pub open spec fn send_error_step(m: SessionModel, reason: Seq<char>) -> (SessionModel, Option<EventModel>) {
    if m.phase == Phase::AwaitingConnection {
        (SessionModel { phase: Phase::Failed, failure: Some(FailureCause::Network), ..m },
            Some(EventModel::Text(error_text(transport_message(reason)))))
    } else {
        (m, None)
    }
}

/// The response status arrived; for a refused request, with its body.
pub open spec fn response_step(m: SessionModel, status: u16, status_line: Seq<char>, body: Seq<char>)
    -> (SessionModel, Option<EventModel>)
{
    if m.phase == Phase::AwaitingConnection {
        if is_success_spec(status) {
            (SessionModel { phase: Phase::Connected, ..m }, None)
        } else {
            (SessionModel { phase: Phase::Failed, failure: Some(cause_of(status, body)), ..m },
                Some(EventModel::Text(error_text(api_error_message(status, status_line, body)))))
        }
    } else {
        (m, None)
    }
}

/// The response body ended.
pub open spec fn end_step(m: SessionModel) -> SessionModel {
    if accepts_bytes(m.phase) { SessionModel { phase: Phase::Finished, ..m } } else { m }
}

/// The cancellation token was observed tripped.
pub open spec fn cancel_step(m: SessionModel) -> SessionModel {
    if is_running(m.phase) { SessionModel { phase: Phase::Cancelled, ..m } } else { m }
}

/// The consumer could not be reached: before any content this is a failure,
/// afterwards the session just stops.
pub open spec fn consumer_gone_step(m: SessionModel) -> SessionModel {
    if m.phase == Phase::AwaitingConnection || m.phase == Phase::Connected {
        SessionModel { phase: Phase::Failed, ..m }
    } else if m.phase == Phase::Streaming {
        SessionModel { phase: Phase::ConsumerGone, ..m }
    } else {
        m
    }
}

/// Whether an HTTP status is a success (2xx).
pub fn is_success(status: u16) -> (r: bool)
    ensures
        r == is_success_spec(status),
{
    200 <= status && status <= 299
}

/// The cause of a refused request.
pub fn classify_status(status: u16, body: &str) -> (r: FailureCause)
    ensures
        r == cause_of(status, body@),
{
    if status == 401 {
        FailureCause::Authentication
    } else if status == 400 {
        FailureCause::MalformedRequest
    } else if status == 429 {
        FailureCause::RateLimit
    } else if 500 <= status && status <= 599 {
        FailureCause::ServerSide
    } else {
        FailureCause::Unclassified
    }
}

/// The human-readable message for a refused request.
pub fn api_error_text(status: u16, status_line: &str, body: &str) -> (r: String)
    ensures
        r@ == api_error_message(status, status_line@, body@),
{
    let mut r = if status == 401 {
        copy_text("Invalid or missing API key: ")
    } else if status == 400 {
        if contains_text(body, "model") {
            copy_text("Invalid model name: ")
        } else {
            copy_text("Bad request: ")
        }
    } else if status == 429 {
        copy_text("Rate limit exceeded: ")
    } else if 500 <= status && status <= 599 {
        copy_text("Anthropic server error: ")
    } else {
        let mut head = copy_text("API error (");
        push_text(&mut head, status_line);
        push_text(&mut head, "): ");
        head
    };
    push_text(&mut r, body);
    r
}

/// The text event that reports a terminal failure.
fn error_event(msg: String) -> (e: StreamEvent)
    ensures
        e@ == EventModel::Text(error_text(msg@)),
{
    let mut t = copy_text("\n\nError: ");
    push_text(&mut t, msg.as_str());
    push_text(&mut t, "\n");
    StreamEvent::Text(t)
}

/// The state of one streaming send: its phase, the frame buffer and the
/// tool accumulator.
pub struct StreamSession {
    phase: Phase,
    frames: FrameAssembler,
    tool: ToolAccumulator,
    failure: Option<FailureCause>,
}

impl View for StreamSession {
    type V = SessionModel;

    closed spec fn view(&self) -> SessionModel {
        SessionModel { phase: self.phase, buffer: self.frames@, tool: self.tool@, failure: self.failure }
    }
}

impl StreamSession {
    /// The frame buffer never holds a complete separator: every frame that
    /// has arrived whole has been taken out.
    #[verifier::type_invariant]
    closed spec fn buffer_is_open(&self) -> bool {
        !has_separator(self.frames@)
    }

    /// A session whose request has not been answered yet.
    pub fn new() -> (r: StreamSession)
        ensures
            r@ == (SessionModel {
                phase: Phase::AwaitingConnection,
                buffer: Seq::empty(),
                tool: ToolState { open: false, input: Seq::empty() },
                failure: None,
            }),
            session_ok(r@),
    {
        StreamSession {
            phase: Phase::AwaitingConnection,
            frames: FrameAssembler::new(),
            tool: ToolAccumulator::new(),
            failure: None,
        }
    }

    /// Why the request failed, once it has.
    pub fn failure(&self) -> (r: Option<FailureCause>)
        ensures
            r == self@.failure,
    {
        self.failure
    }

    /// Where the session stands.
    pub fn phase(&self) -> (r: Phase)
        ensures
            r == self@.phase,
            session_ok(self@),
    {
        proof {
            use_type_invariant(self);
        }
        self.phase
    }

    /// The notices to emit as the task starts, before the request goes out.
    pub fn start(&self) -> (r: Vec<StreamEvent>)
        ensures
            events_view(r@) == start_events(self@),
    {
        let mut r: Vec<StreamEvent> = Vec::new();
        if self.phase == Phase::AwaitingConnection {
            r.push(StreamEvent::ConnectionStatus(copy_text("Connecting to the Anthropic API...")));
            r.push(StreamEvent::ConnectionStatus(copy_text("Sending request...")));
            assert(events_view(r@) == start_events(self@));
        } else {
            assert(events_view(r@) == start_events(self@));
        }
        r
    }

    /// The request could not be sent: the session fails with one message.
    pub fn on_send_error(&mut self, reason: &str) -> (r: Option<StreamEvent>)
        ensures
            (final(self)@, crate::tool::opt_event(r)) == send_error_step(old(self)@, reason@),
            session_ok(final(self)@),
    {
        proof {
            use_type_invariant(&*self);
        }
        if self.phase == Phase::AwaitingConnection {
            self.phase = Phase::Failed;
            self.failure = Some(FailureCause::Network);
            Some(error_event(transport_message_exec(reason)))
        } else {
            None
        }
    }

    /// The response status arrived. A success opens the stream; any other
    /// status fails the session with one message, built from `status_line`
    /// and the response `body`.
    pub fn on_response(&mut self, status: u16, status_line: &str, body: &str) -> (r: Option<StreamEvent>)
        ensures
            (final(self)@, crate::tool::opt_event(r)) == response_step(old(self)@, status, status_line@, body@),
            session_ok(final(self)@),
    {
        proof {
            use_type_invariant(&*self);
        }
        if self.phase == Phase::AwaitingConnection {
            if is_success(status) {
                self.phase = Phase::Connected;
                None
            } else {
                self.phase = Phase::Failed;
                self.failure = Some(classify_status(status, body));
                Some(error_event(api_error_text(status, status_line, body)))
            }
        } else {
            None
        }
    }

    /// Response text arrived: every frame it completes is decoded and
    /// applied in order, and the events come back in emission order.
    pub fn on_text(&mut self, text: &str) -> (events: Vec<StreamEvent>)
        ensures
            (final(self)@, events_view(events@)) == text_step(old(self)@, text@),
            session_ok(final(self)@),
    {
        proof {
            use_type_invariant(&*self);
            lemma_buffer_has_no_separator(self@.buffer + text@);
        }
        if !(self.phase == Phase::Connected || self.phase == Phase::Streaming) {
            return Vec::new();
        }
        self.phase = Phase::Streaming;
        let mut assembler = FrameAssembler::new();
        std::mem::swap(&mut assembler, &mut self.frames);
        let frames = assembler.feed(text);
        self.frames = assembler;
        let mut tool = ToolAccumulator::new();
        std::mem::swap(&mut tool, &mut self.tool);
        let ghost fs = texts_view(frames@);
        let ghost st0 = tool@;
        let mut events: Vec<StreamEvent> = Vec::new();
        let mut k: usize = 0;
        while k < frames.len()
            invariant
                k <= frames@.len(),
                fs == texts_view(frames@),
                fs == split_frames(old(self)@.buffer + text@).0,
                st0 == old(self)@.tool,
                run_frames(st0, fs.take(k as int)) == (tool@, events_view(events@)),
            decreases frames@.len() - k,
        {
            let ghost st = tool@;
            let ghost before = events@;
            let decoded = decode_frame(frames[k].as_str());
            match decoded {
                Some(d) => {
                    match tool.apply(d) {
                        Some(e) => {
                            events.push(e);
                        },
                        None => {},
                    }
                },
                None => {},
            }
            proof {
                assert(fs.take(k + 1).drop_last() == fs.take(k as int));
                assert(fs.take(k + 1).last() == fs[k as int]);
                assert(fs[k as int] == frames@[k as int]@);
                let step = frame_step(st, fs[k as int]);
                assert(step.0 == tool@);
                assert(events_view(events@) == events_view(before) + step.1);
            }
            k += 1;
        }
        self.tool = tool;
        assert(fs.take(frames@.len() as int) == fs);
        events
    }

    /// Response bytes arrived: they are decoded as UTF-8 on their own and
    /// handled as text; a chunk that is not valid UTF-8 is dropped.
    pub fn on_bytes(&mut self, bytes: &[u8]) -> (events: Vec<StreamEvent>)
        ensures
            (final(self)@, events_view(events@)) == bytes_step(old(self)@, bytes@),
            session_ok(final(self)@),
    {
        proof {
            use_type_invariant(&*self);
        }
        match utf8_text(bytes) {
            Some(t) => self.on_text(t.as_str()),
            None => Vec::new(),
        }
    }

    /// The response body ended.
    pub fn on_end(&mut self)
        ensures
            final(self)@ == end_step(old(self)@),
            session_ok(final(self)@),
    {
        proof {
            use_type_invariant(&*self);
        }
        if self.phase == Phase::Connected || self.phase == Phase::Streaming {
            self.phase = Phase::Finished;
        }
    }

    /// The cancellation token was observed tripped: a running session stops
    /// for good. This is no error.
    pub fn cancel(&mut self)
        ensures
            final(self)@ == cancel_step(old(self)@),
            session_ok(final(self)@),
    {
        proof {
            use_type_invariant(&*self);
        }
        if self.phase == Phase::AwaitingConnection || self.phase == Phase::Connected
            || self.phase == Phase::Streaming {
            self.phase = Phase::Cancelled;
        }
    }

    /// An event could not be delivered because the consumer is gone.
    pub fn on_consumer_gone(&mut self)
        ensures
            final(self)@ == consumer_gone_step(old(self)@),
            session_ok(final(self)@),
    {
        proof {
            use_type_invariant(&*self);
        }
        if self.phase == Phase::AwaitingConnection || self.phase == Phase::Connected {
            self.phase = Phase::Failed;
        } else if self.phase == Phase::Streaming {
            self.phase = Phase::ConsumerGone;
        }
    }
}

/// The message for a request that could not be sent.
fn transport_message_exec(reason: &str) -> (r: String)
    ensures
        r@ == transport_message(reason@),
{
    let mut r = copy_text("Failed to connect to Anthropic API: ");
    push_text(&mut r, reason);
    r
}

} // verus!
