use agnt::frame::FrameAssembler;
use agnt::protocol::{decode_frame, frame_payload, StreamEvent, StreamEventData};
use agnt::session::{api_error_text, classify_status, is_success, FailureCause, Phase, StreamSession};

fn connected() -> StreamSession {
    let mut s = StreamSession::new();
    assert!(s.on_response(200, "200 OK", "").is_none());
    assert_eq!(s.failure(), None);
    s
}

fn text_frame(t: &str) -> String {
    format!(
        "data: {{\"type\":\"content_block_delta\",\"index\":0,\"delta\":{{\"type\":\"text_delta\",\"text\":\"{}\"}}}}\n\n",
        t
    )
}

fn texts(events: &[StreamEvent]) -> String {
    let mut out = String::new();
    for e in events {
        if let StreamEvent::Text(t) = e {
            out.push_str(t);
        }
    }
    out
}

#[test]
fn session_info_from_message_start() {
    let mut s = connected();
    let events = s.on_text(
        "data: {\"type\":\"message_start\",\"message\":{\"container\":{\"id\":\"c1\",\"expires_at\":\"t1\"}}}\n\n",
    );
    assert_eq!(
        events,
        vec![StreamEvent::ContainerInfo { id: "c1".to_string(), expires_at: "t1".to_string() }]
    );
}

#[test]
fn two_text_deltas_concatenate() {
    let mut s = connected();
    let mut events = s.on_text(&text_frame("Hel"));
    events.extend(s.on_text(&text_frame("lo")));
    assert_eq!(events, vec![StreamEvent::Text("Hel".to_string()), StreamEvent::Text("lo".to_string())]);
    assert_eq!(texts(&events), "Hello");
}

#[test]
fn tool_input_from_two_fragments() {
    let mut s = connected();
    let mut events = Vec::new();
    events.extend(s.on_text(
        "data: {\"type\":\"content_block_start\",\"index\":1,\"content_block\":{\"type\":\"server_tool_use\",\"id\":\"srvtoolu_1\",\"name\":\"code_execution\",\"input\":{}}}\n\n",
    ));
    let first = s.on_text(
        "data: {\"type\":\"content_block_delta\",\"index\":1,\"delta\":{\"type\":\"input_json_delta\",\"partial_json\":\"{\\\"co\"}}\n\n",
    );
    assert!(first.is_empty());
    let second = s.on_text(
        "data: {\"type\":\"content_block_delta\",\"index\":1,\"delta\":{\"type\":\"input_json_delta\",\"partial_json\":\"de\\\":\\\"print(1)\\\"}\"}}\n\n",
    );
    assert!(second.is_empty());
    events.extend(s.on_text("data: {\"type\":\"content_block_stop\",\"index\":1}\n\n"));
    assert_eq!(events, vec![StreamEvent::CodeInput("print(1)".to_string())]);
}

#[test]
fn tool_output_with_one_file() {
    let mut s = connected();
    let events = s.on_text(
        "data: {\"type\":\"content_block_start\",\"index\":2,\"content_block\":{\"type\":\"code_execution_tool_result\",\"tool_use_id\":\"srvtoolu_1\",\"content\":{\"type\":\"code_execution_result\",\"stdout\":\"\",\"stderr\":\"boom\",\"return_code\":1,\"content\":[{\"type\":\"code_execution_output\",\"file_id\":\"f_1\"}]}}}\n\n",
    );
    assert_eq!(
        events,
        vec![StreamEvent::CodeOutput {
            stdout: String::new(),
            stderr: "boom".to_string(),
            return_code: 1,
            files: vec![("f_1".to_string(), "f_1".to_string())],
        }]
    );
}

#[test]
fn tool_error_result_becomes_code_error() {
    let mut s = connected();
    let events = s.on_text(
        "data: {\"type\":\"content_block_start\",\"index\":2,\"content_block\":{\"type\":\"code_execution_tool_result\",\"tool_use_id\":\"t\",\"content\":{\"type\":\"code_execution_tool_result_error\",\"error_code\":\"unavailable\"}}}\n\n",
    );
    assert_eq!(events, vec![StreamEvent::CodeError("unavailable".to_string())]);
}

#[test]
fn text_survives_any_chunking() {
    let wire = format!("{}{}{}", text_frame("Hel"), text_frame("lo, "), text_frame("world"));
    for cut in 0..=wire.len() {
        if !wire.is_char_boundary(cut) {
            continue;
        }
        let mut s = connected();
        let mut events = s.on_text(&wire[..cut]);
        events.extend(s.on_text(&wire[cut..]));
        assert_eq!(texts(&events), "Hello, world", "cut at {}", cut);
        assert_eq!(events.len(), 3);
    }
    let mut s = connected();
    let mut events = Vec::new();
    for b in wire.as_bytes() {
        events.extend(s.on_bytes(&[*b]));
    }
    assert_eq!(texts(&events), "Hello, world");
}

#[test]
fn tool_input_split_anywhere_gives_same_code() {
    let json = "{\"code\":\"import math\\nprint(math.pi)\"}";
    let escaped = |s: &str| s.replace('\\', "\\\\").replace('"', "\\\"");
    let start = "data: {\"type\":\"content_block_start\",\"index\":1,\"content_block\":{\"type\":\"server_tool_use\",\"id\":\"x\",\"name\":\"code_execution\"}}\n\n";
    let stop = "data: {\"type\":\"content_block_stop\",\"index\":1}\n\n";
    for cut in 0..=json.len() {
        let mut s = connected();
        let mut events = s.on_text(start);
        for part in [&json[..cut], &json[cut..]] {
            let frame = format!(
                "data: {{\"type\":\"content_block_delta\",\"index\":1,\"delta\":{{\"type\":\"input_json_delta\",\"partial_json\":\"{}\"}}}}\n\n",
                escaped(part)
            );
            events.extend(s.on_text(&frame));
        }
        events.extend(s.on_text(stop));
        assert_eq!(events, vec![StreamEvent::CodeInput("import math\nprint(math.pi)".to_string())], "cut at {}", cut);
    }
}

#[test]
fn malformed_tool_input_is_dropped() {
    let mut s = connected();
    let mut events = s.on_text(
        "data: {\"type\":\"content_block_start\",\"content_block\":{\"type\":\"server_tool_use\",\"id\":\"x\",\"name\":\"code_execution\"}}\n\n",
    );
    events.extend(s.on_text(
        "data: {\"type\":\"content_block_delta\",\"delta\":{\"type\":\"input_json_delta\",\"partial_json\":\"{\\\"code\\\":\"}}\n\n",
    ));
    events.extend(s.on_text("data: {\"type\":\"content_block_stop\"}\n\n"));
    assert!(events.is_empty());
    assert_eq!(s.phase(), Phase::Streaming);
}

#[test]
fn frames_without_payload_or_with_bad_json_are_silent() {
    let mut s = connected();
    assert!(s.on_text(": heartbeat\n\n").is_empty());
    assert!(s.on_text("event: ping\n\n").is_empty());
    assert!(s.on_text("data: {not json\n\n").is_empty());
    assert!(s.on_text("data: {\"type\":\"ping\"}\n\n").is_empty());
    assert!(s.on_text("data: {\"type\":\"message_stop\"}\n\n").is_empty());
    assert_eq!(s.phase(), Phase::Streaming);
    assert_eq!(s.on_text(&text_frame("still here")), vec![StreamEvent::Text("still here".to_string())]);
}

#[test]
fn cancel_stops_all_further_events() {
    let mut s = connected();
    assert_eq!(s.on_text(&text_frame("a")).len(), 1);
    s.cancel();
    assert_eq!(s.phase(), Phase::Cancelled);
    assert!(s.on_text(&text_frame("b")).is_empty());
    assert!(s.on_bytes(text_frame("c").as_bytes()).is_empty());
    s.on_end();
    assert_eq!(s.phase(), Phase::Cancelled);
}

#[test]
fn cancel_before_connection() {
    let mut s = StreamSession::new();
    s.cancel();
    assert_eq!(s.phase(), Phase::Cancelled);
    assert!(s.on_response(200, "200 OK", "").is_none());
    assert_eq!(s.phase(), Phase::Cancelled);
}

#[test]
fn start_emits_connection_notices() {
    let s = StreamSession::new();
    assert_eq!(
        s.start(),
        vec![
            StreamEvent::ConnectionStatus("Connecting to the Anthropic API...".to_string()),
            StreamEvent::ConnectionStatus("Sending request...".to_string()),
        ]
    );
    assert!(connected().start().is_empty());
}

#[test]
fn partial_frame_waits_for_separator() {
    let mut s = connected();
    let f = text_frame("xy");
    assert!(s.on_text(&f[..f.len() - 1]).is_empty());
    assert_eq!(s.on_text("\n"), vec![StreamEvent::Text("xy".to_string())]);
}

#[test]
fn invalid_utf8_chunk_is_dropped() {
    let mut s = connected();
    let mut bytes = text_frame("ok").into_bytes();
    bytes.push(0xff);
    assert!(s.on_bytes(&bytes).is_empty());
    assert_eq!(s.phase(), Phase::Connected);
    assert_eq!(s.on_bytes(text_frame("ok").as_bytes()), vec![StreamEvent::Text("ok".to_string())]);
}

#[test]
fn multibyte_text_is_kept() {
    let mut s = connected();
    assert_eq!(s.on_bytes(text_frame("héllo ✓").as_bytes()), vec![StreamEvent::Text("héllo ✓".to_string())]);
}

#[test]
fn end_finishes_and_consumer_gone_stops() {
    let mut s = connected();
    s.on_end();
    assert_eq!(s.phase(), Phase::Finished);
    let mut s = connected();
    s.on_text(&text_frame("a"));
    s.on_consumer_gone();
    assert_eq!(s.phase(), Phase::ConsumerGone);
    assert!(s.on_text(&text_frame("b")).is_empty());
    let mut s = StreamSession::new();
    s.on_consumer_gone();
    assert_eq!(s.phase(), Phase::Failed);
}

#[test]
fn send_error_fails_with_one_message() {
    let mut s = StreamSession::new();
    assert_eq!(
        s.on_send_error("dns error"),
        Some(StreamEvent::Text("\n\nError: Failed to connect to Anthropic API: dns error\n".to_string()))
    );
    assert_eq!(s.phase(), Phase::Failed);
    assert_eq!(s.failure(), Some(FailureCause::Network));
    assert!(s.on_send_error("again").is_none());
}

#[test]
fn refused_request_messages() {
    let cases = [
        (401, "401 Unauthorized", "bad key", "Invalid or missing API key: bad key"),
        (400, "400 Bad Request", "unknown model x", "Invalid model name: unknown model x"),
        (400, "400 Bad Request", "oops", "Bad request: oops"),
        (429, "429 Too Many Requests", "slow down", "Rate limit exceeded: slow down"),
        (529, "529 <unknown status code>", "overloaded", "Anthropic server error: overloaded"),
        (404, "404 Not Found", "nope", "API error (404 Not Found): nope"),
    ];
    for (status, line, body, msg) in cases {
        assert_eq!(api_error_text(status, line, body), msg);
        let mut s = StreamSession::new();
        assert_eq!(s.on_response(status, line, body), Some(StreamEvent::Text(format!("\n\nError: {}\n", msg))));
        assert_eq!(s.phase(), Phase::Failed);
        assert_eq!(s.failure(), Some(classify_status(status, body)));
    }
}

#[test]
fn status_classification() {
    assert!(is_success(200) && is_success(299) && !is_success(300) && !is_success(199));
    assert_eq!(classify_status(401, ""), FailureCause::Authentication);
    assert_eq!(classify_status(400, "model"), FailureCause::MalformedRequest);
    assert_eq!(classify_status(429, ""), FailureCause::RateLimit);
    assert_eq!(classify_status(500, ""), FailureCause::ServerSide);
    assert_eq!(classify_status(599, ""), FailureCause::ServerSide);
    assert_eq!(classify_status(418, ""), FailureCause::Unclassified);
}

#[test]
fn assembler_keeps_remainder() {
    let mut a = FrameAssembler::new();
    assert_eq!(a.feed("a\n\nb\n"), vec!["a".to_string()]);
    assert_eq!(a.feed("\nc"), vec!["b".to_string()]);
    assert_eq!(a.feed("\n\n\n\n"), vec!["c".to_string(), String::new()]);
}

#[test]
fn payload_is_first_marked_line() {
    assert_eq!(frame_payload("event: x\ndata: {}\r\ndata: 2"), Some("{}".to_string()));
    assert_eq!(frame_payload("data:nospace"), None);
    assert_eq!(frame_payload(""), None);
    assert_eq!(frame_payload("data: "), Some(String::new()));
}

#[test]
fn decode_recognises_types() {
    assert_eq!(decode_frame("data: {\"type\":\"content_block_stop\",\"index\":0}"), Some(StreamEventData::ContentBlockStop));
    assert_eq!(decode_frame("data: {\"type\":\"message_delta\",\"delta\":{}}"), Some(StreamEventData::MessageDelta));
    assert_eq!(decode_frame("data: {\"type\":\"message_stop\"}"), Some(StreamEventData::MessageStop));
    assert_eq!(decode_frame("data: {\"type\":\"unknown\"}"), None);
    assert_eq!(decode_frame("data: []"), None);
    assert!(matches!(
        decode_frame("data: {\"type\":\"message_start\",\"message\":{}}"),
        Some(StreamEventData::MessageStart { message }) if message.container.is_none()
    ));
}

#[test]
fn non_code_tool_does_not_open_accumulator() {
    let mut s = connected();
    let mut events = s.on_text(
        "data: {\"type\":\"content_block_start\",\"content_block\":{\"type\":\"server_tool_use\",\"id\":\"x\",\"name\":\"web_search\"}}\n\n",
    );
    events.extend(s.on_text(
        "data: {\"type\":\"content_block_delta\",\"delta\":{\"type\":\"input_json_delta\",\"partial_json\":\"{\\\"code\\\":\\\"x\\\"}\"}}\n\n",
    ));
    events.extend(s.on_text("data: {\"type\":\"content_block_stop\"}\n\n"));
    assert!(events.is_empty());
}

#[test]
fn character_split_across_chunks_drops_both_chunks() {
    let mut s = connected();
    let wire = text_frame("é");
    let bytes = wire.as_bytes();
    let cut = wire.find('é').unwrap() + 1;
    assert!(s.on_bytes(&bytes[..cut]).is_empty());
    assert!(s.on_bytes(&bytes[cut..]).is_empty());
    assert_eq!(s.on_bytes(text_frame("next").as_bytes()), vec![StreamEvent::Text("next".to_string())]);
}
