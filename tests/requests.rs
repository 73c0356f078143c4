use agnt::prompt::{format_datetime, replace_text, substitute_datetime_placeholder, substitute_placeholder_at, LocalTime};
use agnt::request::{
    beta_features, code_execution_enabled, output_dir_for, pipe_prompt, request_messages, request_tools,
    tool_mode_from_flags,
};
use agnt::ui::{MessageContent, ToolMode};

fn sample_time() -> LocalTime {
    LocalTime {
        year: 2025,
        month: 3,
        day: 3,
        weekday: 0,
        hour12: 9,
        is_pm: true,
        minute: 5,
        second: 7,
        zone: "UTC".to_string(),
    }
}

#[test]
fn datetime_text() {
    assert_eq!(format_datetime(&sample_time()), "Monday, March 3, 2025 at 09:05:07 PM UTC");
    let t = LocalTime { year: -44, month: 12, day: 31, weekday: 6, hour12: 12, is_pm: false, minute: 59, second: 0, zone: "+01:00".to_string(), };
    assert_eq!(format_datetime(&t), "Sunday, December 31, -44 at 12:59:00 AM +01:00");
}

#[test]
fn placeholder_substitution() {
    let out = substitute_placeholder_at("Now: [DATE_TIME_WITH_WEEKDAY_AND_TIMEZONE].", &sample_time());
    assert_eq!(out, "Now: Monday, March 3, 2025 at 09:05:07 PM UTC.");
    let live = substitute_datetime_placeholder("It is [DATE_TIME_WITH_WEEKDAY_AND_TIMEZONE]");
    assert!(!live.contains("[DATE_TIME"));
    assert!(live.starts_with("It is "));
    assert!(live.contains(" at "));
}

#[test]
fn replace_matches_std() {
    for (s, p, r) in [("aaa", "aa", "b"), ("abcabc", "bc", "XY"), ("none", "zz", "q"), ("", "a", "b"), ("ééé", "é", "e"), ("ab", "", "-"), ("", "", "x")] {
        assert_eq!(replace_text(s, p, r), s.replace(p, r));
    }
}

#[test]
fn conversation_for_request() {
    let messages = vec![
        ("user".to_string(), vec![MessageContent::Text("hi".to_string())]),
        ("system".to_string(), vec![MessageContent::ApiError("x".to_string())]),
        (
            "assistant".to_string(),
            vec![
                MessageContent::Text("a".to_string()),
                MessageContent::Code { input: "c".to_string() },
                MessageContent::Text("b".to_string()),
            ],
        ),
        ("assistant".to_string(), vec![MessageContent::Code { input: "only code".to_string() }]),
    ];
    let out = request_messages(&messages);
    assert_eq!(out.len(), 2);
    assert_eq!((out[0].role.as_str(), out[0].content.as_str()), ("user", "hi"));
    assert_eq!((out[1].role.as_str(), out[1].content.as_str()), ("assistant", "ab"));
}

#[test]
fn tools_and_features() {
    let tools = request_tools(true).unwrap();
    assert_eq!(tools.len(), 1);
    assert_eq!(tools[0].tool_type, "code_execution_20250522");
    assert_eq!(tools[0].name, "code_execution");
    assert!(request_tools(false).is_none());
    assert_eq!(beta_features(true).as_deref(), Some("code-execution-2025-05-22,files-api-2025-04-14"));
    assert_eq!(beta_features(false), None);
}

#[test]
fn modes_and_directories() {
    assert_eq!(tool_mode_from_flags(true, true), ToolMode::Both);
    assert_eq!(tool_mode_from_flags(true, false), ToolMode::CodeExecution);
    assert_eq!(tool_mode_from_flags(false, true), ToolMode::WebSearch);
    assert_eq!(tool_mode_from_flags(false, false), ToolMode::Off);
    assert!(code_execution_enabled(ToolMode::Both));
    assert!(!code_execution_enabled(ToolMode::WebSearch));
    assert_eq!(output_dir_for(ToolMode::CodeExecution, None).as_deref(), Some("output"));
    assert_eq!(output_dir_for(ToolMode::Off, None), None);
    assert_eq!(output_dir_for(ToolMode::Off, Some("d".to_string())).as_deref(), Some("d"));
}

#[test]
fn pipe_text() {
    assert_eq!(pipe_prompt(Some("Summarise:"), "text".to_string()), "Summarise: text");
    assert_eq!(pipe_prompt(None, "text".to_string()), "text");
}
