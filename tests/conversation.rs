use agnt::ui::{input_height, wrapped_line_count, App, MessageContent, SlashCommand, SlashCommandAction, SlashCommandState, ToolMode};

#[test]
fn default_app() {
    let app = App::default();
    assert!(app.messages.is_empty());
    assert!(app.auto_scroll);
    assert_eq!(app.tool_mode, ToolMode::Off);
    assert_eq!(app.available_commands.len(), 1);
    assert_eq!(app.available_commands[0].name, "clear");
    assert!(app.system_prompt.ends_with("[DATE_TIME_WITH_WEEKDAY_AND_TIMEZONE]"));
}

#[test]
fn streaming_text_merges_and_finishes() {
    let mut app = App::default();
    app.add_message("user".to_string(), "hi".to_string());
    app.start_streaming(1000);
    app.set_connection_status(Some("Sending request...".to_string()));
    app.append_streaming_text("Hel");
    app.append_streaming_text("lo");
    app.add_streaming_code("print(1)".to_string());
    app.append_streaming_text("!");
    app.add_streaming_error("timeout".to_string());
    assert_eq!(
        app.streaming_content,
        vec![
            MessageContent::Text("Hello".to_string()),
            MessageContent::Code { input: "print(1)".to_string() },
            MessageContent::Text("!".to_string()),
            MessageContent::CodeError("timeout".to_string()),
        ]
    );
    app.finish_streaming();
    assert!(app.streaming_content.is_empty());
    assert_eq!(app.connection_status, None);
    assert_eq!(app.messages.len(), 2);
    assert_eq!(app.messages[1].0, "assistant");
    assert_eq!(app.messages[1].1.len(), 4);
    app.finish_streaming();
    assert_eq!(app.messages.len(), 2);
}

#[test]
fn api_error_is_a_system_message() {
    let mut app = App::default();
    app.add_api_error("boom".to_string());
    assert_eq!(app.messages[0].0, "system");
    assert_eq!(app.messages[0].1, vec![MessageContent::ApiError("boom".to_string())]);
}

#[test]
fn file_names_are_updated_everywhere() {
    let mut app = App::default();
    app.add_streaming_output(
        String::new(),
        String::new(),
        0,
        vec![("file_1".to_string(), "file_1".to_string()), ("file_2".to_string(), "file_2".to_string())],
    );
    app.finish_streaming();
    app.add_streaming_output(String::new(), String::new(), 0, vec![("file_1".to_string(), "file_1".to_string())]);
    app.update_file_metadata("file_1".to_string(), "chart.png".to_string());
    assert_eq!(
        app.messages[0].1[0],
        MessageContent::CodeOutput {
            stdout: String::new(),
            stderr: String::new(),
            return_code: 0,
            files: vec![("file_1".to_string(), "chart.png".to_string()), ("file_2".to_string(), "file_2".to_string())],
        }
    );
    assert_eq!(
        app.streaming_content[0],
        MessageContent::CodeOutput {
            stdout: String::new(),
            stderr: String::new(),
            return_code: 0,
            files: vec![("file_1".to_string(), "chart.png".to_string())],
        }
    );
}

#[test]
fn scrolling() {
    let mut app = App::default();
    app.update_scroll_bounds(100, 20);
    assert_eq!(app.scroll_position, 80);
    assert!(app.auto_scroll);
    app.scroll_up(10);
    assert_eq!(app.scroll_position, 70);
    assert!(!app.auto_scroll);
    app.scroll_up(1000);
    assert_eq!(app.scroll_position, 0);
    app.update_scroll_bounds(100, 20);
    assert_eq!(app.scroll_position, 0);
    assert!(!app.auto_scroll);
    app.scroll_down(1000);
    app.update_scroll_bounds(100, 20);
    assert_eq!(app.scroll_position, 80);
    assert!(app.auto_scroll);
    app.scroll_down(usize::MAX);
    assert_eq!(app.scroll_position, usize::MAX);
    app.update_scroll_bounds(5, 20);
    assert_eq!(app.scroll_position, 0);
    assert_eq!(app.total_lines, 5);
}

#[test]
fn toggles() {
    let mut app = App::default();
    app.toggle_code_execution();
    assert_eq!(app.tool_mode, ToolMode::CodeExecution);
    app.toggle_web_search();
    assert_eq!(app.tool_mode, ToolMode::Both);
    app.toggle_code_execution();
    assert_eq!(app.tool_mode, ToolMode::WebSearch);
    app.toggle_web_search();
    assert_eq!(app.tool_mode, ToolMode::Off);
    app.toggle_help();
    assert!(app.show_help);
    app.toggle_selection_mode();
    assert!(app.selection_mode);
}

#[test]
fn loading_animation_advances_every_300_ms() {
    let mut app = App::default();
    app.start_streaming(1000);
    app.update_loading_animation(1299);
    assert_eq!(app.loading_animation_frame, 0);
    app.update_loading_animation(1300);
    assert_eq!(app.loading_animation_frame, 1);
    app.update_loading_animation(1600);
    app.update_loading_animation(1900);
    assert_eq!(app.loading_animation_frame, 0);
    assert_eq!(app.last_animation_update, 1900);
    app.update_loading_animation(10);
    assert_eq!(app.loading_animation_frame, 0);
}

#[test]
fn slash_commands() {
    let mut app = App::default();
    app.input = "/".to_string();
    app.start_slash_command();
    assert_eq!(app.slash_command_state.as_ref().unwrap().suggestions.len(), 1);
    app.update_slash_command("cl");
    assert_eq!(app.slash_command_state.as_ref().unwrap().suggestions.len(), 1);
    app.update_slash_command("x");
    assert!(app.slash_command_state.as_ref().unwrap().suggestions.is_empty());
    assert!(app.slash_command_state.as_ref().unwrap().get_selected().is_none());
    app.cancel_slash_command();
    assert!(app.slash_command_state.is_none());
    app.update_slash_command("c");
    assert!(app.slash_command_state.is_none());
}

#[test]
fn clear_command_resets_conversation() {
    let mut app = App::default();
    app.add_message("user".to_string(), "hi".to_string());
    app.append_streaming_text("partial");
    app.set_container_info("c1".to_string(), "t1".to_string());
    app.scroll_up(3);
    app.input = "/clear".to_string();
    app.start_slash_command();
    app.execute_slash_command(SlashCommandAction::Clear);
    assert!(app.messages.is_empty());
    assert!(app.streaming_content.is_empty());
    assert!(app.container_info.is_none());
    assert!(app.slash_command_state.is_none());
    assert!(app.input.is_empty());
    assert!(app.auto_scroll);
    assert_eq!(app.scroll_position, 0);
}

#[test]
fn suggestion_navigation_wraps() {
    let cmds = vec![
        SlashCommand { name: "clear".to_string(), description: "a".to_string(), action: SlashCommandAction::Clear },
        SlashCommand { name: "close".to_string(), description: "b".to_string(), action: SlashCommandAction::Clear },
        SlashCommand { name: "help".to_string(), description: "c".to_string(), action: SlashCommandAction::Clear },
    ];
    let mut st = SlashCommandState::new();
    st.input_buffer = "cl".to_string();
    st.update_suggestions(&cmds);
    assert_eq!(st.suggestions.len(), 2);
    assert_eq!(st.get_selected().unwrap().name, "clear");
    st.next_suggestion();
    assert_eq!(st.get_selected().unwrap().name, "close");
    st.next_suggestion();
    assert_eq!(st.selected_index, 0);
    st.prev_suggestion();
    assert_eq!(st.selected_index, 1);
    st.prev_suggestion();
    assert_eq!(st.selected_index, 0);
    st.input_buffer = String::new();
    st.update_suggestions(&cmds);
    assert_eq!(st.suggestions.len(), 3);
    let mut empty = SlashCommandState::new();
    empty.next_suggestion();
    empty.prev_suggestion();
    assert_eq!(empty.selected_index, 0);
}

#[test]
fn wrapped_rows() {
    assert_eq!(wrapped_line_count(&[0, 10, 11, 20, 1], 10), 1 + 1 + 2 + 2 + 1);
    assert_eq!(wrapped_line_count(&[], 10), 0);
    assert_eq!(wrapped_line_count(&[usize::MAX, usize::MAX], 1), usize::MAX);
}

#[test]
fn input_box_height() {
    assert_eq!(input_height(""), 3);
    assert_eq!(input_height("a\nb"), 4);
    assert_eq!(input_height("\n\n\n\n\n\n\n\n\n\n\n"), 10);
}
