use claudy::classify::{classify_line, classify_lines};
use claudy::events::ClaudeEvent;
use claudy::personality::analyzer::Analyzer;
use claudy::personality::config::PersonalityConfig;
use claudy::personality::decider::Decider;
use claudy::personality::types::{Context, MilestoneType, Trigger};
use claudy::state::ClaudyState;

#[test]
fn test_user_text_line_full_pipeline() {
    // A user line with extracted text: the event is UserMessage, the state
    // machine moves to listening, and the analyzer reads a debugging context.
    let line = r#"{"type":"user","message":{"content":[{"type":"text","text":"there is an error"}]}}"#;
    let classified = classify_line(line, "proj").expect("should classify");
    assert!(matches!(classified.event, ClaudeEvent::UserMessage { .. }));
    assert_eq!(classified.text.as_deref(), Some("there is an error"));

    let mut state = ClaudyState::new();
    state.handle_event(classified.event);
    assert_eq!(state.current_state, "listening");

    let analyzer = Analyzer::new(PersonalityConfig::builtin());
    let analysis = analyzer.analyze(classified.text.as_deref().unwrap());
    assert_eq!(analysis.context, Some(Context::Debugging));
}

#[test]
fn test_session_start_line_full_pipeline() {
    // A hook-progress session start: the event is SessionStart, the state
    // machine wakes and tracks the project, and the decider fires a
    // guaranteed milestone.
    let line = r#"{"type":"progress","data":{"type":"hook_progress","hookEvent":"SessionStart"}}"#;
    let classified = classify_line(line, "proj").expect("should classify");
    assert!(matches!(classified.event, ClaudeEvent::SessionStart { .. }));

    let mut state = ClaudyState::new();
    state.handle_event(classified.event);
    assert_eq!(state.current_state, "wake");
    assert_eq!(state.active_projects, vec!["proj".to_string()]);

    let mut decider = Decider::new(PersonalityConfig::builtin());
    let event = ClaudeEvent::SessionStart { project: "proj".to_string() };
    let trigger = decider.determine_trigger(&event, &Default::default());
    assert!(matches!(trigger, Trigger::Milestone(MilestoneType::SessionStart)));
    assert!(decider.should_comment(&trigger));
}

#[test]
fn test_trailing_tool_use_wins() {
    // The last content item decides: a trailing tool_use yields ToolUse with
    // that item's name and file path, whatever came before.
    let line = r#"{"type":"assistant","message":{"content":[{"type":"thinking"},{"type":"tool_use","name":"Edit","input":{"file_path":"/a.py"}}]}}"#;
    let classified = classify_line(line, "proj").expect("should classify");
    match classified.event {
        ClaudeEvent::ToolUse { tool, file_path, .. } => {
            assert_eq!(tool, "Edit");
            assert_eq!(file_path.as_deref(), Some("/a.py"));
        },
        other => panic!("expected ToolUse, got {:?}", other),
    }
}

#[test]
fn test_tool_result_suppresses_user_message() {
    let line = r#"{"type":"user","message":{"content":[{"type":"tool_result","content":"ok"}]}}"#;
    assert!(classify_line(line, "proj").is_none());
}

#[test]
fn test_trailing_thinking_and_text() {
    let line = r#"{"type":"assistant","message":{"content":[{"type":"text","text":"hi"},{"type":"thinking"}]}}"#;
    let classified = classify_line(line, "proj").expect("should classify");
    assert!(matches!(classified.event, ClaudeEvent::Thinking { .. }));

    let line = r#"{"type":"assistant","message":{"content":[{"type":"tool_use","name":"Edit"},{"type":"text","text":"done"}]}}"#;
    let classified = classify_line(line, "proj").expect("should classify");
    assert!(matches!(classified.event, ClaudeEvent::Talking { .. }));
}

#[test]
fn test_tool_use_fallbacks() {
    // A tool_use without a name falls back to the unknown tool name; the
    // file path falls back through path and notebook_path.
    let line = r#"{"type":"assistant","message":{"content":[{"type":"tool_use","input":{"path":"/b.rs"}}]}}"#;
    let classified = classify_line(line, "proj").expect("should classify");
    match classified.event {
        ClaudeEvent::ToolUse { tool, file_path, .. } => {
            assert_eq!(tool, "unknown");
            assert_eq!(file_path.as_deref(), Some("/b.rs"));
        },
        other => panic!("expected ToolUse, got {:?}", other),
    }
}

#[test]
fn test_progress_lines() {
    let stop = r#"{"type":"progress","data":{"type":"hook_progress","hookEvent":"Stop"}}"#;
    let classified = classify_line(stop, "proj").expect("should classify");
    assert!(matches!(classified.event, ClaudeEvent::Stop { success: true, .. }));

    let waiting = r#"{"type":"progress","data":{"type":"waiting_for_task"}}"#;
    let classified = classify_line(waiting, "proj").expect("should classify");
    assert!(matches!(classified.event, ClaudeEvent::WaitingForTask { .. }));

    let unknown_hook = r#"{"type":"progress","data":{"type":"hook_progress","hookEvent":"Other"}}"#;
    assert!(classify_line(unknown_hook, "proj").is_none());

    let no_data = r#"{"type":"progress"}"#;
    assert!(classify_line(no_data, "proj").is_none());
}

#[test]
fn test_system_hook_errors() {
    let with_errors = r#"{"type":"system","subtype":"stop_hook_summary","hookErrors":["x"]}"#;
    let classified = classify_line(with_errors, "proj").expect("should classify");
    match classified.event {
        ClaudeEvent::Error { message, .. } => assert_eq!(message, "Hook error"),
        other => panic!("expected Error, got {:?}", other),
    }

    let empty_errors = r#"{"type":"system","subtype":"stop_hook_summary","hookErrors":[]}"#;
    assert!(classify_line(empty_errors, "proj").is_none());

    let other_subtype = r#"{"type":"system","subtype":"other"}"#;
    assert!(classify_line(other_subtype, "proj").is_none());
}

#[test]
fn test_malformed_and_unknown_lines_dropped() {
    assert!(classify_line("not json at all", "proj").is_none());
    assert!(classify_line(r#"{"no_type":1}"#, "proj").is_none());
    assert!(classify_line(r#"{"type":"summary"}"#, "proj").is_none());
    assert!(classify_line(r#"{"type":7}"#, "proj").is_none());
}

#[test]
fn test_user_text_concatenation() {
    let line = r#"{"type":"user","message":{"content":[{"type":"text","text":"one "},{"type":"image"},{"type":"text","text":"two"}]}}"#;
    let classified = classify_line(line, "proj").expect("should classify");
    assert_eq!(classified.text.as_deref(), Some("one two"));

    // A user record without any text item carries no text.
    let bare = r#"{"type":"user","message":{"content":[{"type":"image"}]}}"#;
    let classified = classify_line(bare, "proj").expect("should classify");
    assert!(classified.text.is_none());
}

#[test]
fn test_classify_lines_skips_noise() {
    let lines = vec![
        "".to_string(),
        r#"{"type":"progress","data":{"type":"hook_progress","hookEvent":"SessionStart"}}"#.to_string(),
        "garbage".to_string(),
        r#"{"type":"user","message":{"content":[{"type":"text","text":"hi"}]}}"#.to_string(),
    ];
    let out = classify_lines(&lines, "proj");
    assert_eq!(out.len(), 2);
    assert!(matches!(out[0].event, ClaudeEvent::SessionStart { .. }));
    assert!(matches!(out[1].event, ClaudeEvent::UserMessage { .. }));
}
