use claudy::events::ClaudeEvent;
use claudy::personality::types::{Context, PersonalityEvent, Sentiment};
use claudy::state::ClaudyState;

fn ev_user(project: &str) -> ClaudeEvent {
    ClaudeEvent::UserMessage { project: project.to_string() }
}

#[test]
fn test_state_starts_idle() {
    let state = ClaudyState::new();
    assert_eq!(state.current_state, "idle");
    assert!(state.active_projects.is_empty());
    assert!(state.focused_project.is_none());
    assert!(state.last_event.is_none());
}

#[test]
fn test_event_to_label_mapping() {
    let cases: Vec<(ClaudeEvent, &str)> = vec![
        (ClaudeEvent::SessionStart { project: "p".to_string() }, "wake"),
        (ev_user("p"), "listening"),
        (ClaudeEvent::Thinking { project: "p".to_string() }, "thinking"),
        (
            ClaudeEvent::ToolUse { project: "p".to_string(), tool: "Edit".to_string(), file_path: None },
            "working",
        ),
        (ClaudeEvent::Talking { project: "p".to_string() }, "talking"),
        (ClaudeEvent::WaitingForTask { project: "p".to_string() }, "sleepy"),
        (ClaudeEvent::Stop { project: "p".to_string(), success: true }, "happy"),
        (ClaudeEvent::Stop { project: "p".to_string(), success: false }, "confused"),
        (ClaudeEvent::Error { project: "p".to_string(), message: "m".to_string() }, "confused"),
    ];
    for (event, label) in cases {
        let mut state = ClaudyState::new();
        state.handle_event(event);
        assert_eq!(state.current_state, label);
    }
}

#[test]
fn test_projects_tracked_once_in_order() {
    let mut state = ClaudyState::new();
    state.handle_event(ev_user("a"));
    state.handle_event(ev_user("b"));
    state.handle_event(ev_user("a"));
    assert_eq!(state.active_projects, vec!["a".to_string(), "b".to_string()]);
    // First writer keeps focus.
    assert_eq!(state.focused_project.as_deref(), Some("a"));
}

#[test]
fn test_error_does_not_track_project() {
    let mut state = ClaudyState::new();
    state.handle_event(ClaudeEvent::Error { project: "x".to_string(), message: "m".to_string() });
    assert!(state.active_projects.is_empty());
    assert!(state.focused_project.is_none());
    assert_eq!(state.current_state, "confused");
}

#[test]
fn test_personality_event_updates_ephemeral_fields() {
    let mut state = ClaudyState::new();
    let pe = PersonalityEvent {
        base_event: ev_user("p"),
        context: Some(Context::Debugging),
        mood: Some(Sentiment::Frustrated),
        comment: Some("hang in there".to_string()),
    };
    state.handle_personality_event(pe);
    assert_eq!(state.context, Some(Context::Debugging));
    assert_eq!(state.mood, Some(Sentiment::Frustrated));
    assert_eq!(state.comment.as_deref(), Some("hang in there"));
    assert_eq!(state.current_state, "listening");

    // The next event overwrites the personality fields; nothing accumulates.
    let quiet = PersonalityEvent {
        base_event: ClaudeEvent::Thinking { project: "p".to_string() },
        context: None,
        mood: Some(Sentiment::Neutral),
        comment: None,
    };
    state.handle_personality_event(quiet);
    assert_eq!(state.context, None);
    assert_eq!(state.comment, None);
    assert_eq!(state.current_state, "thinking");
}

#[test]
fn test_config_defaults_and_registration() {
    let mut cfg = claudy::config::Config::default();
    assert_eq!(cfg.position.x, 100);
    assert_eq!(cfg.position.anchor, "bottom-right");
    assert_eq!(cfg.appearance.size, "medium");
    assert_eq!(cfg.notifications.bubble_duration, 5);
    assert_eq!(cfg.behavior.sleepy_timeout, 300);

    assert!(cfg.projects.register("/home/a"));
    assert!(!cfg.projects.register("/home/a"));
    assert!(cfg.projects.is_registered("/home/a"));
    assert!(cfg.projects.unregister("/home/a"));
    assert!(!cfg.projects.unregister("/home/a"));
    assert!(!cfg.projects.is_registered("/home/a"));
}
