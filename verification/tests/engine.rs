use claudy::events::ClaudeEvent;
use claudy::personality::engine::ConfigError;
use claudy::personality::engine::PersonalityEngine;
use claudy::personality::types::{Context, Sentiment};

#[test]
fn test_engine_creation() {
    let engine = PersonalityEngine::new();
    assert!(engine.is_ok(), "Engine should create successfully");
}

#[test]
fn test_process_session_start() {
    let mut engine = PersonalityEngine::new().unwrap();
    let event = ClaudeEvent::SessionStart { project: "test".to_string() };

    let result = engine.process(event, None);

    // Session start should always have a comment
    assert!(result.comment.is_some(), "Session start should have comment");
    println!("Comment: {:?}", result.comment);
}

#[test]
fn test_process_with_context() {
    let mut engine = PersonalityEngine::new().unwrap();
    let event = ClaudeEvent::Talking { project: "test".to_string() };

    let result = engine.process(event, Some("I found an error in the code"));

    assert_eq!(result.context, Some(Context::Debugging));
    println!("Context: {:?}, Comment: {:?}", result.context, result.comment);
}

#[test]
fn test_process_with_sentiment() {
    let mut engine = PersonalityEngine::new().unwrap();
    let event = ClaudeEvent::UserMessage { project: "test".to_string() };

    let result = engine.process(event, Some("Why doesn't this work???"));

    assert_eq!(result.mood, Some(Sentiment::Frustrated));
    println!("Mood: {:?}, Comment: {:?}", result.mood, result.comment);
}

#[test]
fn test_process_without_text_is_neutral() {
    let mut engine = PersonalityEngine::new().unwrap();
    let event = ClaudeEvent::Thinking { project: "test".to_string() };

    let result = engine.process(event, None);

    assert_eq!(result.context, None);
    assert_eq!(result.mood, Some(Sentiment::Neutral));
    assert!(matches!(result.base_event, ClaudeEvent::Thinking { .. }));
}

#[test]
fn test_process_first_error_has_comment() {
    let mut engine = PersonalityEngine::new().unwrap();
    let event = ClaudeEvent::Error { project: "test".to_string(), message: "boom".to_string() };

    let result = engine.process(event, None);
    assert!(result.comment.is_some(), "First error should have comment");
}

#[test]
fn test_config_error_messages() {
    assert_eq!(
        ConfigError::NotFound.message(),
        "personality config directory not found"
    );
    assert!(ConfigError::ReadFailure("keywords.toml".to_string()).message().contains("keywords.toml"));
    assert!(ConfigError::ParseFailure("bad value".to_string()).message().contains("bad value"));
}
