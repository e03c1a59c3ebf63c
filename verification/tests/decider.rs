use claudy::events::ClaudeEvent;
use claudy::personality::config::PersonalityConfig;
use claudy::personality::decider::Decider;
use claudy::personality::types::{AnalysisResult, MilestoneType, Sentiment, Trigger};

fn test_decider() -> Decider {
    Decider::new(PersonalityConfig::builtin())
}

#[test]
fn test_session_start_milestone() {
    let mut decider = test_decider();
    let event = ClaudeEvent::SessionStart { project: "test".to_string() };
    let analysis = AnalysisResult::default();

    let trigger = decider.determine_trigger(&event, &analysis);
    assert!(matches!(trigger, Trigger::Milestone(MilestoneType::SessionStart)));
}

#[test]
fn test_first_error_milestone() {
    let mut decider = test_decider();
    let event = ClaudeEvent::Error { project: "test".to_string(), message: "Test error".to_string() };
    let analysis = AnalysisResult::default();

    // First error should be milestone
    let trigger = decider.determine_trigger(&event, &analysis);
    assert!(matches!(trigger, Trigger::Milestone(MilestoneType::FirstError)));

    // Second error should not be milestone
    let trigger = decider.determine_trigger(&event, &analysis);
    assert!(!matches!(trigger, Trigger::Milestone(_)));
}

#[test]
fn test_emotional_peak_trigger() {
    let mut decider = test_decider();
    let event = ClaudeEvent::Talking { project: "test".to_string() };
    let analysis = AnalysisResult {
        context: None,
        sentiment: Sentiment::Frustrated,
        message_text: Some("Why doesn't this work???".to_string()),
    };

    let trigger = decider.determine_trigger(&event, &analysis);
    assert!(matches!(trigger, Trigger::EmotionalPeak(Sentiment::Frustrated)));
}

#[test]
fn test_select_milestone_comment() {
    let decider = test_decider();
    let trigger = Trigger::Milestone(MilestoneType::SessionStart);
    let analysis = AnalysisResult::default();

    let comment = decider.select_comment(&trigger, &analysis);
    assert!(comment.is_some());
    println!("Selected comment: {:?}", comment);
}

#[test]
fn test_repeated_error_stuck_counter() {
    // Three identical errors: milestone on the first only, and the stuck
    // counter reads 2 afterwards.
    let mut decider = test_decider();
    let event = ClaudeEvent::Error { project: "test".to_string(), message: "M".to_string() };

    let m1 = decider.check_milestone(&event);
    assert_eq!(m1, Some(MilestoneType::FirstError));
    let m2 = decider.check_milestone(&event);
    assert_eq!(m2, None);
    let m3 = decider.check_milestone(&event);
    assert_eq!(m3, None);
    assert_eq!(decider.session_state.error_count, 2);
}

#[test]
fn test_differing_error_resets_counter() {
    let mut decider = test_decider();
    let first = ClaudeEvent::Error { project: "test".to_string(), message: "A".to_string() };
    let second = ClaudeEvent::Error { project: "test".to_string(), message: "B".to_string() };

    assert_eq!(decider.check_milestone(&first), Some(MilestoneType::FirstError));
    assert_eq!(decider.check_milestone(&second), None);
    assert_eq!(decider.session_state.error_count, 1);
    assert_eq!(decider.session_state.last_error.as_deref(), Some("B"));
    assert_eq!(decider.check_milestone(&second), None);
    assert_eq!(decider.session_state.error_count, 2);
}

#[test]
fn test_session_start_resets_bookkeeping() {
    let mut decider = test_decider();
    let error = ClaudeEvent::Error { project: "test".to_string(), message: "M".to_string() };
    let start = ClaudeEvent::SessionStart { project: "test".to_string() };

    assert_eq!(decider.check_milestone(&error), Some(MilestoneType::FirstError));
    assert_eq!(decider.check_milestone(&start), Some(MilestoneType::SessionStart));
    // The next error is a first error again.
    assert_eq!(decider.check_milestone(&error), Some(MilestoneType::FirstError));
}

#[test]
fn test_successful_stop_is_session_end() {
    let mut decider = test_decider();
    let analysis = AnalysisResult::default();

    let good = ClaudeEvent::Stop { project: "test".to_string(), success: true };
    let trigger = decider.determine_trigger(&good, &analysis);
    assert!(matches!(trigger, Trigger::Milestone(MilestoneType::SessionEnd)));

    let bad = ClaudeEvent::Stop { project: "test".to_string(), success: false };
    let trigger = decider.determine_trigger(&bad, &analysis);
    assert!(!matches!(trigger, Trigger::Milestone(_)));
}

#[test]
fn test_should_comment_gates() {
    let decider = test_decider();
    assert!(decider.should_comment(&Trigger::Milestone(MilestoneType::SessionStart)));
    assert!(decider.should_comment(&Trigger::Random));
    assert!(!decider.should_comment(&Trigger::NoTrigger));
}

#[test]
fn test_select_comment_pools() {
    let decider = test_decider();
    let analysis = AnalysisResult::default();

    // An emotional peak draws from the sentiment's response pool.
    let c = decider.select_comment(&Trigger::EmotionalPeak(Sentiment::Frustrated), &analysis);
    assert!(c.is_some());

    // A neutral peak never yields a comment.
    let c = decider.select_comment(&Trigger::EmotionalPeak(Sentiment::Neutral), &analysis);
    assert!(c.is_none());

    // A random trigger without context draws from the fallback pool.
    let c = decider.select_comment(&Trigger::Random, &analysis);
    assert!(c.is_some());

    // No trigger, no comment.
    let c = decider.select_comment(&Trigger::NoTrigger, &analysis);
    assert!(c.is_none());
}
