//! Types of the personality pipeline: detected context and sentiment,
//! comment triggers, and the augmented event handed to the sink.

use vstd::prelude::*;
use crate::events::ClaudeEvent;

verus! {

/// Detected context of the conversation.
#[derive(Clone, Copy, Debug, PartialEq, Eq, Structural)]
pub enum Context {
    Debugging,
    Building,
    Testing,
    Learning,
    Refactoring,
    Deploying,
}

/// Detected sentiment of the analyzed text.
#[derive(Clone, Copy, Debug, PartialEq, Eq, Structural)]
pub enum Sentiment {
    Frustrated,
    Confused,
    Happy,
    Neutral,
}

impl Default for Sentiment {
    fn default() -> (r: Self)
        ensures
            r == Sentiment::Neutral,
    {
        Sentiment::Neutral
    }
}

/// A session event that warrants guaranteed commentary.
#[derive(Clone, Copy, Debug, PartialEq, Eq, Structural)]
pub enum MilestoneType {
    SessionStart,
    FirstError,
    TestsPass,
    SessionEnd,
    Idle,
}

/// Why a comment may be produced for the processed event.
#[derive(Clone, Copy, Debug, PartialEq, Eq, Structural)]
pub enum Trigger {
    /// A milestone fired: commentary is guaranteed.
    Milestone(MilestoneType),
    /// A non-neutral sentiment was detected.
    EmotionalPeak(Sentiment),
    /// The low-probability random gate fired.
    Random,
    /// Nothing fired.
    NoTrigger,
}

/// Result of analyzing one message.
pub struct AnalysisResult {
    pub context: Option<Context>,
    pub sentiment: Sentiment,
    pub message_text: Option<String>,
}

impl Default for AnalysisResult {
    fn default() -> (r: Self)
        ensures
            r.context is None,
            r.sentiment == Sentiment::Neutral,
            r.message_text is None,
    {
        AnalysisResult { context: None, sentiment: Sentiment::Neutral, message_text: None }
    }
}

/// The base event augmented with detected context, mood and an optional
/// comment. Mood and comment are per-call outputs, never accumulated.
#[derive(Debug)]
pub struct PersonalityEvent {
    pub base_event: ClaudeEvent,
    pub context: Option<Context>,
    pub mood: Option<Sentiment>,
    pub comment: Option<String>,
}

impl PersonalityEvent {
    /// Wraps a base event with no analysis attached yet.
    pub fn new(base_event: ClaudeEvent) -> (r: Self)
        ensures
            r.base_event == base_event,
            r.context is None,
            r.mood is None,
            r.comment is None,
    {
        PersonalityEvent { base_event, context: None, mood: None, comment: None }
    }

    /// Attaches the analysis outcome: the detected context and mood.
    pub fn with_analysis(self, analysis: AnalysisResult) -> (r: Self)
        ensures
            r.base_event == self.base_event,
            r.context == analysis.context,
            r.mood == Some(analysis.sentiment),
            r.comment == self.comment,
    {
        PersonalityEvent {
            base_event: self.base_event,
            context: analysis.context,
            mood: Some(analysis.sentiment),
            comment: self.comment,
        }
    }

    /// Attaches a comment.
    pub fn with_comment(self, comment: String) -> (r: Self)
        ensures
            r.base_event == self.base_event,
            r.context == self.context,
            r.mood == self.mood,
            r.comment == Some(comment),
    {
        PersonalityEvent {
            base_event: self.base_event,
            context: self.context,
            mood: self.mood,
            comment: Some(comment),
        }
    }
}

} // verus!
