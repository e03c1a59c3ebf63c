//! The personality engine: analyzes extracted text for context and
//! sentiment, decides whether the processed event warrants a comment, and
//! selects one from the configured pools.

pub mod analyzer;
pub mod config;
pub mod decider;
pub mod engine;
pub mod types;

pub use analyzer::Analyzer;
pub use decider::{Decider, SessionState};
pub use engine::{ConfigError, PersonalityEngine};
pub use config::{CommentPool, CommentsConfig, ContextKeywords, KeywordsConfig, PersonalityConfig, SentimentKeywords};
pub use types::{AnalysisResult, Context, MilestoneType, PersonalityEvent, Sentiment, Trigger};
