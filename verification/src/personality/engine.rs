//! The personality engine: analysis, trigger decision, probability gating
//! and comment selection around one processed event.

use vstd::prelude::*;
use vstd::string::*;
use crate::events::ClaudeEvent;
use crate::personality::analyzer::{
    Analyzer, spec_detect_context, spec_detect_sentiment,
};
use crate::personality::config::PersonalityConfig;
use crate::personality::decider::{
    Decider, fresh_session, milestone_key, milestone_step, spec_pool,
};
use crate::personality::types::{AnalysisResult, PersonalityEvent, Sentiment, Trigger};
use crate::text::lower_of;

verus! {

/// Error establishing the personality configuration tables. Loading tables
/// from disk is the embedding application's task; it reports a failure
/// through one of these.
#[derive(Debug)]
pub enum ConfigError {
    /// No configuration directory was found.
    NotFound,
    /// A table file could not be read.
    ReadFailure(String),
    /// A table file could not be parsed.
    ParseFailure(String),
}

impl ConfigError {
    /// A short description of the failure.
    pub fn message(&self) -> (r: String)
        ensures
            self is NotFound ==> r@ == "personality config directory not found"@,
    {
        match self {
            ConfigError::NotFound => String::from_str("personality config directory not found"),
            ConfigError::ReadFailure(s) => {
                let mut m = String::from_str("failed to read personality config: ");
                m.append(s.as_str());
                m
            },
            ConfigError::ParseFailure(s) => {
                let mut m = String::from_str("failed to parse personality config: ");
                m.append(s.as_str());
                m
            },
        }
    }
}

/// The context the analysis yields for an optional message.
pub open spec fn spec_analysis_context(cfg: PersonalityConfig, text: Option<Seq<char>>) -> Option<
    crate::personality::types::Context,
> {
    match text {
        Some(t) => spec_detect_context(cfg, lower_of(t)),
        None => None,
    }
}

/// The sentiment the analysis yields for an optional message.
pub open spec fn spec_analysis_sentiment(cfg: PersonalityConfig, text: Option<Seq<char>>) -> Sentiment {
    match text {
        Some(t) => spec_detect_sentiment(cfg, t),
        None => Sentiment::Neutral,
    }
}

/// Analyzer plus decider around one shared kind of configuration.
pub struct PersonalityEngine {
    pub analyzer: Analyzer,
    pub decider: Decider,
}

impl PersonalityEngine {
    /// An engine over the built-in default tables. Loading tables from disk
    /// is the embedding application's task: an engine over externally
    /// loaded tables comes from `with_config`, and a load failure is fatal
    /// for the engine, surfaced as a `ConfigError` by the loader.
    pub fn new() -> (r: Result<Self, ConfigError>)
        ensures
            r matches Ok(e) && e.decider.session_state@ == fresh_session()
                && e.decider.config.milestone_pools_ready(),
    {
        Ok(Self::with_config(PersonalityConfig::builtin()))
    }

    /// An engine over explicitly provided tables; the analyzer works on a
    /// faithful copy of them.
    pub fn with_config(config: PersonalityConfig) -> (r: Self)
        ensures
            r.decider.config == config,
            r.decider.session_state@ == fresh_session(),
    {
        let analyzer_config = config.duplicate();
        let analyzer = Analyzer::new(analyzer_config);
        let decider = Decider::new(config);
        PersonalityEngine { analyzer, decider }
    }

    /// Processes one event: analyzes the message if one is present, decides
    /// the trigger, applies the probability gates, and returns the event
    /// augmented with context, mood and an optional comment. When the event
    /// fires a milestone, a comment is attached exactly when that
    /// milestone's pool exists and is not empty, and the comment is drawn
    /// from it; a comment for an emotional peak or random trigger is drawn
    /// from the sentiment's response pool, the context's pool, or the
    /// fallback pool.
    pub fn process(&mut self, event: ClaudeEvent, message_text: Option<&str>) -> (r:
        PersonalityEvent)
        ensures
            final(self).analyzer == old(self).analyzer,
            final(self).decider.config == old(self).decider.config,
            r.base_event == event,
            r.context == spec_analysis_context(old(self).analyzer.config, message_text.deep_view()),
            r.mood == Some(
                spec_analysis_sentiment(old(self).analyzer.config, message_text.deep_view()),
            ),
            ({
                let (s2, m) = milestone_step(old(self).decider.session_state@, event@);
                let cfg = old(self).decider.config;
                let ctx = spec_analysis_context(old(self).analyzer.config, message_text.deep_view());
                let sent = spec_analysis_sentiment(
                    old(self).analyzer.config,
                    message_text.deep_view(),
                );
                final(self).decider.session_state@ == s2 && (match m {
                    Some(mt) => {
                        let pool = cfg.spec_milestone_comments(milestone_key(mt));
                        match r.comment {
                            Some(c) => pool matches Some(p) && p.len() > 0 && p.contains(c@),
                            None => pool is None || pool->0.len() == 0,
                        }
                    },
                    None => match r.comment {
                        Some(c) => {
                            let trigger = if sent != Sentiment::Neutral {
                                Trigger::EmotionalPeak(sent)
                            } else {
                                Trigger::Random
                            };
                            spec_pool(cfg, trigger, ctx) matches Some(p) && p.len() > 0
                                && p.contains(c@)
                        },
                        None => true,
                    },
                })
            }),
    {
        let analysis: AnalysisResult = match message_text {
            Some(t) => self.analyzer.analyze(t),
            None => AnalysisResult::default(),
        };
        let trigger = self.decider.determine_trigger(&event, &analysis);
        let comment: Option<String> = if self.decider.should_comment(&trigger) {
            self.decider.select_comment(&trigger, &analysis)
        } else {
            None
        };
        let mut result = PersonalityEvent::new(event).with_analysis(analysis);
        if let Some(c) = comment {
            result = result.with_comment(c);
        }
        result
    }
}

} // verus!
