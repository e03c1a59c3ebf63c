//! Content analysis: detecting conversation context and sentiment from a
//! message, by priority-ordered keyword and pattern tables.

use vstd::prelude::*;
use vstd::string::*;
use crate::personality::config::PersonalityConfig;
use crate::personality::types::{AnalysisResult, Context, Sentiment};
use crate::text::{contains_substr, has_substr, lower_of, lowercase};

verus! {

/// Some keyword, lowercased, occurs in the (already lowercased) text.
pub open spec fn kw_match(text_lower: Seq<char>, kws: Seq<Seq<char>>) -> bool {
    exists|i: int| 0 <= i < kws.len() && has_substr(text_lower, lower_of(kws[i]))
}

/// Some literal pattern occurs, case-sensitively, in the original text.
pub open spec fn pat_match(original: Seq<char>, pats: Seq<Seq<char>>) -> bool {
    exists|i: int| 0 <= i < pats.len() && has_substr(original, pats[i])
}

/// The context category under `key` has a keyword hit in the lowered text.
pub open spec fn context_hit(cfg: PersonalityConfig, key: Seq<char>, text_lower: Seq<char>) -> bool {
    match cfg.spec_context_keywords(key) {
        Some(kws) => kw_match(text_lower, kws),
        None => false,
    }
}

/// The sentiment tier under `key` has a keyword hit in the lowered text or
/// a pattern hit in the original text.
pub open spec fn tier_hit(cfg: PersonalityConfig, key: Seq<char>, original: Seq<char>) -> bool {
    match cfg.spec_sentiment_config(key) {
        Some(sc) => kw_match(lower_of(original), sc.0) || pat_match(original, sc.1),
        None => false,
    }
}

/// Context detection: categories are tested in fixed priority order and the
/// first hit wins.
pub open spec fn spec_detect_context(cfg: PersonalityConfig, text_lower: Seq<char>) -> Option<
    Context,
> {
    if context_hit(cfg, "debugging"@, text_lower) {
        Some(Context::Debugging)
    } else if context_hit(cfg, "testing"@, text_lower) {
        Some(Context::Testing)
    } else if context_hit(cfg, "deploying"@, text_lower) {
        Some(Context::Deploying)
    } else if context_hit(cfg, "refactoring"@, text_lower) {
        Some(Context::Refactoring)
    } else if context_hit(cfg, "building"@, text_lower) {
        Some(Context::Building)
    } else if context_hit(cfg, "learning"@, text_lower) {
        Some(Context::Learning)
    } else {
        None
    }
}

/// Sentiment detection: tiers are tested in strict priority order
/// Frustrated, Confused, Happy; the first hit wins and the default is
/// Neutral.
pub open spec fn spec_detect_sentiment(cfg: PersonalityConfig, original: Seq<char>) -> Sentiment {
    if tier_hit(cfg, "frustrated"@, original) {
        Sentiment::Frustrated
    } else if tier_hit(cfg, "confused"@, original) {
        Sentiment::Confused
    } else if tier_hit(cfg, "happy"@, original) {
        Sentiment::Happy
    } else {
        Sentiment::Neutral
    }
}

/// Sentiment priority: a text with a frustrated-tier hit classifies
/// Frustrated, even when the happy tier also hits.
pub proof fn lemma_frustrated_beats_happy(cfg: PersonalityConfig, original: Seq<char>)
    requires
        tier_hit(cfg, "frustrated"@, original),
        tier_hit(cfg, "happy"@, original),
    ensures
        spec_detect_sentiment(cfg, original) == Sentiment::Frustrated,
{
}

/// Analyzes message content for context and sentiment.
pub struct Analyzer {
    pub config: PersonalityConfig,
}

impl Analyzer {
    /// A new analyzer over the given tables.
    pub fn new(config: PersonalityConfig) -> (r: Self)
        ensures
            r.config == config,
    {
        Analyzer { config }
    }

    /// Whether any keyword, lowercased, occurs in `text`.
    pub fn matches_any(&self, text: &str, keywords: &Vec<String>) -> (r: bool)
        ensures
            r == kw_match(text@, keywords.deep_view()),
    {
        let n = keywords.len();
        let mut i: usize = 0;
        while i < n
            invariant
                i <= n,
                n == keywords@.len(),
                forall|j: int|
                    0 <= j < i ==> !has_substr(text@, lower_of(keywords.deep_view()[j])),
            decreases n - i,
        {
            let kl = lowercase(keywords[i].as_str());
            if contains_substr(text, kl.as_str()) {
                proof {
                    assert(has_substr(text@, lower_of(keywords.deep_view()[i as int])));
                }
                return true;
            }
            i += 1;
        }
        false
    }

    /// Whether any literal pattern occurs, case-sensitively, in `text`.
    fn matches_any_pattern(text: &str, patterns: &Vec<String>) -> (r: bool)
        ensures
            r == pat_match(text@, patterns.deep_view()),
    {
        let n = patterns.len();
        let mut i: usize = 0;
        while i < n
            invariant
                i <= n,
                n == patterns@.len(),
                forall|j: int| 0 <= j < i ==> !has_substr(text@, patterns.deep_view()[j]),
            decreases n - i,
        {
            if contains_substr(text, patterns[i].as_str()) {
                proof {
                    assert(has_substr(text@, patterns.deep_view()[i as int]));
                }
                return true;
            }
            i += 1;
        }
        false
    }

    /// Detects the conversation context from the lowered text.
    pub fn detect_context(&self, text_lower: &str) -> (r: Option<Context>)
        ensures
            r == spec_detect_context(self.config, text_lower@),
    {
        if let Some(kws) = self.config.context_keywords("debugging") {
            if self.matches_any(text_lower, kws) {
                return Some(Context::Debugging);
            }
        }
        if let Some(kws) = self.config.context_keywords("testing") {
            if self.matches_any(text_lower, kws) {
                return Some(Context::Testing);
            }
        }
        if let Some(kws) = self.config.context_keywords("deploying") {
            if self.matches_any(text_lower, kws) {
                return Some(Context::Deploying);
            }
        }
        if let Some(kws) = self.config.context_keywords("refactoring") {
            if self.matches_any(text_lower, kws) {
                return Some(Context::Refactoring);
            }
        }
        if let Some(kws) = self.config.context_keywords("building") {
            if self.matches_any(text_lower, kws) {
                return Some(Context::Building);
            }
        }
        if let Some(kws) = self.config.context_keywords("learning") {
            if self.matches_any(text_lower, kws) {
                return Some(Context::Learning);
            }
        }
        None
    }

    /// Detects the sentiment: keywords against the lowered text, patterns
    /// against the original, tiers in strict priority order.
    pub fn detect_sentiment(&self, original: &str, text_lower: &str) -> (r: Sentiment)
        requires
            text_lower@ == lower_of(original@),
        ensures
            r == spec_detect_sentiment(self.config, original@),
    {
        if let Some(sc) = self.config.sentiment_config("frustrated") {
            if self.matches_any(text_lower, &sc.keywords) {
                return Sentiment::Frustrated;
            }
            if Self::matches_any_pattern(original, &sc.patterns) {
                return Sentiment::Frustrated;
            }
        }
        if let Some(sc) = self.config.sentiment_config("confused") {
            if self.matches_any(text_lower, &sc.keywords) {
                return Sentiment::Confused;
            }
            if Self::matches_any_pattern(original, &sc.patterns) {
                return Sentiment::Confused;
            }
        }
        if let Some(sc) = self.config.sentiment_config("happy") {
            if self.matches_any(text_lower, &sc.keywords) {
                return Sentiment::Happy;
            }
            if Self::matches_any_pattern(original, &sc.patterns) {
                return Sentiment::Happy;
            }
        }
        Sentiment::Neutral
    }

    /// Analyzes one message: lowercases it once, detects context against
    /// the lowered text and sentiment against both forms, and carries the
    /// original text along.
    pub fn analyze(&self, text: &str) -> (r: AnalysisResult)
        ensures
            r.context == spec_detect_context(self.config, lower_of(text@)),
            r.sentiment == spec_detect_sentiment(self.config, text@),
            r.message_text matches Some(t) && t@ == text@,
    {
        let text_lower = lowercase(text);
        let context = self.detect_context(text_lower.as_str());
        let sentiment = self.detect_sentiment(text, text_lower.as_str());
        AnalysisResult { context, sentiment, message_text: Some(text.to_owned()) }
    }
}

} // verus!
