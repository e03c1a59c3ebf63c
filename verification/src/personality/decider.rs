//! Comment trigger logic and comment selection: three priority tiers
//! (milestone, emotional peak, random), then probability gates and
//! pool-based uniform selection.

use vstd::prelude::*;
use vstd::string::*;
use crate::events::{ClaudeEvent, EventV};
use crate::personality::config::PersonalityConfig;
use crate::personality::types::{AnalysisResult, Context, MilestoneType, Sentiment, Trigger};
use crate::rng::{chance, pick_index};
use crate::text::str_eq;

verus! {

/// Per-session bookkeeping for milestone detection, reset on session start.
pub struct SessionState {
    /// Whether an error was already seen this session.
    pub seen_error: bool,
    /// Whether tests failed earlier this session.
    pub tests_failed: bool,
    /// How often the same error repeated in a row (for stuck detection).
    pub error_count: u32,
    /// The last error message (for stuck detection).
    pub last_error: Option<String>,
}

/// The mathematical shape of a `SessionState`.
pub struct SessionV {
    pub seen_error: bool,
    pub tests_failed: bool,
    pub error_count: u32,
    pub last_error: Option<Seq<char>>,
}

impl View for SessionState {
    type V = SessionV;

    open spec fn view(&self) -> SessionV {
        SessionV {
            seen_error: self.seen_error,
            tests_failed: self.tests_failed,
            error_count: self.error_count,
            last_error: self.last_error.deep_view(),
        }
    }
}

/// The bookkeeping of a session in which nothing happened yet.
pub open spec fn fresh_session() -> SessionV {
    SessionV { seen_error: false, tests_failed: false, error_count: 0, last_error: None }
}

impl Default for SessionState {
    fn default() -> (r: Self)
        ensures
            r@ == fresh_session(),
    {
        SessionState { seen_error: false, tests_failed: false, error_count: 0, last_error: None }
    }
}

/// The milestone rule: how one event advances the session bookkeeping and
/// which milestone, if any, it fires. A session start resets the
/// bookkeeping and always fires; the first error of a session fires once; a
/// repeated identical error only advances the stuck counter (which
/// saturates); a differing error restarts the counter at one; a successful
/// stop fires the session end.
pub open spec fn milestone_step(s: SessionV, ev: EventV) -> (SessionV, Option<MilestoneType>) {
    match ev {
        EventV::SessionStart { .. } => (fresh_session(), Some(MilestoneType::SessionStart)),
        EventV::Error { message, .. } => {
            if !s.seen_error {
                (SessionV { seen_error: true, ..s }, Some(MilestoneType::FirstError))
            } else if s.last_error == Some(message) {
                (
                    SessionV {
                        error_count: if s.error_count < u32::MAX {
                            (s.error_count + 1) as u32
                        } else {
                            s.error_count
                        },
                        ..s
                    },
                    None,
                )
            } else {
                (SessionV { error_count: 1, last_error: Some(message), ..s }, None)
            }
        },
        EventV::Stop { success, .. } => if success {
            (s, Some(MilestoneType::SessionEnd))
        } else {
            (s, None)
        },
        _ => (s, None),
    }
}

/// Milestone sequencing: from a fresh session, three consecutive errors
/// with the same message fire FirstError on the first and nothing on the
/// second and third, and leave the stuck counter at exactly two.
pub proof fn lemma_repeated_error_sequence(project: Seq<char>, message: Seq<char>)
    ensures
        ({
            let ev = EventV::Error { project, message };
            let (s1, m1) = milestone_step(fresh_session(), ev);
            let (s2, m2) = milestone_step(s1, ev);
            let (s3, m3) = milestone_step(s2, ev);
            m1 == Some(MilestoneType::FirstError) && m2 is None && m3 is None && s3.error_count
                == 2
        }),
{
}

/// The key a milestone's comment pool is stored under.
pub open spec fn milestone_key(m: MilestoneType) -> Seq<char> {
    match m {
        MilestoneType::SessionStart => "session_start"@,
        MilestoneType::FirstError => "first_error"@,
        MilestoneType::TestsPass => "tests_pass"@,
        MilestoneType::SessionEnd => "session_end"@,
        MilestoneType::Idle => "idle"@,
    }
}

/// Whether `key` names a milestone comment pool.
pub open spec fn is_milestone_key(key: Seq<char>) -> bool {
    exists|m: MilestoneType| milestone_key(m) == key
}

/// The key a sentiment's response pool is stored under. Neutral never
/// reaches a pool.
pub open spec fn sentiment_key(s: Sentiment) -> Seq<char> {
    match s {
        Sentiment::Frustrated => "frustrated_response"@,
        Sentiment::Confused => "confused_response"@,
        Sentiment::Happy => "happy_response"@,
        Sentiment::Neutral => "neutral_response"@,
    }
}

/// The key a context's comment pool is stored under.
pub open spec fn context_key(c: Context) -> Seq<char> {
    match c {
        Context::Debugging => "debugging"@,
        Context::Building => "building"@,
        Context::Testing => "testing"@,
        Context::Learning => "learning"@,
        Context::Refactoring => "refactoring"@,
        Context::Deploying => "deploying"@,
    }
}

/// The pool a trigger draws from: milestone pools by milestone key,
/// emotional peaks from the sentiment's response pool, random comments from
/// the detected context's pool or the fallback pool.
pub open spec fn spec_pool(cfg: PersonalityConfig, trigger: Trigger, context: Option<Context>) -> Option<
    Seq<Seq<char>>,
> {
    match trigger {
        Trigger::Milestone(m) => cfg.spec_milestone_comments(milestone_key(m)),
        Trigger::EmotionalPeak(s) => if s == Sentiment::Neutral {
            None
        } else {
            cfg.spec_context_comments(sentiment_key(s))
        },
        Trigger::Random => match context {
            Some(c) => cfg.spec_context_comments(context_key(c)),
            None => Some(cfg.spec_fallback_comments()),
        },
        Trigger::NoTrigger => None,
    }
}

/// Decides when and what to comment.
pub struct Decider {
    pub config: PersonalityConfig,
    pub session_state: SessionState,
}

impl Decider {
    /// A new decider over the given tables, with a fresh session.
    pub fn new(config: PersonalityConfig) -> (r: Self)
        ensures
            r.config == config,
            r.session_state@ == fresh_session(),
    {
        Decider { config, session_state: SessionState::default() }
    }

    /// Applies the milestone rule to one event.
    pub fn check_milestone(&mut self, event: &ClaudeEvent) -> (m: Option<MilestoneType>)
        ensures
            final(self).config == old(self).config,
            (final(self).session_state@, m) == milestone_step(old(self).session_state@, event@),
    {
        match event {
            ClaudeEvent::SessionStart { .. } => {
                self.session_state = SessionState::default();
                Some(MilestoneType::SessionStart)
            },
            ClaudeEvent::Error { message, .. } => {
                if !self.session_state.seen_error {
                    self.session_state.seen_error = true;
                    Some(MilestoneType::FirstError)
                } else {
                    let same = match &self.session_state.last_error {
                        Some(le) => str_eq(le.as_str(), message.as_str()),
                        None => false,
                    };
                    if same {
                        if self.session_state.error_count < u32::MAX {
                            self.session_state.error_count = self.session_state.error_count + 1;
                        }
                    } else {
                        self.session_state.error_count = 1;
                        self.session_state.last_error = Some(message.clone());
                    }
                    None
                }
            },
            ClaudeEvent::Stop { success, .. } => {
                if *success {
                    Some(MilestoneType::SessionEnd)
                } else {
                    None
                }
            },
            _ => None,
        }
    }

    /// Whether the analysis found a sentiment worth commenting on.
    pub fn is_emotional_peak(&self, analysis: &AnalysisResult) -> (r: bool)
        ensures
            r == (analysis.sentiment != Sentiment::Neutral),
    {
        match analysis.sentiment {
            Sentiment::Neutral => false,
            _ => true,
        }
    }

    /// The trigger for this event and analysis: milestones first, then
    /// emotional peaks, then a two-percent random gate, else nothing.
    pub fn determine_trigger(&mut self, event: &ClaudeEvent, analysis: &AnalysisResult) -> (t:
        Trigger)
        ensures
            final(self).config == old(self).config,
            ({
                let (s2, m) = milestone_step(old(self).session_state@, event@);
                final(self).session_state@ == s2 && (match m {
                    Some(mt) => t == Trigger::Milestone(mt),
                    None => if analysis.sentiment != Sentiment::Neutral {
                        t == Trigger::EmotionalPeak(analysis.sentiment)
                    } else {
                        t == Trigger::Random || t == Trigger::NoTrigger
                    },
                })
            }),
    {
        match self.check_milestone(event) {
            Some(m) => Trigger::Milestone(m),
            None => {
                if self.is_emotional_peak(analysis) {
                    Trigger::EmotionalPeak(analysis.sentiment)
                } else if chance(2, 100) {
                    Trigger::Random
                } else {
                    Trigger::NoTrigger
                }
            },
        }
    }

    /// Whether to comment: milestones always, random triggers always (their
    /// probability was already drawn), nothing never, emotional peaks with
    /// an eighty-percent chance.
    pub fn should_comment(&self, trigger: &Trigger) -> (r: bool)
        ensures
            trigger is Milestone ==> r,
            trigger is Random ==> r,
            trigger is NoTrigger ==> !r,
    {
        match trigger {
            Trigger::Milestone(_) => true,
            Trigger::EmotionalPeak(_) => chance(80, 100),
            Trigger::Random => true,
            Trigger::NoTrigger => false,
        }
    }

    /// Picks a uniformly random element, or nothing from an empty list.
    fn pick_random(&self, items: &Vec<String>) -> (r: Option<String>)
        ensures
            match r {
                Some(c) => items@.len() > 0 && items.deep_view().contains(c@),
                None => items@.len() == 0,
            },
    {
        if items.len() == 0 {
            None
        } else {
            let idx = pick_index(items.len());
            let c = items[idx].clone();
            proof {
                assert(items.deep_view()[idx as int] == c@);
            }
            Some(c)
        }
    }

    /// Selects a comment for the trigger: from the milestone's pool, the
    /// sentiment's response pool, or (for random triggers) the detected
    /// context's pool or the fallback pool. A comment comes out exactly
    /// when the pool exists and is not empty, and it is a member of it.
    pub fn select_comment(&self, trigger: &Trigger, analysis: &AnalysisResult) -> (r: Option<
        String,
    >)
        ensures
            ({
                let pool = spec_pool(self.config, *trigger, analysis.context);
                match r {
                    Some(c) => pool matches Some(p) && p.len() > 0 && p.contains(c@),
                    None => pool is None || pool->0.len() == 0,
                }
            }),
    {
        let pool: Option<&Vec<String>> = match trigger {
            Trigger::Milestone(m) => {
                let key = match m {
                    MilestoneType::SessionStart => "session_start",
                    MilestoneType::FirstError => "first_error",
                    MilestoneType::TestsPass => "tests_pass",
                    MilestoneType::SessionEnd => "session_end",
                    MilestoneType::Idle => "idle",
                };
                self.config.milestone_comments(key)
            },
            Trigger::EmotionalPeak(s) => {
                match s {
                    Sentiment::Frustrated => self.config.context_comments("frustrated_response"),
                    Sentiment::Confused => self.config.context_comments("confused_response"),
                    Sentiment::Happy => self.config.context_comments("happy_response"),
                    Sentiment::Neutral => {
                        return None;
                    },
                }
            },
            Trigger::Random => {
                match &analysis.context {
                    Some(c) => {
                        let key = match c {
                            Context::Debugging => "debugging",
                            Context::Building => "building",
                            Context::Testing => "testing",
                            Context::Learning => "learning",
                            Context::Refactoring => "refactoring",
                            Context::Deploying => "deploying",
                        };
                        self.config.context_comments(key)
                    },
                    None => Some(self.config.fallback_comments()),
                }
            },
            Trigger::NoTrigger => {
                return None;
            },
        };
        match pool {
            Some(p) => self.pick_random(p),
            None => None,
        }
    }
}

} // verus!
