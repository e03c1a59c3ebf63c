//! Keyword and comment tables for the personality engine. The tables are
//! plain key-addressed lists; reading them from disk is the embedding
//! application's task. A built-in default table set is provided.

use vstd::prelude::*;
use vstd::string::*;
use crate::text::str_eq;

verus! {

/// Keywords that signal one conversation context.
pub struct ContextKeywords {
    pub keywords: Vec<String>,
}

/// Keywords (matched case-insensitively) and literal patterns (matched
/// case-sensitively) that signal one sentiment tier.
pub struct SentimentKeywords {
    pub keywords: Vec<String>,
    pub patterns: Vec<String>,
}

/// The keyword tables: context categories and sentiment tiers by key.
pub struct KeywordsConfig {
    pub contexts: Vec<(String, ContextKeywords)>,
    pub sentiment: Vec<(String, SentimentKeywords)>,
}

/// One pool of comments to draw from.
pub struct CommentPool {
    pub pool: Vec<String>,
}

/// The comment tables: context-keyed pools, milestone-keyed pools, and the
/// fallback pool.
pub struct CommentsConfig {
    pub comments: Vec<(String, CommentPool)>,
    pub milestones: Vec<(String, CommentPool)>,
    pub fallback: CommentPool,
}

/// Combined personality configuration.
pub struct PersonalityConfig {
    pub keywords: KeywordsConfig,
    pub comments: CommentsConfig,
}

/// Index of the first entry whose key reads `key`, if any.
pub open spec fn first_match<T>(s: Seq<(String, T)>, key: Seq<char>) -> Option<int>
    decreases s.len(),
{
    if s.len() == 0 {
        None
    } else if s[0].0@ == key {
        Some(0int)
    } else {
        match first_match(s.drop_first(), key) {
            Some(i) => Some(i + 1),
            None => None,
        }
    }
}

pub proof fn lemma_first_match_some<T>(s: Seq<(String, T)>, key: Seq<char>, i: int)
    requires
        0 <= i < s.len(),
        s[i].0@ == key,
        forall|j: int| 0 <= j < i ==> s[j].0@ != key,
    ensures
        first_match(s, key) == Some(i),
    decreases s.len(),
{
    if i > 0 {
        assert(forall|j: int| 0 <= j < i - 1 ==> s.drop_first()[j].0@ != key);
        assert(s.drop_first()[i - 1].0@ == key);
        lemma_first_match_some(s.drop_first(), key, i - 1);
    }
}

pub proof fn lemma_first_match_none<T>(s: Seq<(String, T)>, key: Seq<char>)
    requires
        forall|j: int| 0 <= j < s.len() ==> s[j].0@ != key,
    ensures
        first_match(s, key) is None,
    decreases s.len(),
{
    if s.len() > 0 {
        assert(forall|j: int| 0 <= j < s.drop_first().len() ==> s.drop_first()[j].0@ != key);
        lemma_first_match_none(s.drop_first(), key);
    }
}

/// Linear search for `key` among the entries' keys, first match wins.
fn find_key<T>(s: &Vec<(String, T)>, key: &str) -> (r: Option<usize>)
    ensures
        match r {
            Some(i) => i < s@.len() && s@[i as int].0@ == key@ && first_match(s@, key@) == Some(
                i as int,
            ),
            None => first_match(s@, key@) is None,
        },
{
    let n = s.len();
    let mut i: usize = 0;
    while i < n
        invariant
            i <= n,
            n == s@.len(),
            forall|j: int| 0 <= j < i ==> s@[j].0@ != key@,
        decreases n - i,
    {
        if str_eq(s[i].0.as_str(), key) {
            proof {
                lemma_first_match_some(s@, key@, i as int);
            }
            return Some(i);
        }
        i += 1;
    }
    proof {
        lemma_first_match_none(s@, key@);
    }
    None
}

/// Copies a list of strings, keeping every element.
fn clone_strings(v: &Vec<String>) -> (r: Vec<String>)
    ensures
        r@ == v@,
{
    let n = v.len();
    let mut out: Vec<String> = Vec::new();
    let mut i: usize = 0;
    while i < n
        invariant
            i <= n,
            n == v@.len(),
            out@.len() == i,
            forall|j: int| 0 <= j < i ==> out@[j] == v@[j],
        decreases n - i,
    {
        out.push(v[i].clone());
        i += 1;
    }
    proof {
        assert(out@ =~= v@);
    }
    out
}

impl PersonalityConfig {
    /// The keyword list of one context category.
    pub open spec fn spec_context_keywords(self, key: Seq<char>) -> Option<Seq<Seq<char>>> {
        match first_match(self.keywords.contexts@, key) {
            Some(i) => Some(self.keywords.contexts@[i].1.keywords.deep_view()),
            None => None,
        }
    }

    /// The keyword and pattern lists of one sentiment tier.
    pub open spec fn spec_sentiment_config(self, key: Seq<char>) -> Option<
        (Seq<Seq<char>>, Seq<Seq<char>>),
    > {
        match first_match(self.keywords.sentiment@, key) {
            Some(i) => Some(
                (
                    self.keywords.sentiment@[i].1.keywords.deep_view(),
                    self.keywords.sentiment@[i].1.patterns.deep_view(),
                ),
            ),
            None => None,
        }
    }

    /// The comment pool of one context or response key.
    pub open spec fn spec_context_comments(self, key: Seq<char>) -> Option<Seq<Seq<char>>> {
        match first_match(self.comments.comments@, key) {
            Some(i) => Some(self.comments.comments@[i].1.pool.deep_view()),
            None => None,
        }
    }

    /// The comment pool of one milestone key.
    pub open spec fn spec_milestone_comments(self, key: Seq<char>) -> Option<Seq<Seq<char>>> {
        match first_match(self.comments.milestones@, key) {
            Some(i) => Some(self.comments.milestones@[i].1.pool.deep_view()),
            None => None,
        }
    }

    /// The fallback comment pool.
    pub open spec fn spec_fallback_comments(self) -> Seq<Seq<char>> {
        self.comments.fallback.pool.deep_view()
    }

    /// Keywords configured for a context category.
    pub fn context_keywords(&self, context: &str) -> (r: Option<&Vec<String>>)
        ensures
            match r {
                Some(v) => self.spec_context_keywords(context@) == Some(v.deep_view()),
                None => self.spec_context_keywords(context@) is None,
            },
    {
        match find_key(&self.keywords.contexts, context) {
            Some(i) => Some(&self.keywords.contexts[i].1.keywords),
            None => None,
        }
    }

    /// Keyword and pattern configuration for a sentiment tier.
    pub fn sentiment_config(&self, sentiment: &str) -> (r: Option<&SentimentKeywords>)
        ensures
            match r {
                Some(v) => self.spec_sentiment_config(sentiment@) == Some(
                    (v.keywords.deep_view(), v.patterns.deep_view()),
                ),
                None => self.spec_sentiment_config(sentiment@) is None,
            },
    {
        match find_key(&self.keywords.sentiment, sentiment) {
            Some(i) => Some(&self.keywords.sentiment[i].1),
            None => None,
        }
    }

    /// Comment pool for a context or response key.
    pub fn context_comments(&self, context: &str) -> (r: Option<&Vec<String>>)
        ensures
            match r {
                Some(v) => self.spec_context_comments(context@) == Some(v.deep_view()),
                None => self.spec_context_comments(context@) is None,
            },
    {
        match find_key(&self.comments.comments, context) {
            Some(i) => Some(&self.comments.comments[i].1.pool),
            None => None,
        }
    }

    /// Comment pool for a milestone key.
    pub fn milestone_comments(&self, milestone: &str) -> (r: Option<&Vec<String>>)
        ensures
            match r {
                Some(v) => self.spec_milestone_comments(milestone@) == Some(v.deep_view()),
                None => self.spec_milestone_comments(milestone@) is None,
            },
    {
        match find_key(&self.comments.milestones, milestone) {
            Some(i) => Some(&self.comments.milestones[i].1.pool),
            None => None,
        }
    }

    /// The fallback comment pool.
    pub fn fallback_comments(&self) -> (r: &Vec<String>)
        ensures
            r.deep_view() == self.spec_fallback_comments(),
    {
        &self.comments.fallback.pool
    }

    /// A faithful copy of the whole configuration.
    pub fn duplicate(&self) -> (r: Self)
        ensures
            config_equiv(*self, r),
    {
        let mut contexts: Vec<(String, ContextKeywords)> = Vec::new();
        let n1 = self.keywords.contexts.len();
        let mut i: usize = 0;
        while i < n1
            invariant
                i <= n1,
                n1 == self.keywords.contexts@.len(),
                contexts@.len() == i,
                forall|j: int|
                    0 <= j < i ==> #[trigger] contexts@[j].0 == self.keywords.contexts@[j].0
                        && contexts@[j].1.keywords@ == self.keywords.contexts@[j].1.keywords@,
            decreases n1 - i,
        {
            let entry = &self.keywords.contexts[i];
            contexts.push((entry.0.clone(), ContextKeywords { keywords: clone_strings(&entry.1.keywords) }));
            i += 1;
        }
        let mut sentiment: Vec<(String, SentimentKeywords)> = Vec::new();
        let n2 = self.keywords.sentiment.len();
        let mut i2: usize = 0;
        while i2 < n2
            invariant
                i2 <= n2,
                n2 == self.keywords.sentiment@.len(),
                sentiment@.len() == i2,
                forall|j: int|
                    0 <= j < i2 ==> #[trigger] sentiment@[j].0 == self.keywords.sentiment@[j].0
                        && sentiment@[j].1.keywords@ == self.keywords.sentiment@[j].1.keywords@
                        && sentiment@[j].1.patterns@ == self.keywords.sentiment@[j].1.patterns@,
            decreases n2 - i2,
        {
            let entry = &self.keywords.sentiment[i2];
            let copied = SentimentKeywords {
                keywords: clone_strings(&entry.1.keywords),
                patterns: clone_strings(&entry.1.patterns),
            };
            let key_copy = entry.0.clone();
            sentiment.push((key_copy, copied));
            proof {
                assert(sentiment@[i2 as int].0 == self.keywords.sentiment@[i2 as int].0);
                assert(sentiment@[i2 as int].1.keywords@ == self.keywords.sentiment@[
                    i2 as int].1.keywords@);
                assert(sentiment@[i2 as int].1.patterns@ == self.keywords.sentiment@[
                    i2 as int].1.patterns@);
            }
            i2 += 1;
        }
        let comments = clone_pools(&self.comments.comments);
        let milestones = clone_pools(&self.comments.milestones);
        let fallback = CommentPool { pool: clone_strings(&self.comments.fallback.pool) };
        let r = PersonalityConfig {
            keywords: KeywordsConfig { contexts, sentiment },
            comments: CommentsConfig { comments, milestones, fallback },
        };
        r
    }
}

/// The two keyed pool lists hold the same keys and the same pools.
pub open spec fn pools_equiv(a: Seq<(String, CommentPool)>, b: Seq<(String, CommentPool)>) -> bool {
    a.len() == b.len() && forall|j: int|
        0 <= j < a.len() ==> #[trigger] b[j].0 == a[j].0 && b[j].1.pool@ == a[j].1.pool@
}

/// The two configurations hold the same keys, keywords, patterns and pools.
pub open spec fn config_equiv(a: PersonalityConfig, b: PersonalityConfig) -> bool {
    &&& a.keywords.contexts@.len() == b.keywords.contexts@.len()
    &&& forall|j: int|
        0 <= j < a.keywords.contexts@.len() ==> #[trigger] b.keywords.contexts@[j].0
            == a.keywords.contexts@[j].0 && b.keywords.contexts@[j].1.keywords@
            == a.keywords.contexts@[j].1.keywords@
    &&& a.keywords.sentiment@.len() == b.keywords.sentiment@.len()
    &&& forall|j: int|
        0 <= j < a.keywords.sentiment@.len() ==> #[trigger] b.keywords.sentiment@[j].0
            == a.keywords.sentiment@[j].0 && b.keywords.sentiment@[j].1.keywords@
            == a.keywords.sentiment@[j].1.keywords@ && b.keywords.sentiment@[j].1.patterns@
            == a.keywords.sentiment@[j].1.patterns@
    &&& pools_equiv(a.comments.comments@, b.comments.comments@)
    &&& pools_equiv(a.comments.milestones@, b.comments.milestones@)
    &&& a.comments.fallback.pool@ == b.comments.fallback.pool@
}

/// Copies a list of keyed comment pools, keeping every entry.
fn clone_pools(v: &Vec<(String, CommentPool)>) -> (r: Vec<(String, CommentPool)>)
    ensures
        pools_equiv(v@, r@),
{
    let n = v.len();
    let mut out: Vec<(String, CommentPool)> = Vec::new();
    let mut i: usize = 0;
    while i < n
        invariant
            i <= n,
            n == v@.len(),
            out@.len() == i,
            forall|j: int|
                0 <= j < i ==> out@[j].0 == v@[j].0 && out@[j].1.pool@ == v@[j].1.pool@,
        decreases n - i,
    {
        let entry = &v[i];
        out.push((entry.0.clone(), CommentPool { pool: clone_strings(&entry.1.pool) }));
        i += 1;
    }
    out
}

/// Builds a `Vec<String>` from string slices, keeping count and content.
fn strings(items: &[&str]) -> (r: Vec<String>)
    ensures
        r@.len() == items@.len(),
{
    let n = items.len();
    let mut out: Vec<String> = Vec::new();
    let mut i: usize = 0;
    while i < n
        invariant
            i <= n,
            n == items@.len(),
            out@.len() == i,
        decreases n - i,
    {
        out.push(items[i].to_owned());
        i += 1;
    }
    out
}

impl PersonalityConfig {
    /// Every milestone's comment pool exists and is not empty, so
    /// milestones always have something to say.
    pub open spec fn milestone_pools_ready(self) -> bool {
        forall|key: Seq<char>|
            crate::personality::decider::is_milestone_key(key) ==> ((#[trigger] self.spec_milestone_comments(key)) matches Some(p) && p.len() > 0)
    }

    /// The built-in default tables: bilingual keyword lists for contexts and
    /// sentiment tiers, and small comment pools for every key the engine
    /// draws from.
    pub fn builtin() -> (r: Self)
        ensures
            r.milestone_pools_ready(),
    {
        let mut contexts: Vec<(String, ContextKeywords)> = Vec::new();
        contexts.push(
            (
                String::from_str("debugging"),
                ContextKeywords {
                    keywords: strings(
                        &["error", "bug", "fix", "debug", "crash", "broken", "fel", "krasch"],
                    ),
                },
            ),
        );
        contexts.push(
            (
                String::from_str("testing"),
                ContextKeywords { keywords: strings(&["test", "coverage", "assert", "prova"]) },
            ),
        );
        contexts.push(
            (
                String::from_str("deploying"),
                ContextKeywords { keywords: strings(&["deploy", "release", "ship", "publish"]) },
            ),
        );
        contexts.push(
            (
                String::from_str("refactoring"),
                ContextKeywords {
                    keywords: strings(&["refactor", "clean up", "restructure", "simplify"]),
                },
            ),
        );
        contexts.push(
            (
                String::from_str("building"),
                ContextKeywords {
                    keywords: strings(
                        &["create", "implement", "build", "feature", "skapa", "bygga"],
                    ),
                },
            ),
        );
        contexts.push(
            (
                String::from_str("learning"),
                ContextKeywords {
                    keywords: strings(&["learn", "explain", "how does", "what is", "why does"]),
                },
            ),
        );
        let mut sentiment: Vec<(String, SentimentKeywords)> = Vec::new();
        sentiment.push(
            (
                String::from_str("frustrated"),
                SentimentKeywords {
                    keywords: strings(
                        &[
                            "frustrat",
                            "annoying",
                            "doesn't work",
                            "not working",
                            "stupid",
                            "hate",
                            "fan",
                            "fungerar inte",
                        ],
                    ),
                    patterns: strings(&["???", "!!!", "WTF", "FFS"]),
                },
            ),
        );
        sentiment.push(
            (
                String::from_str("confused"),
                SentimentKeywords {
                    keywords: strings(
                        &["confused", "don't understand", "unclear", "makes no sense", "weird"],
                    ),
                    patterns: strings(&["?!"]),
                },
            ),
        );
        sentiment.push(
            (
                String::from_str("happy"),
                SentimentKeywords {
                    keywords: strings(
                        &[
                            "thanks",
                            "thank you",
                            "perfect",
                            "works",
                            "great",
                            "awesome",
                            "nice",
                            "tack",
                            "funkar",
                        ],
                    ),
                    patterns: strings(&[":)", ":D"]),
                },
            ),
        );
        let mut comments: Vec<(String, CommentPool)> = Vec::new();
        comments.push(
            (
                String::from_str("debugging"),
                CommentPool {
                    pool: strings(&["Bug hunting time!", "We will squash this one.", "On the trail..."]),
                },
            ),
        );
        comments.push(
            (
                String::from_str("building"),
                CommentPool {
                    pool: strings(&["Building something new!", "Brick by brick.", "Let's make it real."]),
                },
            ),
        );
        comments.push(
            (
                String::from_str("testing"),
                CommentPool { pool: strings(&["Trust, but verify.", "Green lights ahead?"]) },
            ),
        );
        comments.push(
            (
                String::from_str("learning"),
                CommentPool { pool: strings(&["Curiosity pays off.", "New things to learn!"]) },
            ),
        );
        comments.push(
            (
                String::from_str("refactoring"),
                CommentPool { pool: strings(&["Tidy code, tidy mind.", "Out with the cruft."]) },
            ),
        );
        comments.push(
            (
                String::from_str("deploying"),
                CommentPool { pool: strings(&["To production and beyond!", "Shipping it!"]) },
            ),
        );
        comments.push(
            (
                String::from_str("frustrated_response"),
                CommentPool {
                    pool: strings(
                        &["Deep breaths, we got this.", "Rough patch, it will pass.", "Hang in there!"],
                    ),
                },
            ),
        );
        comments.push(
            (
                String::from_str("confused_response"),
                CommentPool {
                    pool: strings(&["Let's untangle this together.", "One step at a time."]),
                },
            ),
        );
        comments.push(
            (
                String::from_str("happy_response"),
                CommentPool { pool: strings(&["Love to see it!", "That went well!"]) },
            ),
        );
        let mut milestones: Vec<(String, CommentPool)> = Vec::new();
        milestones.push(
            (
                String::from_str("session_start"),
                CommentPool {
                    pool: strings(&["Hello again!", "Ready when you are.", "A fresh session!"]),
                },
            ),
        );
        milestones.push(
            (
                String::from_str("first_error"),
                CommentPool {
                    pool: strings(&["First stumble, no worries.", "An error! The plot thickens."]),
                },
            ),
        );
        milestones.push(
            (
                String::from_str("tests_pass"),
                CommentPool { pool: strings(&["All green!", "Tests are happy."]) },
            ),
        );
        milestones.push(
            (
                String::from_str("session_end"),
                CommentPool { pool: strings(&["Good run!", "That's a wrap."]) },
            ),
        );
        milestones.push(
            (
                String::from_str("idle"),
                CommentPool { pool: strings(&["Quiet around here...", "Just stretching."]) },
            ),
        );
        let fallback = CommentPool {
            pool: strings(&["Still here, still watching.", "Carry on!", "Nice pace."]),
        };
        let r = PersonalityConfig {
            keywords: KeywordsConfig { contexts, sentiment },
            comments: CommentsConfig { comments, milestones, fallback },
        };
        proof {
            let ms = r.comments.milestones@;
            assert(ms.len() == 5);
            assert(ms[0].0@ == "session_start"@ && ms[0].1.pool@.len() == 3);
            assert(ms[1].0@ == "first_error"@ && ms[1].1.pool@.len() == 2);
            assert(ms[2].0@ == "tests_pass"@ && ms[2].1.pool@.len() == 2);
            assert(ms[3].0@ == "session_end"@ && ms[3].1.pool@.len() == 2);
            assert(ms[4].0@ == "idle"@ && ms[4].1.pool@.len() == 2);
            reveal_strlit("session_start");
            reveal_strlit("first_error");
            reveal_strlit("tests_pass");
            reveal_strlit("session_end");
            reveal_strlit("idle");
            assert("first_error"@[0] != "session_end"@[0]);
            assert("first_error"@ != "session_end"@);
            lemma_first_match_some(ms, "session_start"@, 0);
            lemma_first_match_some(ms, "first_error"@, 1);
            lemma_first_match_some(ms, "tests_pass"@, 2);
            lemma_first_match_some(ms, "session_end"@, 3);
            lemma_first_match_some(ms, "idle"@, 4);
            assert forall|key: Seq<char>| crate::personality::decider::is_milestone_key(key)
                implies ((#[trigger] r.spec_milestone_comments(key)) matches Some(p) && p.len()
                > 0) by {
                let m = choose|m: crate::personality::types::MilestoneType|
                    crate::personality::decider::milestone_key(m) == key;
                match m {
                    crate::personality::types::MilestoneType::SessionStart => {
                        assert(r.spec_milestone_comments(key) == Some(ms[0].1.pool.deep_view()));
                    },
                    crate::personality::types::MilestoneType::FirstError => {
                        assert(r.spec_milestone_comments(key) == Some(ms[1].1.pool.deep_view()));
                    },
                    crate::personality::types::MilestoneType::TestsPass => {
                        assert(r.spec_milestone_comments(key) == Some(ms[2].1.pool.deep_view()));
                    },
                    crate::personality::types::MilestoneType::SessionEnd => {
                        assert(r.spec_milestone_comments(key) == Some(ms[3].1.pool.deep_view()));
                    },
                    crate::personality::types::MilestoneType::Idle => {
                        assert(r.spec_milestone_comments(key) == Some(ms[4].1.pool.deep_view()));
                    },
                }
            }
        }
        r
    }
}

} // verus!
