//! Verified watch-set logic: deriving a filesystem-safe slug from a project
//! path, the authoritative set of watched slugs, filtering candidate log
//! paths, and the once-only bookkeeping around watching the log root.

use vstd::prelude::*;
use vstd::string::*;
use crate::text::{str_eq, contains_substr, has_substr};

verus! {

/// The slug of a path: '/' becomes '-', '.' is dropped, all else is kept.
pub open spec fn slug_of(s: Seq<char>) -> Seq<char>
    decreases s.len(),
{
    if s.len() == 0 {
        Seq::empty()
    } else {
        let rest = slug_of(s.drop_last());
        if s.last() == '/' {
            rest.push('-')
        } else if s.last() == '.' {
            rest
        } else {
            rest.push(s.last())
        }
    }
}

/// Derives the filesystem-safe identifier under which a project's log
/// directory is named.
pub fn path_to_slug(path: &str) -> (r: String)
    ensures
        r@ == slug_of(path@),
{
    let n = path.unicode_len();
    let mut out = String::new();
    let mut i: usize = 0;
    proof {
        assert(path@.subrange(0, 0) =~= Seq::<char>::empty());
    }
    while i < n
        invariant
            i <= n,
            n == path@.len(),
            out@ == slug_of(path@.subrange(0, i as int)),
        decreases n - i,
    {
        let c = path.get_char(i);
        proof {
            assert(path@.subrange(0, i + 1).drop_last() =~= path@.subrange(0, i as int));
            assert(path@.subrange(0, i + 1).last() == path@[i as int]);
        }
        if c == '/' {
            proof {
                reveal_strlit("-");
            }
            out.append("-");
            proof {
                assert(out@ =~= slug_of(path@.subrange(0, i + 1)));
            }
        } else if c == '.' {
        } else {
            let piece = path.substring_char(i, i + 1);
            out.append(piece);
            proof {
                assert(out@ =~= slug_of(path@.subrange(0, i + 1)));
            }
        }
        i += 1;
    }
    proof {
        assert(path@.subrange(0, n as int) =~= path@);
    }
    out
}

/// Index of the last '/' in `s`, or -1 if there is none.
pub open spec fn last_slash(s: Seq<char>) -> int
    decreases s.len(),
{
    if s.len() == 0 {
        -1
    } else if s.last() == '/' {
        s.len() - 1
    } else {
        last_slash(s.drop_last())
    }
}

proof fn lemma_last_slash_at(s: Seq<char>, j: int)
    requires
        -1 <= j < s.len(),
        j >= 0 ==> s[j] == '/',
        forall|x: int| j < x < s.len() ==> s[x] != '/',
    ensures
        last_slash(s) == j,
    decreases s.len(),
{
    if s.len() > 0 && s.last() != '/' {
        lemma_last_slash_at(s.drop_last(), j);
    }
}

/// `s` ends with `suffix`.
pub open spec fn ends_with(s: Seq<char>, suffix: Seq<char>) -> bool {
    s.len() >= suffix.len() && s.subrange(s.len() - suffix.len(), s.len() as int) == suffix
}

/// The project that owns a candidate log path: the name of the path's parent
/// directory, provided the path carries the log extension and does not lie
/// under a nested-agent subdirectory.
pub open spec fn spec_candidate(path: Seq<char>) -> Option<Seq<char>> {
    if !ends_with(path, ".jsonl"@) || has_substr(path, "/subagents/"@) {
        None
    } else {
        let j = last_slash(path);
        if j < 0 {
            None
        } else {
            let parent = path.subrange(0, j);
            let j2 = last_slash(parent);
            let name = parent.subrange(j2 + 1, parent.len() as int);
            if name.len() == 0 {
                None
            } else {
                Some(name)
            }
        }
    }
}

/// Resolves the owning project of a modified file path, or `None` when the
/// path is no candidate (wrong extension, nested-agent file, or no parent
/// directory name to read).
pub fn candidate_project(path: &str) -> (r: Option<String>)
    ensures
        match r {
            Some(p) => spec_candidate(path@) == Some(p@),
            None => spec_candidate(path@) is None,
        },
{
    let n = path.unicode_len();
    let ext = ".jsonl";
    let elen = ext.unicode_len();
    if n < elen {
        return None;
    }
    if !str_eq(path.substring_char(n - elen, n), ext) {
        return None;
    }
    if contains_substr(path, "/subagents/") {
        return None;
    }
    let mut j: usize = n;
    while j > 0 && path.get_char(j - 1) != '/'
        invariant
            j <= n,
            n == path@.len(),
            forall|x: int| j <= x < n ==> path@[x] != '/',
        decreases j,
    {
        j -= 1;
    }
    if j == 0 {
        proof {
            lemma_last_slash_at(path@, -1);
        }
        return None;
    }
    let parent_end = j - 1;
    proof {
        lemma_last_slash_at(path@, parent_end as int);
    }
    let mut j2: usize = parent_end;
    while j2 > 0 && path.get_char(j2 - 1) != '/'
        invariant
            j2 <= parent_end,
            parent_end < n == path@.len(),
            forall|x: int| j2 <= x < parent_end ==> path@[x] != '/',
        decreases j2,
    {
        j2 -= 1;
    }
    proof {
        let parent = path@.subrange(0, parent_end as int);
        if j2 == 0 {
            lemma_last_slash_at(parent, -1);
        } else {
            assert(parent[j2 - 1] == path@[j2 - 1]);
            lemma_last_slash_at(parent, j2 - 1);
        }
        assert(parent.subrange(j2 as int, parent.len() as int) =~= path@.subrange(
            j2 as int,
            parent_end as int,
        ));
    }
    if j2 == parent_end {
        return None;
    }
    let name = path.substring_char(j2, parent_end).to_owned();
    Some(name)
}

/// What the caller should do about the log root directory on this sync.
pub enum RootWatchAction {
    /// The root is already being watched: nothing to do.
    AlreadyWatched,
    /// The root exists and is not watched yet: start a recursive watch,
    /// then report back with `mark_root_watched`.
    StartWatch,
    /// The root is missing and has not been reported yet: log it once.
    LogMissing,
    /// The root is still missing and was already reported: stay quiet.
    SkipQuietly,
}

/// The authoritative set of watched project slugs, replaced wholesale on
/// each sync, plus the once-only bookkeeping for the log root watch.
pub struct WatchSet {
    slugs: Vec<String>,
    root_watched: bool,
    logged_missing_root: bool,
}

impl View for WatchSet {
    type V = Set<Seq<char>>;

    closed spec fn view(&self) -> Set<Seq<char>> {
        self.slugs.deep_view().to_set()
    }
}

impl WatchSet {
    pub closed spec fn spec_root_watched(self) -> bool {
        self.root_watched
    }

    pub closed spec fn spec_logged_missing_root(self) -> bool {
        self.logged_missing_root
    }

    pub fn new() -> (r: Self)
        ensures
            r@ == Set::<Seq<char>>::empty(),
            !r.spec_root_watched(),
            !r.spec_logged_missing_root(),
    {
        let r = WatchSet { slugs: Vec::new(), root_watched: false, logged_missing_root: false };
        proof {
            assert(r.slugs.deep_view() =~= Seq::<Seq<char>>::empty());
            assert(r@ =~= Set::<Seq<char>>::empty());
        }
        r
    }

    /// Recomputes the slug set from the given project paths and replaces the
    /// previous set with it: membership is exactly the slugs of `paths`.
    pub fn sync(&mut self, paths: &Vec<String>)
        ensures
            final(self)@ == Set::new(
                |s: Seq<char>| exists|i: int| 0 <= i < paths@.len() && s == slug_of(paths@[i]@),
            ),
            final(self).spec_root_watched() == old(self).spec_root_watched(),
            final(self).spec_logged_missing_root() == old(self).spec_logged_missing_root(),
    {
        let mut slugs: Vec<String> = Vec::new();
        let n = paths.len();
        let mut i: usize = 0;
        while i < n
            invariant
                i <= n,
                n == paths@.len(),
                slugs.deep_view().len() == i,
                forall|j: int| 0 <= j < i ==> slugs.deep_view()[j] == slug_of(paths@[j]@),
            decreases n - i,
        {
            let ghost prev = slugs.deep_view();
            let s = path_to_slug(paths[i].as_str());
            slugs.push(s);
            proof {
                assert(slugs.deep_view() =~= prev.push(s@));
            }
            i += 1;
        }
        self.slugs = slugs;
        proof {
            let target = Set::new(
                |s: Seq<char>| exists|i: int| 0 <= i < paths@.len() && s == slug_of(paths@[i]@),
            );
            let dv = self.slugs.deep_view();
            assert forall|s: Seq<char>| dv.to_set().contains(s) implies target.contains(s) by {
                let j = choose|j: int| 0 <= j < dv.len() && dv[j] == s;
                assert(s == slug_of(paths@[j]@));
            }
            assert forall|s: Seq<char>| target.contains(s) implies dv.to_set().contains(s) by {
                let j = choose|j: int| 0 <= j < paths@.len() && s == slug_of(paths@[j]@);
                assert(dv[j] == s);
            }
            assert(final(self)@ =~= target);
        }
    }

    /// Whether the project slug is in the current watch set.
    pub fn is_project_watched(&self, project: &str) -> (r: bool)
        ensures
            r == self@.contains(project@),
    {
        let n = self.slugs.len();
        let mut i: usize = 0;
        while i < n
            invariant
                i <= n,
                n == self.slugs@.len(),
                forall|j: int| 0 <= j < i ==> self.slugs.deep_view()[j] != project@,
            decreases n - i,
        {
            if str_eq(self.slugs[i].as_str(), project) {
                proof {
                    assert(self.slugs.deep_view()[i as int] == project@);
                }
                return true;
            }
            i += 1;
        }
        proof {
            if self@.contains(project@) {
                let j = choose|j: int|
                    0 <= j < self.slugs.deep_view().len() && self.slugs.deep_view()[j] == project@;
            }
        }
        false
    }

    /// Decides what to do about the log root on this sync cycle: watch it
    /// lazily once it exists, log its absence exactly once, and otherwise
    /// stay quiet. Watching itself is the caller's I/O; the caller reports
    /// success through `mark_root_watched`.
    pub fn root_watch_step(&mut self, root_exists: bool) -> (a: RootWatchAction)
        ensures
            final(self)@ == old(self)@,
            final(self).spec_root_watched() == old(self).spec_root_watched(),
            a is AlreadyWatched <==> old(self).spec_root_watched(),
            a is StartWatch <==> (!old(self).spec_root_watched() && root_exists),
            a is LogMissing <==> (!old(self).spec_root_watched() && !root_exists && !old(
                self,
            ).spec_logged_missing_root()),
            a is SkipQuietly <==> (!old(self).spec_root_watched() && !root_exists && old(
                self,
            ).spec_logged_missing_root()),
            final(self).spec_logged_missing_root() == (old(self).spec_logged_missing_root() || (
            !old(self).spec_root_watched() && !root_exists)),
    {
        if self.root_watched {
            RootWatchAction::AlreadyWatched
        } else if root_exists {
            RootWatchAction::StartWatch
        } else if !self.logged_missing_root {
            self.logged_missing_root = true;
            RootWatchAction::LogMissing
        } else {
            RootWatchAction::SkipQuietly
        }
    }

    /// Records that the caller established the root watch.
    pub fn mark_root_watched(&mut self)
        ensures
            final(self)@ == old(self)@,
            final(self).spec_root_watched(),
            final(self).spec_logged_missing_root() == old(self).spec_logged_missing_root(),
    {
        self.root_watched = true;
    }
}

} // verus!
