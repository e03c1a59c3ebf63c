//! Verified per-file read state: last-consumed byte offset plus the pending
//! unterminated fragment, and a table of such states keyed by file path.

use vstd::prelude::*;
use vstd::string::*;
use crate::lines::{spec_lines, spec_pending, lemma_pending_no_newline, lemma_no_newline_no_lines};
use crate::text::str_eq;

verus! {

/// Read progress for one log file: how many bytes were consumed and the
/// trailing fragment that is not yet a complete line.
pub struct FileReadState {
    pub offset: u64,
    pub pending: String,
}

impl View for FileReadState {
    type V = (u64, Seq<char>);

    open spec fn view(&self) -> (u64, Seq<char>) {
        (self.offset, self.pending@)
    }
}

impl FileReadState {
    /// The pending fragment holds no newline: it is one unterminated tail.
    pub open spec fn wf(self) -> bool {
        !self.pending@.contains('\n')
    }

    pub fn new() -> (r: Self)
        ensures
            r.offset == 0,
            r.pending@ == Seq::<char>::empty(),
            r.wf(),
    {
        FileReadState { offset: 0, pending: String::new() }
    }

    /// Decides where the next read starts. A file now shorter than the
    /// stored offset was truncated or rotated: reading restarts at byte 0
    /// and the stale fragment is discarded; otherwise nothing changes.
    pub fn prepare_read(&mut self, file_len: u64) -> (start: u64)
        requires
            old(self).wf(),
        ensures
            final(self).wf(),
            file_len < old(self).offset ==> final(self).offset == 0 && final(self).pending@
                == Seq::<char>::empty(),
            file_len >= old(self).offset ==> *final(self) == *old(self),
            start == final(self).offset,
    {
        if file_len < self.offset {
            self.offset = 0;
            self.pending = String::new();
        }
        self.offset
    }

    /// Consumes the bytes read since the stored offset, decoded as `chunk`.
    /// The fragment carried from the previous read is prepended, the buffer
    /// is split into complete lines, and the new trailing fragment is kept.
    /// The offset advances by the raw byte count `chunk_bytes`.
    pub fn ingest(&mut self, chunk: &str, chunk_bytes: u64) -> (lines: Vec<String>)
        requires
            old(self).wf(),
            old(self).offset + chunk_bytes <= u64::MAX,
        ensures
            final(self).wf(),
            final(self).offset == old(self).offset + chunk_bytes,
            lines.deep_view() =~= spec_lines(old(self).pending@ + chunk@),
            final(self).pending@ == spec_pending(old(self).pending@ + chunk@),
    {
        let mut buf = self.pending.clone();
        buf.append(chunk);
        let (lines, tail) = crate::lines::split_complete_lines(buf);
        self.offset = self.offset + chunk_bytes;
        self.pending = tail;
        proof {
            lemma_pending_no_newline(old(self).pending@ + chunk@);
        }
        lines
    }
}

/// Replaying a notification that brings no new bytes yields no lines and
/// leaves the pending fragment as it was: processing is idempotent when
/// nothing lies beyond the stored offset.
pub proof fn lemma_empty_read_yields_nothing(p: Seq<char>)
    requires
        !p.contains('\n'),
    ensures
        spec_lines(p + Seq::<char>::empty()) =~= Seq::<Seq<char>>::empty(),
        spec_pending(p + Seq::<char>::empty()) == p,
{
    assert(p + Seq::<char>::empty() =~= p);
    lemma_no_newline_no_lines(p);
}

struct TableEntry {
    path: String,
    state: FileReadState,
}

/// Association of file paths to read states, modelled as a map from the
/// path's characters to an offset and pending fragment.
pub struct OffsetTable {
    entries: Vec<TableEntry>,
}

spec fn map_of(s: Seq<TableEntry>) -> Map<Seq<char>, (u64, Seq<char>)>
    decreases s.len(),
{
    if s.len() == 0 {
        Map::empty()
    } else {
        map_of(s.drop_last()).insert(s.last().path@, s.last().state@)
    }
}

spec fn distinct_paths(s: Seq<TableEntry>) -> bool {
    forall|i: int, j: int| 0 <= i < j < s.len() ==> s[i].path@ != s[j].path@
}

proof fn lemma_map_of_contains(s: Seq<TableEntry>, k: Seq<char>)
    ensures
        map_of(s).contains_key(k) <==> exists|i: int| 0 <= i < s.len() && s[i].path@ == k,
    decreases s.len(),
{
    if s.len() > 0 {
        lemma_map_of_contains(s.drop_last(), k);
        if s.last().path@ == k {
            assert(s[s.len() - 1].path@ == k);
        } else if map_of(s).contains_key(k) {
            let i = choose|i: int| 0 <= i < s.drop_last().len() && s.drop_last()[i].path@ == k;
            assert(s[i].path@ == k);
        } else if exists|i: int| 0 <= i < s.len() && s[i].path@ == k {
            let i = choose|i: int| 0 <= i < s.len() && s[i].path@ == k;
            assert(s.drop_last()[i].path@ == k);
        }
    }
}

proof fn lemma_map_of_index(s: Seq<TableEntry>, i: int)
    requires
        distinct_paths(s),
        0 <= i < s.len(),
    ensures
        map_of(s).contains_key(s[i].path@),
        map_of(s)[s[i].path@] == s[i].state@,
    decreases s.len(),
{
    if i == s.len() - 1 {
        assert(s[i] == s.last());
    } else {
        assert(distinct_paths(s.drop_last()));
        assert(s.drop_last()[i] == s[i]);
        lemma_map_of_index(s.drop_last(), i);
        assert(s[i].path@ != s.last().path@);
    }
}

proof fn lemma_map_of_update(s: Seq<TableEntry>, i: int, e: TableEntry)
    requires
        distinct_paths(s),
        0 <= i < s.len(),
        e.path@ == s[i].path@,
    ensures
        map_of(s.update(i, e)) == map_of(s).insert(e.path@, e.state@),
    decreases s.len(),
{
    let s2 = s.update(i, e);
    if i == s.len() - 1 {
        assert(s2.drop_last() =~= s.drop_last());
        assert(s2.last() == e);
        assert(map_of(s2) =~= map_of(s).insert(e.path@, e.state@));
    } else {
        assert(distinct_paths(s.drop_last()));
        assert(s.drop_last()[i] == s[i]);
        lemma_map_of_update(s.drop_last(), i, e);
        assert(s2.drop_last() =~= s.drop_last().update(i, e));
        assert(s2.last() == s.last());
        assert(s[i].path@ != s.last().path@);
        assert(map_of(s2) =~= map_of(s).insert(e.path@, e.state@));
    }
}

impl View for OffsetTable {
    type V = Map<Seq<char>, (u64, Seq<char>)>;

    closed spec fn view(&self) -> Map<Seq<char>, (u64, Seq<char>)> {
        map_of(self.entries@)
    }
}

impl OffsetTable {
    /// Paths are unique and every state is well formed.
    pub closed spec fn wf(self) -> bool {
        distinct_paths(self.entries@) && (forall|i: int|
            0 <= i < self.entries@.len() ==> self.entries@[i].state.wf())
    }

    /// The read state recorded for `path`, or a fresh one if none is.
    pub open spec fn state_of(self, path: Seq<char>) -> (u64, Seq<char>) {
        if self@.contains_key(path) {
            self@[path]
        } else {
            (0u64, Seq::<char>::empty())
        }
    }

    pub fn new() -> (r: Self)
        ensures
            r.wf(),
            r@ == Map::<Seq<char>, (u64, Seq<char>)>::empty(),
    {
        OffsetTable { entries: Vec::new() }
    }

    fn find(&self, path: &str) -> (r: Option<usize>)
        ensures
            match r {
                Some(i) => i < self.entries@.len() && self.entries@[i as int].path@ == path@,
                None => forall|i: int|
                    0 <= i < self.entries@.len() ==> self.entries@[i].path@ != path@,
            },
    {
        let mut i: usize = 0;
        let n = self.entries.len();
        while i < n
            invariant
                i <= n,
                n == self.entries@.len(),
                forall|j: int| 0 <= j < i ==> self.entries@[j].path@ != path@,
            decreases n - i,
        {
            if str_eq(self.entries[i].path.as_str(), path) {
                return Some(i);
            }
            i += 1;
        }
        None
    }

    /// Index of the entry for `path`, creating a fresh entry if none exists.
    fn find_or_insert(&mut self, path: &str) -> (i: usize)
        requires
            old(self).wf(),
        ensures
            final(self).wf(),
            i < final(self).entries@.len(),
            final(self).entries@[i as int].path@ == path@,
            final(self).entries@[i as int].state@ == old(self).state_of(path@),
            final(self)@ == old(self)@.insert(path@, old(self).state_of(path@)),
            distinct_paths(final(self).entries@),
    {
        proof {
            lemma_map_of_contains(self.entries@, path@);
        }
        match self.find(path) {
            Some(i) => {
                proof {
                    lemma_map_of_index(self.entries@, i as int);
                    assert(old(self)@.insert(path@, old(self).state_of(path@)) =~= old(self)@);
                }
                i
            },
            None => {
                let i = self.entries.len();
                let entry = TableEntry { path: path.to_owned(), state: FileReadState::new() };
                self.entries.push(entry);
                proof {
                    assert(self.entries@.drop_last() =~= old(self).entries@);
                    assert(self.entries@.last() == entry);
                }
                i
            },
        }
    }

    /// Table-level read preparation: looks the path's state up (creating it
    /// on first sight), applies the truncation rule, and returns the byte
    /// offset at which the caller must start reading.
    pub fn prepare_read(&mut self, path: &str, file_len: u64) -> (start: u64)
        requires
            old(self).wf(),
        ensures
            final(self).wf(),
            ({
                let prior = old(self).state_of(path@);
                let after: (u64, Seq<char>) = if file_len < prior.0 {
                    (0u64, Seq::<char>::empty())
                } else {
                    prior
                };
                final(self)@ == old(self)@.insert(path@, after) && start == after.0
            }),
    {
        let i = self.find_or_insert(path);
        let ghost mid = *self;
        let start = self.entries[i].state.prepare_read(file_len);
        proof {
            let e = self.entries@[i as int];
            assert(self.entries@ =~= mid.entries@.update(i as int, e));
            lemma_map_of_update(mid.entries@, i as int, e);
            let prior = old(self).state_of(path@);
            let after: (u64, Seq<char>) = if file_len < prior.0 {
                (0u64, Seq::<char>::empty())
            } else {
                prior
            };
            assert(e.state@ == after);
            assert(final(self)@ =~= old(self)@.insert(path@, after));
        }
        start
    }

    /// Table-level ingestion: hands `chunk` to the path's read state and
    /// returns the complete lines it yields.
    pub fn ingest(&mut self, path: &str, chunk: &str, chunk_bytes: u64) -> (lines: Vec<String>)
        requires
            old(self).wf(),
            old(self).state_of(path@).0 + chunk_bytes <= u64::MAX,
        ensures
            final(self).wf(),
            ({
                let prior = old(self).state_of(path@);
                let buffer = prior.1 + chunk@;
                final(self)@ == old(self)@.insert(
                    path@,
                    ((prior.0 + chunk_bytes) as u64, spec_pending(buffer)),
                ) && lines.deep_view() =~= spec_lines(buffer)
            }),
    {
        let i = self.find_or_insert(path);
        let ghost mid = *self;
        let lines = self.entries[i].state.ingest(chunk, chunk_bytes);
        proof {
            let e = self.entries@[i as int];
            assert(self.entries@ =~= mid.entries@.update(i as int, e));
            lemma_map_of_update(mid.entries@, i as int, e);
            let prior = old(self).state_of(path@);
            assert(final(self)@ =~= old(self)@.insert(
                path@,
                ((prior.0 + chunk_bytes) as u64, spec_pending(prior.1 + chunk@)),
            ));
        }
        lines
    }
}

} // verus!
