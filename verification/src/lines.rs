//! Verified splitting of a read buffer into complete, terminator-stripped
//! lines plus at most one trailing unterminated fragment.

use vstd::prelude::*;
use vstd::string::*;

verus! {

/// Index of the first newline in `s` at or after `i`, or `s.len()` if none.
pub open spec fn find_nl(s: Seq<char>, i: int) -> int
    decreases s.len() - i,
{
    if i < 0 || i >= s.len() {
        s.len() as int
    } else if s[i] == '\n' {
        i
    } else {
        find_nl(s, i + 1)
    }
}

/// `s` with every trailing carriage return removed.
pub open spec fn trim_cr(s: Seq<char>) -> Seq<char>
    decreases s.len(),
{
    if s.len() > 0 && s[s.len() - 1] == '\r' {
        trim_cr(s.drop_last())
    } else {
        s
    }
}

/// The complete lines of `s`: each newline-terminated segment, in order,
/// with its terminator and any trailing carriage returns removed.
pub open spec fn spec_lines(s: Seq<char>) -> Seq<Seq<char>>
    decreases s.len(),
{
    let k = find_nl(s, 0);
    if 0 <= k < s.len() {
        seq![trim_cr(s.subrange(0, k))] + spec_lines(s.subrange(k + 1, s.len() as int))
    } else {
        Seq::empty()
    }
}

/// The unterminated tail of `s`: what follows the last newline (all of `s`
/// if it holds none).
pub open spec fn spec_pending(s: Seq<char>) -> Seq<char>
    decreases s.len(),
{
    let k = find_nl(s, 0);
    if 0 <= k < s.len() {
        spec_pending(s.subrange(k + 1, s.len() as int))
    } else {
        s
    }
}

pub proof fn lemma_find_nl(s: Seq<char>, i: int)
    requires
        0 <= i <= s.len(),
    ensures
        i <= find_nl(s, i) <= s.len(),
        find_nl(s, i) < s.len() ==> s[find_nl(s, i)] == '\n',
        forall|j: int| i <= j < find_nl(s, i) ==> s[j] != '\n',
    decreases s.len() - i,
{
    if i < s.len() && s[i] != '\n' {
        lemma_find_nl(s, i + 1);
    }
}

pub proof fn lemma_find_nl_from(s: Seq<char>, i: int, j: int)
    requires
        0 <= i <= j <= s.len(),
        forall|x: int| i <= x < j ==> s[x] != '\n',
        j < s.len() ==> s[j] == '\n',
    ensures
        find_nl(s, i) == j,
    decreases j - i,
{
    if i < j {
        lemma_find_nl_from(s, i + 1, j);
    }
}

/// A buffer without a newline yields no complete line and stays pending whole.
pub proof fn lemma_no_newline_no_lines(s: Seq<char>)
    requires
        !s.contains('\n'),
    ensures
        spec_lines(s) =~= Seq::<Seq<char>>::empty(),
        spec_pending(s) == s,
{
    assert(forall|x: int| 0 <= x < s.len() ==> s[x] != '\n');
    lemma_find_nl_from(s, 0, s.len() as int);
}

/// The pending fragment never holds a newline.
pub proof fn lemma_pending_no_newline(s: Seq<char>)
    ensures
        !spec_pending(s).contains('\n'),
    decreases s.len(),
{
    let k = find_nl(s, 0);
    lemma_find_nl(s, 0);
    if 0 <= k < s.len() {
        lemma_pending_no_newline(s.subrange(k + 1, s.len() as int));
    } else {
        assert(forall|x: int| 0 <= x < s.len() ==> s[x] != '\n');
    }
}

/// Splitting is invariant under chunk boundaries: extending a buffer by `t`
/// yields exactly the lines of the buffer followed by the lines of its
/// pending fragment extended by `t`, and the same final fragment. Hence a
/// stream cut into chunks at arbitrary points, with the fragment carried
/// between reads, yields the same line sequence as one full read.
pub proof fn lemma_split_chunk_invariant(s: Seq<char>, t: Seq<char>)
    ensures
        spec_lines(s + t) =~= spec_lines(s) + spec_lines(spec_pending(s) + t),
        spec_pending(s + t) == spec_pending(spec_pending(s) + t),
    decreases s.len(),
{
    let k = find_nl(s, 0);
    lemma_find_nl(s, 0);
    if 0 <= k < s.len() {
        let rest = s.subrange(k + 1, s.len() as int);
        lemma_find_nl_from(s + t, 0, k);
        assert((s + t).subrange(0, k) =~= s.subrange(0, k));
        assert((s + t).subrange(k + 1, (s + t).len() as int) =~= rest + t);
        lemma_split_chunk_invariant(rest, t);
        assert(spec_lines(s + t) =~= spec_lines(s) + spec_lines(spec_pending(s) + t));
    } else {
        assert(spec_pending(s) + t =~= s + t);
    }
}

/// Chunk-boundary invariance for one split read: with pending fragment `p`,
/// ingesting `a` then `b` yields the same complete lines and the same final
/// fragment as ingesting `a + b` at once.
pub proof fn lemma_two_reads_match_one(p: Seq<char>, a: Seq<char>, b: Seq<char>)
    ensures
        spec_lines(p + a) + spec_lines(spec_pending(p + a) + b) =~= spec_lines(p + (a + b)),
        spec_pending(spec_pending(p + a) + b) == spec_pending(p + (a + b)),
{
    assert(p + (a + b) =~= (p + a) + b);
    lemma_split_chunk_invariant(p + a, b);
}

/// Splits `buffer` into its complete lines (terminators and trailing
/// carriage returns removed) and the unterminated trailing fragment.
pub fn split_complete_lines(buffer: String) -> (r: (Vec<String>, String))
    ensures
        r.0.deep_view() =~= spec_lines(buffer@),
        r.1@ == spec_pending(buffer@),
{
    let n = buffer.as_str().unicode_len();
    let mut lines: Vec<String> = Vec::new();
    let mut start: usize = 0;
    let mut i: usize = 0;
    proof {
        assert(buffer@.subrange(0, n as int) =~= buffer@);
    }
    while i < n
        invariant
            start <= i <= n,
            n == buffer@.len(),
            spec_lines(buffer@) =~= lines.deep_view() + spec_lines(
                buffer@.subrange(start as int, n as int),
            ),
            spec_pending(buffer@) == spec_pending(buffer@.subrange(start as int, n as int)),
            forall|x: int| start <= x < i ==> buffer@[x] != '\n',
        decreases n - i,
    {
        if buffer.as_str().get_char(i) == '\n' {
            let ghost tail = buffer@.subrange(start as int, n as int);
            let mut e = i;
            while e > start && buffer.as_str().get_char(e - 1) == '\r'
                invariant
                    start <= e <= i < n,
                    n == buffer@.len(),
                    trim_cr(buffer@.subrange(start as int, i as int)) == trim_cr(
                        buffer@.subrange(start as int, e as int),
                    ),
                decreases e,
            {
                proof {
                    let seg = buffer@.subrange(start as int, e as int);
                    assert(seg[seg.len() - 1] == buffer@[e - 1]);
                    assert(seg.drop_last() =~= buffer@.subrange(start as int, e - 1));
                }
                e -= 1;
            }
            proof {
                let seg = buffer@.subrange(start as int, e as int);
                if seg.len() > 0 {
                    assert(seg[seg.len() - 1] == buffer@[e - 1]);
                }
                assert(trim_cr(seg) == seg);
            }
            let line = buffer.as_str().substring_char(start, e).to_owned();
            proof {
                lemma_find_nl_from(tail, 0, i - start);
                assert(tail.subrange(0, i - start) =~= buffer@.subrange(start as int, i as int));
                assert(tail.subrange(i - start + 1, tail.len() as int) =~= buffer@.subrange(
                    i + 1,
                    n as int,
                ));
                assert(spec_lines(tail) =~= seq![line@] + spec_lines(
                    buffer@.subrange(i + 1, n as int),
                ));
                assert(lines.deep_view().push(line@) + spec_lines(buffer@.subrange(i + 1, n as int))
                    =~= lines.deep_view() + spec_lines(tail));
            }
            lines.push(line);
            proof {
                assert(lines.deep_view() =~= lines.deep_view().subrange(
                    0,
                    lines.deep_view().len() - 1,
                ).push(line@));
            }
            start = i + 1;
        }
        i += 1;
    }
    let pending = buffer.as_str().substring_char(start, n).to_owned();
    proof {
        let tail = buffer@.subrange(start as int, n as int);
        lemma_find_nl_from(tail, 0, tail.len() as int);
    }
    (lines, pending)
}

} // verus!
