//! Verified character-level string utilities: equality, substring search,
//! and a trusted wrapper for Unicode lowercasing.

use vstd::prelude::*;
use vstd::string::*;

verus! {

/// `pat` occurs in `text` starting at position `k`.
pub open spec fn substr_at(text: Seq<char>, pat: Seq<char>, k: int) -> bool {
    0 <= k && k + pat.len() <= text.len() && text.subrange(k, k + pat.len() as int) == pat
}

/// `pat` occurs somewhere in `text`.
pub open spec fn has_substr(text: Seq<char>, pat: Seq<char>) -> bool {
    exists|k: int| substr_at(text, pat, k)
}

/// Character-for-character string equality.
pub fn str_eq(a: &str, b: &str) -> (r: bool)
    ensures
        r == (a@ == b@),
{
    let alen = a.unicode_len();
    let blen = b.unicode_len();
    if alen != blen {
        return false;
    }
    let mut i: usize = 0;
    while i < alen
        invariant
            i <= alen,
            alen == a@.len(),
            alen == b@.len(),
            forall|j: int| 0 <= j < i ==> a@[j] == b@[j],
        decreases alen - i,
    {
        if a.get_char(i) != b.get_char(i) {
            return false;
        }
        i += 1;
    }
    proof {
        assert(a@ =~= b@);
    }
    true
}

/// Whether `text` contains `pat` as a contiguous substring.
pub fn contains_substr(text: &str, pat: &str) -> (r: bool)
    ensures
        r == has_substr(text@, pat@),
{
    let tlen = text.unicode_len();
    let plen = pat.unicode_len();
    if plen > tlen {
        proof {
            assert(forall|k: int| !substr_at(text@, pat@, k));
        }
        return false;
    }
    let mut k: usize = 0;
    while k <= tlen - plen
        invariant
            plen <= tlen,
            tlen == text@.len(),
            plen == pat@.len(),
            k <= tlen - plen + 1,
            forall|kk: int| 0 <= kk < k ==> !substr_at(text@, pat@, kk),
        decreases tlen - plen - k + 1,
    {
        let mut j: usize = 0;
        let mut matched = true;
        while j < plen
            invariant_except_break
                matched,
            invariant
                j <= plen,
                k + plen <= tlen,
                tlen == text@.len(),
                plen == pat@.len(),
                forall|jj: int| 0 <= jj < j ==> text@[k + jj] == pat@[jj],
            ensures
                j <= plen,
                k + plen <= tlen,
                matched ==> forall|jj: int| 0 <= jj < plen ==> text@[k + jj] == pat@[jj],
                !matched ==> j < plen && text@[k + j] != pat@[j as int],
            decreases plen - j,
        {
            if text.get_char(k + j) != pat.get_char(j) {
                matched = false;
                break;
            }
            j += 1;
        }
        if matched {
            proof {
                assert(text@.subrange(k as int, k + plen) =~= pat@);
                assert(substr_at(text@, pat@, k as int));
            }
            return true;
        }
        proof {
            assert(text@.subrange(k as int, k + plen)[j as int] == text@[k + j]);
            assert(!substr_at(text@, pat@, k as int));
        }
        k += 1;
    }
    proof {
        assert(forall|kk: int| !substr_at(text@, pat@, kk));
    }
    false
}

/// The sequence of characters that `str::to_lowercase` produces for `s`:
/// Unicode case mapping, a function of the characters alone.
pub uninterp spec fn lower_of(s: Seq<char>) -> Seq<char>;

/// Relies on str::to_lowercase: the result depends on the characters alone,
/// and an empty string stays empty.
#[verifier::external_body]
pub(crate) fn lowercase(s: &str) -> (r: String)
    ensures
        r@ == lower_of(s@),
        s@.len() == 0 ==> r@.len() == 0,
{
    s.to_lowercase()
}

} // verus!
