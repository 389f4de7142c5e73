//! Verified string primitives: substring search, literal replacement,
//! query-string stripping and line-break normalization.
//!
//! Every exec function here is specified against a spec function over
//! `Seq<char>`, so the extraction and digest rules built on top of them
//! have exact functional contracts.

use vstd::prelude::*;
use vstd::string::StrSliceExecFns;
use vstd::string::StringExecFns;

verus! {

/// The pattern `pat` occurs in `s` starting at index `i`.
pub open spec fn matches_at(s: Seq<char>, pat: Seq<char>, i: int) -> bool {
    0 <= i && i + pat.len() <= s.len() && s.subrange(i, i + pat.len() as int) == pat
}

/// The pattern `pat` occurs somewhere in `s`.
pub open spec fn contains_seq(s: Seq<char>, pat: Seq<char>) -> bool {
    exists|i: int| matches_at(s, pat, i)
}

/// Equality test on string slices, specified by view equality.
pub fn str_eq(a: &str, b: &str) -> (r: bool)
    ensures
        r == (a@ == b@),
{
    let a_len = a.unicode_len();
    let b_len = b.unicode_len();
    if a_len != b_len {
        return false;
    }
    let mut j: usize = 0;
    while j < a_len
        invariant
            a_len == a@.len(),
            b_len == b@.len(),
            a_len == b_len,
            j <= a_len,
            forall|k: int| 0 <= k < j ==> a@[k] == b@[k],
        decreases a_len - j,
    {
        if a.get_char(j) != b.get_char(j) {
            return false;
        }
        j = j + 1;
    }
    proof {
        assert(a@ =~= b@);
    }
    true
}

/// Whether `pat` occurs in `s` at index `i`.
pub fn match_at_idx(s: &str, pat: &str, i: usize) -> (r: bool)
    requires
        i + pat@.len() <= s@.len(),
    ensures
        r == matches_at(s@, pat@, i as int),
{
    let s_len = s.unicode_len();
    let pat_len = pat.unicode_len();
    let mut j: usize = 0;
    while j < pat_len
        invariant
            s_len == s@.len(),
            pat_len == pat@.len(),
            i + pat_len <= s_len,
            j <= pat_len,
            forall|k: int| 0 <= k < j ==> s@[i + k] == pat@[k],
        decreases pat_len - j,
    {
        if s.get_char(i + j) != pat.get_char(j) {
            proof {
                assert(s@.subrange(i as int, i + pat@.len() as int)[j as int] == s@[i + j]);
            }
            return false;
        }
        j = j + 1;
    }
    proof {
        assert(s@.subrange(i as int, i + pat@.len() as int) =~= pat@);
    }
    true
}

/// The smallest index at or after `from` at which `pat` occurs in `s`.
pub open spec fn find_from_spec(s: Seq<char>, pat: Seq<char>, from: int) -> Option<int>
    decreases s.len() - from
    when 0 <= from <= s.len()
{
    if from >= s.len() {
        None
    } else if matches_at(s, pat, from) {
        Some(from)
    } else {
        find_from_spec(s, pat, from + 1)
    }
}

/// The first occurrence of `pat` in `s` at or after `from`.
pub fn find_from(s: &str, pat: &str, from: usize) -> (r: Option<usize>)
    requires
        from <= s@.len(),
    ensures
        r matches Some(i) ==> from <= i && Some(i as int) == find_from_spec(s@, pat@, from as int),
        r is None ==> find_from_spec(s@, pat@, from as int) is None,
{
    let s_len = s.unicode_len();
    let pat_len = pat.unicode_len();
    let mut i: usize = from;
    while i < s_len
        invariant
            s_len == s@.len(),
            pat_len == pat@.len(),
            from <= i,
            i <= s_len,
            find_from_spec(s@, pat@, from as int) == find_from_spec(s@, pat@, i as int),
        decreases s_len - i,
    {
        if pat_len <= s_len - i {
            if match_at_idx(s, pat, i) {
                return Some(i);
            }
        }
        i = i + 1;
    }
    None
}

/// Whether `pat` occurs anywhere in `s`.
pub fn contains_sub(s: &str, pat: &str) -> (r: bool)
    ensures
        r == contains_seq(s@, pat@),
{
    let pat_len = pat.unicode_len();
    if pat_len == 0 {
        proof {
            assert(s@.subrange(0, 0) =~= pat@);
            assert(matches_at(s@, pat@, 0));
        }
        return true;
    }
    let r = find_from(s, pat, 0);
    proof {
        if find_from_spec(s@, pat@, 0) is Some {
            lemma_find_from_sound(s@, pat@, 0);
        }
        if contains_seq(s@, pat@) {
            let i = choose|i: int| matches_at(s@, pat@, i);
            lemma_find_from_complete(s@, pat@, 0, i);
        }
    }
    r.is_some()
}

/// A found index is a real match.
pub proof fn lemma_find_from_sound(s: Seq<char>, pat: Seq<char>, from: int)
    requires
        0 <= from <= s.len(),
        find_from_spec(s, pat, from) is Some,
    ensures
        matches_at(s, pat, find_from_spec(s, pat, from)->0),
    decreases s.len() - from,
{
    if from >= s.len() {
    } else if matches_at(s, pat, from) {
    } else {
        lemma_find_from_sound(s, pat, from + 1);
    }
}

/// `s` with every occurrence of `pat` replaced by `rep`, scanning left to
/// right over non-overlapping occurrences, as `str::replace` does for a
/// non-empty literal pattern.
pub open spec fn replace_spec(s: Seq<char>, pat: Seq<char>, rep: Seq<char>) -> Seq<char>
    decreases s.len()
    when pat.len() >= 1
{
    if s.len() < pat.len() {
        s
    } else if s.subrange(0, pat.len() as int) == pat {
        rep + replace_spec(s.subrange(pat.len() as int, s.len() as int), pat, rep)
    } else {
        seq![s[0]] + replace_spec(s.subrange(1, s.len() as int), pat, rep)
    }
}

/// `s` with every occurrence of the non-empty literal `pat` replaced by `rep`.
pub fn replace_all(s: &str, pat: &str, rep: &str) -> (r: String)
    requires
        pat@.len() >= 1,
    ensures
        r@ == replace_spec(s@, pat@, rep@),
{
    let s_len = s.unicode_len();
    let pat_len = pat.unicode_len();
    let mut out = String::new();
    let mut i: usize = 0;
    proof {
        assert(s@.subrange(0, s_len as int) =~= s@);
        assert(Seq::<char>::empty() + replace_spec(s@, pat@, rep@) =~= replace_spec(
            s@,
            pat@,
            rep@,
        ));
    }
    while i < s_len
        invariant
            s_len == s@.len(),
            pat_len == pat@.len(),
            pat_len >= 1,
            i <= s_len,
            out@ + replace_spec(s@.subrange(i as int, s_len as int), pat@, rep@) == replace_spec(
                s@,
                pat@,
                rep@,
            ),
        decreases s_len - i,
    {
        let ghost tail = s@.subrange(i as int, s_len as int);
        if pat_len <= s_len - i && match_at_idx(s, pat, i) {
            proof {
                assert(tail.subrange(0, pat@.len() as int) =~= s@.subrange(
                    i as int,
                    i + pat@.len(),
                ));
                assert(tail.subrange(pat@.len() as int, tail.len() as int) =~= s@.subrange(
                    i + pat@.len(),
                    s_len as int,
                ));
            }
            out.append(rep);
            i = i + pat_len;
        } else {
            proof {
                if pat_len <= s_len - i {
                    assert(tail.subrange(0, pat@.len() as int) =~= s@.subrange(
                        i as int,
                        i + pat@.len(),
                    ));
                }
                assert(tail.subrange(1, tail.len() as int) =~= s@.subrange(
                    i + 1,
                    s_len as int,
                ));
                assert(seq![tail[0]] =~= s@.subrange(i as int, i + 1));
                assert(tail =~= seq![tail[0]] + tail.subrange(1, tail.len() as int));
            }
            let piece = s.substring_char(i, i + 1);
            out.append(piece);
            i = i + 1;
        }
    }
    proof {
        assert(s@.subrange(s_len as int, s_len as int) =~= Seq::<char>::empty());
        assert(out@ + Seq::<char>::empty() =~= out@);
    }
    out
}

/// The single-character pattern that opens a URL query string.
pub open spec fn query_mark() -> Seq<char> {
    seq!['?']
}

/// `s` truncated just before its first `'?'`; `s` itself when none occurs.
pub open spec fn strip_query_spec(s: Seq<char>) -> Seq<char> {
    match find_from_spec(s, query_mark(), 0) {
        Some(i) => s.subrange(0, i),
        None => s,
    }
}

/// The prefix of `s` before its first `'?'`, or all of `s` without one.
pub fn strip_query(s: &str) -> (r: String)
    ensures
        r@ == strip_query_spec(s@),
{
    proof {
        reveal_strlit("?");
        assert("?"@ =~= query_mark());
    }
    match find_from(s, "?", 0) {
        Some(i) => {
            proof {
                lemma_find_from_sound(s@, query_mark(), 0);
            }
            let prefix = s.substring_char(0, i);
            prefix.to_owned()
        },
        None => s.to_owned(),
    }
}

/// `s` with every `"\r\n"` or `"\n"` replaced by a single space, scanning
/// left to right; a carriage return not followed by a line feed is kept.
pub open spec fn normalize_newlines_spec(s: Seq<char>) -> Seq<char>
    decreases s.len(),
{
    if s.len() == 0 {
        s
    } else if s.len() >= 2 && s[0] == '\r' && s[1] == '\n' {
        seq![' '] + normalize_newlines_spec(s.subrange(2, s.len() as int))
    } else if s[0] == '\n' {
        seq![' '] + normalize_newlines_spec(s.subrange(1, s.len() as int))
    } else {
        seq![s[0]] + normalize_newlines_spec(s.subrange(1, s.len() as int))
    }
}

/// Line-break normalization: each `"\r\n"` or bare `"\n"` becomes one space.
pub fn normalize_newlines(s: &str) -> (r: String)
    ensures
        r@ == normalize_newlines_spec(s@),
{
    let s_len = s.unicode_len();
    let mut out = String::new();
    let mut i: usize = 0;
    proof {
        reveal_strlit(" ");
        assert(s@.subrange(0, s_len as int) =~= s@);
        assert(Seq::<char>::empty() + normalize_newlines_spec(s@) =~= normalize_newlines_spec(
            s@,
        ));
    }
    while i < s_len
        invariant
            s_len == s@.len(),
            i <= s_len,
            " "@ == seq![' '],
            out@ + normalize_newlines_spec(s@.subrange(i as int, s_len as int))
                == normalize_newlines_spec(s@),
        decreases s_len - i,
    {
        let ghost tail = s@.subrange(i as int, s_len as int);
        let c = s.get_char(i);
        if c == '\r' && i + 1 < s_len && s.get_char(i + 1) == '\n' {
            proof {
                assert(tail.subrange(2, tail.len() as int) =~= s@.subrange(
                    i + 2,
                    s_len as int,
                ));
            }
            out.append(" ");
            i = i + 2;
        } else if c == '\n' {
            proof {
                assert(tail.subrange(1, tail.len() as int) =~= s@.subrange(
                    i + 1,
                    s_len as int,
                ));
            }
            out.append(" ");
            i = i + 1;
        } else {
            proof {
                assert(tail.subrange(1, tail.len() as int) =~= s@.subrange(
                    i + 1,
                    s_len as int,
                ));
                assert(seq![tail[0]] =~= s@.subrange(i as int, i + 1));
            }
            let piece = s.substring_char(i, i + 1);
            out.append(piece);
            i = i + 1;
        }
    }
    proof {
        assert(s@.subrange(s_len as int, s_len as int) =~= Seq::<char>::empty());
        assert(out@ + Seq::<char>::empty() =~= out@);
    }
    out
}

/// If a non-empty pattern matches at or after `from`, the search succeeds.
pub proof fn lemma_find_from_complete(s: Seq<char>, pat: Seq<char>, from: int, i: int)
    requires
        0 <= from <= s.len(),
        pat.len() >= 1,
        from <= i,
        matches_at(s, pat, i),
    ensures
        find_from_spec(s, pat, from) is Some,
    decreases s.len() - from,
{
    if from >= s.len() {
        assert(i + pat.len() <= s.len());
        assert(false);
    } else if matches_at(s, pat, from) {
    } else {
        lemma_find_from_complete(s, pat, from + 1, i);
    }
}

} // verus!
