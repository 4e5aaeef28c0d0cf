//! Substring search and replacement over sequences of characters.
//!
//! The model speaks of `Seq<char>`, the view of `str` and `String`. An
//! occurrence is named by the index of its first character; the *first*
//! occurrence is the one with the least index.

use vstd::prelude::*;
use vstd::string::group_string_axioms;
use vstd::string::StrSliceExecFns;
use vstd::string::StringExecFns;

verus! {

/// `needle` occurs in `hay` starting at index `at`.
pub open spec fn occurs_at(hay: Seq<char>, needle: Seq<char>, at: int) -> bool {
    &&& 0 <= at
    &&& at + needle.len() <= hay.len()
    &&& hay.subrange(at, at + needle.len()) == needle
}

/// `needle` occurs somewhere in `hay`.
pub open spec fn contains(hay: Seq<char>, needle: Seq<char>) -> bool {
    exists|at: int| occurs_at(hay, needle, at)
}

/// `needle` occurs in `hay` at `at` and nowhere before it.
pub open spec fn is_first_occurrence(hay: Seq<char>, needle: Seq<char>, at: int) -> bool {
    &&& occurs_at(hay, needle, at)
    &&& forall|earlier: int| 0 <= earlier < at ==> !occurs_at(hay, needle, earlier)
}

/// The index of the first occurrence of `needle` in `hay`; meaningful only
/// where `contains(hay, needle)`.
pub open spec fn first_occurrence(hay: Seq<char>, needle: Seq<char>) -> int {
    choose|at: int| is_first_occurrence(hay, needle, at)
}

/// `hay` with the `len` characters from index `at` on replaced by `with`.
pub open spec fn splice(hay: Seq<char>, at: int, len: int, with: Seq<char>) -> Seq<char> {
    hay.subrange(0, at) + with + hay.subrange(at + len, hay.len() as int)
}

/// `hay` with the first occurrence of `needle` replaced by `with`; `hay`
/// itself where `needle` does not occur.
pub open spec fn with_first_replaced(hay: Seq<char>, needle: Seq<char>, with: Seq<char>) -> Seq<
    char,
> {
    if contains(hay, needle) {
        splice(hay, first_occurrence(hay, needle), needle.len() as int, with)
    } else {
        hay
    }
}

/// Among the occurrences of a needle there is a first one, and it does not
/// come after any given occurrence.
pub proof fn lemma_first_occurrence_exists(hay: Seq<char>, needle: Seq<char>, at: int)
    requires
        occurs_at(hay, needle, at),
    ensures
        is_first_occurrence(hay, needle, first_occurrence(hay, needle)),
        first_occurrence(hay, needle) <= at,
    decreases at,
{
    if exists|earlier: int| 0 <= earlier < at && occurs_at(hay, needle, earlier) {
        let earlier = choose|earlier: int| 0 <= earlier < at && occurs_at(hay, needle, earlier);
        lemma_first_occurrence_exists(hay, needle, earlier);
    } else {
        assert(is_first_occurrence(hay, needle, at));
        lemma_first_occurrence_unique(hay, needle, at, first_occurrence(hay, needle));
    }
}

/// A needle has at most one first occurrence.
pub proof fn lemma_first_occurrence_unique(hay: Seq<char>, needle: Seq<char>, a: int, b: int)
    requires
        is_first_occurrence(hay, needle, a),
        is_first_occurrence(hay, needle, b),
    ensures
        a == b,
{
    if a < b {
        assert(!occurs_at(hay, needle, a));
    } else if b < a {
        assert(!occurs_at(hay, needle, b));
    }
}

/// Replacing an occurrence at `at` leaves the replacement standing at `at`.
pub proof fn lemma_splice_occurs(hay: Seq<char>, at: int, len: int, with: Seq<char>)
    requires
        0 <= at,
        0 <= len,
        at + len <= hay.len(),
    ensures
        occurs_at(splice(hay, at, len, with), with, at),
{
    let out = splice(hay, at, len, with);
    assert(out.subrange(at, at + with.len()) =~= with);
}

/// The characters of `s`, in order.
pub fn chars_of(s: &str) -> (out: Vec<char>)
    ensures
        out@ == s@,
{
    broadcast use group_string_axioms;

    let mut out: Vec<char> = Vec::new();
    for c in it: s.chars()
        invariant
            it.seq() == s@,
            out@ == s@.take(it.index()),
    {
        out.push(c);
    }
    out
}

/// Whether `needle` stands in `hay` at index `at`.
fn matches_at(hay: &Vec<char>, needle: &Vec<char>, at: usize) -> (found: bool)
    requires
        at + needle.len() <= hay.len(),
    ensures
        found == occurs_at(hay@, needle@, at as int),
{
    let mut k: usize = 0;
    while k < needle.len()
        invariant
            k <= needle.len(),
            at + needle.len() <= hay.len(),
            forall|j: int| 0 <= j < k ==> hay@[at + j] == needle@[j],
        decreases needle.len() - k,
    {
        if hay[at + k] != needle[k] {
            assert(hay@.subrange(at as int, at + needle@.len())[k as int] != needle@[k as int]);
            return false;
        }
        k += 1;
    }
    assert(hay@.subrange(at as int, at + needle@.len()) =~= needle@);
    true
}

/// Finds the first occurrence of `needle` in `hay`.
pub fn find(hay: &Vec<char>, needle: &Vec<char>) -> (found: Option<usize>)
    ensures
        found is Some <==> contains(hay@, needle@),
        found matches Some(at) ==> at as int == first_occurrence(hay@, needle@),
        found matches Some(at) ==> is_first_occurrence(hay@, needle@, at as int),
{
    if needle.len() > hay.len() {
        return None;
    }
    let last: usize = hay.len() - needle.len();
    let mut at: usize = 0;
    loop
        invariant
            at <= last,
            last == hay.len() - needle.len(),
            forall|earlier: int| 0 <= earlier < at ==> !occurs_at(hay@, needle@, earlier),
        decreases last - at,
    {
        if matches_at(hay, needle, at) {
            proof {
                lemma_first_occurrence_exists(hay@, needle@, at as int);
                lemma_first_occurrence_unique(
                    hay@,
                    needle@,
                    at as int,
                    first_occurrence(hay@, needle@),
                );
            }
            return Some(at);
        }
        if at == last {
            return None;
        }
        at += 1;
    }
}

/// Builds `hay` with the `len` characters from index `at` on replaced by
/// `with`.
pub fn splice_str(hay: &str, at: usize, len: usize, with: &str) -> (out: String)
    requires
        at + len <= hay@.len(),
    ensures
        out@ == splice(hay@, at as int, len as int, with@),
{
    let end: usize = hay.unicode_len();
    let mut out: String = hay.substring_char(0, at).to_owned();
    out.append(with);
    out.append(hay.substring_char(at + len, end));
    out
}

/// Replaces the first occurrence of `needle` in `hay` by `with`. Where
/// `needle` does not occur the result is a copy of `hay`.
pub fn replace_first(hay: &str, needle: &str, with: &str) -> (out: String)
    ensures
        out@ == with_first_replaced(hay@, needle@, with@),
{
    let text = chars_of(hay);
    let pattern = chars_of(needle);
    match find(&text, &pattern) {
        Some(at) => splice_str(hay, at, pattern.len(), with),
        None => hay.to_owned(),
    }
}

} // verus!
