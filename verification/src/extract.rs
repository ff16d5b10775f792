//! Rejections of the JSON body and query-string extractors, re-worded into
//! the error envelope.

use vstd::prelude::*;
use crate::errors::ApiError;
use crate::text::{chars_of, is_whitespace_char, push_char, unicode_white_space};

verus! {

/// ` at line `: where serde's messages start their position suffix.
pub open spec fn position_marker() -> Seq<char> {
    seq![' ', 'a', 't', ' ', 'l', 'i', 'n', 'e', ' ']
}

/// `pattern` occurs in `text` starting at index `i`.
pub open spec fn occurs_at(text: Seq<char>, pattern: Seq<char>, i: int) -> bool {
    &&& 0 <= i
    &&& i + pattern.len() <= text.len()
    &&& text.subrange(i, i + pattern.len()) == pattern
}

/// `pattern` occurs somewhere in `text`.
pub open spec fn contains_pattern(text: Seq<char>, pattern: Seq<char>) -> bool {
    exists|i: int| occurs_at(text, pattern, i)
}

/// Where the first occurrence of `pattern` in `text` starts, if any.
#[verifier::opaque]
pub open spec fn first_occurrence(text: Seq<char>, pattern: Seq<char>) -> Option<int> {
    if contains_pattern(text, pattern) {
        Some(
            choose|i: int|
                occurs_at(text, pattern, i) && forall|j: int| 0 <= j < i ==> !occurs_at(text, pattern, j),
        )
    } else {
        None
    }
}

/// `s` without its trailing whitespace (`str::trim_end`).
pub open spec fn trim_end(s: Seq<char>) -> Seq<char>
    decreases s.len(),
{
    if s.len() > 0 && unicode_white_space(s.last()) {
        trim_end(s.drop_last())
    } else {
        s
    }
}

/// The reason given for a rejected request: the extractor's message cut
/// before the first ` at line `, then stripped of trailing whitespace.
pub open spec fn rejection_reason(text: Seq<char>) -> Seq<char> {
    match first_occurrence(text, position_marker()) {
        Some(i) => trim_end(text.take(i)),
        None => trim_end(text),
    }
}

proof fn lemma_first_occurrence(text: Seq<char>, pattern: Seq<char>, i: int)
    requires
        occurs_at(text, pattern, i),
        forall|j: int| 0 <= j < i ==> !occurs_at(text, pattern, j),
    ensures
        first_occurrence(text, pattern) == Some(i),
{
    reveal(first_occurrence);
    let k = choose|k: int|
        occurs_at(text, pattern, k) && forall|j: int| 0 <= j < k ==> !occurs_at(text, pattern, j);
    assert(occurs_at(text, pattern, k));
    if k < i {
        assert(!occurs_at(text, pattern, k));
    }
    if i < k {
        assert(!occurs_at(text, pattern, i));
    }
}

/// Whether `pattern` occurs in `text` at index `i`.
fn matches_at(text: &Vec<char>, pattern: &Vec<char>, i: usize) -> (r: bool)
    requires
        i + pattern.len() <= text.len(),
    ensures
        r == occurs_at(text@, pattern@, i as int),
{
    let mut k: usize = 0;
    while k < pattern.len()
        invariant
            k <= pattern.len(),
            i + pattern.len() <= text.len(),
            forall|m: int| 0 <= m < k ==> text@[i + m] == pattern@[m],
        decreases pattern.len() - k,
    {
        if text[i + k] != pattern[k] {
            assert(text@.subrange(i as int, i + pattern.len())[k as int] != pattern@[k as int]);
            return false;
        }
        k = k + 1;
    }
    assert(text@.subrange(i as int, i + pattern.len()) =~= pattern@);
    true
}

/// Where `pattern` first occurs in `text`, as `str::split_once` finds it.
fn find_first(text: &Vec<char>, pattern: &Vec<char>) -> (r: Option<usize>)
    requires
        pattern.len() > 0,
    ensures
        r matches Some(i) ==> first_occurrence(text@, pattern@) == Some(i as int),
        r is None ==> first_occurrence(text@, pattern@) is None,
        r matches Some(i) ==> i + pattern.len() <= text.len(),
{
    reveal(first_occurrence);
    if pattern.len() > text.len() {
        assert(!contains_pattern(text@, pattern@));
        return None;
    }
    let last: usize = text.len() - pattern.len();
    let mut i: usize = 0;
    while i <= last
        invariant
            last + pattern.len() == text.len(),
            pattern.len() > 0,
            forall|j: int| 0 <= j < i ==> !occurs_at(text@, pattern@, j),
        decreases last + 1 - i,
    {
        if matches_at(text, pattern, i) {
            proof {
                lemma_first_occurrence(text@, pattern@, i as int);
            }
            return Some(i);
        }
        i = i + 1;
    }
    assert forall|j: int| occurs_at(text@, pattern@, j) implies false by {
        assert(j <= last);
    }
    assert(!contains_pattern(text@, pattern@));
    None
}

/// The length of `s.take(n)` once its trailing whitespace is removed.
fn trimmed_len(s: &Vec<char>, n: usize) -> (r: usize)
    requires
        n <= s.len(),
    ensures
        r <= n,
        s@.take(r as int) == trim_end(s@.take(n as int)),
    decreases n,
{
    assert(s@.take(n as int).len() == n);
    if n > 0 && is_whitespace_char(s[n - 1]) {
        assert(s@.take(n as int).drop_last() == s@.take(n - 1));
        trimmed_len(s, n - 1)
    } else {
        n
    }
}

/// The characters of ` at line `.
fn marker_chars() -> (m: Vec<char>)
    ensures
        m@ == position_marker(),
{
    let mut m: Vec<char> = Vec::new();
    m.push(' ');
    m.push('a');
    m.push('t');
    m.push(' ');
    m.push('l');
    m.push('i');
    m.push('n');
    m.push('e');
    m.push(' ');
    assert(m@ =~= position_marker());
    m
}

/// Where the reason is cut: before the first ` at line `, or at the end.
fn cut_point(chars: &Vec<char>) -> (cut: usize)
    ensures
        cut <= chars.len(),
        trim_end(chars@.take(cut as int)) == rejection_reason(chars@),
{
    let marker = marker_chars();
    match find_first(chars, &marker) {
        Some(i) => i,
        None => {
            assert(chars@.take(chars.len() as int) == chars@);
            chars.len()
        },
    }
}

/// The reason text for an extractor rejection.
pub fn rejection_text(text: &str) -> (reason: String)
    ensures
        reason@ == rejection_reason(text@),
{
    let chars = chars_of(text);
    let cut = cut_point(&chars);
    let end = trimmed_len(&chars, cut);
    prefix_string(&chars, end)
}

/// The first `end` characters of `chars`, as a `String`.
fn prefix_string(chars: &Vec<char>, end: usize) -> (s: String)
    requires
        end <= chars.len(),
    ensures
        s@ == chars@.take(end as int),
{
    let mut reason = String::new();
    let mut k: usize = 0;
    while k < end
        invariant
            k <= end,
            end <= chars.len(),
            reason@ == chars@.take(k as int),
        decreases end - k,
    {
        push_char(&mut reason, chars[k]);
        assert(chars@.take(k + 1) == chars@.take(k as int).push(chars@[k as int]));
        k = k + 1;
    }
    reason
}

/// Re-wraps an extractor rejection as an error envelope, keeping the
/// extractor's status. Serde's message carries a volatile
/// `" at line X column Y"` suffix that depends on the exact payload; it is
/// cut off so that the reason is stable and readable.
pub fn reject(status: u16, text: &str) -> (envelope: ApiError)
    ensures
        envelope.status == status,
        envelope.reason@ == rejection_reason(text@),
{
    ApiError { status, reason: rejection_text(text) }
}

proof fn lemma_trim_end_prefix(s: Seq<char>)
    ensures
        trim_end(s).len() <= s.len(),
        trim_end(s) == s.take(trim_end(s).len() as int),
        trim_end(trim_end(s)) == trim_end(s),
    decreases s.len(),
{
    if s.len() > 0 && unicode_white_space(s.last()) {
        lemma_trim_end_prefix(s.drop_last());
        assert(s.drop_last().take(trim_end(s).len() as int) == s.take(trim_end(s).len() as int));
    } else {
        assert(s.take(s.len() as int) == s);
    }
}

proof fn lemma_first_occurrence_props(text: Seq<char>, pattern: Seq<char>)
    ensures
        match first_occurrence(text, pattern) {
            Some(i) => occurs_at(text, pattern, i) && forall|j: int|
                0 <= j < i ==> !#[trigger] occurs_at(text, pattern, j),
            None => forall|j: int| !#[trigger] occurs_at(text, pattern, j),
        },
{
    reveal(first_occurrence);
    if contains_pattern(text, pattern) {
        let i = choose|i: int|
            occurs_at(text, pattern, i) && forall|j: int| 0 <= j < i ==> !occurs_at(text, pattern, j);
        assert(first_occurrence(text, pattern) == Some(i));
        assert(exists|i: int|
            occurs_at(text, pattern, i) && forall|j: int| 0 <= j < i ==> !occurs_at(text, pattern, j)) by {
            let w = choose|w: int| occurs_at(text, pattern, w);
            lemma_minimal_occurrence(text, pattern, w);
        }
    }
}

/// Below any occurrence there is a first one.
proof fn lemma_minimal_occurrence(text: Seq<char>, pattern: Seq<char>, w: int)
    requires
        occurs_at(text, pattern, w),
    ensures
        exists|i: int|
            occurs_at(text, pattern, i) && forall|j: int| 0 <= j < i ==> !occurs_at(text, pattern, j),
    decreases w,
{
    if exists|j: int| 0 <= j < w && occurs_at(text, pattern, j) {
        let j = choose|j: int| 0 <= j < w && occurs_at(text, pattern, j);
        lemma_minimal_occurrence(text, pattern, j);
    } else {
        assert(forall|j: int| 0 <= j < w ==> !occurs_at(text, pattern, j));
    }
}

proof fn lemma_no_occurrence_in_prefix(s: Seq<char>, n: int, pattern: Seq<char>)
    requires
        0 <= n <= s.len(),
        forall|j: int| 0 <= j && j + pattern.len() <= n ==> !#[trigger] occurs_at(s, pattern, j),
    ensures
        !contains_pattern(s.take(n), pattern),
{
    assert forall|j: int| occurs_at(s.take(n), pattern, j) implies false by {
        assert(s.take(n).subrange(j, j + pattern.len()) == s.subrange(j, j + pattern.len()));
        assert(occurs_at(s, pattern, j));
    }
}

/// The reason of a rejection holds no ` at line ` and no trailing whitespace.
proof fn lemma_reason_is_clean(text: Seq<char>)
    ensures
        !contains_pattern(rejection_reason(text), position_marker()),
        trim_end(rejection_reason(text)) == rejection_reason(text),
{
    let m = position_marker();
    lemma_first_occurrence_props(text, m);
    let p = match first_occurrence(text, m) {
        Some(i) => text.take(i),
        None => text,
    };
    match first_occurrence(text, m) {
        Some(i) => {
            lemma_no_occurrence_in_prefix(text, i, m);
        },
        None => {
            assert(text.take(text.len() as int) == text);
            lemma_no_occurrence_in_prefix(text, text.len() as int, m);
        },
    }
    lemma_trim_end_prefix(p);
    let r = trim_end(p);
    lemma_no_occurrence_in_prefix(p, r.len() as int, m);
}

/// Re-wording a rejection reason changes nothing: the reason of a reason is
/// the reason itself.
pub proof fn lemma_rejection_reason_idempotent(text: Seq<char>)
    ensures
        rejection_reason(rejection_reason(text)) == rejection_reason(text),
{
    lemma_reason_is_clean(text);
    let r = rejection_reason(text);
    lemma_first_occurrence_props(r, position_marker());
    assert(first_occurrence(r, position_marker()) is None);
}

/// The reason does not depend on what follows the first ` at line `: two
/// messages that differ only in the position they report (or in anything
/// after it) give the same reason.
pub proof fn lemma_rejection_reason_ignores_position(head: Seq<char>, tail1: Seq<char>, tail2: Seq<char>)
    ensures
        rejection_reason(head + position_marker() + tail1) == rejection_reason(head + position_marker() + tail2),
{
    let m = position_marker();
    let s1 = head + m + tail1;
    let s2 = head + m + tail2;
    let h = head.len() as int;
    assert(m.len() == 9);
    assert(s1.subrange(h, h + 9) == m);
    assert(s2.subrange(h, h + 9) == m);
    assert(occurs_at(s1, m, h));
    assert(occurs_at(s2, m, h));
    assert forall|j: int| 0 <= j <= h implies occurs_at(s1, m, j) == occurs_at(s2, m, j) by {
        assert(s1.subrange(j, j + 9) == s2.subrange(j, j + 9));
    }
    lemma_first_occurrence_props(s1, m);
    lemma_first_occurrence_props(s2, m);
    let i1 = first_occurrence(s1, m)->0;
    let i2 = first_occurrence(s2, m)->0;
    assert(i1 <= h);
    assert(i2 <= h);
    if i1 < i2 {
        assert(occurs_at(s2, m, i1));
    }
    if i2 < i1 {
        assert(occurs_at(s1, m, i2));
    }
    assert(s1.take(i1) == s2.take(i1));
}

} // verus!
