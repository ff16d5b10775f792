//! Turning a coin search query into an SQLite FTS5 `MATCH` expression.

use vstd::prelude::*;
use crate::text::{alphanumeric, chars_of, is_alphanumeric_char, is_whitespace_char, push_char, unicode_white_space};

verus! {

/// Whitespace-separated words of `s`, as `str::split_whitespace` yields them,
/// computed from left to right: the words completed so far, and the word in
/// progress (empty when the last character read was whitespace).
pub open spec fn words_state(s: Seq<char>) -> (Seq<Seq<char>>, Seq<char>)
    decreases s.len(),
{
    if s.len() == 0 {
        (Seq::empty(), Seq::empty())
    } else {
        let (done, cur) = words_state(s.drop_last());
        let c = s.last();
        if unicode_white_space(c) {
            if cur.len() > 0 {
                (done.push(cur), Seq::empty())
            } else {
                (done, Seq::empty())
            }
        } else {
            (done, cur.push(c))
        }
    }
}

/// The maximal runs of non-whitespace characters of `s`, in order.
pub open spec fn split_whitespace(s: Seq<char>) -> Seq<Seq<char>> {
    let (done, cur) = words_state(s);
    if cur.len() > 0 {
        done.push(cur)
    } else {
        done
    }
}

/// Whether a word holds at least one alphanumeric character.
pub open spec fn has_alphanumeric(w: Seq<char>) -> bool {
    exists|i: int| 0 <= i < w.len() && alphanumeric(#[trigger] w[i])
}

/// `w` with every double quote doubled.
pub open spec fn escape_quotes(w: Seq<char>) -> Seq<char>
    decreases w.len(),
{
    if w.len() == 0 {
        Seq::empty()
    } else if w.last() == '"' {
        escape_quotes(w.drop_last()) + seq!['"', '"']
    } else {
        escape_quotes(w.drop_last()).push(w.last())
    }
}

/// One FTS5 prefix term: the escaped word in double quotes, followed by `*`.
pub open spec fn fts5_term(w: Seq<char>) -> Seq<char> {
    seq!['"'] + escape_quotes(w) + seq!['"', '*']
}

/// The terms for the words that hold an alphanumeric character, in order.
pub open spec fn fts5_terms(words: Seq<Seq<char>>) -> Seq<Seq<char>>
    decreases words.len(),
{
    if words.len() == 0 {
        Seq::empty()
    } else if has_alphanumeric(words.last()) {
        fts5_terms(words.drop_last()).push(fts5_term(words.last()))
    } else {
        fts5_terms(words.drop_last())
    }
}

/// The terms separated by single spaces.
pub open spec fn join_with_spaces(terms: Seq<Seq<char>>) -> Seq<char>
    decreases terms.len(),
{
    if terms.len() == 0 {
        Seq::empty()
    } else if terms.len() == 1 {
        terms[0]
    } else {
        join_with_spaces(terms.drop_last()).push(' ') + terms.last()
    }
}

/// The FTS5 expression for a search query: `"word1"* "word2"* ...`, one
/// quoted prefix term per whitespace-separated word that holds an
/// alphanumeric character, with double quotes escaped by doubling.
pub open spec fn fts5_query(query: Seq<char>) -> Seq<char> {
    join_with_spaces(fts5_terms(split_whitespace(query)))
}

proof fn lemma_join_empty_iff(terms: Seq<Seq<char>>)
    requires
        forall|i: int| 0 <= i < terms.len() ==> #[trigger] terms[i].len() > 0,
    ensures
        (join_with_spaces(terms).len() == 0) <==> (terms.len() == 0),
    decreases terms.len(),
{
    if terms.len() > 1 {
        assert(terms.last() == terms[terms.len() - 1]);
    }
}

proof fn lemma_terms_nonempty(words: Seq<Seq<char>>)
    ensures
        forall|i: int| 0 <= i < fts5_terms(words).len() ==> #[trigger] fts5_terms(words)[i].len() > 0,
    decreases words.len(),
{
    if words.len() > 0 {
        let prev = fts5_terms(words.drop_last());
        let t = fts5_term(words.last());
        lemma_terms_nonempty(words.drop_last());
        assert(t.len() >= 3);
        assert forall|i: int| 0 <= i < prev.push(t).len() implies #[trigger] prev.push(t)[i].len() > 0 by {
            if i < prev.len() {
                assert(prev.push(t)[i] == prev[i]);
            }
        }
    }
}

proof fn lemma_terms_push(words: Seq<Seq<char>>, w: Seq<char>)
    ensures
        fts5_terms(words.push(w)) == (if has_alphanumeric(w) {
            fts5_terms(words).push(fts5_term(w))
        } else {
            fts5_terms(words)
        }),
{
    assert(words.push(w).drop_last() == words);
}

proof fn lemma_join_push(terms: Seq<Seq<char>>, t: Seq<char>)
    ensures
        join_with_spaces(terms.push(t)) == (if terms.len() == 0 {
            t
        } else {
            join_with_spaces(terms).push(' ') + t
        }),
{
    assert(terms.push(t).drop_last() == terms);
}

/// Appending the terms of a completed word to the output so far.
proof fn lemma_emit_word(words: Seq<Seq<char>>, w: Seq<char>)
    ensures
        join_with_spaces(fts5_terms(words.push(w))) == (if has_alphanumeric(w) {
            if join_with_spaces(fts5_terms(words)).len() == 0 {
                fts5_term(w)
            } else {
                join_with_spaces(fts5_terms(words)).push(' ') + fts5_term(w)
            }
        } else {
            join_with_spaces(fts5_terms(words))
        }),
{
    lemma_terms_push(words, w);
    lemma_terms_nonempty(words);
    lemma_join_empty_iff(fts5_terms(words));
    lemma_join_push(fts5_terms(words), fts5_term(w));
}

/// Whether some character of `word` is alphanumeric.
fn any_alphanumeric(word: &Vec<char>) -> (r: bool)
    ensures
        r == has_alphanumeric(word@),
{
    let mut i: usize = 0;
    while i < word.len()
        invariant
            i <= word.len(),
            forall|j: int| 0 <= j < i ==> !alphanumeric(#[trigger] word@[j]),
        decreases word.len() - i,
    {
        if is_alphanumeric_char(word[i]) {
            assert(alphanumeric(word@[i as int]));
            return true;
        }
        i = i + 1;
    }
    false
}

/// Appends the term for `word` to `out`, after a space unless `out` is empty.
fn push_term(out: &mut String, word: &Vec<char>)
    ensures
        final(out)@ == (if old(out)@.len() == 0 {
            fts5_term(word@)
        } else {
            old(out)@.push(' ') + fts5_term(word@)
        }),
{
    if !out.as_str().is_empty() {
        push_char(out, ' ');
    }
    let ghost start = out@;
    push_char(out, '"');
    let mut i: usize = 0;
    while i < word.len()
        invariant
            i <= word.len(),
            out@ == start.push('"') + escape_quotes(word@.take(i as int)),
        decreases word.len() - i,
    {
        let c = word[i];
        proof {
            assert(word@.take(i + 1).drop_last() == word@.take(i as int));
            assert(word@.take(i + 1).last() == c);
        }
        if c == '"' {
            push_char(out, '"');
        }
        push_char(out, c);
        i = i + 1;
    }
    assert(word@.take(word.len() as int) == word@);
    push_char(out, '"');
    push_char(out, '*');
}

/// Formats a search query for an FTS5 `MATCH`: each whitespace-separated word
/// that holds an alphanumeric character becomes the prefix term `"word"*`
/// (double quotes inside it doubled), and the terms are joined by single
/// spaces. Words without any alphanumeric character are skipped.
pub fn convert_to_fts5_format(query: &str) -> (formatted: String)
    ensures
        formatted@ == fts5_query(query@),
{
    let chars = chars_of(query);
    let mut formatted = String::new();
    let mut word: Vec<char> = Vec::new();
    let mut i: usize = 0;
    while i < chars.len()
        invariant
            i <= chars.len(),
            chars@ == query@,
            word@ == words_state(chars@.take(i as int)).1,
            formatted@ == join_with_spaces(fts5_terms(words_state(chars@.take(i as int)).0)),
        decreases chars.len() - i,
    {
        let c = chars[i];
        let ghost before = words_state(chars@.take(i as int));
        proof {
            assert(chars@.take(i + 1).drop_last() == chars@.take(i as int));
            assert(chars@.take(i + 1).last() == c);
        }
        if is_whitespace_char(c) {
            if word.len() > 0 {
                proof {
                    lemma_emit_word(before.0, before.1);
                }
                if any_alphanumeric(&word) {
                    push_term(&mut formatted, &word);
                }
                word = Vec::new();
            }
        } else {
            word.push(c);
        }
        i = i + 1;
    }
    assert(chars@.take(chars.len() as int) == chars@);
    if word.len() > 0 {
        proof {
            lemma_emit_word(words_state(chars@).0, words_state(chars@).1);
        }
        if any_alphanumeric(&word) {
            push_term(&mut formatted, &word);
        }
    }
    formatted
}

/// `s` with every pair of double quotes collapsed into one.
pub open spec fn unescape_quotes(s: Seq<char>) -> Seq<char>
    decreases s.len(),
{
    if s.len() >= 2 && s.last() == '"' && s[s.len() - 2] == '"' {
        unescape_quotes(s.subrange(0, s.len() - 2)).push('"')
    } else if s.len() > 0 && s.last() != '"' {
        unescape_quotes(s.drop_last()).push(s.last())
    } else {
        s
    }
}

/// A term's quotes can always be read back: collapsing the doubled quotes of
/// an escaped word gives the word again, so a query word can never close the
/// FTS5 string it is placed in.
pub proof fn lemma_escape_quotes_roundtrip(w: Seq<char>)
    ensures
        unescape_quotes(escape_quotes(w)) == w,
    decreases w.len(),
{
    if w.len() > 0 {
        lemma_escape_quotes_roundtrip(w.drop_last());
        let e = escape_quotes(w.drop_last());
        if w.last() == '"' {
            let full = e + seq!['"', '"'];
            assert(full.subrange(0, full.len() - 2) == e);
        } else {
            assert(e.push(w.last()).drop_last() == e);
        }
        assert(w.drop_last().push(w.last()) == w);
    }
}

proof fn lemma_words_state_leading_whitespace(c: char, q: Seq<char>)
    requires
        unicode_white_space(c),
    ensures
        words_state(seq![c] + q) == words_state(q),
    decreases q.len(),
{
    let x = seq![c] + q;
    if q.len() > 0 {
        lemma_words_state_leading_whitespace(c, q.drop_last());
        assert(x.drop_last() == seq![c] + q.drop_last());
        assert(x.last() == q.last());
        assert(words_state(x.drop_last()) == words_state(q.drop_last()));
    } else {
        assert(x == seq![c]);
        assert(x.drop_last() == Seq::<char>::empty());
        assert(words_state(x.drop_last()) == (Seq::<Seq<char>>::empty(), Seq::<char>::empty()));
    }
}

/// Whitespace before a query does not change its FTS5 expression.
pub proof fn lemma_fts5_ignores_leading_whitespace(c: char, query: Seq<char>)
    requires
        unicode_white_space(c),
    ensures
        fts5_query(seq![c] + query) == fts5_query(query),
{
    lemma_words_state_leading_whitespace(c, query);
}

/// A query whose words hold no alphanumeric character (only punctuation and
/// whitespace) gives an empty FTS5 expression.
pub proof fn lemma_fts5_empty_without_alphanumerics(query: Seq<char>)
    requires
        forall|i: int| 0 <= i < query.len() ==> !alphanumeric(#[trigger] query[i]),
    ensures
        fts5_query(query).len() == 0,
{
    lemma_words_have_no_alphanumeric(query);
    let words = split_whitespace(query);
    lemma_terms_of_plain_words(words);
}

proof fn lemma_terms_of_plain_words(words: Seq<Seq<char>>)
    requires
        forall|k: int| 0 <= k < words.len() ==> !has_alphanumeric(#[trigger] words[k]),
    ensures
        fts5_terms(words).len() == 0,
    decreases words.len(),
{
    if words.len() > 0 {
        assert(words.last() == words[words.len() - 1]);
        assert forall|k: int| 0 <= k < words.drop_last().len() implies !has_alphanumeric(
            #[trigger] words.drop_last()[k],
        ) by {
            assert(words.drop_last()[k] == words[k]);
        }
        lemma_terms_of_plain_words(words.drop_last());
    }
}

/// Every character of a word comes from the query.
proof fn lemma_words_state_chars(s: Seq<char>)
    ensures
        forall|k: int, j: int|
            0 <= k < words_state(s).0.len() && 0 <= j < words_state(s).0[k].len() ==> s.contains(
                #[trigger] words_state(s).0[k][j],
            ),
        forall|j: int| 0 <= j < words_state(s).1.len() ==> s.contains(#[trigger] words_state(s).1[j]),
    decreases s.len(),
{
    if s.len() > 0 {
        let p = s.drop_last();
        let c = s.last();
        lemma_words_state_chars(p);
        let (done, cur) = words_state(p);
        assert forall|x: char| p.contains(x) implies s.contains(x) by {
            let i = choose|i: int| 0 <= i < p.len() && p[i] == x;
            assert(s[i] == x);
        }
        assert(s[s.len() - 1] == c);
        assert(s.contains(c));
        let (done2, cur2) = words_state(s);
        assert forall|k: int, j: int| 0 <= k < done2.len() && 0 <= j < done2[k].len() implies s.contains(
            #[trigger] done2[k][j],
        ) by {
            if k < done.len() {
                assert(done2[k] == done[k]);
                assert(p.contains(done[k][j]));
            } else {
                assert(done2[k] == cur);
                assert(p.contains(cur[j]));
            }
        }
        assert forall|j: int| 0 <= j < cur2.len() implies s.contains(#[trigger] cur2[j]) by {
            if j < cur.len() {
                assert(cur2[j] == cur[j]);
                assert(p.contains(cur[j]));
            } else {
                assert(cur2[j] == c);
            }
        }
    }
}

proof fn lemma_words_have_no_alphanumeric(query: Seq<char>)
    requires
        forall|i: int| 0 <= i < query.len() ==> !alphanumeric(#[trigger] query[i]),
    ensures
        forall|k: int| 0 <= k < split_whitespace(query).len() ==> !has_alphanumeric(
            #[trigger] split_whitespace(query)[k],
        ),
{
    lemma_words_state_chars(query);
    let (done, cur) = words_state(query);
    assert forall|k: int| 0 <= k < split_whitespace(query).len() implies !has_alphanumeric(
        #[trigger] split_whitespace(query)[k],
    ) by {
        let w = split_whitespace(query)[k];
        assert forall|j: int| 0 <= j < w.len() implies !alphanumeric(#[trigger] w[j]) by {
            if k < done.len() {
                assert(w == done[k]);
                assert(query.contains(done[k][j]));
            } else {
                assert(w == cur);
                assert(query.contains(cur[j]));
            }
            let i = choose|i: int| 0 <= i < query.len() && query[i] == w[j];
            assert(!alphanumeric(query[i]));
        }
    }
}

} // verus!
