//! Splitting a phrase into whitespace-separated words.
//!
//! The mathematical model is [`tokens`]: the sequence of maximal runs of
//! non-whitespace characters in a string.  Runs of consecutive whitespace
//! collapse, and leading or trailing whitespace contributes nothing.
//! [`split_tokens`] is the executable counterpart.

use vstd::prelude::*;

verus! {

/// A character that separates words in a phrase: the Unicode
/// `White_Space` set, as `char::is_whitespace` recognises it.
pub open spec fn is_space(c: char) -> bool {
    c == ' ' || c == '\t' || c == '\n' || c == '\r' || c == '\u{000B}' || c == '\u{000C}'
        || c == '\u{0085}' || c == '\u{00A0}' || c == '\u{1680}'
        || ('\u{2000}' <= c && c <= '\u{200A}')
        || c == '\u{2028}' || c == '\u{2029}' || c == '\u{202F}' || c == '\u{205F}'
        || c == '\u{3000}'
}

/// Runtime counterpart of [`is_space`].
pub fn is_space_char(c: char) -> (r: bool)
    ensures
        r == is_space(c),
{
    c == ' ' || c == '\t' || c == '\n' || c == '\r' || c == '\u{000B}' || c == '\u{000C}'
        || c == '\u{0085}' || c == '\u{00A0}' || c == '\u{1680}'
        || ('\u{2000}' <= c && c <= '\u{200A}')
        || c == '\u{2028}' || c == '\u{2029}' || c == '\u{202F}' || c == '\u{205F}'
        || c == '\u{3000}'
}

/// A well-formed word: non-empty and free of whitespace.  Every token
/// produced by [`tokens`] has this shape.
pub open spec fn word_wf(w: Seq<char>) -> bool {
    w.len() > 0 && forall|i: int| 0 <= i < w.len() ==> !is_space(#[trigger] w[i])
}

/// The whitespace-separated words of `s`, in order.  Defined by how one
/// more character extends the words of the text before it: whitespace
/// closes the current word, a non-whitespace character either extends the
/// word it follows or starts a new one.
pub open spec fn tokens(s: Seq<char>) -> Seq<Seq<char>>
    decreases s.len(),
{
    if s.len() == 0 {
        Seq::empty()
    } else {
        let prefix = tokens(s.drop_last());
        let c = s.last();
        if is_space(c) {
            prefix
        } else if s.len() >= 2 && !is_space(s[s.len() - 2]) {
            prefix.update(prefix.len() - 1, prefix.last().push(c))
        } else {
            prefix.push(seq![c])
        }
    }
}

/// Every token of any text is a well-formed word, and a text whose last
/// character is not whitespace has at least one token.
pub proof fn lemma_tokens_wf(s: Seq<char>)
    ensures
        forall|k: int| 0 <= k < tokens(s).len() ==> word_wf(#[trigger] tokens(s)[k]),
        s.len() > 0 && !is_space(s.last()) ==> tokens(s).len() > 0,
    decreases s.len(),
{
    if s.len() == 0 {
    } else {
        let t = s.drop_last();
        let prefix = tokens(t);
        let c = s.last();
        lemma_tokens_wf(t);
        if is_space(c) {
        } else if s.len() >= 2 && !is_space(s[s.len() - 2]) {
            assert(t.len() > 0 && !is_space(t.last()));
            let ext = prefix.last().push(c);
            assert(word_wf(prefix[prefix.len() - 1]));
            assert(forall|i: int| 0 <= i < ext.len() ==> !is_space(#[trigger] ext[i]));
            assert(forall|k: int| 0 <= k < tokens(s).len() ==> word_wf(
                #[trigger] tokens(s)[k],
            ));
        } else {
            assert(word_wf(seq![c]));
        }
    }
}

/// A text with a non-whitespace character somewhere has at least one token.
pub proof fn lemma_tokens_nonempty(s: Seq<char>, i: int)
    requires
        0 <= i < s.len(),
        !is_space(s[i]),
    ensures
        tokens(s).len() > 0,
    decreases s.len(),
{
    if is_space(s.last()) {
        assert(i < s.len() - 1);
        assert(s.drop_last()[i] == s[i]);
        lemma_tokens_nonempty(s.drop_last(), i);
    } else {
        lemma_tokens_wf(s);
    }
}

/// Splits `s` into its whitespace-separated words.
pub fn split_tokens(s: &str) -> (toks: Vec<String>)
    ensures
        toks.deep_view() == tokens(s@),
{
    if s.is_ascii() {
        split_tokens_ascii(s)
    } else {
        split_tokens_general(s)
    }
}

/// Splits an ASCII string; byte indexing makes this a single linear pass.
fn split_tokens_ascii(s: &str) -> (toks: Vec<String>)
    requires
        s.is_ascii(),
    ensures
        toks.deep_view() == tokens(s@),
{
    let n = s.as_bytes().len();
    proof {
        vstd::string::is_ascii_spec_bytes(s);
    }
    assert(n == s@.len());
    let mut toks: Vec<String> = Vec::new();
    let mut start: Option<usize> = None;
    let mut i: usize = 0;
    while i < n
        invariant
            s.is_ascii(),
            n == s@.len(),
            i <= n,
            match start {
                Some(a) => a < i && !is_space(s@[i - 1]) && tokens(s@.take(i as int))
                    =~~= toks.deep_view().push(s@.subrange(a as int, i as int)),
                None => (i == 0 || is_space(s@[i - 1])) && tokens(s@.take(i as int))
                    =~~= toks.deep_view(),
            },
        decreases n - i,
    {
        let b = s.get_ascii(i);
        let sp = b == 32 || b == 9 || b == 10 || b == 13 || b == 11 || b == 12;
        proof {
            let c = s@[i as int];
            assert('\0' <= c <= '\u{7f}');
            assert(sp == is_space(c));
            assert(s@.take(i + 1).drop_last() =~= s@.take(i as int));
            assert(s@.take(i + 1).last() == s@[i as int]);
            if i >= 1 {
                assert(s@.take(i + 1)[i - 1] == s@[i - 1]);
            }
        }
        if sp {
            if let Some(a) = start {
                let w = s.substring_ascii(a, i).to_owned();
                let ghost old_toks = toks.deep_view();
                toks.push(w);
                proof {
                    assert(toks.deep_view() =~~= old_toks.push(s@.subrange(a as int, i as int)));
                    assert(tokens(s@.take(i + 1)) =~~= toks.deep_view());
                }
                start = None;
            }
        } else {
            match start {
                Some(a) => {
                    proof {
                        let prefix = tokens(s@.take(i as int));
                        assert(prefix.len() > 0);
                        assert(prefix.last() =~= s@.subrange(a as int, i as int));
                        assert(s@.subrange(a as int, i as int).push(s@[i as int]) =~= s@.subrange(
                            a as int,
                            i + 1,
                        ));
                        assert(tokens(s@.take(i + 1)) =~~= toks.deep_view().push(
                            s@.subrange(a as int, i + 1),
                        ));
                    }
                },
                None => {
                    proof {
                        assert(seq![s@[i as int]] =~= s@.subrange(i as int, i + 1));
                        assert(tokens(s@.take(i + 1)) =~~= toks.deep_view().push(
                            s@.subrange(i as int, i + 1),
                        ));
                    }
                    start = Some(i);
                },
            }
        }
        i = i + 1;
    }
    if let Some(a) = start {
        let w = s.substring_ascii(a, n).to_owned();
        let ghost old_toks = toks.deep_view();
        toks.push(w);
        proof {
            assert(toks.deep_view() =~~= old_toks.push(s@.subrange(a as int, n as int)));
        }
    }
    proof {
        assert(s@.take(n as int) =~= s@);
    }
    toks
}

/// Splits a string that may hold characters outside ASCII.
fn split_tokens_general(s: &str) -> (toks: Vec<String>)
    ensures
        toks.deep_view() == tokens(s@),
{
    let n = s.unicode_len();
    let mut toks: Vec<String> = Vec::new();
    let mut start: Option<usize> = None;
    let mut i: usize = 0;
    while i < n
        invariant
            n == s@.len(),
            i <= n,
            match start {
                Some(a) => a < i && !is_space(s@[i - 1]) && tokens(s@.take(i as int))
                    =~~= toks.deep_view().push(s@.subrange(a as int, i as int)),
                None => (i == 0 || is_space(s@[i - 1])) && tokens(s@.take(i as int))
                    =~~= toks.deep_view(),
            },
        decreases n - i,
    {
        let c = s.get_char(i);
        proof {
            assert(s@.take(i + 1).drop_last() =~= s@.take(i as int));
            assert(s@.take(i + 1).last() == s@[i as int]);
            if i >= 1 {
                assert(s@.take(i + 1)[i - 1] == s@[i - 1]);
            }
        }
        if is_space_char(c) {
            if let Some(a) = start {
                let w = s.substring_char(a, i).to_owned();
                let ghost old_toks = toks.deep_view();
                toks.push(w);
                proof {
                    assert(toks.deep_view() =~~= old_toks.push(s@.subrange(a as int, i as int)));
                    assert(tokens(s@.take(i + 1)) =~~= toks.deep_view());
                }
                start = None;
            }
        } else {
            match start {
                Some(a) => {
                    proof {
                        let prefix = tokens(s@.take(i as int));
                        assert(prefix.len() > 0);
                        assert(prefix.last() =~= s@.subrange(a as int, i as int));
                        assert(s@.subrange(a as int, i as int).push(s@[i as int]) =~= s@.subrange(
                            a as int,
                            i + 1,
                        ));
                        assert(tokens(s@.take(i + 1)) =~~= toks.deep_view().push(
                            s@.subrange(a as int, i + 1),
                        ));
                    }
                },
                None => {
                    proof {
                        assert(seq![s@[i as int]] =~= s@.subrange(i as int, i + 1));
                        assert(tokens(s@.take(i + 1)) =~~= toks.deep_view().push(
                            s@.subrange(i as int, i + 1),
                        ));
                    }
                    start = Some(i);
                },
            }
        }
        i = i + 1;
    }
    if let Some(a) = start {
        let w = s.substring_char(a, n).to_owned();
        let ghost old_toks = toks.deep_view();
        toks.push(w);
        proof {
            assert(toks.deep_view() =~~= old_toks.push(s@.subrange(a as int, n as int)));
        }
    }
    proof {
        assert(s@.take(n as int) =~= s@);
    }
    toks
}


/// The words of `ws` joined by single spaces, with no leading or
/// trailing whitespace: the shape of a generated phrase.
pub open spec fn joined(ws: Seq<Seq<char>>) -> Seq<char>
    decreases ws.len(),
{
    if ws.len() == 0 {
        Seq::empty()
    } else if ws.len() == 1 {
        ws[0]
    } else {
        joined(ws.drop_last()) + seq![' '] + ws.last()
    }
}

/// Trailing whitespace contributes no token.
pub proof fn lemma_tokens_append_spaces(a: Seq<char>, gap: Seq<char>)
    requires
        forall|i: int| 0 <= i < gap.len() ==> is_space(#[trigger] gap[i]),
    ensures
        tokens(a + gap) == tokens(a),
    decreases gap.len(),
{
    if gap.len() == 0 {
        assert(a + gap =~= a);
    } else {
        let s = a + gap;
        assert(s.last() == gap.last());
        assert(s.drop_last() =~= a + gap.drop_last());
        lemma_tokens_append_spaces(a, gap.drop_last());
    }
}

/// A word appended after a non-empty run of whitespace is one further
/// token, whatever the run's length: consecutive separators collapse.
pub proof fn lemma_tokens_append_gap_word(a: Seq<char>, gap: Seq<char>, w: Seq<char>)
    requires
        gap.len() > 0,
        forall|i: int| 0 <= i < gap.len() ==> is_space(#[trigger] gap[i]),
        word_wf(w),
    ensures
        tokens(a + gap + w) == tokens(a).push(w),
    decreases w.len(),
{
    let s = a + gap + w;
    assert(s.last() == w.last());
    assert(!is_space(w.last()));
    if w.len() == 1 {
        assert(s[s.len() - 2] == gap.last());
        assert(s.drop_last() =~= a + gap);
        lemma_tokens_append_spaces(a, gap);
        assert(seq![s.last()] =~= w);
        assert(tokens(s) =~~= tokens(a).push(w));
    } else {
        assert(s[s.len() - 2] == w[w.len() - 2]);
        assert(!is_space(w[w.len() - 2]));
        assert(s.drop_last() =~= a + gap + w.drop_last());
        assert(word_wf(w.drop_last()));
        lemma_tokens_append_gap_word(a, gap, w.drop_last());
        let prefix = tokens(a).push(w.drop_last());
        assert(prefix.last().push(s.last()) =~= w);
        assert(tokens(s) =~~= tokens(a).push(w));
    }
}

/// A single well-formed word is its own token list.
pub proof fn lemma_tokens_of_word(w: Seq<char>)
    requires
        word_wf(w),
    ensures
        tokens(w) == seq![w],
    decreases w.len(),
{
    if w.len() == 1 {
        assert(w.drop_last() =~= Seq::<char>::empty());
        assert(tokens(Seq::<char>::empty()) == Seq::<Seq<char>>::empty());
        assert(seq![w.last()] =~= w);
        assert(tokens(w) =~~= seq![w]);
    } else {
        assert(w[w.len() - 2] == w.drop_last().last());
        assert(!is_space(w[w.len() - 2]));
        assert(word_wf(w.drop_last()));
        lemma_tokens_of_word(w.drop_last());
        assert(w.drop_last().push(w.last()) =~= w);
        assert(tokens(w) =~~= seq![w]);
    }
}

/// Joining well-formed words with single spaces and splitting again
/// gives the words back.
pub proof fn lemma_tokens_of_joined(ws: Seq<Seq<char>>)
    requires
        forall|k: int| 0 <= k < ws.len() ==> word_wf(#[trigger] ws[k]),
    ensures
        tokens(joined(ws)) == ws,
    decreases ws.len(),
{
    if ws.len() == 0 {
        assert(tokens(joined(ws)) =~~= ws);
    } else if ws.len() == 1 {
        lemma_tokens_of_word(ws[0]);
        assert(tokens(joined(ws)) =~~= ws);
    } else {
        let p = ws.drop_last();
        assert(forall|k: int| 0 <= k < p.len() ==> word_wf(#[trigger] p[k]));
        lemma_tokens_of_joined(p);
        lemma_tokens_append_gap_word(joined(p), seq![' '], ws.last());
        assert(tokens(joined(ws)) =~~= ws);
    }
}

/// Every character of a joined phrase is either a single ASCII space or
/// a non-whitespace character of one of its words.
pub proof fn lemma_joined_chars(ws: Seq<Seq<char>>)
    requires
        forall|k: int| 0 <= k < ws.len() ==> word_wf(#[trigger] ws[k]),
    ensures
        forall|i: int| 0 <= i < joined(ws).len() ==> (#[trigger] joined(ws)[i] == ' '
            || !is_space(joined(ws)[i])),
    decreases ws.len(),
{
    if ws.len() == 0 {
    } else if ws.len() == 1 {
        assert(word_wf(ws[0]));
    } else {
        let p = joined(ws.drop_last());
        let wl = ws.last();
        assert(forall|k: int| 0 <= k < ws.drop_last().len() ==> word_wf(
            #[trigger] ws.drop_last()[k],
        ));
        lemma_joined_chars(ws.drop_last());
        assert(word_wf(wl));
        assert forall|i: int| 0 <= i < joined(ws).len() implies (#[trigger] joined(ws)[i] == ' '
            || !is_space(joined(ws)[i])) by {
            if i < p.len() {
                assert(joined(ws)[i] == p[i]);
            } else if i == p.len() {
                assert(joined(ws)[i] == ' ');
            } else {
                assert(joined(ws)[i] == wl[i - p.len() - 1]);
                assert(!is_space(wl[i - p.len() - 1]));
            }
        }
    }
}

} // verus!
