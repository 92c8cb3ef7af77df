//! Brain-wallet passphrase generation and validation.
//!
//! A passphrase is a run of words drawn from a fixed, compiled-in
//! dictionary.  The library generates such phrases from the operating
//! system's secure random source and validates candidate phrases against
//! the dictionary and a caller-supplied minimum word count.

pub mod dictionary;
pub mod digits;
pub mod tokenize;

use vstd::prelude::*;

use crate::dictionary::{
    dictionary, in_dictionary, dictionary_words, contains_word, lemma_dictionary_words_wf,
    lemma_dictionary_nonempty,
};
use crate::digits::{dec_digits, to_decimal};
use crate::tokenize::{
    tokens, word_wf, joined, is_space, split_tokens, lemma_tokens_of_joined, lemma_joined_chars,
};

verus! {

/// Why a phrase failed validation.
#[derive(Debug, Clone, PartialEq)]
pub enum Error {
    /// The phrase has fewer words than were asked for; carries the
    /// observed word count.
    PhraseTooShort(usize),
    /// A word of the phrase does not come from the dictionary; carries
    /// that word.
    WordNotFromDictionary(String),
}

impl Error {
    /// The human-readable description of the error.
    pub fn message(&self) -> (s: String)
        ensures
            s@ == match self {
                Error::PhraseTooShort(n) => "The phrase is too short ("@ + dec_digits(*n as nat)
                    + ")"@,
                Error::WordNotFromDictionary(w) => "The word '"@ + w@
                    + "' does not come from the dictionary."@,
            },
    {
        match self {
            Error::PhraseTooShort(n) => {
                let mut s = String::from_str("The phrase is too short (");
                let d = to_decimal(*n);
                s.append(d.as_str());
                s.append(")");
                s
            },
            Error::WordNotFromDictionary(w) => {
                let mut s = String::from_str("The word '");
                s.append(w.as_str());
                s.append("' does not come from the dictionary.");
                s
            },
        }
    }
}

/// Index of the first token that is not a dictionary word, or the token
/// count when every token is one.
pub open spec fn first_unknown(toks: Seq<Seq<char>>) -> int
    decreases toks.len(),
{
    if toks.len() == 0 {
        0
    } else if !in_dictionary(toks[0]) {
        0
    } else {
        1 + first_unknown(toks.drop_first())
    }
}

/// What [`first_unknown`] points at: it never passes an unknown word, and
/// it stops at one if there is any.
pub proof fn lemma_first_unknown(toks: Seq<Seq<char>>)
    ensures
        0 <= first_unknown(toks) <= toks.len(),
        forall|k: int| 0 <= k < first_unknown(toks) ==> in_dictionary(#[trigger] toks[k]),
        first_unknown(toks) < toks.len() ==> !in_dictionary(toks[first_unknown(toks)]),
    decreases toks.len(),
{
    if toks.len() == 0 {
    } else if !in_dictionary(toks[0]) {
    } else {
        let rest = toks.drop_first();
        lemma_first_unknown(rest);
        assert forall|k: int| 0 <= k < first_unknown(toks) implies in_dictionary(
            #[trigger] toks[k],
        ) by {
            if k >= 1 {
                assert(toks[k] == rest[k - 1]);
            }
        }
        if first_unknown(toks) < toks.len() {
            assert(toks[first_unknown(toks)] == rest[first_unknown(rest)]);
        }
    }
}

/// What validation of a phrase must report.
pub enum Verdict {
    /// Every word is known and the count suffices.
    Accepted,
    /// Every word is known but there are fewer than asked for; carries
    /// the count.
    TooShort(int),
    /// Some word is unknown; carries the first such word.
    UnknownWord(Seq<char>),
}

/// The verdict for a phrase and a requested minimum word count: an
/// unknown word is reported before a short count.
pub open spec fn verdict(phrase: Seq<char>, expected: int) -> Verdict {
    let toks = tokens(phrase);
    let fu = first_unknown(toks);
    if fu < toks.len() {
        Verdict::UnknownWord(toks[fu])
    } else if toks.len() < expected {
        Verdict::TooShort(toks.len() as int)
    } else {
        Verdict::Accepted
    }
}

/// The validator's contract: which results stand for which verdict.
pub open spec fn validation_post(phrase: Seq<char>, expected: int, r: Result<(), Error>) -> bool {
    match r {
        Ok(()) => verdict(phrase, expected) == Verdict::Accepted,
        Err(Error::PhraseTooShort(n)) => verdict(phrase, expected) == Verdict::TooShort(n as int),
        Err(Error::WordNotFromDictionary(w)) => verdict(phrase, expected) == Verdict::UnknownWord(
            w@,
        ),
    }
}

/// Validates the given phrase: checks that every whitespace-separated
/// word comes from the dictionary, in order, and then that there are at
/// least `expected_no_of_words` words.  The first unknown word wins over
/// a short count.
pub fn validate_phrase(phrase: &str, expected_no_of_words: usize) -> (r: Result<(), Error>)
    ensures
        validation_post(phrase@, expected_no_of_words as int, r),
{
    let words = dictionary_words();
    let toks = split_tokens(phrase);
    let mut i: usize = 0;
    while i < toks.len()
        invariant
            words.deep_view() == dictionary(),
            toks.deep_view() == tokens(phrase@),
            i <= toks.len(),
            forall|k: int| 0 <= k < i ==> in_dictionary(#[trigger] tokens(phrase@)[k]),
        decreases toks.len() - i,
    {
        assert(toks[i as int]@ == tokens(phrase@)[i as int]);
        if !contains_word(&words, &toks[i]) {
            proof {
                let gtoks = tokens(phrase@);
                lemma_first_unknown(gtoks);
                let fu = first_unknown(gtoks);
                assert(!(fu < i) && !(fu > i)) by {
                    if fu < i {
                        assert(in_dictionary(gtoks[fu]));
                    }
                    if fu > i {
                        assert(in_dictionary(gtoks[i as int]));
                    }
                }
            }
            return Err(Error::WordNotFromDictionary(toks[i].clone()));
        }
        i = i + 1;
    }
    proof {
        let gtoks = tokens(phrase@);
        lemma_first_unknown(gtoks);
        if first_unknown(gtoks) < gtoks.len() {
            assert(in_dictionary(gtoks[first_unknown(gtoks)]));
        }
    }
    if toks.len() < expected_no_of_words {
        return Err(Error::PhraseTooShort(toks.len()));
    }
    Ok(())
}


/// Relies on `rand::Rng::gen_range` over `rand::rngs::OsRng`, the
/// operating system's cryptographically secure random source: returns a
/// uniformly distributed index below `upper`.  Only the bound is stated;
/// the distribution cannot be modelled here.  `gen_range` panics only on
/// an empty range, which the precondition rules out.
#[verifier::external_body]
fn random_index(upper: usize) -> (r: usize)
    requires
        upper > 0,
    ensures
        r < upper,
{
    rand::Rng::gen_range(&mut rand::rngs::OsRng, 0..upper)
}

/// Generates a phrase of `no_of_words` words drawn at random from the
/// dictionary and joined by single ASCII spaces: exactly `no_of_words`
/// whitespace-separated words, each from the dictionary, with no leading
/// or trailing whitespace and never a carriage return.  With a dictionary
/// of `s` words, such a phrase carries `no_of_words * log2(s)` bits of
/// entropy under uniform independent sampling.
pub fn random_phrase(no_of_words: usize) -> (r: String)
    ensures
        tokens(r@).len() == no_of_words,
        forall|k: int| 0 <= k < tokens(r@).len() ==> in_dictionary(#[trigger] tokens(r@)[k]),
        r@ == joined(tokens(r@)),
        forall|i: int| 0 <= i < r@.len() ==> #[trigger] r@[i] != '\r',
{
    let words = dictionary_words();
    proof {
        lemma_dictionary_nonempty();
        lemma_dictionary_words_wf();
    }
    let mut phrase = String::new();
    let ghost mut chosen: Seq<Seq<char>> = Seq::empty();
    let mut i: usize = 0;
    while i < no_of_words
        invariant
            words.deep_view() == dictionary(),
            dictionary().len() > 0,
            forall|k: int| 0 <= k < dictionary().len() ==> word_wf(#[trigger] dictionary()[k]),
            i <= no_of_words,
            chosen.len() == i,
            forall|k: int| 0 <= k < chosen.len() ==> in_dictionary(#[trigger] chosen[k]),
            forall|k: int| 0 <= k < chosen.len() ==> word_wf(#[trigger] chosen[k]),
            phrase@ == joined(chosen),
        decreases no_of_words - i,
    {
        let idx = random_index(words.len());
        if i > 0 {
            phrase.append(" ");
        }
        phrase.append(words[idx].as_str());
        proof {
            let w = words.deep_view()[idx as int];
            assert(in_dictionary(w));
            if i == 0 {
                assert(joined(chosen.push(w)) == w);
            } else {
                reveal_strlit(" ");
                assert(" "@ =~= seq![' ']);
                assert(chosen.push(w).drop_last() =~= chosen);
                assert(joined(chosen.push(w)) == joined(chosen) + seq![' '] + w);
            }
            chosen = chosen.push(w);
        }
        i = i + 1;
    }
    proof {
        lemma_tokens_of_joined(chosen);
        lemma_joined_chars(chosen);
        assert forall|j: int| 0 <= j < phrase@.len() implies #[trigger] phrase@[j] != '\r' by {
            assert(phrase@[j] == ' ' || !is_space(phrase@[j]));
            assert(is_space('\r'));
        }
    }
    phrase
}

/// A phrase whose words all come from the dictionary and number at least
/// the requested minimum is accepted: generating a phrase of `n` words
/// and validating it against a minimum of `n` succeeds.
pub proof fn lemma_generated_phrase_accepted(phrase: Seq<char>, expected: int)
    requires
        forall|k: int| 0 <= k < tokens(phrase).len() ==> in_dictionary(
            #[trigger] tokens(phrase)[k],
        ),
        tokens(phrase).len() >= expected,
    ensures
        verdict(phrase, expected) == Verdict::Accepted,
{
    let toks = tokens(phrase);
    lemma_first_unknown(toks);
    if first_unknown(toks) < toks.len() {
        assert(in_dictionary(toks[first_unknown(toks)]));
    }
}

/// An unknown word wins over a short count: whatever minimum is asked
/// for, a phrase with a word from outside the dictionary is reported as
/// `WordNotFromDictionary`, never as `PhraseTooShort`.
pub proof fn lemma_unknown_word_wins(phrase: Seq<char>, expected: int)
    requires
        exists|k: int|
            0 <= k < tokens(phrase).len() && !in_dictionary(#[trigger] tokens(phrase)[k]),
    ensures
        verdict(phrase, expected) == Verdict::UnknownWord(
            tokens(phrase)[first_unknown(tokens(phrase))],
        ),
{
    let toks = tokens(phrase);
    lemma_first_unknown(toks);
    let k = choose|k: int| 0 <= k < toks.len() && !in_dictionary(#[trigger] toks[k]);
    if first_unknown(toks) == toks.len() {
        assert(in_dictionary(toks[k]));
    }
}

/// Validation is a pure function of the phrase and the minimum: any two
/// results that the validator's contract allows for the same inputs
/// agree, variant and payload alike.
pub proof fn lemma_validation_deterministic(
    phrase: Seq<char>,
    expected: int,
    r1: Result<(), Error>,
    r2: Result<(), Error>,
)
    requires
        validation_post(phrase, expected, r1),
        validation_post(phrase, expected, r2),
    ensures
        match (r1, r2) {
            (Ok(()), Ok(())) => true,
            (Err(Error::PhraseTooShort(a)), Err(Error::PhraseTooShort(b))) => a == b,
            (Err(Error::WordNotFromDictionary(u)), Err(Error::WordNotFromDictionary(v))) => u@
                == v@,
            _ => false,
        },
{
}

} // verus!
