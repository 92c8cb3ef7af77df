use brain_wallet::dictionary::{contains_word, dictionary_words};
use brain_wallet::digits::to_decimal;
use brain_wallet::tokenize::split_tokens;
use brain_wallet::{random_phrase, validate_phrase, Error};

#[test]
fn should_produce_right_number_of_words() {
    let p = random_phrase(10);
    assert_eq!(p.split(" ").count(), 10);
}

#[test]
fn should_not_include_carriage_return() {
    let p = random_phrase(10);
    assert!(!p.contains('\r'), "Carriage return should be trimmed.");
}

#[test]
fn should_validate_the_phrase() {
    let p = random_phrase(10);

    assert_eq!(validate_phrase(&p, 10), Ok(()));
    assert_eq!(validate_phrase(&p, 12), Err(Error::PhraseTooShort(10)));
    assert_eq!(
        validate_phrase("xxx", 0),
        Err(Error::WordNotFromDictionary("xxx".into()))
    );
}

#[test]
fn round_trip_for_several_lengths() {
    for n in [0usize, 1, 2, 5, 20] {
        let p = random_phrase(n);
        assert_eq!(validate_phrase(&p, n), Ok(()));
    }
}

#[test]
fn empty_phrase_has_no_words() {
    assert_eq!(random_phrase(0), "");
    assert_eq!(validate_phrase("", 0), Ok(()));
    assert_eq!(validate_phrase("", 1), Err(Error::PhraseTooShort(0)));
    assert_eq!(validate_phrase("   \t\n", 1), Err(Error::PhraseTooShort(0)));
}

#[test]
fn consecutive_whitespace_collapses() {
    assert_eq!(validate_phrase("abandon  ability", 2), Ok(()));
    assert_eq!(validate_phrase("\t abandon \n  ability  ", 2), Ok(()));
    assert_eq!(
        validate_phrase("abandon  ability", 3),
        Err(Error::PhraseTooShort(2))
    );
}

#[test]
fn unicode_whitespace_separates_words() {
    assert_eq!(validate_phrase("abandon\u{00A0}ability", 2), Ok(()));
    assert_eq!(validate_phrase("abandon\u{2003}ability", 2), Ok(()));
}

#[test]
fn first_unknown_word_is_reported() {
    assert_eq!(
        validate_phrase("abandon zzzz qqqq", 0),
        Err(Error::WordNotFromDictionary("zzzz".into()))
    );
}

#[test]
fn unknown_word_wins_over_short_count() {
    assert_eq!(
        validate_phrase("abandon zzzz", 10),
        Err(Error::WordNotFromDictionary("zzzz".into()))
    );
    assert_eq!(
        validate_phrase("zzzz", 10),
        Err(Error::WordNotFromDictionary("zzzz".into()))
    );
}

#[test]
fn validation_is_repeatable() {
    for (phrase, n) in [("abandon ability", 2usize), ("abandon zzzz", 3), ("", 1)] {
        let first = validate_phrase(phrase, n);
        let second = validate_phrase(phrase, n);
        assert_eq!(first, second);
    }
}

#[test]
fn dictionary_is_exposed_and_ordered() {
    let words = dictionary_words();
    assert!(words.len() >= 1000);
    assert_eq!(words[0], "abandon");
    assert!(contains_word(&words, &"zebra".to_string()));
    assert!(!contains_word(&words, &"xxx".to_string()));
    for w in &words {
        assert!(!w.is_empty());
        assert!(w.chars().all(|c| c.is_ascii_lowercase()));
    }
}

#[test]
fn generated_words_come_from_the_dictionary() {
    let words = dictionary_words();
    let p = random_phrase(12);
    let mut count = 0;
    for w in p.split_whitespace() {
        count += 1;
        assert!(contains_word(&words, &w.to_string()), "unknown word: {}", w);
    }
    assert_eq!(count, 12);
}

#[test]
fn split_tokens_drops_all_whitespace() {
    assert_eq!(split_tokens("  a  bb\tccc\n"), vec!["a", "bb", "ccc"]);
    assert_eq!(split_tokens(""), Vec::<String>::new());
    assert_eq!(split_tokens(" \t "), Vec::<String>::new());
    assert_eq!(split_tokens("caf\u{00E9} au lait"), vec!["caf\u{00E9}", "au", "lait"]);
}

#[test]
fn error_messages_match_the_templates() {
    assert_eq!(
        Error::PhraseTooShort(10).message(),
        "The phrase is too short (10)"
    );
    assert_eq!(
        Error::PhraseTooShort(0).message(),
        "The phrase is too short (0)"
    );
    assert_eq!(
        Error::WordNotFromDictionary("xxx".into()).message(),
        "The word 'xxx' does not come from the dictionary."
    );
}

#[test]
fn decimal_rendering_is_exact() {
    assert_eq!(to_decimal(0), "0");
    assert_eq!(to_decimal(7), "7");
    assert_eq!(to_decimal(10), "10");
    assert_eq!(to_decimal(99), "99");
    assert_eq!(to_decimal(100), "100");
    assert_eq!(to_decimal(120450), "120450");
}
