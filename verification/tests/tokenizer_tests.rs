use rups::tokenizer::{join_sentence, join_words, split_sentence};

fn owned(words: &[&str]) -> Vec<String> {
    words.iter().map(|w| w.to_string()).collect()
}

#[test]
fn test_split() {
    assert_eq!(
        split_sentence("AbC dEf GHi"),
        Some(owned(&["AbC", "dEf", "GHi"]))
    );
    assert_eq!(
        split_sentence("\"AbC dEf\" GHi"),
        Some(owned(&["AbC dEf", "GHi"]))
    );
    assert_eq!(split_sentence("\"AbC dEf GHi"), None);
}

#[test]
fn test_join() {
    assert_eq!(join_sentence(&owned(&["AbC", "dEf", "GHi"])), "AbC dEf GHi\n");
    assert_eq!(join_sentence(&owned(&["AbC dEf", "GHi"])), "'AbC dEf' GHi\n");
    assert_eq!(
        join_sentence(&owned(&["\"AbC dEf", "GHi"])),
        "'\"AbC dEf' GHi\n"
    );
}

#[test]
fn join_quotes_words_with_single_quotes() {
    // a word holding a single quote goes into double quotes, with escapes
    assert_eq!(join_words(&owned(&["it's"])), "\"it's\"");
    assert_eq!(join_words(&owned(&["a'b\"c"])), "\"a'b\\\"c\"");
    // an empty word must still appear on the wire
    assert_eq!(join_words(&owned(&[""])), "''");
}

#[test]
fn split_handles_quotes_and_escapes() {
    assert_eq!(split_sentence("\"it's\""), Some(owned(&["it's"])));
    assert_eq!(split_sentence("\"a'b\\\"c\""), Some(owned(&["a'b\"c"])));
    assert_eq!(split_sentence("''"), Some(owned(&[""])));
    assert_eq!(split_sentence("'unclosed"), None);
    assert_eq!(split_sentence("\"dangling\\"), None);
    assert_eq!(split_sentence("a\nb\n"), Some(owned(&["a", "b"])));
    assert_eq!(split_sentence(""), Some(owned(&[])));
}

#[test]
fn split_join_roundtrip_samples() {
    let samples: Vec<Vec<String>> = vec![
        owned(&[]),
        owned(&["one"]),
        owned(&["AbC", "dEf", "GHi"]),
        owned(&["spaced out", "plain", ""]),
        owned(&["it's", "a'b\"c", "tab\there"]),
        owned(&["back\\slash", "'quoted'"]),
    ];
    for words in samples {
        let line = join_sentence(&words);
        assert_eq!(split_sentence(&line), Some(words));
    }
}
