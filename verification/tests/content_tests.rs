use matrix_goose::content::{
    append_decimal, display_name, first_words, message_word_count, random_display_name,
    random_reaction, reaction, DISPLAY_NAME_NUMBERS, REACTION_COUNT,
};
use matrix_goose::settings::HttpSettings;

const TEXT: &str = "Lorem ipsum dolor sit amet, consectetur adipiscing elit";

fn decimal(n: usize) -> String {
    let mut text = String::new();
    append_decimal(&mut text, n);
    text
}

#[test]
fn word_count_is_at_least_one_and_at_most_all() {
    assert_eq!(message_word_count(0, 69), 1);
    assert_eq!(message_word_count(1, 69), 1);
    assert_eq!(message_word_count(3, 69), 3);
    assert_eq!(message_word_count(69, 69), 69);
    assert_eq!(message_word_count(70, 69), 69);
    assert_eq!(message_word_count(usize::MAX, 69), 69);
    assert_eq!(message_word_count(5, 1), 1);
    assert_eq!(message_word_count(5, 0), 1);
    assert_eq!(message_word_count(0, 0), 1);
}

#[test]
fn first_words_are_a_prefix_of_the_text() {
    assert_eq!(first_words(TEXT, 0), "");
    assert_eq!(first_words(TEXT, 1), "Lorem");
    assert_eq!(first_words(TEXT, 2), "Lorem ipsum");
    assert_eq!(first_words(TEXT, 5), "Lorem ipsum dolor sit amet,");
    assert_eq!(first_words(TEXT, 8), TEXT);
    assert_eq!(first_words(TEXT, 9), TEXT);
    assert_eq!(first_words(TEXT, usize::MAX), TEXT);
}

#[test]
fn first_words_agree_with_split_and_join() {
    for text in [TEXT, "a  b", " a", "a ", "", " ", "  ", "ab", "ä ö ü"] {
        let words: Vec<&str> = text.split(" ").collect();
        for count in 0..=words.len() {
            assert_eq!(first_words(text, count), words[0..count].join(" "), "{:?} {}", text, count);
        }
    }
}

#[test]
fn decimal_digits() {
    assert_eq!(decimal(0), "0");
    assert_eq!(decimal(7), "7");
    assert_eq!(decimal(10), "10");
    assert_eq!(decimal(999), "999");
    assert_eq!(decimal(1_234_567_890), "1234567890");
    assert_eq!(decimal(usize::MAX), usize::MAX.to_string());
    let mut text = "n=".to_string();
    append_decimal(&mut text, 42);
    assert_eq!(text, "n=42");
}

#[test]
fn display_name_takes_the_last_segment() {
    assert_eq!(display_name("user.0001", 17), "User 0001 (random=17)");
    assert_eq!(display_name("a.b.c", 1), "User c (random=1)");
    assert_eq!(display_name("alice", 999), "User alice (random=999)");
    assert_eq!(display_name("alice.", 5), "User  (random=5)");
    assert_eq!(display_name(".alice", 5), "User alice (random=5)");
    assert_eq!(display_name("", 0), "User  (random=0)");
    assert_eq!(display_name("jürgen.müller", 12), "User müller (random=12)");
}

#[test]
fn random_display_name_has_a_number_in_range() {
    assert_eq!(DISPLAY_NAME_NUMBERS, 999);
    for _ in 0..500 {
        let name = random_display_name("user.0042");
        let number: usize = name
            .strip_prefix("User 0042 (random=")
            .and_then(|rest| rest.strip_suffix(")"))
            .and_then(|digits| digits.parse().ok())
            .unwrap();
        assert!(number >= 1 && number <= 999);
    }
}

#[test]
fn reactions_by_position() {
    assert_eq!(REACTION_COUNT, 7);
    let all = ["💩", "👍", "❤️", "👎", "🤯", "😱", "👏"];
    for (i, key) in all.iter().enumerate() {
        assert_eq!(reaction(i), *key);
    }
    for _ in 0..200 {
        assert!(all.contains(&random_reaction()));
    }
}

#[test]
fn default_settings() {
    let settings = HttpSettings::default();
    assert!(!settings.disable_ssl_verification);
    assert_eq!(settings.proxy, None);
    assert_eq!(settings.user_agent, None);
    assert_eq!(settings.timeout, 60_000_000_000);
    assert_eq!(settings.effective_user_agent(), "matrix-rust-sdk");
    let named = HttpSettings { user_agent: Some("loadtest/1".to_string()), ..settings };
    assert_eq!(named.effective_user_agent(), "loadtest/1");
}
