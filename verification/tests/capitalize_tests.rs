use cmos_rtc::capitalize::{
    capitalize_first, capitalize_words_string, capitalize_words_vector, join_capitalized,
};

#[test]
fn test_success() {
    assert_eq!(capitalize_first("hello"), "Hello");
}

#[test]
fn test_empty() {
    assert_eq!(capitalize_first(""), "");
}

#[test]
fn test_iterate_string_vec() {
    let words = vec!["hello", "world"];
    assert_eq!(capitalize_words_vector(&words), ["Hello", "World"]);
}

#[test]
fn test_iterate_into_string() {
    let words = vec!["hello", " ", "world"];
    assert_eq!(capitalize_words_string(&words), "Hello World");
}

#[test]
fn capitalize_keeps_the_rest_of_the_word() {
    assert_eq!(capitalize_first("hELLO wORLD"), "HELLO wORLD");
    assert_eq!(capitalize_first("1abc"), "1abc");
    assert_eq!(capitalize_first("a"), "A");
}

#[test]
fn capitalize_uses_the_full_uppercase_mapping() {
    // The uppercase mapping of 'ß' is two characters.
    assert_eq!(capitalize_first("ßa"), "SSa");
    assert_eq!(capitalize_first("élan"), "Élan");
}

#[test]
fn capitalize_words_of_nothing() {
    let words: Vec<&str> = Vec::new();
    assert_eq!(capitalize_words_vector(&words), Vec::<String>::new());
    assert_eq!(capitalize_words_string(&words), "");
}

#[test]
fn string_is_the_joined_vector() {
    let words = vec!["über", "", "straße", "x"];
    let joined: String = capitalize_words_vector(&words).concat();
    assert_eq!(capitalize_words_string(&words), joined);
    assert_eq!(joined, "ÜberStraßeX");
}

#[test]
fn join_capitalized_keeps_the_rest() {
    assert_eq!(join_capitalized(String::from("SS"), "ßtraße"), "SStraße");
    assert_eq!(join_capitalized(String::from("H"), "h"), "H");
}

#[test]
fn capitalize_ascii_is_idempotent_and_keeps_length() {
    for w in ["hello", "Hello", "h", "", "1abc", "zebra crossing", "~x", "aBC"] {
        let once = capitalize_first(w);
        assert_eq!(once.len(), w.len());
        assert_eq!(capitalize_first(&once), once);
        assert_eq!(once.is_empty(), w.is_empty());
    }
}

#[test]
fn capitalize_nonempty_stays_nonempty() {
    for w in ["a", "ß", "ǆ", "ﬁx", "\u{0}"] {
        assert!(!capitalize_first(w).is_empty());
    }
}
