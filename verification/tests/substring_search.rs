use claude_usage::text::{chars_of, contains, contains_chars, matches_at};

#[test]
fn chars_of_lists_the_characters_in_order() {
    assert_eq!(chars_of(""), Vec::<char>::new());
    assert_eq!(chars_of("pro"), vec!['p', 'r', 'o']);
    assert_eq!(chars_of("é模x"), vec!['é', '模', 'x']);
}

#[test]
fn contains_agrees_with_the_standard_search() {
    let texts = ["", "a", "pro", "gemini-pro", "flash", "prflash", "ppro", "prpro", "aab", "模型-pro"];
    let patterns = ["", "a", "pro", "flash", "ab", "aab", "aaab", "模", "型-p", "o"];
    for text in texts {
        for pattern in patterns {
            assert_eq!(contains(text, pattern), text.contains(pattern), "{text:?} {pattern:?}");
        }
    }
}

#[test]
fn empty_pattern_is_found_in_every_text() {
    assert!(contains("", ""));
    assert!(contains("abc", ""));
}

#[test]
fn pattern_longer_than_the_text_is_not_found() {
    assert!(!contains("pr", "pro"));
    assert!(!contains("", "p"));
}

#[test]
fn pattern_is_found_at_either_end() {
    assert!(contains("pro-model", "pro"));
    assert!(contains("model-pro", "pro"));
    assert!(contains("pro", "pro"));
}

#[test]
fn partial_matches_do_not_hide_a_later_match() {
    assert!(contains("prpro", "pro"));
    assert!(contains("aaab", "aab"));
    assert!(!contains("prprp", "pro"));
}

#[test]
fn matches_at_compares_from_the_given_position() {
    let text = chars_of("gemini-pro");
    let pattern = chars_of("pro");
    assert!(matches_at(&text, &pattern, 7));
    assert!(!matches_at(&text, &pattern, 0));
    assert!(!matches_at(&text, &pattern, 6));
    assert!(matches_at(&text, &Vec::new(), 10));
    assert!(!matches_at(&text, &pattern, 8));
    assert!(!matches_at(&text, &pattern, 11));
    assert!(!matches_at(&text, &Vec::new(), 11));
    assert!(!matches_at(&text, &pattern, usize::MAX));
}

#[test]
fn contains_chars_searches_character_vectors() {
    assert!(contains_chars(&vec!['a', 'b', 'c'], &vec!['b', 'c']));
    assert!(!contains_chars(&vec!['a', 'b', 'c'], &vec!['c', 'b']));
    assert!(contains_chars(&Vec::new(), &Vec::new()));
}
