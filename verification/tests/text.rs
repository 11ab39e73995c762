use mini_tracker::text::{bytes_contain, bytes_not_after, contains, not_after, same_bytes, same_text};

#[test]
fn same_text_compares_whole_strings() {
    assert!(same_text("painted", "painted"));
    assert!(same_text("", ""));
    assert!(!same_text("painted", "painte"));
    assert!(!same_text("painted", "paintex"));
    assert!(!same_text("", "a"));
    assert!(same_text("Kriegsspiel \u{00e4}", "Kriegsspiel \u{00e4}"));
    assert!(!same_text("a\u{00e4}", "a\u{00e5}"));
}

#[test]
fn same_bytes_compares_length_and_content() {
    assert!(same_bytes(&[1, 2, 3], &[1, 2, 3]));
    assert!(!same_bytes(&[1, 2, 3], &[1, 2]));
    assert!(!same_bytes(&[1, 2, 3], &[1, 2, 4]));
    assert!(same_bytes(&[], &[]));
}

#[test]
fn order_is_lexicographic() {
    assert!(not_after("2024-05-01 10:00:00", "2024-05-01 10:00:00"));
    assert!(not_after("2024-05-01 10:00:00", "2024-05-01 10:00:01"));
    assert!(!not_after("2024-05-01 10:00:01", "2024-05-01 10:00:00"));
    assert!(not_after("2023-12-31 23:59:59", "2024-01-01 00:00:00"));
    assert!(not_after("", "a"));
    assert!(!not_after("a", ""));
    assert!(not_after("", ""));
    assert!(not_after("ab", "abc"));
    assert!(!not_after("abc", "ab"));
    assert!(not_after("abc", "b"));
}

#[test]
fn order_goes_by_unsigned_bytes() {
    assert!(bytes_not_after(&[0x7f], &[0x80]));
    assert!(!bytes_not_after(&[0xff], &[0x00, 0x01]));
    assert!(not_after("z", "\u{00e4}"));
}

#[test]
fn contains_finds_a_needle_anywhere() {
    assert!(contains("UNIQUE constraint failed: games.name", "games.name"));
    assert!(contains("UNIQUE constraint failed: games.name", "UNIQUE"));
    assert!(contains("UNIQUE constraint failed: games.name", "failed"));
    assert!(contains("abc", "abc"));
    assert!(contains("abc", ""));
    assert!(contains("", ""));
    assert!(!contains("", "a"));
    assert!(!contains("abc", "abcd"));
    assert!(!contains("abc", "bd"));
    assert!(!contains("aab", "aba"));
    assert!(contains("aaab", "aab"));
}

#[test]
fn bytes_contain_agrees_with_windows() {
    let hay = [1u8, 2, 1, 2, 3];
    assert!(bytes_contain(&hay, &[1, 2, 3]));
    assert!(bytes_contain(&hay, &[2, 1]));
    assert!(bytes_contain(&hay, &[3]));
    assert!(!bytes_contain(&hay, &[3, 1]));
    assert!(!bytes_contain(&hay, &[1, 2, 1, 2, 3, 4]));
}
