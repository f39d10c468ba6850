use album_sync::text::{decimal_string, extension_matches, lower_char, str_eq};

#[test]
fn lower_char_folds_ascii_letters() {
    assert_eq!(lower_char('A'), 'a');
    assert_eq!(lower_char('Z'), 'z');
    assert_eq!(lower_char('M'), 'm');
    assert_eq!(lower_char('a'), 'a');
    assert_eq!(lower_char('0'), '0');
    assert_eq!(lower_char('/'), '/');
    assert_eq!(lower_char('é'), 'é');
}

#[test]
fn str_eq_compares_contents() {
    assert!(str_eq("", ""));
    assert!(str_eq("abc", "abc"));
    assert!(!str_eq("abc", "abd"));
    assert!(!str_eq("abc", "ab"));
    assert!(!str_eq("", "x"));
    assert!(str_eq("naïve", "naïve"));
}

#[test]
fn extension_matches_is_case_insensitive() {
    assert!(extension_matches("a.jpg", "jpg"));
    assert!(extension_matches("a.JPG", "jpg"));
    assert!(extension_matches("a.Jpg", "jpg"));
    assert!(!extension_matches("a.png", "jpg"));
    assert!(!extension_matches("a.jpeg", "jpg"));
}

#[test]
fn extension_is_after_the_last_dot() {
    assert!(extension_matches("archive.tar.gz", "gz"));
    assert!(!extension_matches("archive.tar.gz", "tar"));
}

#[test]
fn names_without_an_extension() {
    // no dot, a leading dot only, or a trailing dot: no extension
    assert!(!extension_matches("noext", "jpg"));
    assert!(!extension_matches(".jpg", "jpg"));
    assert!(!extension_matches("trailing.", "jpg"));
    assert!(extension_matches("noext", ""));
    assert!(extension_matches(".jpg", ""));
    assert!(extension_matches("trailing.", ""));
}

#[test]
fn decimal_string_renders_numbers() {
    assert_eq!(decimal_string(0), "0");
    assert_eq!(decimal_string(7), "7");
    assert_eq!(decimal_string(10), "10");
    assert_eq!(decimal_string(42), "42");
    assert_eq!(decimal_string(100), "100");
    assert_eq!(decimal_string(18446744073709551615), "18446744073709551615");
}
