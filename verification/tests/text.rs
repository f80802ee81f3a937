use bhop::text::{chars_of, contains, is_whitespace, replace, string_of, trim};

#[test]
fn chars_round_trip() {
    let v = chars_of("héllo 🐇");
    assert_eq!(v, vec!['h', 'é', 'l', 'l', 'o', ' ', '🐇']);
    assert_eq!(string_of(&v), "héllo 🐇");
    assert_eq!(string_of(&chars_of("")), "");
}

#[test]
fn contains_finds_substrings() {
    assert!(contains("abc", ""));
    assert!(contains("abc", "bc"));
    assert!(contains("abc", "abc"));
    assert!(!contains("abc", "abcd"));
    assert!(!contains("abc", "ac"));
    assert!(!contains("", "a"));
}

#[test]
fn replace_scans_from_the_left() {
    assert_eq!(replace("aaa", "aa", "b"), "ba");
    assert_eq!(replace("nvim {} +{}", "{}", "f.rs"), "nvim f.rs +f.rs");
    assert_eq!(replace("abc", "", "x"), "abc");
    assert_eq!(replace("abc", "abcd", "x"), "abc");
    assert_eq!(replace("////?/?/", "//?/", ""), "//?/");
    assert_eq!(replace("", "a", "b"), "");
}

#[test]
fn trim_strips_white_space_at_both_ends() {
    assert_eq!(trim("  /home/u/.zshrc\r\n"), "/home/u/.zshrc");
    assert_eq!(trim("\t a b \u{3000}"), "a b");
    assert_eq!(trim(" \n "), "");
    assert_eq!(trim(""), "");
}

#[test]
fn white_space_is_what_the_standard_library_says() {
    let mut n: u32 = 0;
    while n <= 0x3100 {
        if let Some(c) = char::from_u32(n) {
            assert_eq!(is_whitespace(c), c.is_whitespace());
        }
        n += 1;
    }
}
