use viu::term::{contains, truecolor_available};

#[test]
fn test_truecolor() {
    assert!(truecolor_available(Some("truecolor")));
    assert!(!truecolor_available(Some("")));
}

#[test]
fn truecolor_is_told_from_colorterm() {
    assert!(truecolor_available(Some("24bit")));
    assert!(truecolor_available(Some("xterm-truecolor-x")));
    assert!(truecolor_available(Some("is24bit")));
    assert!(!truecolor_available(Some("truecolo")));
    assert!(!truecolor_available(Some("24 bit")));
    assert!(!truecolor_available(Some("TRUECOLOR")));
    assert!(!truecolor_available(None));
}

#[test]
fn contains_agrees_with_std() {
    let cases = [
        ("", ""),
        ("abc", ""),
        ("", "a"),
        ("abc", "abc"),
        ("abc", "abcd"),
        ("aab", "ab"),
        ("abab", "bab"),
        ("abab", "bb"),
        ("h\u{e9}llo", "\u{e9}l"),
        ("h\u{e9}llo", "el"),
        ("mississippi", "issip"),
        ("mississippi", "issipi"),
    ];
    for (haystack, needle) in cases {
        assert_eq!(contains(haystack, needle), haystack.contains(needle), "{haystack:?} {needle:?}");
    }
}
