use samsung_tv_rs::text::{split_lines, split_once, str_contains, str_eq, trim};

#[test]
fn trimming_uses_unicode_white_space() {
    assert_eq!(trim("  a b \t\n"), "a b");
    assert_eq!(trim("\u{2003}x\u{a0}"), "x");
    assert_eq!(trim("   "), "");
    assert_eq!(trim(""), "");
}

#[test]
fn lines_follow_str_lines() {
    for s in ["a\r\nb\nc", "a\n", "", "\n\n", "x\r", "a\rb\r\n", "one"] {
        let ours = split_lines(s);
        let std: Vec<&str> = s.lines().collect();
        assert_eq!(ours, std, "input {:?}", s);
    }
}

#[test]
fn split_once_and_search() {
    assert_eq!(split_once("a:b:c", ':'), Some(("a", "b:c")));
    assert_eq!(split_once("abc", ':'), None);
    assert!(str_contains("hello", ""));
    assert!(str_contains("hello", "llo"));
    assert!(!str_contains("hel", "hello"));
    assert!(str_eq("é", "é"));
    assert!(!str_eq("ab", "abc"));
}
