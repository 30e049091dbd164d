use ccip_read::text::{from_chars, has_token, replace_all, to_chars, token_at};

fn chars_of(s: &str) -> Vec<char> {
    s.chars().collect()
}

fn replaced(s: &str, from: &str, to: &str) -> String {
    let out = replace_all(&chars_of(s), &chars_of(from), &chars_of(to));
    out.into_iter().collect()
}

#[test]
fn to_chars_and_back() {
    assert_eq!(to_chars("a{b}"), vec!['a', '{', 'b', '}']);
    assert_eq!(to_chars(""), Vec::<char>::new());
    assert_eq!(to_chars("h\u{e9}llo \u{1f600}").len(), 7);
    assert_eq!(from_chars(&['o', 'k']), "ok");
    assert_eq!(from_chars(&to_chars("h\u{e9}llo \u{1f600}")), "h\u{e9}llo \u{1f600}");
}

#[test]
fn token_at_needs_the_whole_token() {
    let s = chars_of("ab{data}");
    let t = chars_of("{data}");
    assert!(token_at(&s, &t, 2));
    assert!(!token_at(&s, &t, 1));
    assert!(!token_at(&s, &t, 3));
    assert!(!token_at(&s, &t, 8));
    assert!(!token_at(&s, &t, 100));
    assert!(!token_at(&s, &[], 0));
}

#[test]
fn has_token_finds_it_anywhere() {
    let t = chars_of("{data}");
    assert!(has_token(&chars_of("{data}"), &t));
    assert!(has_token(&chars_of("https://a/{sender}/{data}.json"), &t));
    assert!(!has_token(&chars_of("https://a/{sender}"), &t));
    assert!(!has_token(&chars_of("https://a/{dat}a"), &t));
    assert!(!has_token(&chars_of("{data"), &t));
    assert!(!has_token(&chars_of(""), &t));
    assert!(!has_token(&chars_of("abc"), &[]));
}

#[test]
fn replace_all_agrees_with_str_replace() {
    let cases = [
        ("https://a/{sender}/{data}", "{sender}", "0x01"),
        ("{data}{data}", "{data}", "x"),
        ("aaa", "aa", "b"),
        ("aaaa", "aa", "b"),
        ("abcabc", "bc", ""),
        ("abc", "abcd", "x"),
        ("", "a", "b"),
        ("a{b", "{", "{{"),
        ("no place here", "{sender}", "0x"),
        ("{sender", "{sender}", "0x"),
        ("x{sender}", "{sender}", "{sender}{sender}"),
    ];
    for (s, from, to) in cases {
        assert_eq!(replaced(s, from, to), s.replace(from, to), "{s:?} {from:?} {to:?}");
    }
}

#[test]
fn replace_all_leaves_text_alone_for_an_empty_token() {
    assert_eq!(replaced("abc", "", "x"), "abc");
}
