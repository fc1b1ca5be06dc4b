use kapow::text::{chars_of, contains, ends_with, matches_at, replace, slice, starts_with, string_of};

fn v(s: &str) -> Vec<char> {
    s.chars().collect()
}

#[test]
fn chars_and_back() {
    assert_eq!(chars_of("héllo"), vec!['h', 'é', 'l', 'l', 'o']);
    assert_eq!(string_of(&vec!['a', 'ß', 'c']), "aßc");
    assert_eq!(chars_of(""), Vec::<char>::new());
    assert_eq!(string_of(&Vec::new()), "");
}

#[test]
fn replace_is_leftmost_and_does_not_overlap() {
    assert_eq!(replace(&v("aaaa"), &v("aa"), &v("b")), v("bb"));
    assert_eq!(replace(&v("aaa"), &v("aa"), &v("b")), v("ba"));
    assert_eq!(replace(&v("abcabc"), &v("bc"), &v("")), v("aa"));
    assert_eq!(replace(&v("abc"), &v(""), &v("x")), v("abc"));
    assert_eq!(replace(&v("abc"), &v("abcd"), &v("x")), v("abc"));
}

#[test]
fn replace_agrees_with_std() {
    let cases = [("a`!now`b`!now`", "`!now`", "T"), ("xxx", "x", "yy"), ("abab", "aba", "-"), ("", "a", "b")];
    for (s, p, r) in cases {
        assert_eq!(string_of(&replace(&v(s), &v(p), &v(r))), s.replace(p, r));
    }
}

#[test]
fn searching() {
    assert!(starts_with(&v("!run:ls"), &v("!run:")));
    assert!(!starts_with(&v("!ru"), &v("!run:")));
    assert!(ends_with(&v("abc\\"), &v("\\")));
    assert!(!ends_with(&v(""), &v("\\")));
    assert!(contains(&v("a `!now b"), &v("`!now")));
    assert!(!contains(&v("a `\\!now b"), &v("`!now")));
    assert!(contains(&v("abc"), &v("")));
    assert!(matches_at(&v("abc"), &v("bc"), 1));
    assert!(!matches_at(&v("abc"), &v("bc"), 2));
    assert_eq!(slice(&v("abcdef"), 2, 4), v("cd"));
}
