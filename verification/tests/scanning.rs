use keystone_tui::chars::{
    find_from, has_suffix, is_trimmed, slice_chars, split_second, stands_at, trim_chars, Trim,
};

fn chars(text: &str) -> Vec<char> {
    text.chars().collect()
}

fn text(chars: Vec<char>) -> String {
    chars.into_iter().collect()
}

#[test]
fn trimming_quotes() {
    assert_eq!(text(trim_chars(&chars("\"x86_64-linux\""), Trim::Quotes)), "x86_64-linux");
    assert_eq!(text(trim_chars(&chars("\"\"a\"b\"\"\""), Trim::Quotes)), "a\"b");
    assert_eq!(text(trim_chars(&chars("\"\""), Trim::Quotes)), "");
    assert_eq!(text(trim_chars(&chars(""), Trim::Quotes)), "");
    assert_eq!(text(trim_chars(&chars(" \"a\" "), Trim::Quotes)), " \"a\" ");
}

#[test]
fn trimming_white_space() {
    assert_eq!(text(trim_chars(&chars("  a b \t\n"), Trim::Space)), "a b");
    assert_eq!(text(trim_chars(&chars("\u{a0}x\u{3000}"), Trim::Space)), "x");
    assert_eq!(text(trim_chars(&chars(" \n "), Trim::Space)), "");
    assert_eq!(text(trim_chars(&chars("x"), Trim::Space)), "x");
    assert!(is_trimmed(Trim::Space, ' '));
    assert!(!is_trimmed(Trim::Space, '"'));
    assert!(is_trimmed(Trim::Quotes, '"'));
    assert!(!is_trimmed(Trim::Quotes, ' '));
}

#[test]
fn searching() {
    let hay = chars("abcabcab");
    assert_eq!(find_from(&hay, &chars("abc"), 0), Some(0));
    assert_eq!(find_from(&hay, &chars("abc"), 1), Some(3));
    assert_eq!(find_from(&hay, &chars("abc"), 4), None);
    assert_eq!(find_from(&hay, &chars("ab"), 4), Some(6));
    assert_eq!(find_from(&hay, &chars("x"), 0), None);
    assert_eq!(find_from(&hay, &chars("abcabcabc"), 0), None);
    assert_eq!(find_from(&hay, &chars("b"), 100), None);
    assert!(stands_at(&hay, &chars("cab"), 2));
    assert!(!stands_at(&hay, &chars("cab"), 3));
    assert!(!stands_at(&hay, &chars("ab"), 7));
    assert!(stands_at(&hay, &chars("ab"), 6));
}

#[test]
fn splitting() {
    let pattern = chars("keystone.nixosModules.");
    assert_eq!(
        split_second(&chars("keystone.nixosModules.desktop"), &pattern).map(text),
        Some("desktop".to_string())
    );
    assert_eq!(
        split_second(&chars("a keystone.nixosModules.b keystone.nixosModules.c"), &pattern).map(text),
        Some("b ".to_string())
    );
    assert_eq!(split_second(&chars("keystone.nixosModules."), &pattern).map(text), Some(String::new()));
    assert_eq!(split_second(&chars("keystone.homeModules.x"), &pattern), None);
    assert_eq!(split_second(&chars(""), &pattern), None);
    assert_eq!(split_second(&chars("aaa"), &chars("aa")).map(text), Some("a".to_string()));
}

#[test]
fn suffixes_and_slices() {
    assert!(has_suffix(&chars("./configuration.nix"), &chars(".nix")));
    assert!(has_suffix(&chars(".nix"), &chars(".nix")));
    assert!(!has_suffix(&chars("nix"), &chars(".nix")));
    assert!(!has_suffix(&chars("./a.nix.bak"), &chars(".nix")));
    assert!(has_suffix(&chars("abc"), &chars("")));
    assert_eq!(text(slice_chars(&chars("hello"), 1, 4)), "ell");
    assert_eq!(text(slice_chars(&chars("hello"), 2, 2)), "");
    assert_eq!(text(slice_chars(&chars("hello"), 0, 5)), "hello");
    assert_eq!(text(slice_chars(&chars("hello"), 3, 9)), "lo");
    assert_eq!(text(slice_chars(&chars("hello"), 7, 9)), "");
    assert_eq!(text(slice_chars(&chars("hello"), 4, 2)), "");
}
