use aheadlibex_rs::fill::fill;
use aheadlibex_rs::templates::exports_macro;
use aheadlibex_rs::text::{push_decimal, to_ascii_upper, trim};

#[test]
fn decimal_numbers_are_written_in_full() {
    let mut s = String::from("#");
    push_decimal(&mut s, 0);
    assert_eq!(s, "#0");
    let mut s = String::new();
    push_decimal(&mut s, 65535);
    assert_eq!(s, "65535");
    let mut s = String::new();
    push_decimal(&mut s, u64::MAX);
    assert_eq!(s, "18446744073709551615");
}

#[test]
fn fill_replaces_every_token() {
    let out = fill("{{A}}-{{B}}-{{A}}", &[("A", "x".to_string()), ("B", "yy".to_string())]);
    assert_eq!(out, "x-yy-x");
}

#[test]
fn fill_resolves_nested_tokens() {
    let out = fill("<{{OUTER}}>", &[("OUTER", "[{{INNER}}]".to_string()), ("INNER", "v".to_string())]);
    assert_eq!(out, "<[v]>");
    // an inner token listed before the outer one is resolved in the next round
    let out = fill("<{{OUTER}}>", &[("INNER", "v".to_string()), ("OUTER", "[{{INNER}}]".to_string())]);
    assert_eq!(out, "<[v]>");
}

#[test]
fn fill_leaves_unknown_tokens_and_stops_after_its_rounds() {
    assert_eq!(fill("{{X}} {{Y", &[("Y", "z".to_string())]), "{{X}} {{Y");
    assert_eq!(fill("{{A}}", &[("A", "{{A}}".to_string())]), "{{A}}");
    assert_eq!(fill("{{A}}", &[("A", "({{A}})".to_string())]), "((((({{A}})))))");
}

#[test]
fn exports_macro_is_upper_case_and_suffixed_once() {
    assert_eq!(exports_macro("my-proxy"), "MY_PROXY_EXPORTS");
    assert_eq!(exports_macro("foo_exports"), "FOO_EXPORTS");
    assert_eq!(exports_macro(""), "__EXPORTS");
}

#[test]
fn upper_casing_touches_ascii_letters_only() {
    assert_eq!(to_ascii_upper("abc-Z9é"), "ABC-Z9é");
}

#[test]
fn trim_drops_unicode_white_space_at_both_ends() {
    assert_eq!(trim("  a b\t"), "a b");
    assert_eq!(trim("\u{a0}\u{2003}x\u{3000}\u{85}"), "x");
    assert_eq!(trim(" \n\r "), "");
    assert_eq!(trim(""), "");
    assert_eq!(trim("\u{200b}x"), "\u{200b}x");
    for s in ["  q ", "\u{2028}w\u{1680}", "\u{b}e\u{c}"] {
        assert_eq!(trim(s), s.trim());
    }
}
