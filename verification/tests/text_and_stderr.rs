use wasm_bodge::build::wasm_bindgen::{debug_profile_missing, reports_missing_profile_in};
use wasm_bodge::text::{
    chars_of, concat_strs, contains, find_char_in, lines_of, replace_char_in, starts_with, str_eq,
    string_of,
};

fn lines(s: &str) -> Vec<String> {
    let cs = chars_of(s);
    lines_of(&cs).into_iter().map(|l| string_of(&l)).collect()
}

#[test]
fn lines_match_str_lines() {
    for s in [
        "",
        "a",
        "a\n",
        "a\nb",
        "a\r\nb\r\n",
        "\n",
        "\n\n",
        "x\r",
        "a\rb\nc",
        "trailing\n\nempty",
    ] {
        let expected: Vec<String> = s.lines().map(|l| l.to_string()).collect();
        assert_eq!(lines(s), expected, "input {:?}", s);
    }
}

#[test]
fn lines_hold_no_line_feed() {
    for l in lines("a\nb\r\n\nc\r\rd\n") {
        assert!(!l.contains('\n'));
    }
}

#[test]
fn missing_profile_is_recognised() {
    let stderr = "   Compiling foo v0.1.0\nerror: profile `wasm-debug` is not defined\n";
    assert!(reports_missing_profile_in(stderr, "wasm-debug"));
    let crlf = "warning: x\r\nerror: profile `wasm-debug` is not defined\r\n";
    assert!(reports_missing_profile_in(crlf, "wasm-debug"));
}

#[test]
fn missing_profile_needs_an_error_line() {
    let echoed = "note: profile `wasm-debug` is not defined\nerror: could not compile\n";
    assert!(!reports_missing_profile_in(echoed, "wasm-debug"));
    let indented = "  error: profile `wasm-debug` is not defined";
    assert!(!reports_missing_profile_in(indented, "wasm-debug"));
    assert!(!reports_missing_profile_in("", "wasm-debug"));
}

#[test]
fn missing_profile_of_another_name() {
    let stderr = "error: profile `other` is not defined\n";
    assert!(!reports_missing_profile_in(stderr, "wasm-debug"));
    assert!(reports_missing_profile_in(stderr, "other"));
}

#[test]
fn missing_profile_from_bytes() {
    let mut bytes = b"\xff\xfe garbage\n".to_vec();
    bytes.extend_from_slice(b"error: profile `dbg` is not defined\n");
    assert!(debug_profile_missing(&bytes, "dbg"));
    assert!(!debug_profile_missing(b"error: build failed\n", "dbg"));
    // An invalid byte inside the message breaks it.
    assert!(!debug_profile_missing(b"error: profile `d\xffg` is not defined\n", "dg"));
}

#[test]
fn text_helpers() {
    assert!(str_eq("abc", "abc"));
    assert!(!str_eq("abc", "abd"));
    assert!(!str_eq("é", "e"));
    assert_eq!(concat_strs("ab", "cd"), "abcd");
    assert_eq!(replace_char_in("a-b-c", '-', '_'), "a_b_c");
    assert_eq!(replace_char_in("plain", '-', '_'), "plain");
    let s = chars_of("hello world");
    assert!(starts_with(&s, &chars_of("hello")));
    assert!(!starts_with(&s, &chars_of("world")));
    assert!(contains(&s, &chars_of("o w")));
    assert!(contains(&s, &chars_of("")));
    assert!(!contains(&s, &chars_of("worlds")));
    assert_eq!(find_char_in(&s, 'o'), Some(4));
    assert_eq!(find_char_in(&s, 'z'), None);
    assert_eq!(string_of(&chars_of("ünï")), "ünï");
}
