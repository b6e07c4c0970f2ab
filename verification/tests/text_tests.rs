use rectanglewin::shortcut::parse_modifier;
use rectanglewin::text::{chars_of, eq_ignore_ascii_case, is_whitespace, replace, split, str_eq, trim};

fn string_from_chars(v: &[char]) -> String {
    v.iter().collect()
}

#[test]
fn trimming_and_splitting() {
    let t = trim(&chars_of("\t a+b \n"));
    assert_eq!(string_from_chars(&t), "a+b");
    assert_eq!(string_from_chars(&trim(&chars_of("\u{3000}x\u{a0}"))), "x");
    assert!(trim(&chars_of("   ")).is_empty());
    let parts = split(&chars_of("a++b"), '+');
    let parts: Vec<String> = parts.iter().map(|p| string_from_chars(p)).collect();
    assert_eq!(parts, vec!["a".to_string(), String::new(), "b".to_string()]);
    assert_eq!(split(&chars_of(""), '+').len(), 1);
    assert_eq!(split(&chars_of("+"), '+').len(), 2);
}

#[test]
fn case_and_equality() {
    assert!(eq_ignore_ascii_case("FiFtHs", "fifths"));
    assert!(!eq_ignore_ascii_case("Fifth", "Fifths"));
    assert!(!eq_ignore_ascii_case("É", "é"));
    assert!(str_eq("abc", "abc"));
    assert!(!str_eq("abc", "abd"));
    // Modifier names are folded to lowercase before they are looked up.
    assert_eq!(parse_modifier("WIN"), Some(0x0008));
    assert_eq!(parse_modifier("cOnTrOl"), Some(0x0002));
    assert_eq!(parse_modifier("ÀLT"), None);
}

#[test]
fn replacing_non_overlapping_from_the_left() {
    let r = replace(&chars_of("aaaa"), &chars_of("aa"), &chars_of("b"));
    assert_eq!(string_from_chars(&r), "bb");
    let r = replace(&chars_of("aaa"), &chars_of("aa"), &chars_of("xyz"));
    assert_eq!(string_from_chars(&r), "xyza");
    let r = replace(&chars_of("abc"), &chars_of("d"), &chars_of("e"));
    assert_eq!(string_from_chars(&r), "abc");
}

#[test]
fn whitespace_agrees_with_std_on_every_char() {
    for code in 0u32..=0x10FFFF {
        if let Some(c) = char::from_u32(code) {
            assert_eq!(is_whitespace(c), c.is_whitespace(), "U+{:04X}", code);
        }
    }
}
