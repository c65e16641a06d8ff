use dictbot::text::{
    chars_of, is_whitespace, range_ends_with_token, range_equals, range_starts_with_token,
    trim_range,
};

fn trimmed(s: &str) -> String {
    let v = chars_of(s);
    let (lo, hi) = trim_range(&v, 0, v.len());
    v[lo..hi].iter().collect()
}

#[test]
fn whitespace_is_what_std_calls_whitespace() {
    for code in 0..=0x10FFFFu32 {
        if let Some(c) = char::from_u32(code) {
            assert_eq!(is_whitespace(c), c.is_whitespace(), "U+{code:04X}");
        }
    }
}

#[test]
fn chars_of_keeps_every_character_in_order() {
    assert_eq!(chars_of(""), Vec::<char>::new());
    assert_eq!(chars_of("a b"), vec!['a', ' ', 'b']);
    assert_eq!(chars_of("你好 @bot"), vec!['你', '好', ' ', '@', 'b', 'o', 't']);
}

#[test]
fn trim_range_agrees_with_std_trim() {
    for s in [
        "",
        " ",
        "   \t\n",
        "hello",
        "  hello",
        "hello  ",
        " \t hello world \r\n",
        "\u{3000}你好\u{a0}",
        "a \u{2003} b",
        "\u{85}x\u{2028}",
    ] {
        assert_eq!(trimmed(s), s.trim(), "{s:?}");
    }
}

#[test]
fn trim_range_stays_inside_the_given_bounds() {
    let v = chars_of("ab  cd  ef");
    assert_eq!(trim_range(&v, 2, 8), (4, 6));
    assert_eq!(trim_range(&v, 2, 4), (4, 4));
    assert_eq!(trim_range(&v, 0, 10), (0, 10));
    assert_eq!(trim_range(&v, 5, 5), (5, 5));
}

#[test]
fn range_equals_compares_the_slice_with_the_whole_of_the_other() {
    let v = chars_of("say @bot now");
    assert!(range_equals(&v, 4, 8, &chars_of("@bot")));
    assert!(!range_equals(&v, 4, 8, &chars_of("@bo")));
    assert!(!range_equals(&v, 4, 8, &chars_of("@bot ")));
    assert!(!range_equals(&v, 4, 8, &chars_of("@boT")));
    assert!(range_equals(&v, 3, 3, &chars_of("")));
}

#[test]
fn a_token_in_front_ends_at_white_space_or_at_the_end() {
    let handle = chars_of("@bot");
    let v = chars_of("@bot hello");
    assert!(range_starts_with_token(&v, 0, v.len(), &handle));
    let v = chars_of("@bot");
    assert!(range_starts_with_token(&v, 0, v.len(), &handle));
    let v = chars_of("@bot\thello");
    assert!(range_starts_with_token(&v, 0, v.len(), &handle));
    let v = chars_of("@botany hello");
    assert!(!range_starts_with_token(&v, 0, v.len(), &handle));
    let v = chars_of("@bo");
    assert!(!range_starts_with_token(&v, 0, v.len(), &handle));
    let v = chars_of("hello @bot");
    assert!(!range_starts_with_token(&v, 0, v.len(), &handle));
    assert!(range_starts_with_token(&v, 6, v.len(), &handle));
}

#[test]
fn a_token_at_the_end_begins_after_white_space_or_at_the_start() {
    let handle = chars_of("@bot");
    let v = chars_of("hello @bot");
    assert!(range_ends_with_token(&v, 0, v.len(), &handle));
    let v = chars_of("@bot");
    assert!(range_ends_with_token(&v, 0, v.len(), &handle));
    let v = chars_of("hello@bot");
    assert!(!range_ends_with_token(&v, 0, v.len(), &handle));
    assert!(range_ends_with_token(&v, 5, v.len(), &handle));
    let v = chars_of("@bot hello");
    assert!(!range_ends_with_token(&v, 0, v.len(), &handle));
}

#[test]
fn the_empty_token_is_at_no_edge() {
    let none = chars_of("");
    let v = chars_of("hello");
    assert!(!range_starts_with_token(&v, 0, v.len(), &none));
    assert!(!range_ends_with_token(&v, 0, v.len(), &none));
    let e = chars_of("");
    assert!(!range_starts_with_token(&e, 0, 0, &none));
    assert!(!range_ends_with_token(&e, 0, 0, &none));
}
