use judge::text::{
    append_decimal, has_part, same_prefix, same_text, to_chars, trimmed_length,
    unified_line_endings, whitespace,
};

fn chars(s: &str) -> Vec<char> {
    s.chars().collect()
}

#[test]
fn to_chars_keeps_every_character() {
    assert_eq!(to_chars(""), Vec::<char>::new());
    assert_eq!(to_chars("abc"), vec!['a', 'b', 'c']);
    assert_eq!(to_chars("h\u{e9}llo \u{4e16}\u{754c}"), chars("h\u{e9}llo \u{4e16}\u{754c}"));
}

#[test]
fn whitespace_is_the_unicode_property() {
    let mut code: u32 = 0;
    while code <= 0x10FFFF {
        if let Some(c) = char::from_u32(code) {
            assert_eq!(whitespace(c), c.is_whitespace(), "U+{:04X}", code);
        }
        code += 1;
    }
}

#[test]
fn whitespace_on_named_characters() {
    assert!(whitespace(' '));
    assert!(whitespace('\n'));
    assert!(whitespace('\r'));
    assert!(whitespace('\t'));
    assert!(whitespace('\u{3000}'));
    assert!(!whitespace('a'));
    assert!(!whitespace('\u{200B}'));
    assert!(!whitespace('\0'));
}

#[test]
fn trimmed_length_agrees_with_trim_end() {
    let samples = [
        "",
        " ",
        "   \n\t",
        "abc",
        "abc  ",
        "abc\n",
        "abc\r\n",
        "  abc",
        "a b c \n\n",
        "x\u{3000}\u{2028}",
        "\u{e9}t\u{e9} ",
        "tab\tinside\t",
    ];
    for s in samples {
        let cs = chars(s);
        let n = trimmed_length(&cs);
        let kept: String = cs[..n].iter().collect();
        assert_eq!(kept, s.trim_end(), "{:?}", s);
    }
}

#[test]
fn trimmed_length_exact_values() {
    assert_eq!(trimmed_length(&chars("")), 0);
    assert_eq!(trimmed_length(&chars("   ")), 0);
    assert_eq!(trimmed_length(&chars("Hello, world!\n")), 13);
    assert_eq!(trimmed_length(&chars("a \n b \n ")), 5);
}

#[test]
fn unified_line_endings_agrees_with_replace() {
    let samples = [
        "",
        "a",
        "a\nb",
        "a\r\nb",
        "a\r\nb\r\n",
        "\r",
        "\n",
        "\r\n",
        "\r\r\n",
        "\n\r",
        "\r\n\r\n",
        "a\rb\r\nc\r",
        "\r\r\r\n\n\r\n",
    ];
    for s in samples {
        let out: String = unified_line_endings(&chars(s)).iter().collect();
        assert_eq!(out, s.replace("\r\n", "\n"), "{:?}", s);
    }
}

#[test]
fn unified_line_endings_exact_values() {
    let out: String = unified_line_endings(&chars("one\r\ntwo\r\n")).iter().collect();
    assert_eq!(out, "one\ntwo\n");
    let out: String = unified_line_endings(&chars("lone\rreturn")).iter().collect();
    assert_eq!(out, "lone\rreturn");
    let out: String = unified_line_endings(&chars("\r\r\n")).iter().collect();
    assert_eq!(out, "\r\n");
}

#[test]
fn has_part_agrees_with_contains() {
    let hays = ["", "a", "abc", "aaa", "fn main() { unsafe { } }", "\u{e9}t\u{e9}", "abcabd"];
    let needles = ["", "a", "b", "c", "ab", "bc", "abc", "abcd", "aa", "aaaa", "unsafe", "\u{e9}", "abd"];
    for hay in hays {
        for needle in needles {
            assert_eq!(
                has_part(&chars(hay), &chars(needle)),
                hay.contains(needle),
                "{:?} in {:?}",
                needle,
                hay
            );
        }
    }
}

#[test]
fn has_part_edges() {
    assert!(has_part(&chars(""), &chars("")));
    assert!(has_part(&chars("abc"), &chars("")));
    assert!(!has_part(&chars(""), &chars("a")));
    assert!(has_part(&chars("abc"), &chars("abc")));
    assert!(has_part(&chars("xxabc"), &chars("abc")));
    assert!(!has_part(&chars("ab"), &chars("abc")));
}

#[test]
fn same_prefix_compares_the_given_lengths() {
    let a = chars("hello world");
    let b = chars("hello there");
    assert!(same_prefix(&a, 6, &b, 6));
    assert!(!same_prefix(&a, 7, &b, 7));
    assert!(!same_prefix(&a, 5, &b, 6));
    assert!(same_prefix(&a, 0, &b, 0));
    assert!(same_prefix(&a, 11, &a, 11));
}

#[test]
fn append_decimal_agrees_with_to_string() {
    let samples: [u128; 9] =
        [0, 1, 9, 10, 11, 99, 100, 1_234_567_890_123_456_789, u128::MAX];
    for n in samples {
        let mut out = String::from("run-");
        append_decimal(&mut out, n);
        assert_eq!(out, format!("run-{}", n));
    }
}

#[test]
fn append_decimal_exact_values() {
    let mut out = String::new();
    append_decimal(&mut out, 0);
    assert_eq!(out, "0");
    append_decimal(&mut out, 42);
    assert_eq!(out, "042");
    append_decimal(&mut out, 1000);
    assert_eq!(out, "0421000");
}

#[test]
fn same_text_is_equality() {
    assert!(same_text("", ""));
    assert!(same_text("abc", "abc"));
    assert!(!same_text("abc", "abd"));
    assert!(!same_text("abc", "ab"));
    assert!(!same_text("", "a"));
    assert!(same_text("\u{e9}", "\u{e9}"));
    assert!(!same_text("e\u{301}", "\u{e9}"));
}
