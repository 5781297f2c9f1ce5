use recordbox::text::{
    from_chars, is_whitespace, join, push_decimal, remove_char, replace_char, to_chars, trim_chars,
};

#[test]
fn whitespace_is_what_std_calls_whitespace() {
    let mut c: u32 = 0;
    while c <= 0x10FFFF {
        if let Some(ch) = char::from_u32(c) {
            assert_eq!(is_whitespace(ch), ch.is_whitespace(), "U+{:04X}", c);
        }
        c += 1;
    }
}

#[test]
fn trim_agrees_with_std() {
    let samples = [
        "",
        " ",
        "  a  ",
        "a",
        "\t\n a b \r\n",
        "\u{3000}x\u{00A0}",
        "\u{2003}\u{2028}",
        "no space",
        " inner  space kept ",
        "\u{200B}zero width is no space\u{200B}",
    ];
    for sample in samples {
        assert_eq!(trim_chars(&to_chars(sample)), sample.trim(), "{:?}", sample);
    }
}

#[test]
fn trim_chars_cuts_both_ends() {
    let v: Vec<char> = "  Song  ".chars().collect();
    assert_eq!(trim_chars(&v), "Song");
    let none: Vec<char> = Vec::new();
    assert_eq!(trim_chars(&none), "");
}

#[test]
fn chars_round_trip() {
    let text = "héllo wörld ✓";
    let v = to_chars(text);
    assert_eq!(v, text.chars().collect::<Vec<char>>());
    assert_eq!(from_chars(&v, 0, v.len()), text);
    assert_eq!(from_chars(&v, 1, 5), "éllo");
    assert_eq!(from_chars(&v, 3, 3), "");
}

#[test]
fn replace_char_turns_every_occurrence() {
    assert_eq!(replace_char("a b  c", ' ', '+'), "a+b++c");
    assert_eq!(replace_char("", ' ', '+'), "");
    assert_eq!(replace_char("none", ' ', '+'), "none");
    assert_eq!(replace_char("é é", ' ', '+'), "é é".replace(" ", "+"));
}

#[test]
fn remove_char_leaves_every_occurrence_out() {
    assert_eq!(remove_char("2024-02-29", '-'), "20240229");
    assert_eq!(remove_char("---", '-'), "");
    assert_eq!(remove_char("abc", '-'), "abc");
}

#[test]
fn join_puts_separator_between_neighbours_only() {
    let none: Vec<String> = vec![];
    assert_eq!(join(&none, ", "), "");
    assert_eq!(join(&vec!["a".to_string()], ", "), "a");
    assert_eq!(join(&vec!["a".to_string(), "b".to_string(), "c".to_string()], " AND "), "a AND b AND c");
    assert_eq!(join(&vec!["".to_string(), "".to_string()], "-"), "-");
}

#[test]
fn decimal_agrees_with_std() {
    for n in [0usize, 1, 9, 10, 11, 99, 100, 101, 12345, 1_000_000, usize::MAX] {
        let mut out = String::from("n=");
        push_decimal(&mut out, n);
        assert_eq!(out, format!("n={}", n));
    }
}
