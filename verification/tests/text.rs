use eve_multibox::text::{
    append, find_char, includes, join_with, matches_at, same_chars, same_text, skip_word, slice,
    split_at, split_fields, starts_with, to_chars, trimmed,
};

fn strings(parts: &Vec<Vec<char>>) -> Vec<String> {
    parts.iter().map(|p| p.iter().collect()).collect()
}

#[test]
fn fields_are_the_runs_between_whitespace() {
    let line = to_chars("0x06e00008  0 atlantis EVE - Homeless Addict");
    assert_eq!(
        strings(&split_fields(&line)),
        vec!["0x06e00008", "0", "atlantis", "EVE", "-", "Homeless", "Addict"]
    );
    assert_eq!(strings(&split_fields(&to_chars(""))), Vec::<String>::new());
    assert_eq!(strings(&split_fields(&to_chars(" \t\r\n"))), Vec::<String>::new());
    assert_eq!(strings(&split_fields(&to_chars("  a\u{2003}b  "))), vec!["a", "b"]);
}

#[test]
fn fields_agree_with_the_standard_library() {
    for text in ["", " ", "a", " a", "a ", "a b", "a  b", "\ta\u{a0}b\u{3000}c\r", "x\u{200b}y z"] {
        let expected: Vec<String> = text.split_whitespace().map(|s| s.to_string()).collect();
        assert_eq!(strings(&split_fields(&to_chars(text))), expected, "{:?}", text);
    }
}

#[test]
fn splitting_keeps_empty_pieces() {
    assert_eq!(strings(&split_at(&to_chars("a\nb\n"), '\n')), vec!["a", "b", ""]);
    assert_eq!(strings(&split_at(&to_chars(""), '\n')), vec![""]);
    assert_eq!(strings(&split_at(&to_chars("\n\n"), '\n')), vec!["", "", ""]);
    assert_eq!(strings(&split_at(&to_chars("1920x1080"), 'x')), vec!["1920", "1080"]);
    for text in ["", "a", "a,b", ",a,,b,", ",,,"] {
        let expected: Vec<String> = text.split(',').map(|s| s.to_string()).collect();
        assert_eq!(strings(&split_at(&to_chars(text), ',')), expected, "{:?}", text);
    }
}

#[test]
fn joining_puts_the_separator_between() {
    let parts = split_fields(&to_chars("a b c d e"));
    let space = to_chars(" ");
    let joined: String = join_with(&parts, 3, &space).iter().collect();
    assert_eq!(joined, "d e");
    let all: String = join_with(&parts, 0, &to_chars(", ")).iter().collect();
    assert_eq!(all, "a, b, c, d, e");
    assert!(join_with(&parts, 5, &space).is_empty());
    let one: String = join_with(&parts, 4, &space).iter().collect();
    assert_eq!(one, "e");
}

#[test]
fn searching_finds_what_is_there() {
    let s = to_chars("EVE - Launcher");
    assert!(includes(&s, &to_chars("Launcher")));
    assert!(includes(&s, &to_chars("")));
    assert!(includes(&s, &to_chars("EVE - Launcher")));
    assert!(!includes(&s, &to_chars("launcher")));
    assert!(!includes(&s, &to_chars("EVE - Launcher!")));
    assert!(!includes(&to_chars(""), &to_chars("x")));
    assert!(includes(&to_chars(""), &to_chars("")));
    assert!(matches_at(&s, &to_chars("- L"), 4));
    assert!(!matches_at(&s, &to_chars("- L"), 3));
    assert!(starts_with(&s, &to_chars("EVE - ")));
    assert!(starts_with(&s, &to_chars("")));
    assert!(!starts_with(&s, &to_chars("VE")));
    assert!(!starts_with(&to_chars("EV"), &to_chars("EVE")));
}

#[test]
fn positions_and_slices() {
    let s = to_chars("ab cd");
    assert_eq!(skip_word(&s, 0), 2);
    assert_eq!(skip_word(&s, 2), 2);
    assert_eq!(skip_word(&s, 3), 5);
    assert_eq!(skip_word(&s, 5), 5);
    assert_eq!(find_char(&s, 0, 'c'), 3);
    assert_eq!(find_char(&s, 4, 'c'), 5);
    assert_eq!(find_char(&s, 0, 'z'), 5);
    assert_eq!(slice(&s, 1, 4), vec!['b', ' ', 'c']);
    assert_eq!(slice(&s, 2, 2), Vec::<char>::new());
    let mut t = to_chars("x");
    append(&mut t, &s);
    assert_eq!(t, to_chars("xab cd"));
}

#[test]
fn trimming_agrees_with_the_standard_library() {
    for text in ["", " ", "a", "  a b  ", "\n115343368\n", "\u{2003}x\u{a0}", "a\tb", " \t "] {
        let got: String = trimmed(&to_chars(text)).iter().collect();
        assert_eq!(got, text.trim(), "{:?}", text);
    }
}

#[test]
fn equal_texts() {
    assert!(same_text("forward", "forward"));
    assert!(!same_text("forward", "forwards"));
    assert!(!same_text("forward", "Forward"));
    assert!(same_text("", ""));
    assert!(same_chars(&to_chars("é"), &to_chars("é")));
    assert!(!same_chars(&to_chars("e"), &to_chars("é")));
    assert_eq!(to_chars("héllo"), vec!['h', 'é', 'l', 'l', 'o']);
}
