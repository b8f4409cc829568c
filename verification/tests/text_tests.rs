use void_bootstrap::text::{decimal_string, join_with_newlines, split_lines, trimmed};

#[test]
fn lines_follow_str_lines() {
    for s in ["", "a", "a\n", "a\r\nb", "\n\n", "x\r", "a\nb\r\n\r\n", "é\nü"] {
        let ours = split_lines(s);
        let std: Vec<String> = s.lines().map(|l| l.to_string()).collect();
        assert_eq!(ours, std, "input {:?}", s);
    }
}

#[test]
fn trim_follows_str_trim() {
    for s in ["", "  a ", "\u{a0}x\u{3000}", "\t\n", "a b"] {
        assert_eq!(trimmed(s), s.trim());
    }
}

#[test]
fn join_adds_final_newline() {
    assert_eq!(join_with_newlines(&vec![]), "\n");
    assert_eq!(join_with_newlines(&vec!["a".to_string(), "b".to_string()]), "a\nb\n");
}

#[test]
fn decimal_numerals() {
    for n in [0u64, 7, 10, 99, 100, 4294967295, u64::MAX] {
        assert_eq!(decimal_string(n), n.to_string());
    }
}
