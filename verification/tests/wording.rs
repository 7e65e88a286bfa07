use boil::report::{reach_label, service_lines, terminate, ServiceStatus};
use boil::text::{
    contains_text, eq_ignore_ascii_case, is_white_space, join, pad, same_text, trim,
};

#[test]
fn texts_are_trimmed_of_white_space_of_all_kinds() {
    for s in ["", " ", "a", " a ", "\t\na b\r\n", "\u{2003}é\u{3000}", "\u{a0}", "。", "\u{200b}x"] {
        assert_eq!(trim(s), s.trim());
    }
}

#[test]
fn case_is_ignored_for_ascii_letters_only() {
    assert!(eq_ignore_ascii_case("OFF", "off"));
    assert!(eq_ignore_ascii_case("oFf", "off"));
    assert!(!eq_ignore_ascii_case("off ", "off"));
    assert!(!eq_ignore_ascii_case("ofg", "off"));
    assert!(!eq_ignore_ascii_case("É", "é"));
    assert!(!eq_ignore_ascii_case("[", "{"));
    assert!(!eq_ignore_ascii_case("@", "`"));
}

#[test]
fn occurrence_is_found_anywhere() {
    assert!(contains_text("abc", ""));
    assert!(contains_text("", ""));
    assert!(contains_text("abc", "bc"));
    assert!(contains_text("aab", "ab"));
    assert!(!contains_text("abc", "ac"));
    assert!(!contains_text("a", "ab"));
    assert!(same_text("é", "é"));
    assert!(!same_text("a", "b"));
}

#[test]
fn padding_counts_characters() {
    for s in ["", "Netflix", "流媒体", "exactly 16 chars", "more than sixteen chars"] {
        assert_eq!(pad(s, 16), format!("{:16}", s));
    }
}

#[test]
fn lines_are_joined_and_terminated() {
    let lines = vec!["a".to_string(), "".to_string(), "c".to_string()];
    assert_eq!(join(&lines, "\n\n"), "a\n\n\n\nc");
    assert_eq!(join(&vec![], "x"), "");
    assert_eq!(terminate(&lines), "a\n\nc\n");
    assert_eq!(terminate(&vec![]), "");
}

#[test]
fn service_table_is_aligned() {
    let services = vec![
        ServiceStatus { service: "Netflix".to_string(), status: "✅ US".to_string() },
        ServiceStatus { service: "Disney+".to_string(), status: "❌".to_string() },
    ];
    assert_eq!(
        service_lines("  ", &services),
        ["  Netflix          ✅ US", "  Disney+          ❌"]
    );
    assert_eq!(reach_label(true), "TCP 可达 ✅");
    assert_eq!(reach_label(false), "TCP 未通 ⚠️");
}

#[test]
fn white_space_is_that_of_unicode() {
    for c in '\u{0}'..=char::MAX {
        assert_eq!(is_white_space(c), c.is_whitespace());
    }
}
