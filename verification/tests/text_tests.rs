use hyperdb_mcp::sql::{is_read_only_sql, strip_leading_sql_comments};
use hyperdb_mcp::text;

#[test]
fn numbers_are_written_and_read() {
    assert_eq!(text::decimal_text(0), "0");
    assert_eq!(text::decimal_text(u64::MAX), "18446744073709551615");
    assert_eq!(text::hexadecimal_text(255), "ff");
    assert_eq!(text::parse_unsigned("18446744073709551615", u64::MAX), Some(u64::MAX));
    assert_eq!(text::parse_unsigned("18446744073709551616", u64::MAX), None);
    assert_eq!(text::parse_unsigned("+7", 10), Some(7));
    assert_eq!(text::parse_unsigned("65536", 65535), None);
    assert_eq!(text::parse_unsigned("", 10), None);
    assert_eq!(text::parse_unsigned("7x", 10), None);
}

#[test]
fn texts_are_cut_at_characters() {
    assert_eq!(text::truncate_utf8("héllo", 2), "h");
    assert_eq!(text::truncate_utf8("héllo", 3), "hé");
    assert_eq!(text::truncate_utf8("abc", 10), "abc");
    assert_eq!(text::byte_count("hé"), 3);
}

#[test]
fn texts_are_compared_searched_and_trimmed() {
    assert!(text::same_text_ignoring_case("LoCaL", "local"));
    assert!(!text::same_text_ignoring_case("É", "é"));
    assert!(text::contains("abcabc", "cab"));
    assert!(text::starts_with("abc", "ab"));
    assert!(text::ends_with("abc", "bc"));
    assert!(!text::ends_with("c", "bc"));
    assert_eq!(text::trim("\u{2003}  x y\n"), "x y");
    assert_eq!(text::split_words("  a \t bc\n"), vec!["a".to_string(), "bc".to_string()]);
    assert_eq!(text::join(&vec!["a".into(), "b".into()], ", "), "a, b");
}

#[test]
fn leading_comments_are_skipped() {
    assert_eq!(strip_leading_sql_comments("  -- note\r\n/* a /* b */ c */ SELECT 1"), "SELECT 1");
    assert_eq!(strip_leading_sql_comments("/* a /* b */ SELECT 1"), "");
    assert_eq!(strip_leading_sql_comments("/* open"), "");
    assert_eq!(strip_leading_sql_comments("-- only"), "");
}

#[test]
fn asides_are_cut_whatever_their_line_ends() {
    for end in ["\n", "\r", "\r\n"] {
        let run = format!(" \t-- one{end}/* two {end} /* three */ */{end}--{end}");
        for sql in ["SELECT 1", "\nSELECT 1", "DELETE FROM t", "- 1", "/ 2", ""] {
            let whole = format!("{run}{sql}");
            assert_eq!(strip_leading_sql_comments(&whole), sql.trim_start());
            assert_eq!(is_read_only_sql(&whole), is_read_only_sql(sql));
        }
    }
    assert_eq!(strip_leading_sql_comments("SELECT 1 -- end"), "SELECT 1 -- end");
    assert_eq!(strip_leading_sql_comments("/* whole */ -- open"), "");
}

#[test]
fn reading_statements_are_told_by_their_first_word() {
    assert!(is_read_only_sql("select 1"));
    assert!(is_read_only_sql("-- x\nWITH a AS (SELECT 1) SELECT * FROM a"));
    assert!(is_read_only_sql("EXPLAIN SELECT 1"));
    assert!(!is_read_only_sql("DELETE FROM t"));
    assert!(!is_read_only_sql(""));
    assert!(!is_read_only_sql("/* SELECT"));
}
