use dbx_core::sql_diagnostics::redact_sql_for_diagnostics;

#[test]
fn redacts_sensitive_literals_and_bounds_large_sql() {
    let sql = format!("select * from users where password = 'secret-123' and api_key=abc {};", "x".repeat(900));
    let redacted = redact_sql_for_diagnostics(&sql);
    assert!(!redacted.contains("secret-123"));
    assert!(!redacted.contains("api_key=abc"));
    assert!(redacted.contains("'[REDACTED]'"));
    assert!(redacted.contains("api_key=[REDACTED]"));
    assert!(redacted.contains("truncated"));
    assert!(redacted.len() < sql.len());
}

use dbx_core::sql_diagnostics::{
    debug_sql, is_sensitive_key, redact_literals, redact_sensitive_assignments,
    truncate_for_diagnostics,
};

#[test]
fn literal_is_replaced_by_marker() {
    assert_eq!(redact_literals("select 'a' from t"), "select '[REDACTED]' from t");
    assert_eq!(redact_literals("where name = \"bob\""), "where name = \"[REDACTED]\"");
    assert_eq!(redact_literals("select `col` from t"), "select `[REDACTED]` from t");
}

#[test]
fn doubled_quote_stays_inside_literal() {
    assert_eq!(redact_literals("x = 'it''s' and y"), "x = '[REDACTED]' and y");
}

#[test]
fn backslash_escapes_quote_except_in_backquotes() {
    assert_eq!(redact_literals("x = 'a\\'b' y"), "x = '[REDACTED]' y");
    assert_eq!(redact_literals("`a\\` y"), "`[REDACTED]` y");
}

#[test]
fn unterminated_literal_runs_to_end() {
    assert_eq!(redact_literals("x = 'abc"), "x = '[REDACTED]'");
    assert_eq!(redact_literals("x = 'abc\\"), "x = '[REDACTED]'");
}

#[test]
fn line_comment_is_masked_and_break_kept() {
    assert_eq!(redact_literals("a -- secret\nb"), "a --[REDACTED_COMMENT]\nb");
    assert_eq!(redact_literals("a -- secret\r\nb"), "a --[REDACTED_COMMENT]\r\nb");
    assert_eq!(redact_literals("a -- secret"), "a --[REDACTED_COMMENT]");
}

#[test]
fn block_comment_is_masked() {
    assert_eq!(redact_literals("a /* x */ b"), "a /*[REDACTED_COMMENT]*/ b");
    assert_eq!(redact_literals("a /* open"), "a /*[REDACTED_COMMENT]*/n");
    assert_eq!(redact_literals("/*/"), "/*[REDACTED_COMMENT]*//");
}

#[test]
fn plain_text_passes_unchanged() {
    let s = "select a - b / c from t where x = 1";
    assert_eq!(redact_literals(s), s);
}

#[test]
fn literal_redaction_twice_is_once() {
    let s = "select 'a''b', \"c\\\"\" -- x\n/* y */ `z` 'open";
    let once = redact_literals(s);
    assert_eq!(redact_literals(&once), once);
}

#[test]
fn sensitive_assignment_loses_value() {
    assert_eq!(redact_sensitive_assignments("password=abc user=bob"), "password=[REDACTED] user=bob");
    assert_eq!(redact_sensitive_assignments("TOKEN:xyz"), "TOKEN:[REDACTED]");
    assert_eq!(redact_sensitive_assignments("(password)=x"), "(password)=[REDACTED]");
    assert_eq!(redact_sensitive_assignments("x=token:v"), "x=token:[REDACTED]");
}

#[test]
fn equals_is_tried_before_colon() {
    assert_eq!(redact_sensitive_assignments("password:x=y"), "password:x=[REDACTED]");
}

#[test]
fn whitespace_collapses_to_single_spaces() {
    assert_eq!(redact_sensitive_assignments("  a \t b\n\nc  "), "a b c");
    assert_eq!(redact_sensitive_assignments(""), "");
}

#[test]
fn assignment_redaction_twice_is_once() {
    let s = "a=1 secret=2 x=token:3 bearer: y (apikey)=z";
    let once = redact_sensitive_assignments(s);
    assert_eq!(redact_sensitive_assignments(&once), once);
}

#[test]
fn sensitive_keys() {
    assert!(is_sensitive_key("PASSWORD"));
    assert!(is_sensitive_key("db_passwd"));
    assert!(is_sensitive_key("pwd"));
    assert!(is_sensitive_key("PWD"));
    assert!(!is_sensitive_key("mypwd"));
    assert!(is_sensitive_key("Access_Key_Id"));
    assert!(is_sensitive_key("x-authorization"));
    assert!(!is_sensitive_key("username"));
    assert!(!is_sensitive_key(""));
}

#[test]
fn truncation_marker_counts_omitted_chars() {
    assert_eq!(truncate_for_diagnostics("abcdef".to_string(), 3), "abc\u{2026}[truncated 3 chars]");
    assert_eq!(truncate_for_diagnostics("abc".to_string(), 3), "abc");
    assert_eq!(truncate_for_diagnostics("\u{e9}\u{e9}\u{e9}\u{e9}".to_string(), 2), "\u{e9}\u{e9}\u{2026}[truncated 2 chars]");
    assert_eq!(truncate_for_diagnostics("ab".to_string(), 0), "\u{2026}[truncated 2 chars]");
}

#[test]
fn diagnostics_line_names_scope() {
    assert_eq!(debug_sql("query", "select 'x' from t"), "[query] sql=select '[REDACTED]' from t");
}

#[test]
fn diagnostics_text_is_bounded() {
    let sql = "'a' ".repeat(5000);
    let out = redact_sql_for_diagnostics(&sql);
    assert!(out.chars().count() <= 512 + 39);
    assert!(out.ends_with("[truncated 64487 chars]"));
    let short = redact_sql_for_diagnostics("select 1");
    assert_eq!(short, "select 1");
}

#[test]
fn literal_content_does_not_reach_diagnostics() {
    assert_eq!(redact_sql_for_diagnostics("x = 'a -- /* api_key=1 \n x'"), "x = '[REDACTED]'");
    assert_eq!(redact_sql_for_diagnostics("x = 'hunter2'"), "x = '[REDACTED]'");
    assert_eq!(redact_sql_for_diagnostics(&format!("x = '{}'", "s".repeat(900))), "x = '[REDACTED]'");
}

#[test]
fn assignment_redaction_keeps_word_count() {
    let sql = "select  *\tfrom t where\npassword=1 and token:2";
    let out = redact_sensitive_assignments(sql);
    assert_eq!(out.split_whitespace().count(), sql.split_whitespace().count());
    assert_eq!(out, out.split_whitespace().collect::<Vec<_>>().join(" "));
    assert_eq!(out, "select * from t where password=[REDACTED] and token:[REDACTED]");
}

#[test]
fn sensitive_key_case_and_surroundings() {
    assert!(is_sensitive_key("My_Api_Key_2"));
    assert!(is_sensitive_key("MY_API_KEY_2"));
    assert!(is_sensitive_key("xxSECRETyy"));
    assert!(is_sensitive_key("PwD"));
    assert!(!is_sensitive_key("xpwdx"));
    assert!(!is_sensitive_key("user"));
}
