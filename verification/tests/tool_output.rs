use dbx_core::tool_output::{format_fk_result, format_index_result, CellValue, QueryResult};

fn make_result(columns: &[&str], rows: &[&[&str]]) -> QueryResult {
    QueryResult {
        columns: columns.iter().map(|s| s.to_string()).collect(),
        rows: rows
            .iter()
            .map(|row| row.iter().map(|v| CellValue::Text(v.to_string())).collect())
            .collect(),
        execution_time_ms: 0,
        truncated: false,
    }
}

#[test]
fn format_fk_result_empty_returns_no_fk_message() {
    let result = make_result(&["a"], &[]);
    assert_eq!(format_fk_result(&result, "orders"), "No foreign keys found for \"orders\".");
}

#[test]
fn format_fk_result_formats_rows() {
    let result = make_result(
        &["column_name", "referenced_table", "referenced_column"],
        &[&["user_id", "users", "id"]],
    );
    let out = format_fk_result(&result, "orders");
    assert!(out.contains("Foreign keys for \"orders\":"), "header missing: {out}");
    assert!(out.contains("user_id"), "row data missing: {out}");
    assert!(out.contains("users"), "ref table missing: {out}");
}

#[test]
fn format_index_result_empty_returns_no_index_message() {
    let result = make_result(&["index_name"], &[]);
    assert_eq!(format_index_result(&result, "users"), "No indexes found for \"users\".");
}

#[test]
fn format_index_result_formats_rows() {
    let result = make_result(
        &["index_name", "columns", "is_unique"],
        &[&["PRIMARY", "id", "YES"]],
    );
    let out = format_index_result(&result, "users");
    assert!(out.contains("Indexes for \"users\":"), "header missing: {out}");
    assert!(out.contains("PRIMARY"), "index name missing: {out}");
}

use dbx_core::tool_output::{
    format_column_list, format_query_result_as_text, format_query_result_table, format_table_list,
    row_value_as_str, ColumnInfo, TableInfo,
};

fn table(name: &str, ty: &str, comment: Option<&str>) -> TableInfo {
    TableInfo { name: name.to_string(), table_type: ty.to_string(), comment: comment.map(|c| c.to_string()) }
}

#[test]
fn table_list_lines_and_comments() {
    let tables = vec![table("users", "TABLE", Some("  app users ")), table("v", "VIEW", Some("   ")), table("t", "TABLE", None)];
    assert_eq!(format_table_list(&tables), "- users (TABLE) -- app users\n- v (VIEW)\n- t (TABLE)");
}

#[test]
fn table_list_empty_message() {
    assert_eq!(format_table_list(&[]), "No tables found in this database/schema.");
}

#[test]
fn table_list_notes_more_than_two_hundred() {
    let tables: Vec<TableInfo> = (0..201).map(|i| table(&format!("t{i}"), "TABLE", None)).collect();
    let out = format_table_list(&tables);
    let lines: Vec<&str> = out.lines().collect();
    assert_eq!(lines.len(), 201);
    assert_eq!(lines[199], "- t199 (TABLE)");
    assert_eq!(lines[200], "... (showing 200 of 201 tables)");
}

#[test]
fn column_list_flags() {
    let cols = vec![
        ColumnInfo {
            name: "id".to_string(),
            data_type: "int".to_string(),
            is_primary_key: true,
            is_nullable: false,
            column_default: Some("".to_string()),
            extra: Some("auto_increment".to_string()),
            comment: Some(" key ".to_string()),
        },
        ColumnInfo {
            name: "name".to_string(),
            data_type: "text".to_string(),
            is_primary_key: false,
            is_nullable: true,
            column_default: Some("'x'".to_string()),
            extra: None,
            comment: None,
        },
    ];
    assert_eq!(
        format_column_list("users", &cols),
        "Columns of users:\n  - id: int (PK, NOT NULL, auto_increment) -- key\n  - name: text (nullable, default 'x')"
    );
    assert_eq!(format_column_list("users", &[]), "No columns found for table 'users'.");
}

fn result_of(columns: &[&str], rows: Vec<Vec<CellValue>>, ms: u64, truncated: bool) -> QueryResult {
    QueryResult { columns: columns.iter().map(|s| s.to_string()).collect(), rows, execution_time_ms: ms, truncated }
}

#[test]
fn markdown_rendering_exact() {
    let r = result_of(
        &["id", "name", "note"],
        vec![vec![CellValue::Json("1".to_string()), CellValue::Text("bob".to_string()), CellValue::Null]],
        7,
        false,
    );
    assert_eq!(
        format_query_result_as_text(&r, 50),
        Ok("| id | name | note |\n|---|---|---|\n| 1 | bob | NULL |\n(1 rows, 7ms)".to_string())
    );
}

#[test]
fn markdown_notes_possible_truncation() {
    let r = result_of(&["a"], vec![vec![CellValue::Text("x".to_string())]], 0, false);
    assert_eq!(
        format_query_result_as_text(&r, 1),
        Ok("| a |\n|---|\n| x |\n... (showing 1 rows, result may be truncated)\n(1 rows, 0ms)".to_string())
    );
    let t = result_of(&["a"], vec![vec![CellValue::Text("x".to_string())]], 0, true);
    assert!(format_query_result_as_text(&t, 50).unwrap().contains("result may be truncated"));
}

#[test]
fn markdown_empty_result() {
    let r = result_of(&["a"], vec![], 0, false);
    assert_eq!(format_query_result_as_text(&r, 50), Ok("Query returned 0 rows.".to_string()));
}

#[test]
fn markdown_cuts_long_strings_at_two_hundred_bytes() {
    let long = "a".repeat(201);
    let r = result_of(&["a"], vec![vec![CellValue::Text(long)]], 0, false);
    let out = format_query_result_as_text(&r, 50).unwrap();
    assert!(out.contains(&format!("| {}... |", "a".repeat(200))));
    // a two-byte character that starts at byte 199 is kept whole
    let mixed = format!("{}\u{e9}b", "a".repeat(199));
    let r = result_of(&["a"], vec![vec![CellValue::Text(mixed)]], 0, false);
    let out = format_query_result_as_text(&r, 50).unwrap();
    assert!(out.contains(&format!("| {}\u{e9}... |", "a".repeat(199))));
    // exactly 200 bytes is not cut
    let exact = "b".repeat(200);
    let r = result_of(&["a"], vec![vec![CellValue::Text(exact.clone())]], 0, false);
    assert!(format_query_result_as_text(&r, 50).unwrap().contains(&format!("| {exact} |")));
}

#[test]
fn padded_table_exact() {
    let r = result_of(
        &["name", "n"],
        vec![
            vec![CellValue::Text("ab".to_string()), CellValue::Json("100".to_string())],
            vec![CellValue::Null, CellValue::Text("x".to_string())],
        ],
        0,
        false,
    );
    assert_eq!(
        format_query_result_table(&r, "T:", "none"),
        "T:\n  name | n  \n  ---- | ---\n  ab   | 100\n  NULL | x  "
    );
}

#[test]
fn padded_table_widths_count_bytes_and_share_names() {
    let r = result_of(
        &["a", "a"],
        vec![vec![CellValue::Text("\u{e9}".to_string()), CellValue::Text("xyz".to_string())]],
        0,
        false,
    );
    // both columns are named "a" and share the width 3; the two-byte
    // character is padded by characters
    assert_eq!(format_query_result_table(&r, "T", "none"), "T\n  a   | a  \n  --- | ---\n  \u{e9}   | xyz");
}

#[test]
fn cell_display() {
    assert_eq!(row_value_as_str(&CellValue::Null), "NULL");
    assert_eq!(row_value_as_str(&CellValue::Text("s".to_string())), "s");
    assert_eq!(row_value_as_str(&CellValue::Json("[1,2]".to_string())), "[1,2]");
}

#[test]
fn padded_table_has_a_line_per_row_of_one_width() {
    let r = make_result(&["id", "name"], &[&["1", "alice"], &["22", "b"], &["333", ""]]);
    let out = format_query_result_table(&r, "T:", "none");
    let lines: Vec<&str> = out.split('\n').collect();
    assert_eq!(lines.len(), 3 + 3);
    assert_eq!(lines[0], "T:");
    for l in &lines[1..] {
        assert!(l.starts_with("  "));
        assert_eq!(l.len(), 2 + 3 + 5 + 3);
    }
}
