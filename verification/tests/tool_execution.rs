use dbx_core::agent_tools::{all_tools, ToolSupport};
use dbx_core::introspection_sql::{build_fk_sql, DatabaseType};
use dbx_core::json::{JsonNumber, JsonValue};
use dbx_core::tool_execution::{
    blocked_result, columns_outcome, count_table_rows, explain_sql_outcome, finish_explain_result,
    finish_tool_result, introspection_outcome, list_tables_outcome, plan_tool_action, prepare_tool_call,
    query_outcome, sample_data_sql, sampling_progress, Introspection, ToolAction,
};
use dbx_core::tool_output::{format_query_result_as_text, CellValue, ColumnInfo, QueryResult, TableInfo};
use dbx_core::ToolCall;

fn s(v: &str) -> JsonValue {
    JsonValue::String(v.to_string())
}

fn n(v: u64) -> JsonValue {
    JsonValue::Number(JsonNumber::PosInt(v))
}

fn obj(members: Vec<(&str, JsonValue)>) -> JsonValue {
    JsonValue::Object(members.into_iter().map(|(k, v)| (k.to_string(), v)).collect())
}

fn call(name: &str, arguments: JsonValue) -> ToolCall {
    ToolCall { id: "call-1".to_string(), name: name.to_string(), arguments }
}

fn every_tool() -> ToolSupport {
    ToolSupport { sql_query: true, explain_plan: true, fk_introspection: true }
}

fn rows_of(columns: &[&str], rows: &[&[&str]]) -> QueryResult {
    QueryResult {
        columns: columns.iter().map(|c| c.to_string()).collect(),
        rows: rows.iter().map(|r| r.iter().map(|v| CellValue::Text(v.to_string())).collect()).collect(),
        execution_time_ms: 3,
        truncated: false,
    }
}

fn message_of(a: ToolAction) -> String {
    match a {
        ToolAction::Fail { message } => message,
        _ => panic!("expected a failing action"),
    }
}

#[test]
fn validator_error_becomes_error_result() {
    let tools = all_tools(&every_tool());
    let c = call("get_columns", obj(vec![("table", s("a;b"))]));
    let r = prepare_tool_call(&c, &tools).err().unwrap();
    assert_eq!(r.content, "Error: Table name contains invalid characters: 'a;b'");
    assert!(r.is_error);
    assert_eq!(r.tool_call_id, "call-1");
    assert_eq!(r.tool_name, "get_columns");
    assert!(r.explain_data.is_none());
}

#[test]
fn validator_output_is_handed_on() {
    let tools = all_tools(&every_tool());
    let c = call("execute_query", obj(vec![("sql", s(" select 1 ")), ("limit", n(150))]));
    let v = prepare_tool_call(&c, &tools).ok().unwrap();
    assert_eq!(v.parsed.get("sql").and_then(|x| x.as_str()), Some("select 1"));
    assert_eq!(v.parsed.get("limit").and_then(|x| x.as_u64()), Some(100));
    assert_eq!(v.warnings, vec!["limit capped from 150 to 100".to_string()]);
}

#[test]
fn unknown_tool_passes_arguments_through() {
    let tools = all_tools(&every_tool());
    let c = call("drop_everything", obj(vec![("x", s(" y "))]));
    let v = prepare_tool_call(&c, &tools).ok().unwrap();
    assert_eq!(v.parsed.get("x").and_then(|x| x.as_str()), Some(" y "));
    assert!(v.warnings.is_empty());
    assert_eq!(message_of(plan_tool_action("drop_everything", &v.parsed, "db", &DatabaseType::Postgres)), "Unknown tool: drop_everything");
}

#[test]
fn blocked_call_result() {
    let c = call("execute_query", obj(vec![]));
    let r = blocked_result(&c, "read-only session");
    assert_eq!(r.content, "Blocked: read-only session");
    assert!(r.is_error);
    assert_eq!(r.tool_name, "execute_query");
}

#[test]
fn plans_for_listing_tools() {
    match plan_tool_action("list_tables", &obj(vec![("schema", s("sales"))]), "db", &DatabaseType::Postgres) {
        ToolAction::ListTables { schema } => assert_eq!(schema, "sales"),
        _ => panic!("expected a table listing"),
    }
    match plan_tool_action("list_tables", &obj(vec![]), "db", &DatabaseType::Postgres) {
        ToolAction::ListTables { schema } => assert_eq!(schema, ""),
        _ => panic!("expected a table listing"),
    }
    match plan_tool_action("get_columns", &obj(vec![("table", s(" users ")), ("schema", s("app"))]), "db", &DatabaseType::Mysql) {
        ToolAction::GetColumns { table, schema, cache_key } => {
            assert_eq!(table, "users");
            assert_eq!(schema, "app");
            assert_eq!(cache_key, "app.users");
        }
        _ => panic!("expected a column listing"),
    }
    assert_eq!(
        message_of(plan_tool_action("get_columns", &obj(vec![]), "db", &DatabaseType::Mysql)),
        "Missing required parameter: table"
    );
}

#[test]
fn plans_for_queries() {
    match plan_tool_action("execute_query", &obj(vec![("sql", s(" select 1 ")), ("limit", n(500))]), "db", &DatabaseType::Sqlite) {
        ToolAction::ExecuteQuery { sql, limit } => {
            assert_eq!(sql, "select 1");
            assert_eq!(limit, 100);
        }
        _ => panic!("expected a query"),
    }
    match plan_tool_action("execute_query", &obj(vec![("sql", s("q"))]), "db", &DatabaseType::Sqlite) {
        ToolAction::ExecuteQuery { limit, .. } => assert_eq!(limit, 50),
        _ => panic!("expected a query"),
    }
    assert_eq!(
        message_of(plan_tool_action("execute_query", &obj(vec![("sql", s("  "))]), "db", &DatabaseType::Sqlite)),
        "SQL query cannot be empty"
    );
    assert_eq!(
        message_of(plan_tool_action("explain_query", &obj(vec![]), "db", &DatabaseType::Sqlite)),
        "Missing required parameter: sql"
    );
    match plan_tool_action("explain_query", &obj(vec![("sql", s("select 2 "))]), "db", &DatabaseType::Sqlite) {
        ToolAction::ExplainQuery { sql } => assert_eq!(sql, "select 2"),
        _ => panic!("expected an explain request"),
    }
}

#[test]
fn plans_for_sampling() {
    match plan_tool_action("get_sample_data", &obj(vec![("table", s(" t ")), ("schema", s("s"))]), "db", &DatabaseType::Postgres) {
        ToolAction::GetSampleData { sql, limit } => {
            assert_eq!(sql, "SELECT * FROM \"s\".\"t\" LIMIT 20");
            assert_eq!(limit, 20);
        }
        _ => panic!("expected sampling"),
    }
    match plan_tool_action("get_sample_data", &obj(vec![("table", s(" users ")), ("schema", s("app")), ("limit", n(500))]), "db", &DatabaseType::Postgres) {
        ToolAction::GetSampleData { sql, limit } => {
            assert_eq!(sql, "SELECT * FROM \"app\".\"users\" LIMIT 20");
            assert_eq!(limit, 20);
        }
        _ => panic!("expected sampling"),
    }
    match plan_tool_action("get_sample_data", &obj(vec![("table", s("t")), ("limit", n(0))]), "db", &DatabaseType::Postgres) {
        ToolAction::GetSampleData { sql, limit } => {
            assert_eq!(sql, "SELECT * FROM \"t\" LIMIT 0");
            assert_eq!(limit, 0);
        }
        _ => panic!("expected sampling"),
    }
    assert_eq!(
        message_of(plan_tool_action("get_sample_data", &obj(vec![("table", s("a'b"))]), "db", &DatabaseType::Postgres)),
        "Table name contains invalid characters: 'a'b'"
    );
    assert_eq!(sample_data_sql("t", Some(""), 5), "SELECT * FROM \"t\" LIMIT 5");
    assert_eq!(sample_data_sql("t", None, 100), "SELECT * FROM \"t\" LIMIT 100");
    assert_eq!(sample_data_sql("orders", Some("shop"), 7), "SELECT * FROM \"shop\".\"orders\" LIMIT 7");
}

#[test]
fn plans_for_introspection() {
    match plan_tool_action("get_foreign_keys", &obj(vec![("table", s("orders"))]), "shop", &DatabaseType::Mysql) {
        ToolAction::Introspect { kind, table, sql } => {
            assert_eq!(kind, Introspection::ForeignKeys);
            assert_eq!(table, "orders");
            assert_eq!(Some(sql), build_fk_sql("orders", "", "shop", &DatabaseType::Mysql));
        }
        _ => panic!("expected introspection"),
    }
    assert_eq!(
        message_of(plan_tool_action("get_foreign_keys", &obj(vec![("table", s("t"))]), "db", &DatabaseType::Other("ClickHouse".to_string()))),
        "FK introspection not supported for ClickHouse"
    );
    assert_eq!(
        message_of(plan_tool_action("get_indexes", &obj(vec![("table", s("t"))]), "db", &DatabaseType::Other("ClickHouse".to_string()))),
        "Index introspection not supported for ClickHouse"
    );
    assert_eq!(
        message_of(plan_tool_action("get_indexes", &obj(vec![("table", s(""))]), "db", &DatabaseType::Postgres)),
        "Table name cannot be empty"
    );
}

#[test]
fn replies_become_text() {
    let tables = vec![TableInfo { name: "users".to_string(), table_type: "TABLE".to_string(), comment: None }];
    assert_eq!(list_tables_outcome(Ok(tables)), Ok("- users (TABLE)".to_string()));
    assert_eq!(list_tables_outcome(Err("timeout".to_string())), Err("Failed to list tables: timeout".to_string()));
    let cols = vec![ColumnInfo {
        name: "id".to_string(),
        data_type: "int".to_string(),
        is_primary_key: true,
        is_nullable: false,
        column_default: None,
        extra: None,
        comment: None,
    }];
    assert_eq!(columns_outcome("users", Ok(cols)), Ok("Columns of users:\n  - id: int (PK, NOT NULL)".to_string()));
    assert_eq!(columns_outcome("users", Err("gone".to_string())), Err("Failed to get columns for users: gone".to_string()));
    let q = rows_of(&["a"], &[&["x"]]);
    let expected = format_query_result_as_text(&q, 50);
    assert_eq!(query_outcome(Ok(q), 50), expected);
    assert_eq!(query_outcome(Err("syntax error".to_string()), 50), Err("syntax error".to_string()));
}

#[test]
fn introspection_replies_become_tables() {
    let q = rows_of(&["column_name", "referenced_table"], &[&["user_id", "users"]]);
    let out = introspection_outcome(Introspection::ForeignKeys, "orders", Ok(q)).ok().unwrap();
    assert!(out.starts_with("Foreign keys for \"orders\":"));
    assert!(out.contains("user_id"));
    let empty = rows_of(&["index_name"], &[]);
    assert_eq!(
        introspection_outcome(Introspection::Indexes, "users", Ok(empty)),
        Ok("No indexes found for \"users\".".to_string())
    );
    assert_eq!(introspection_outcome(Introspection::Indexes, "users", Err("e".to_string())), Err("e".to_string()));
}

#[test]
fn explain_builder_outcomes() {
    assert_eq!(explain_sql_outcome(true, Some("EXPLAIN q".to_string()), None), Ok("EXPLAIN q".to_string()));
    assert_eq!(explain_sql_outcome(true, None, None), Err("EXPLAIN SQL is empty".to_string()));
    assert_eq!(
        explain_sql_outcome(false, None, Some("writes data".to_string())),
        Err("Cannot explain this query: writes data. The database type may not support EXPLAIN, or the query may be unsafe.".to_string())
    );
    assert_eq!(
        explain_sql_outcome(false, Some("ignored".to_string()), None),
        Err("Cannot explain this query: unknown. The database type may not support EXPLAIN, or the query may be unsafe.".to_string())
    );
}

#[test]
fn sampling_progress_report() {
    let v = sampling_progress(12);
    assert_eq!(v.get("phase").and_then(|x| x.as_str()), Some("sampling"));
    assert_eq!(v.get("rows_collected").and_then(|x| x.as_u64()), Some(12));
    match v {
        JsonValue::Object(ms) => assert_eq!(ms.len(), 2),
        _ => panic!("not an object"),
    }
}

#[test]
fn rows_counted_from_markdown() {
    assert_eq!(count_table_rows("Query returned 0 rows."), 0);
    assert_eq!(count_table_rows(""), 0);
    assert_eq!(count_table_rows("| a |\n|---|\n| 1 |\n| 2 |\n(2 rows, 1ms)"), 2);
    assert_eq!(count_table_rows("x | y\n|z"), 0);
    assert_eq!(count_table_rows("|a\n|b\nc|"), 0);
    assert_eq!(count_table_rows("|a\n|b\n|c"), 1);
    let q = rows_of(&["a"], &[&["1"], &["2"], &["3"]]);
    let text = format_query_result_as_text(&q, 20).ok().unwrap();
    assert_eq!(count_table_rows(&text), 3);
}

#[test]
fn final_result_wording() {
    let c = call("execute_query", obj(vec![]));
    let r = finish_tool_result(&c, &[], Ok("done".to_string()));
    assert_eq!(r.content, "done");
    assert!(!r.is_error);
    let warnings = vec!["a".to_string(), "b".to_string()];
    let r = finish_tool_result(&c, &warnings, Ok("done".to_string()));
    assert_eq!(r.content, "[WARNING] a; b\n\ndone");
    let r = finish_tool_result(&c, &warnings[..1], Err("bad".to_string()));
    assert_eq!(r.content, "[WARNING] a\n\nError: bad");
    assert!(r.is_error);
    assert!(r.explain_data.is_none());
}

#[test]
fn explain_result_keeps_data_only_on_success() {
    let c = call("explain_query", obj(vec![]));
    let r = finish_explain_result(&c, &[], Ok("plan".to_string()), Some(s("tree")));
    assert_eq!(r.content, "plan");
    assert_eq!(r.explain_data.as_ref().and_then(|d| d.as_str()), Some("tree"));
    let r = finish_explain_result(&c, &[], Err("no".to_string()), Some(s("tree")));
    assert_eq!(r.content, "Error: no");
    assert!(r.explain_data.is_none());
}
