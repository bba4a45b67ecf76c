use dbx_core::agent_tools::{all_tools, ToolSupport};
use dbx_core::introspection_sql::DatabaseType;
use dbx_core::json::{JsonNumber, JsonValue};
use dbx_core::tool_call::{expects, step_tool_call, CacheUpdate, CallAction, CallEvent, CallState};
use dbx_core::tool_output::{CellValue, QueryResult, TableInfo};
use dbx_core::{ToolCall, ToolDefinition, ToolResult};

fn s(v: &str) -> JsonValue {
    JsonValue::String(v.to_string())
}

fn n(v: u64) -> JsonValue {
    JsonValue::Number(JsonNumber::PosInt(v))
}

fn obj(members: Vec<(&str, JsonValue)>) -> JsonValue {
    JsonValue::Object(members.into_iter().map(|(k, v)| (k.to_string(), v)).collect())
}

fn call(name: &str, arguments: JsonValue) -> ToolCall {
    ToolCall { id: "c7".to_string(), name: name.to_string(), arguments }
}

fn tools() -> Vec<ToolDefinition> {
    all_tools(&ToolSupport { sql_query: true, explain_plan: true, fk_introspection: true })
}

fn rows(values: &[&str]) -> QueryResult {
    QueryResult {
        columns: vec!["a".to_string()],
        rows: values.iter().map(|v| vec![CellValue::Text(v.to_string())]).collect(),
        execution_time_ms: 1,
        truncated: false,
    }
}

struct Run<'a> {
    call: &'a ToolCall,
    tools: &'a [ToolDefinition],
    has_hook: bool,
    has_cache: bool,
}

impl<'a> Run<'a> {
    fn step(&self, state: CallState, event: CallEvent) -> (CallState, CallAction) {
        assert!(expects(&state, &event));
        step_tool_call(self.call, self.tools, self.has_hook, self.has_cache, "db", &DatabaseType::Postgres, state, event)
    }
}

fn answer(action: CallAction) -> (ToolResult, CacheUpdate, Option<JsonValue>) {
    match action {
        CallAction::Answer { result, cache, progress } => (result, cache, progress),
        _ => panic!("expected an answer"),
    }
}

#[test]
fn invalid_arguments_are_answered_at_once() {
    let ts = tools();
    let c = call("get_columns", obj(vec![]));
    let run = Run { call: &c, tools: &ts, has_hook: true, has_cache: true };
    let (state, action) = run.step(CallState::Start, CallEvent::Begin);
    assert!(matches!(state, CallState::Answered));
    let (r, cache, progress) = answer(action);
    assert_eq!(r.content, "Error: Missing required parameter: 'table'");
    assert!(r.is_error);
    assert_eq!(r.tool_call_id, "c7");
    assert!(matches!(cache, CacheUpdate::Keep));
    assert!(progress.is_none());
}

#[test]
fn hook_is_asked_and_can_block() {
    let ts = tools();
    let c = call("execute_query", obj(vec![("sql", s("select 1"))]));
    let run = Run { call: &c, tools: &ts, has_hook: true, has_cache: false };
    let (state, action) = run.step(CallState::Start, CallEvent::Begin);
    assert!(matches!(action, CallAction::AskHook));
    match &state {
        CallState::AwaitingHook { validated } => {
            assert_eq!(validated.parsed.get("limit").and_then(|v| v.as_u64()), Some(50))
        }
        _ => panic!("expected to wait for the hook"),
    }
    let (_, action) = run.step(state, CallEvent::HookReply(Err("read-only".to_string())));
    let (r, _, _) = answer(action);
    assert_eq!(r.content, "Blocked: read-only");
    assert!(r.is_error);
}

#[test]
fn unknown_tool_without_hook() {
    let ts = tools();
    let c = call("drop_all", obj(vec![]));
    let run = Run { call: &c, tools: &ts, has_hook: false, has_cache: false };
    let (_, action) = run.step(CallState::Start, CallEvent::Begin);
    let (r, _, _) = answer(action);
    assert_eq!(r.content, "Error: Unknown tool: drop_all");
    assert!(r.is_error);
}

#[test]
fn cached_listing_is_answered_from_the_cache() {
    let ts = tools();
    let c = call("list_tables", obj(vec![]));
    let run = Run { call: &c, tools: &ts, has_hook: false, has_cache: true };
    let (state, action) = run.step(CallState::Start, CallEvent::Begin);
    assert!(matches!(action, CallAction::LookUpTables));
    let (_, action) = run.step(state, CallEvent::Cached(Some("- t (TABLE)".to_string())));
    let (r, cache, _) = answer(action);
    assert_eq!(r.content, "- t (TABLE)");
    assert!(!r.is_error);
    assert!(matches!(cache, CacheUpdate::Keep));
}

#[test]
fn fetched_listing_is_stored() {
    let ts = tools();
    let c = call("list_tables", obj(vec![("schema", s("app"))]));
    let run = Run { call: &c, tools: &ts, has_hook: false, has_cache: true };
    let (state, _) = run.step(CallState::Start, CallEvent::Begin);
    let (state, action) = run.step(state, CallEvent::Cached(None));
    match action {
        CallAction::ListTables { schema, limit } => {
            assert_eq!(schema, "app");
            assert_eq!(limit, 201);
        }
        _ => panic!("expected a listing"),
    }
    let tables = vec![TableInfo { name: "users".to_string(), table_type: "TABLE".to_string(), comment: None }];
    let (_, action) = run.step(state, CallEvent::Tables(Ok(tables)));
    let (r, cache, _) = answer(action);
    assert_eq!(r.content, "- users (TABLE)");
    match cache {
        CacheUpdate::Tables(t) => assert_eq!(t, "- users (TABLE)"),
        _ => panic!("expected the listing to be stored"),
    }
}

#[test]
fn failed_columns_are_not_stored() {
    let ts = tools();
    let c = call("get_columns", obj(vec![("table", s("users"))]));
    let run = Run { call: &c, tools: &ts, has_hook: false, has_cache: true };
    let (state, action) = run.step(CallState::Start, CallEvent::Begin);
    match &action {
        CallAction::LookUpColumns { key } => assert_eq!(key, ".users"),
        _ => panic!("expected a cache lookup"),
    }
    let (state, _) = run.step(state, CallEvent::Cached(None));
    let (_, action) = run.step(state, CallEvent::Columns(Err("gone".to_string())));
    let (r, cache, _) = answer(action);
    assert_eq!(r.content, "Error: Failed to get columns for users: gone");
    assert!(r.is_error);
    assert!(matches!(cache, CacheUpdate::Keep));
}

#[test]
fn sampling_reports_progress_and_caps_rows() {
    let ts = tools();
    let c = call("get_sample_data", obj(vec![("table", s(" users ")), ("schema", s("app")), ("limit", n(500))]));
    let run = Run { call: &c, tools: &ts, has_hook: false, has_cache: false };
    let (state, action) = run.step(CallState::Start, CallEvent::Begin);
    match action {
        CallAction::RunQuery { sql, max_rows, progress } => {
            assert_eq!(sql, "SELECT * FROM \"app\".\"users\" LIMIT 20");
            assert_eq!(max_rows, 20);
            assert_eq!(progress.unwrap().get("rows_collected").and_then(|v| v.as_u64()), Some(0));
        }
        _ => panic!("expected a query"),
    }
    let (_, action) = run.step(state, CallEvent::Rows(Ok(rows(&["1", "2"]))));
    let (r, _, progress) = answer(action);
    assert!(r.content.starts_with("[WARNING] limit capped from 500 to 20\n\n| a |"));
    assert_eq!(progress.unwrap().get("rows_collected").and_then(|v| v.as_u64()), Some(2));
}

#[test]
fn explain_runs_the_plan_query_and_keeps_its_data() {
    let ts = tools();
    let c = call("explain_query", obj(vec![("sql", s(" select 1 "))]));
    let run = Run { call: &c, tools: &ts, has_hook: false, has_cache: false };
    let (state, action) = run.step(CallState::Start, CallEvent::Begin);
    match action {
        CallAction::BuildExplain { sql } => assert_eq!(sql, "select 1"),
        _ => panic!("expected the plan query to be built"),
    }
    let (state, action) =
        run.step(state, CallEvent::ExplainSql { ok: true, sql: Some("EXPLAIN select 1".to_string()), reason: None });
    match action {
        CallAction::RunExplain { sql } => assert_eq!(sql, "EXPLAIN select 1"),
        _ => panic!("expected the plan query to run"),
    }
    let (_, action) = run.step(state, CallEvent::ExplainRows { reply: Ok(rows(&["Seq Scan"])), data: Some(s("plan")) });
    let (r, _, _) = answer(action);
    assert!(r.content.starts_with("| a |\n|---|\n| Seq Scan |"));
    assert_eq!(r.explain_data.as_ref().and_then(|d| d.as_str()), Some("plan"));
    assert!(!r.is_error);
}

#[test]
fn refused_explain_is_an_error() {
    let ts = tools();
    let c = call("explain_query", obj(vec![("sql", s("delete from t"))]));
    let run = Run { call: &c, tools: &ts, has_hook: false, has_cache: false };
    let (state, _) = run.step(CallState::Start, CallEvent::Begin);
    let (_, action) = run.step(state, CallEvent::ExplainSql { ok: false, sql: None, reason: Some("writes".to_string()) });
    let (r, _, _) = answer(action);
    assert_eq!(
        r.content,
        "Error: Cannot explain this query: writes. The database type may not support EXPLAIN, or the query may be unsafe."
    );
    assert!(r.explain_data.is_none());
}

#[test]
fn events_must_fit_the_state() {
    assert!(expects(&CallState::Start, &CallEvent::Begin));
    assert!(!expects(&CallState::Start, &CallEvent::Cached(None)));
    assert!(!expects(&CallState::Answered, &CallEvent::Begin));
}
