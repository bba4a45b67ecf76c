use dbx_core::agent_events::BuiltinTool;
use dbx_core::agent_tools::{
    all_tools, execute_query_tool, get_columns_tool, list_tables_tool, read_only_tools, validate_args,
    validate_execute_query_args, validate_get_columns_args, validate_get_sample_data_args, ToolSupport,
};
use dbx_core::json::{JsonNumber, JsonValue};

fn s(v: &str) -> JsonValue {
    JsonValue::String(v.to_string())
}

fn n(v: u64) -> JsonValue {
    JsonValue::Number(JsonNumber::PosInt(v))
}

fn obj(members: Vec<(&str, JsonValue)>) -> JsonValue {
    JsonValue::Object(members.into_iter().map(|(k, v)| (k.to_string(), v)).collect())
}

fn text_of(v: Option<&JsonValue>) -> Option<String> {
    v.and_then(|x| x.as_str()).map(|x| x.to_string())
}

#[test]
fn get_columns_validator_trims_and_defaults_schema() {
    let v = validate_get_columns_args(&obj(vec![("table", s("  users "))])).ok().unwrap();
    assert_eq!(text_of(v.parsed.get("table")), Some("users".to_string()));
    assert_eq!(text_of(v.parsed.get("schema")), Some(String::new()));
    assert!(v.warnings.is_empty());
}

#[test]
fn get_columns_validator_errors() {
    let err = |args: JsonValue| validate_get_columns_args(&args).err().unwrap();
    assert_eq!(err(obj(vec![])), "Missing required parameter: 'table'");
    assert_eq!(err(obj(vec![("table", n(3))])), "Missing required parameter: 'table'");
    assert_eq!(err(s("users")), "Missing required parameter: 'table'");
    assert_eq!(err(obj(vec![("table", s("   "))])), "Table name cannot be empty");
    assert_eq!(err(obj(vec![("table", s(&"x".repeat(257)))])), "Table name too long: 257 characters (max 256)");
    assert_eq!(err(obj(vec![("table", s(&"\u{e9}".repeat(129)))])), "Table name too long: 258 characters (max 256)");
    assert_eq!(err(obj(vec![("table", s("a;b"))])), "Table name contains invalid characters: 'a;b'");
    assert_eq!(err(obj(vec![("table", s("a\\b"))])), "Table name contains invalid characters: 'a\\b'");
}

#[test]
fn execute_query_limit_is_capped_with_warning() {
    let v = validate_execute_query_args(&obj(vec![("sql", s(" select 1 ")), ("limit", n(500))])).ok().unwrap();
    assert_eq!(text_of(v.parsed.get("sql")), Some("select 1".to_string()));
    assert_eq!(v.parsed.get("limit").and_then(|x| x.as_u64()), Some(100));
    assert_eq!(v.warnings, vec!["limit capped from 500 to 100".to_string()]);
    let v = validate_execute_query_args(&obj(vec![("sql", s("q")), ("limit", n(0))])).ok().unwrap();
    assert_eq!(v.parsed.get("limit").and_then(|x| x.as_u64()), Some(50));
    let v = validate_execute_query_args(&obj(vec![("sql", s("q")), ("limit", s("7"))])).ok().unwrap();
    assert_eq!(v.parsed.get("limit").and_then(|x| x.as_u64()), Some(50));
    let v = validate_execute_query_args(&obj(vec![("sql", s("q")), ("limit", n(7))])).ok().unwrap();
    assert_eq!(v.parsed.get("limit").and_then(|x| x.as_u64()), Some(7));
    assert!(v.warnings.is_empty());
    assert_eq!(validate_execute_query_args(&obj(vec![("sql", s(" "))])).err(), Some("SQL query cannot be empty".to_string()));
    assert_eq!(validate_execute_query_args(&obj(vec![])).err(), Some("Missing required parameter: 'sql'".to_string()));
}

#[test]
fn sample_data_validator_keeps_zero_limit() {
    let v = validate_get_sample_data_args(&obj(vec![("table", s("t")), ("limit", n(0))])).ok().unwrap();
    assert_eq!(v.parsed.get("limit").and_then(|x| x.as_u64()), Some(0));
    let v = validate_get_sample_data_args(&obj(vec![("table", s("t"))])).ok().unwrap();
    assert_eq!(v.parsed.get("limit").and_then(|x| x.as_u64()), Some(20));
    let v = validate_get_sample_data_args(&obj(vec![("table", s("t")), ("limit", n(101))])).ok().unwrap();
    assert_eq!(v.parsed.get("limit").and_then(|x| x.as_u64()), Some(20));
    assert_eq!(v.warnings, vec!["limit capped from 101 to 20".to_string()]);
    let v = validate_get_sample_data_args(&obj(vec![("table", s("t")), ("limit", n(20))])).ok().unwrap();
    assert_eq!(v.parsed.get("limit").and_then(|x| x.as_u64()), Some(20));
    assert!(v.warnings.is_empty());
    let v = validate_get_sample_data_args(&obj(vec![("table", s("t")), ("limit", n(21))])).ok().unwrap();
    assert_eq!(v.warnings, vec!["limit capped from 21 to 20".to_string()]);
    // no length check for sample data
    assert!(validate_get_sample_data_args(&obj(vec![("table", s(&"x".repeat(300)))])).is_ok());
}

#[test]
fn validators_by_tool() {
    let v = validate_args(BuiltinTool::ListTables, &obj(vec![("schema", s("sales"))])).ok().unwrap();
    assert_eq!(text_of(v.parsed.get("schema")), Some("sales".to_string()));
    let v = validate_args(BuiltinTool::ExplainQuery, &obj(vec![("sql", s("select 2\n"))])).ok().unwrap();
    assert_eq!(text_of(v.parsed.get("sql")), Some("select 2".to_string()));
    assert!(validate_args(BuiltinTool::GetIndexes, &obj(vec![("table", s("a'b"))])).is_err());
    assert!(validate_args(BuiltinTool::GetForeignKeys, &obj(vec![("table", s("orders"))])).is_ok());
}

#[test]
fn validated_arguments_validate_again_unchanged() {
    let v = validate_execute_query_args(&obj(vec![("sql", s(" q ")), ("limit", n(300))])).ok().unwrap();
    let again = validate_execute_query_args(&v.parsed).ok().unwrap();
    assert_eq!(text_of(again.parsed.get("sql")), Some("q".to_string()));
    assert_eq!(again.parsed.get("limit").and_then(|x| x.as_u64()), Some(100));
    assert!(again.warnings.is_empty());
}

#[test]
fn tool_sets() {
    let names = |tools: Vec<dbx_core::ToolDefinition>| tools.iter().map(|t| t.name).collect::<Vec<_>>();
    assert_eq!(names(read_only_tools()), vec!["list_tables", "get_columns"]);
    let all = ToolSupport { sql_query: true, explain_plan: true, fk_introspection: true };
    assert_eq!(
        names(all_tools(&all)),
        vec!["list_tables", "get_columns", "execute_query", "get_sample_data", "explain_query", "get_foreign_keys", "get_indexes"]
    );
    let some = ToolSupport { sql_query: false, explain_plan: true, fk_introspection: false };
    assert_eq!(names(all_tools(&some)), vec!["list_tables", "get_columns", "explain_query"]);
    for t in all_tools(&all) {
        assert!(t.read_only);
        assert_eq!(t.parallel_ok, t.name != "execute_query");
    }
}

#[test]
fn tool_definition_fields() {
    let t = get_columns_tool();
    assert_eq!(t.validate_args, Some(BuiltinTool::GetColumns));
    assert!(t.description.contains("\u{2014} even if some schema context"));
    let req = t.parameters.get("required").unwrap();
    match req {
        JsonValue::Array(items) => assert_eq!(items.len(), 1),
        _ => panic!("required is not an array"),
    }
    let e = execute_query_tool();
    assert!(!e.parallel_ok);
    let props = e.parameters.get("properties").unwrap();
    assert_eq!(text_of(props.get("limit").unwrap().get("type")), Some("number".to_string()));
    let l = list_tables_tool();
    assert_eq!(text_of(l.parameters.get("type")), Some("object".to_string()));
}

#[test]
fn provider_forms() {
    let t = list_tables_tool();
    let o = t.to_openai_tool();
    assert_eq!(text_of(o.get("type")), Some("function".to_string()));
    assert_eq!(text_of(o.get("function").unwrap().get("name")), Some("list_tables".to_string()));
    let a = t.to_anthropic_tool();
    assert!(a.get("input_schema").is_some());
    assert!(a.get("parameters").is_none());
    let g = t.to_gemini_tool();
    assert!(g.get("parameters").is_some());
    assert_eq!(text_of(g.get("description")), Some(t.description.to_string()));
}
