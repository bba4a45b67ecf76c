//! Laws of the tool set: what a validator lets through, the executor reads
//! back unchanged; and every offered tool is read-only.
use vstd::prelude::*;
use crate::agent_events::{anthropic_tool, gemini_tool, openai_tool, BuiltinTool, ToolDefinition};
use crate::agent_tools::{
    cap_warnings, check_sql, check_table_name, count_view, defines, has_forbidden_char, is_definition_of,
    offered_tools, query_limit, requested_limit, sample_limit, schema_or_empty,
    table_schema_view, tool_name, validation, MAX_ALLOWED_ROWS, SAMPLE_DATA_LIMIT,
};
use crate::introspection_sql::{fk_sql, index_sql, DatabaseType};
use crate::json::{json_get, member_lookup, str_member, u64_member, JsonNumberView, JsonView};
use crate::text::{is_white_space, str_len, trim_ws, ws_end, ws_start};
use crate::tool_execution::{
    db_type_name, executor_limit, introspection_plan, plan, sample_sql, Introspection, ToolActionView,
};

verus! {

proof fn lemma_ws_start(s: Seq<char>, j: int)
    requires
        0 <= j <= s.len(),
    ensures
        j <= ws_start(s, j) <= s.len(),
        ws_start(s, j) < s.len() ==> !is_white_space(s[ws_start(s, j)]),
    decreases s.len() - j,
{
    if j < s.len() && is_white_space(s[j]) {
        lemma_ws_start(s, j + 1);
    }
}

proof fn lemma_ws_end(s: Seq<char>, j: int)
    requires
        0 <= j <= s.len(),
    ensures
        0 <= ws_end(s, j) <= j,
        ws_end(s, j) > 0 ==> !is_white_space(s[ws_end(s, j) - 1]),
    decreases j,
{
    if j > 0 && is_white_space(s[j - 1]) {
        lemma_ws_end(s, j - 1);
    }
}

/// Trimming a trimmed text changes nothing.
proof fn lemma_trim_idempotent(r: Seq<char>)
    ensures
        trim_ws(trim_ws(r)) == trim_ws(r),
{
    let t = trim_ws(r);
    lemma_ws_start(r, 0);
    lemma_ws_end(r, r.len() as int);
    if t.len() > 0 {
        let a = ws_start(r, 0);
        let b = ws_end(r, r.len() as int);
        assert(t[0] == r[a]);
        assert(t[t.len() - 1] == r[b - 1]);
        assert(ws_start(t, 0) == 0);
        assert(ws_end(t, t.len() as int) == t.len());
        assert(t.subrange(0, t.len() as int) =~= t);
    } else {
        assert(t =~= Seq::<char>::empty());
        assert(trim_ws(t) =~= Seq::<char>::empty());
    }
}

/// A table name that passed a check passes it again, with any message.
proof fn lemma_table_check_again(raw: Seq<char>, m1: Seq<char>, m2: Seq<char>, l1: bool, c1: bool, l2: bool, c2: bool)
    requires
        check_table_name(Some(raw), m1, l1, c1) is Ok,
        l2 ==> l1,
        c2 ==> c1,
    ensures
        check_table_name(Some(check_table_name(Some(raw), m1, l1, c1)->Ok_0), m2, l2, c2)
            == check_table_name(Some(raw), m1, l1, c1),
{
    lemma_trim_idempotent(raw);
}

/// A query that passed the check passes it again, with any message.
proof fn lemma_sql_check_again(raw: Seq<char>, m1: Seq<char>, m2: Seq<char>)
    requires
        check_sql(Some(raw), m1) is Ok,
    ensures
        check_sql(Some(check_sql(Some(raw), m1)->Ok_0), m2) == check_sql(Some(raw), m1),
{
    lemma_trim_idempotent(raw);
}

/// The request that the executor of tool `k` makes of the arguments that
/// its validator normalized from `args`.
pub open spec fn request_after_validation(
    k: BuiltinTool,
    args: JsonView,
    database: Seq<char>,
    db: DatabaseType,
) -> ToolActionView {
    let table = check_table_name(
        str_member(args, "table"@),
        "Missing required parameter: 'table'"@,
        true,
        true,
    )->Ok_0;
    let sample_table = check_table_name(
        str_member(args, "table"@),
        "Missing required parameter: 'table'"@,
        false,
        true,
    )->Ok_0;
    let sql = check_sql(str_member(args, "sql"@), "Missing required parameter: 'sql'"@)->Ok_0;
    let schema = schema_or_empty(args);
    match k {
        BuiltinTool::ListTables => ToolActionView::ListTables { schema },
        BuiltinTool::GetColumns => ToolActionView::GetColumns {
            table,
            schema,
            cache_key: schema + "."@ + table,
        },
        BuiltinTool::ExecuteQuery => ToolActionView::ExecuteQuery { sql, limit: query_limit(args) },
        BuiltinTool::GetSampleData => ToolActionView::GetSampleData {
            sql: sample_sql(sample_table, Some(schema), sample_limit(args)),
            limit: sample_limit(args),
        },
        BuiltinTool::ExplainQuery => ToolActionView::ExplainQuery { sql },
        BuiltinTool::GetForeignKeys => match fk_sql(table, schema, database, db) {
            Some(q) => ToolActionView::Introspect { kind: Introspection::ForeignKeys, table, sql: q },
            None => ToolActionView::Fail {
                message: "FK"@ + " introspection not supported for "@ + db_type_name(db),
            },
        },
        BuiltinTool::GetIndexes => match index_sql(table, schema, database, db) {
            Some(q) => ToolActionView::Introspect { kind: Introspection::Indexes, table, sql: q },
            None => ToolActionView::Fail {
                message: "Index"@ + " introspection not supported for "@ + db_type_name(db),
            },
        },
    }
}

proof fn lemma_tool_names_differ()
    ensures
        "list_tables"@ != "get_columns"@,
        "list_tables"@ != "execute_query"@,
        "list_tables"@ != "get_sample_data"@,
        "list_tables"@ != "explain_query"@,
        "list_tables"@ != "get_foreign_keys"@,
        "list_tables"@ != "get_indexes"@,
        "get_columns"@ != "execute_query"@,
        "get_columns"@ != "get_sample_data"@,
        "get_columns"@ != "explain_query"@,
        "get_columns"@ != "get_foreign_keys"@,
        "get_columns"@ != "get_indexes"@,
        "execute_query"@ != "get_sample_data"@,
        "execute_query"@ != "explain_query"@,
        "execute_query"@ != "get_foreign_keys"@,
        "execute_query"@ != "get_indexes"@,
        "get_sample_data"@ != "explain_query"@,
        "get_sample_data"@ != "get_foreign_keys"@,
        "get_sample_data"@ != "get_indexes"@,
        "explain_query"@ != "get_foreign_keys"@,
        "explain_query"@ != "get_indexes"@,
        "get_foreign_keys"@ != "get_indexes"@,
{
    reveal_strlit("list_tables");
    reveal_strlit("get_columns");
    reveal_strlit("execute_query");
    reveal_strlit("get_sample_data");
    reveal_strlit("explain_query");
    reveal_strlit("get_foreign_keys");
    reveal_strlit("get_indexes");
    assert("list_tables"@[0] != "get_columns"@[0]);
    assert("list_tables"@[0] != "get_sample_data"@[0]);
    assert("list_tables"@[0] != "get_foreign_keys"@[0]);
    assert("list_tables"@[0] != "get_indexes"@[0]);
    assert("list_tables"@[0] != "execute_query"@[0]);
    assert("list_tables"@[0] != "explain_query"@[0]);
    assert("get_columns"@[4] != "get_sample_data"@[4]);
    assert("get_columns"@[4] != "get_foreign_keys"@[4]);
    assert("get_columns"@[4] != "get_indexes"@[4]);
    assert("get_columns"@[0] != "execute_query"@[0]);
    assert("get_columns"@[0] != "explain_query"@[0]);
    assert("execute_query"@[2] != "explain_query"@[2]);
    assert("execute_query"@[0] != "get_sample_data"@[0]);
    assert("execute_query"@[0] != "get_foreign_keys"@[0]);
    assert("execute_query"@[0] != "get_indexes"@[0]);
    assert("get_sample_data"@[4] != "get_foreign_keys"@[4]);
    assert("get_sample_data"@[4] != "get_indexes"@[4]);
    assert("get_sample_data"@[0] != "explain_query"@[0]);
    assert("explain_query"@[0] != "get_foreign_keys"@[0]);
    assert("explain_query"@[0] != "get_indexes"@[0]);
    assert("get_foreign_keys"@[4] != "get_indexes"@[4]);
}

proof fn lemma_member_names_differ()
    ensures
        "table"@ != "schema"@,
        "sql"@ != "limit"@,
        "table"@ != "limit"@,
        "schema"@ != "limit"@,
{
    reveal_strlit("table");
    reveal_strlit("schema");
    reveal_strlit("sql");
    reveal_strlit("limit");
    assert("table"@[0] != "schema"@[0]);
    assert("table"@[0] != "limit"@[0]);
    assert("schema"@[0] != "limit"@[0]);
}

/// Arguments that a tool's validator accepted pass that tool's executor
/// checks again, and the executor reads back exactly what the validator
/// normalized: the same table, schema, query and row limit.
pub proof fn law_validated_arguments_reach_the_executor(
    k: BuiltinTool,
    args: JsonView,
    database: Seq<char>,
    db: DatabaseType,
)
    requires
        validation(k, args) is Ok,
    ensures
        plan(tool_name(k), validation(k, args)->Ok_0.0, database, db) == request_after_validation(
            k,
            args,
            database,
            db,
        ),
{
    lemma_tool_names_differ();
    lemma_member_names_differ();
    let parsed = validation(k, args)->Ok_0.0;
    let schema = schema_or_empty(args);
    let raw_table = str_member(args, "table"@);
    let raw_sql = str_member(args, "sql"@);
    match k {
        BuiltinTool::ListTables => {
            assert(str_member(parsed, "schema"@) == Some(schema));
        },
        BuiltinTool::GetColumns | BuiltinTool::GetForeignKeys | BuiltinTool::GetIndexes => {
            let t = check_table_name(raw_table, "Missing required parameter: 'table'"@, true, true)->Ok_0;
            let ms = parsed->Object_0;
            assert(member_lookup(ms, "schema"@, 1) == Some(JsonView::String(schema)));
            assert(str_member(parsed, "table"@) == Some(t));
            assert(str_member(parsed, "schema"@) == Some(schema));
            lemma_table_check_again(
                raw_table->Some_0,
                "Missing required parameter: 'table'"@,
                "Missing required parameter: table"@,
                true,
                true,
                true,
                true,
            );
            lemma_table_check_again(
                raw_table->Some_0,
                "Missing required parameter: 'table'"@,
                "Missing required parameter: table"@,
                true,
                true,
                false,
                false,
            );
        },
        BuiltinTool::ExecuteQuery => {
            let sql = check_sql(raw_sql, "Missing required parameter: 'sql'"@)->Ok_0;
            assert(str_member(parsed, "sql"@) == Some(sql));
            let ms = parsed->Object_0;
            assert(member_lookup(ms, "limit"@, 1) == Some(count_view(query_limit(args))));
            assert(u64_member(parsed, "limit"@) == Some(query_limit(args) as u64));
            assert(requested_limit(parsed) == Some(query_limit(args)));
            lemma_sql_check_again(
                raw_sql->Some_0,
                "Missing required parameter: 'sql'"@,
                "Missing required parameter: sql"@,
            );
        },
        BuiltinTool::GetSampleData => {
            let t = check_table_name(raw_table, "Missing required parameter: 'table'"@, false, true)->Ok_0;
            let ms = parsed->Object_0;
            assert(member_lookup(ms, "limit"@, 2) == Some(count_view(sample_limit(args))));
            assert(member_lookup(ms, "limit"@, 1) == Some(count_view(sample_limit(args))));
            assert(member_lookup(ms, "schema"@, 1) == Some(JsonView::String(schema)));
            assert(str_member(parsed, "table"@) == Some(t));
            assert(str_member(parsed, "schema"@) == Some(schema));
            assert(u64_member(parsed, "limit"@) == Some(sample_limit(args) as u64));
            assert(requested_limit(parsed) == Some(sample_limit(args)));
            lemma_table_check_again(
                raw_table->Some_0,
                "Missing required parameter: 'table'"@,
                "Missing required parameter: table"@,
                false,
                true,
                false,
                true,
            );
        },
        BuiltinTool::ExplainQuery => {
            let sql = check_sql(raw_sql, "Missing required parameter: 'sql'"@)->Ok_0;
            assert(str_member(parsed, "sql"@) == Some(sql));
            lemma_sql_check_again(
                raw_sql->Some_0,
                "Missing required parameter: 'sql'"@,
                "Missing required parameter: sql"@,
            );
        },
    }
}

/// Every offered tool is read-only, and only `execute_query` must run
/// alone; the read-only tools come first.
pub proof fn law_offered_tools_are_read_only(support: crate::agent_tools::ToolSupport, tools: Seq<ToolDefinition>)
    requires
        defines(tools, offered_tools(support)),
    ensures
        forall|i: int| 0 <= i < tools.len() ==> (#[trigger] tools[i]).read_only,
        forall|i: int|
            0 <= i < tools.len() ==> ((#[trigger] tools[i]).parallel_ok <==> tools[i].name@
                != "execute_query"@),
        offered_tools(support).take(2) == seq![BuiltinTool::ListTables, BuiltinTool::GetColumns],
{
    lemma_tool_names_differ();
    assert forall|i: int| 0 <= i < tools.len() implies ((#[trigger] tools[i]).parallel_ok
        <==> tools[i].name@ != "execute_query"@) by {
        assert(is_definition_of(tools[i], offered_tools(support)[i]));
    }
    assert(offered_tools(support).take(2) =~= seq![BuiltinTool::ListTables, BuiltinTool::GetColumns]);
}

/// The three provider forms carry one definition: the OpenAI form holds
/// the Gemini form under `function`, beside `type: "function"`; the
/// Anthropic form holds the name, the description and, under
/// `input_schema`, the argument schema that the Gemini form holds under
/// `parameters`.
pub proof fn law_provider_forms_agree(t: ToolDefinition)
    ensures
        json_get(openai_tool(t), "type"@) == Some(JsonView::String("function"@)),
        json_get(openai_tool(t), "function"@) == Some(gemini_tool(t)),
        json_get(gemini_tool(t), "parameters"@) == Some(t.parameters@),
        json_get(anthropic_tool(t), "input_schema"@) == Some(t.parameters@),
        json_get(anthropic_tool(t), "name"@) == json_get(gemini_tool(t), "name"@),
        json_get(anthropic_tool(t), "description"@) == json_get(gemini_tool(t), "description"@),
        json_get(gemini_tool(t), "name"@) == Some(JsonView::String(t.name@)),
        json_get(gemini_tool(t), "description"@) == Some(JsonView::String(t.description@)),
{
    reveal_strlit("type");
    reveal_strlit("function");
    reveal_strlit("name");
    reveal_strlit("description");
    reveal_strlit("parameters");
    reveal_strlit("input_schema");
    assert("type"@[0] != "function"@[0]);
    assert("name"@[0] != "description"@[0]);
    assert("name"@[0] != "parameters"@[0]);
    assert("name"@[0] != "input_schema"@[0]);
    assert("description"@[0] != "parameters"@[0]);
    assert("description"@[0] != "input_schema"@[0]);
    reveal_with_fuel(member_lookup, 4);
}

/// No query asks for more than 100 rows, and no sampling for more than
/// 20: whatever the arguments, the row limit of a planned query or sampling,
/// and the limit that a validator writes into the arguments, stays within
/// its tool's maximum.
pub proof fn law_row_limits_are_capped(name: Seq<char>, args: JsonView, database: Seq<char>, db: DatabaseType)
    ensures
        plan(name, args, database, db) matches ToolActionView::ExecuteQuery { limit, .. } ==> limit
            <= MAX_ALLOWED_ROWS,
        plan(name, args, database, db) matches ToolActionView::GetSampleData { limit, .. } ==> limit
            <= SAMPLE_DATA_LIMIT,
        query_limit(args) <= MAX_ALLOWED_ROWS,
        sample_limit(args) <= SAMPLE_DATA_LIMIT,
{
}

/// A validator accepts the arguments that it normalized, gives them back
/// unchanged, and warns of nothing more.
pub proof fn law_validation_is_idempotent(k: BuiltinTool, args: JsonView)
    requires
        validation(k, args) is Ok,
    ensures
        validation(k, validation(k, args)->Ok_0.0) == Ok::<(JsonView, Seq<Seq<char>>), Seq<char>>(
            (validation(k, args)->Ok_0.0, seq![]),
        ),
{
    lemma_member_names_differ();
    let parsed = validation(k, args)->Ok_0.0;
    let schema = schema_or_empty(args);
    let raw_table = str_member(args, "table"@);
    let raw_sql = str_member(args, "sql"@);
    let m = "Missing required parameter: 'table'"@;
    let ms = "Missing required parameter: 'sql'"@;
    match k {
        BuiltinTool::ListTables => {
            assert(str_member(parsed, "schema"@) == Some(schema));
        },
        BuiltinTool::GetColumns | BuiltinTool::GetForeignKeys | BuiltinTool::GetIndexes => {
            let t = check_table_name(raw_table, m, true, true)->Ok_0;
            let pm = parsed->Object_0;
            assert(member_lookup(pm, "schema"@, 1) == Some(JsonView::String(schema)));
            assert(str_member(parsed, "table"@) == Some(t));
            assert(str_member(parsed, "schema"@) == Some(schema));
            lemma_table_check_again(raw_table->Some_0, m, m, true, true, true, true);
        },
        BuiltinTool::ExecuteQuery => {
            let sql = check_sql(raw_sql, ms)->Ok_0;
            let pm = parsed->Object_0;
            assert(str_member(parsed, "sql"@) == Some(sql));
            assert(member_lookup(pm, "limit"@, 1) == Some(count_view(query_limit(args))));
            assert(requested_limit(parsed) == Some(query_limit(args)));
            lemma_sql_check_again(raw_sql->Some_0, ms, ms);
            assert(cap_warnings(requested_limit(parsed), MAX_ALLOWED_ROWS) =~= seq![]);
        },
        BuiltinTool::GetSampleData => {
            let t = check_table_name(raw_table, m, false, true)->Ok_0;
            let pm = parsed->Object_0;
            assert(member_lookup(pm, "limit"@, 2) == Some(count_view(sample_limit(args))));
            assert(member_lookup(pm, "limit"@, 1) == Some(count_view(sample_limit(args))));
            assert(member_lookup(pm, "schema"@, 1) == Some(JsonView::String(schema)));
            assert(str_member(parsed, "table"@) == Some(t));
            assert(str_member(parsed, "schema"@) == Some(schema));
            assert(requested_limit(parsed) == Some(sample_limit(args)));
            lemma_table_check_again(raw_table->Some_0, m, m, false, true, false, true);
            assert(cap_warnings(requested_limit(parsed), SAMPLE_DATA_LIMIT) =~= seq![]);
        },
        BuiltinTool::ExplainQuery => {
            let sql = check_sql(raw_sql, ms)->Ok_0;
            assert(str_member(parsed, "sql"@) == Some(sql));
            lemma_sql_check_again(raw_sql->Some_0, ms, ms);
        },
    }
}

} // verus!
