//! The agent's tools: their definitions, the argument validators that
//! normalize a call's JSON arguments, and the tool sets offered per
//! database.
use vstd::prelude::*;
use crate::agent_events::{BuiltinTool, ToolDefinition, ValidatedArgs};
use crate::json::{
    array_of, get_str, get_u64, json_string, json_uint, member, object_of, str_member, u64_member,
    JsonNumberView, JsonValue, JsonView,
};
use crate::text::{
    chars_of, decimal, push_chars, push_decimal, push_str, str_len, string_from_chars, trim_chars,
    trim_ws,
};

verus! {

/// The rows that `execute_query` returns when no limit is asked for.
pub const EXECUTE_QUERY_LIMIT: usize = 50;

/// Maximum number of rows returned by the `get_sample_data` tool, and the
/// number it returns when no limit is asked for.
pub const SAMPLE_DATA_LIMIT: usize = 20;

/// The most rows any query tool may request.
pub const MAX_ALLOWED_ROWS: usize = 100;

/// The longest table name, in bytes, that the tools accept.
pub const MAX_TABLE_NAME_BYTES: usize = 256;

// ---------------------------------------------------------------------------
// Argument checks shared by validators and executors
// ---------------------------------------------------------------------------

/// Characters that a table name may not hold.
pub open spec fn is_forbidden_char(c: char) -> bool {
    c == ';' || c == '\'' || c == '"' || c == '\\'
}

/// Whether `t` holds a character that a table name may not hold.
pub open spec fn has_forbidden_char(t: Seq<char>) -> bool {
    exists|i: int| 0 <= i < t.len() && #[trigger] is_forbidden_char(t[i])
}

/// Exec form of `has_forbidden_char`.
fn contains_forbidden(t: &[char]) -> (r: bool)
    ensures
        r == has_forbidden_char(t@),
{
    let mut i: usize = 0;
    while i < t.len()
        invariant
            i <= t@.len(),
            forall|k: int| 0 <= k < i ==> !#[trigger] is_forbidden_char(t@[k]),
        decreases t@.len() - i,
    {
        let c = t[i];
        if c == ';' || c == '\'' || c == '"' || c == '\\' {
            proof {
                assert(is_forbidden_char(t@[i as int]));
            }
            return true;
        }
        i = i + 1;
    }
    false
}

/// The check of a table name argument: missing gives `missing_msg`; the
/// trimmed name must not be empty, must not exceed 256 bytes when
/// `check_len`, and must hold none of `; ' " \` when `check_chars`.
pub open spec fn check_table_name(
    raw: Option<Seq<char>>,
    missing_msg: Seq<char>,
    check_len: bool,
    check_chars: bool,
) -> Result<Seq<char>, Seq<char>> {
    match raw {
        None => Err(missing_msg),
        Some(r) => {
            let t = trim_ws(r);
            if t.len() == 0 {
                Err("Table name cannot be empty"@)
            } else if check_len && str_len(t) > MAX_TABLE_NAME_BYTES {
                Err(
                    "Table name too long: "@ + decimal(str_len(t) as nat)
                        + " characters (max 256)"@,
                )
            } else if check_chars && has_forbidden_char(t) {
                Err("Table name contains invalid characters: '"@ + t + "'"@)
            } else {
                Ok(t)
            }
        },
    }
}

/// The check of a SQL argument: missing gives `missing_msg`; the trimmed
/// text must not be empty.
pub open spec fn check_sql(raw: Option<Seq<char>>, missing_msg: Seq<char>) -> Result<
    Seq<char>,
    Seq<char>,
> {
    match raw {
        None => Err(missing_msg),
        Some(r) => if trim_ws(r).len() == 0 {
            Err("SQL query cannot be empty"@)
        } else {
            Ok(trim_ws(r))
        },
    }
}

/// Exec form of `check_table_name` on the `table` argument.
pub fn table_argument(args: &JsonValue, missing_msg: &str, check_len: bool, check_chars: bool) -> (r:
    Result<String, String>)
    ensures
        match r {
            Ok(t) => check_table_name(str_member(args@, "table"@), missing_msg@, check_len, check_chars)
                == Ok::<Seq<char>, Seq<char>>(t@),
            Err(e) => check_table_name(
                str_member(args@, "table"@),
                missing_msg@,
                check_len,
                check_chars,
            ) == Err::<Seq<char>, Seq<char>>(e@),
        },
{
    let raw = match get_str(args, "table") {
        Some(s) => s,
        None => {
            return Err(String::from_str(missing_msg));
        },
    };
    let cs = chars_of(raw.as_str());
    let t = trim_chars(&cs);
    if t.len() == 0 {
        return Err(String::from_str("Table name cannot be empty"));
    }
    let ts = string_from_chars(&t);
    if check_len {
        let n = crate::text::str_byte_len(ts.as_str());
        if n > MAX_TABLE_NAME_BYTES {
            let mut msg: Vec<char> = Vec::new();
            push_str(&mut msg, "Table name too long: ");
            push_decimal(&mut msg, n);
            push_str(&mut msg, " characters (max 256)");
            return Err(string_from_chars(&msg));
        }
    }
    if check_chars && contains_forbidden(&t) {
        let mut msg: Vec<char> = Vec::new();
        push_str(&mut msg, "Table name contains invalid characters: '");
        push_chars(&mut msg, &t);
        push_str(&mut msg, "'");
        return Err(string_from_chars(&msg));
    }
    Ok(ts)
}

/// Exec form of `check_sql` on the `sql` argument.
pub fn sql_argument(args: &JsonValue, missing_msg: &str) -> (r: Result<String, String>)
    ensures
        match r {
            Ok(t) => check_sql(str_member(args@, "sql"@), missing_msg@) == Ok::<
                Seq<char>,
                Seq<char>,
            >(t@),
            Err(e) => check_sql(str_member(args@, "sql"@), missing_msg@) == Err::<
                Seq<char>,
                Seq<char>,
            >(e@),
        },
{
    let raw = match get_str(args, "sql") {
        Some(s) => s,
        None => {
            return Err(String::from_str(missing_msg));
        },
    };
    let cs = chars_of(raw.as_str());
    let t = trim_chars(&cs);
    if t.len() == 0 {
        return Err(String::from_str("SQL query cannot be empty"));
    }
    Ok(string_from_chars(&t))
}

/// The `schema` argument, or the empty text.
pub open spec fn schema_or_empty(args: JsonView) -> Seq<char> {
    match str_member(args, "schema"@) {
        Some(s) => s,
        None => seq![],
    }
}

/// Exec form of `schema_or_empty`.
pub fn schema_argument(args: &JsonValue) -> (r: String)
    ensures
        r@ == schema_or_empty(args@),
{
    match get_str(args, "schema") {
        Some(s) => s,
        None => String::new(),
    }
}


// ---------------------------------------------------------------------------
// Argument validators
// ---------------------------------------------------------------------------

/// The `limit` argument as the tools read it (`as_u64`, then `as usize`).
pub open spec fn requested_limit(args: JsonView) -> Option<usize> {
    match u64_member(args, "limit"@) {
        Some(l) => Some(l as usize),
        None => None,
    }
}

/// The warning given when a requested limit is capped at `cap`.
pub open spec fn cap_warnings(requested: Option<usize>, cap: usize) -> Seq<Seq<char>> {
    match requested {
        Some(l) => if l > cap {
            seq!["limit capped from "@ + decimal(l as nat) + " to "@ + decimal(cap as nat)]
        } else {
            seq![]
        },
        None => seq![],
    }
}

/// The row limit that `execute_query`'s validator settles on: the default
/// for a missing or zero limit, the cap for a larger one.
pub open spec fn query_limit(args: JsonView) -> usize {
    match requested_limit(args) {
        Some(l) => if l < 1 {
            EXECUTE_QUERY_LIMIT
        } else if l > MAX_ALLOWED_ROWS {
            MAX_ALLOWED_ROWS
        } else {
            l
        },
        None => EXECUTE_QUERY_LIMIT,
    }
}

/// The row limit that `get_sample_data`'s validator settles on: the
/// requested one, capped at `SAMPLE_DATA_LIMIT`, which is also the default.
pub open spec fn sample_limit(args: JsonView) -> usize {
    match requested_limit(args) {
        Some(l) => if l > SAMPLE_DATA_LIMIT {
            SAMPLE_DATA_LIMIT
        } else {
            l
        },
        None => SAMPLE_DATA_LIMIT,
    }
}

/// A JSON count.
pub open spec fn count_view(n: usize) -> JsonView {
    JsonView::Number(JsonNumberView::PosInt(n as u64))
}

/// `{"table": t, "schema": s}`.
pub open spec fn table_schema_view(t: Seq<char>, s: Seq<char>) -> JsonView {
    JsonView::Object(seq![("table"@, JsonView::String(t)), ("schema"@, JsonView::String(s))])
}

/// What each validator makes of a call's arguments: the normalized
/// arguments and warnings, or the error message.
pub open spec fn validation(tool: BuiltinTool, args: JsonView) -> Result<
    (JsonView, Seq<Seq<char>>),
    Seq<char>,
> {
    match tool {
        BuiltinTool::ListTables => Ok(
            (JsonView::Object(seq![("schema"@, JsonView::String(schema_or_empty(args)))]), seq![]),
        ),
        BuiltinTool::GetColumns | BuiltinTool::GetForeignKeys | BuiltinTool::GetIndexes => {
            match check_table_name(
                str_member(args, "table"@),
                "Missing required parameter: 'table'"@,
                true,
                true,
            ) {
                Ok(t) => Ok((table_schema_view(t, schema_or_empty(args)), seq![])),
                Err(e) => Err(e),
            }
        },
        BuiltinTool::ExecuteQuery => {
            match check_sql(str_member(args, "sql"@), "Missing required parameter: 'sql'"@) {
                Ok(sql) => Ok(
                    (
                        JsonView::Object(
                            seq![
                                ("sql"@, JsonView::String(sql)),
                                ("limit"@, count_view(query_limit(args))),
                            ],
                        ),
                        cap_warnings(requested_limit(args), MAX_ALLOWED_ROWS),
                    ),
                ),
                Err(e) => Err(e),
            }
        },
        BuiltinTool::GetSampleData => {
            match check_table_name(
                str_member(args, "table"@),
                "Missing required parameter: 'table'"@,
                false,
                true,
            ) {
                Ok(t) => Ok(
                    (
                        JsonView::Object(
                            seq![
                                ("table"@, JsonView::String(t)),
                                ("schema"@, JsonView::String(schema_or_empty(args))),
                                ("limit"@, count_view(sample_limit(args))),
                            ],
                        ),
                        cap_warnings(requested_limit(args), SAMPLE_DATA_LIMIT),
                    ),
                ),
                Err(e) => Err(e),
            }
        },
        BuiltinTool::ExplainQuery => {
            match check_sql(str_member(args, "sql"@), "Missing required parameter: 'sql'"@) {
                Ok(sql) => Ok((JsonView::Object(seq![("sql"@, JsonView::String(sql))]), seq![])),
                Err(e) => Err(e),
            }
        },
    }
}

/// The warnings as character sequences.
pub open spec fn warnings_view(ws: Seq<String>) -> Seq<Seq<char>> {
    Seq::new(ws.len(), |i: int| ws[i]@)
}

/// A validator's outcome agrees with `validation`.
pub open spec fn validates_as(tool: BuiltinTool, args: JsonView, r: Result<ValidatedArgs, String>) -> bool {
    match r {
        Ok(v) => validation(tool, args) == Ok::<(JsonView, Seq<Seq<char>>), Seq<char>>(
            (v.parsed@, warnings_view(v.warnings@)),
        ),
        Err(e) => validation(tool, args) == Err::<(JsonView, Seq<Seq<char>>), Seq<char>>(e@),
    }
}

/// Exec form of `requested_limit`.
fn limit_argument(args: &JsonValue) -> (r: Option<usize>)
    ensures
        r == requested_limit(args@),
{
    match get_u64(args, "limit") {
        Some(l) => Some(l as usize),
        None => None,
    }
}

/// The warnings for a requested limit capped at `cap` (`cap_warnings`).
fn capped_warnings(requested: Option<usize>, cap: usize) -> (ws: Vec<String>)
    ensures
        warnings_view(ws@) == cap_warnings(requested, cap),
{
    let mut ws: Vec<String> = Vec::new();
    if let Some(l) = requested {
        if l > cap {
            let mut msg: Vec<char> = Vec::new();
            push_str(&mut msg, "limit capped from ");
            push_decimal(&mut msg, l);
            push_str(&mut msg, " to ");
            push_decimal(&mut msg, cap);
            ws.push(string_from_chars(&msg));
            proof {
                assert(warnings_view(ws@) =~= cap_warnings(requested, cap));
            }
            return ws;
        }
    }
    proof {
        assert(warnings_view(ws@) =~= cap_warnings(requested, cap));
    }
    ws
}

/// `{"table": t, "schema": s}` as a value.
fn table_schema_value(t: String, s: String) -> (r: JsonValue)
    ensures
        r@ == table_schema_view(t@, s@),
{
    let mut ms: Vec<(String, JsonValue)> = Vec::new();
    ms.push(member("table", JsonValue::String(t)));
    ms.push(member("schema", JsonValue::String(s)));
    let r = object_of(ms);
    proof {
        assert(Seq::new(ms@.len(), |i: int| (ms@[i].0@, ms@[i].1@)) =~= seq![
            ("table"@, JsonView::String(t@)),
            ("schema"@, JsonView::String(s@)),
        ]);
    }
    r
}

/// The validator of `list_tables`: the schema, or the empty text.
pub fn validate_list_tables_args(args: &JsonValue) -> (r: Result<ValidatedArgs, String>)
    ensures
        validates_as(BuiltinTool::ListTables, args@, r),
{
    let schema = schema_argument(args);
    let ghost sv = schema@;
    let mut ms: Vec<(String, JsonValue)> = Vec::new();
    ms.push(member("schema", JsonValue::String(schema)));
    let parsed = object_of(ms);
    let warnings: Vec<String> = Vec::new();
    proof {
        assert(Seq::new(ms@.len(), |i: int| (ms@[i].0@, ms@[i].1@)) =~= seq![
            ("schema"@, JsonView::String(sv)),
        ]);
        assert(warnings_view(warnings@) =~= seq![]);
    }
    Ok(ValidatedArgs { parsed, warnings })
}

/// The validator shared by `get_columns`, `get_foreign_keys` and
/// `get_indexes`: a checked table name and the schema.
fn validate_table_args(args: &JsonValue, Ghost(tool): Ghost<BuiltinTool>) -> (r: Result<
    ValidatedArgs,
    String,
>)
    requires
        tool == BuiltinTool::GetColumns || tool == BuiltinTool::GetForeignKeys || tool
            == BuiltinTool::GetIndexes,
    ensures
        validates_as(tool, args@, r),
{
    let table = match table_argument(args, "Missing required parameter: 'table'", true, true) {
        Ok(t) => t,
        Err(e) => {
            return Err(e);
        },
    };
    let schema = schema_argument(args);
    let warnings: Vec<String> = Vec::new();
    proof {
        assert(warnings_view(warnings@) =~= seq![]);
    }
    Ok(ValidatedArgs { parsed: table_schema_value(table, schema), warnings })
}

/// The validator of `get_columns`.
pub fn validate_get_columns_args(args: &JsonValue) -> (r: Result<ValidatedArgs, String>)
    ensures
        validates_as(BuiltinTool::GetColumns, args@, r),
{
    validate_table_args(args, Ghost(BuiltinTool::GetColumns))
}

/// The validator of `get_foreign_keys`.
pub fn validate_get_foreign_keys_args(args: &JsonValue) -> (r: Result<ValidatedArgs, String>)
    ensures
        validates_as(BuiltinTool::GetForeignKeys, args@, r),
{
    validate_table_args(args, Ghost(BuiltinTool::GetForeignKeys))
}

/// The validator of `get_indexes`.
pub fn validate_get_indexes_args(args: &JsonValue) -> (r: Result<ValidatedArgs, String>)
    ensures
        validates_as(BuiltinTool::GetIndexes, args@, r),
{
    validate_table_args(args, Ghost(BuiltinTool::GetIndexes))
}

/// The validator of `execute_query`: a non-empty query and a row limit
/// between 1 and 100 (50 when none is asked for), with a warning when a
/// larger one is capped.
pub fn validate_execute_query_args(args: &JsonValue) -> (r: Result<ValidatedArgs, String>)
    ensures
        validates_as(BuiltinTool::ExecuteQuery, args@, r),
{
    let sql = match sql_argument(args, "Missing required parameter: 'sql'") {
        Ok(s) => s,
        Err(e) => {
            return Err(e);
        },
    };
    let requested = limit_argument(args);
    let limit = match requested {
        Some(l) => if l < 1 {
            EXECUTE_QUERY_LIMIT
        } else if l > MAX_ALLOWED_ROWS {
            MAX_ALLOWED_ROWS
        } else {
            l
        },
        None => EXECUTE_QUERY_LIMIT,
    };
    let warnings = capped_warnings(requested, MAX_ALLOWED_ROWS);
    let ghost sv = sql@;
    let mut ms: Vec<(String, JsonValue)> = Vec::new();
    ms.push(member("sql", JsonValue::String(sql)));
    ms.push(member("limit", json_uint(limit as u64)));
    let parsed = object_of(ms);
    proof {
        assert(Seq::new(ms@.len(), |i: int| (ms@[i].0@, ms@[i].1@)) =~= seq![
            ("sql"@, JsonView::String(sv)),
            ("limit"@, count_view(query_limit(args@))),
        ]);
    }
    Ok(ValidatedArgs { parsed, warnings })
}

/// The validator of `get_sample_data`: a checked table name, the schema,
/// and a row limit of at most 20 (20 when none is asked for).
pub fn validate_get_sample_data_args(args: &JsonValue) -> (r: Result<ValidatedArgs, String>)
    ensures
        validates_as(BuiltinTool::GetSampleData, args@, r),
{
    let table = match table_argument(args, "Missing required parameter: 'table'", false, true) {
        Ok(t) => t,
        Err(e) => {
            return Err(e);
        },
    };
    let schema = schema_argument(args);
    let requested = limit_argument(args);
    let limit = match requested {
        Some(l) => if l > SAMPLE_DATA_LIMIT {
            SAMPLE_DATA_LIMIT
        } else {
            l
        },
        None => SAMPLE_DATA_LIMIT,
    };
    let warnings = capped_warnings(requested, SAMPLE_DATA_LIMIT);
    let ghost tv = table@;
    let ghost sv = schema@;
    let mut ms: Vec<(String, JsonValue)> = Vec::new();
    ms.push(member("table", JsonValue::String(table)));
    ms.push(member("schema", JsonValue::String(schema)));
    ms.push(member("limit", json_uint(limit as u64)));
    let parsed = object_of(ms);
    proof {
        assert(Seq::new(ms@.len(), |i: int| (ms@[i].0@, ms@[i].1@)) =~= seq![
            ("table"@, JsonView::String(tv)),
            ("schema"@, JsonView::String(sv)),
            ("limit"@, count_view(sample_limit(args@))),
        ]);
    }
    Ok(ValidatedArgs { parsed, warnings })
}

/// The validator of `explain_query`: a non-empty query.
pub fn validate_explain_query_args(args: &JsonValue) -> (r: Result<ValidatedArgs, String>)
    ensures
        validates_as(BuiltinTool::ExplainQuery, args@, r),
{
    let sql = match sql_argument(args, "Missing required parameter: 'sql'") {
        Ok(s) => s,
        Err(e) => {
            return Err(e);
        },
    };
    let ghost sv = sql@;
    let mut ms: Vec<(String, JsonValue)> = Vec::new();
    ms.push(member("sql", JsonValue::String(sql)));
    let parsed = object_of(ms);
    let warnings: Vec<String> = Vec::new();
    proof {
        assert(Seq::new(ms@.len(), |i: int| (ms@[i].0@, ms@[i].1@)) =~= seq![
            ("sql"@, JsonView::String(sv)),
        ]);
        assert(warnings_view(warnings@) =~= seq![]);
    }
    Ok(ValidatedArgs { parsed, warnings })
}

/// Runs the argument validator of `tool` on `args`.
pub fn validate_args(tool: BuiltinTool, args: &JsonValue) -> (r: Result<ValidatedArgs, String>)
    ensures
        validates_as(tool, args@, r),
{
    match tool {
        BuiltinTool::ListTables => validate_list_tables_args(args),
        BuiltinTool::GetColumns => validate_get_columns_args(args),
        BuiltinTool::ExecuteQuery => validate_execute_query_args(args),
        BuiltinTool::GetSampleData => validate_get_sample_data_args(args),
        BuiltinTool::ExplainQuery => validate_explain_query_args(args),
        BuiltinTool::GetForeignKeys => validate_get_foreign_keys_args(args),
        BuiltinTool::GetIndexes => validate_get_indexes_args(args),
    }
}


// ---------------------------------------------------------------------------
// Tool definitions
// ---------------------------------------------------------------------------

/// The schema of one argument: its JSON type and description.
pub open spec fn param_view(ty: Seq<char>, desc: Seq<char>) -> JsonView {
    JsonView::Object(seq![("type"@, JsonView::String(ty)), ("description"@, JsonView::String(desc))])
}

/// An object schema with the given properties and required names.
pub open spec fn schema_view(props: Seq<(Seq<char>, JsonView)>, required: Seq<Seq<char>>) -> JsonView {
    JsonView::Object(
        seq![
            ("type"@, JsonView::String("object"@)),
            ("properties"@, JsonView::Object(props)),
            (
                "required"@,
                JsonView::Array(Seq::new(required.len(), |i: int| JsonView::String(required[i]))),
            ),
        ],
    )
}

/// The name of each tool.
pub open spec fn tool_name(k: BuiltinTool) -> Seq<char> {
    match k {
        BuiltinTool::ListTables => "list_tables"@,
        BuiltinTool::GetColumns => "get_columns"@,
        BuiltinTool::ExecuteQuery => "execute_query"@,
        BuiltinTool::GetSampleData => "get_sample_data"@,
        BuiltinTool::ExplainQuery => "explain_query"@,
        BuiltinTool::GetForeignKeys => "get_foreign_keys"@,
        BuiltinTool::GetIndexes => "get_indexes"@,
    }
}

/// The description of each tool.
pub open spec fn tool_description(k: BuiltinTool) -> Seq<char> {
    match k {
        BuiltinTool::ListTables => "List all tables and views in the current database. Returns table names, types, and comments."@,
        BuiltinTool::GetColumns => "Get column definitions for a table: names, types, primary keys, nullable, defaults, and comments. \
             Use this when the user asks about table structure, column details, or field information \u{2014} \
             even if some schema context was provided, this tool returns the authoritative and complete column list."@,
        BuiltinTool::ExecuteQuery => "Execute a read-only SQL query and return results (max 50 rows). \
                      Only SELECT, WITH, SHOW, DESCRIBE, EXPLAIN statements are allowed. \
                      Write operations (INSERT/UPDATE/DELETE/DDL) are blocked."@,
        BuiltinTool::GetSampleData => "Get sample rows from a table to understand its data. Returns up to 20 rows."@,
        BuiltinTool::ExplainQuery => "Get the execution plan for a SQL query using EXPLAIN. \
                      Shows how the database will execute the query (scan type, indexes, cost). \
                      Only read-only queries (SELECT, WITH, SHOW, DESCRIBE, EXPLAIN) are allowed. \
                      Use this to analyze query performance and suggest index optimizations."@,
        BuiltinTool::GetForeignKeys => "Get foreign key relationships for a table. Returns the columns, referenced tables/columns, and delete/update rules."@,
        BuiltinTool::GetIndexes => "Get indexes for a table. Returns index names, columns, uniqueness, primary key status, and index type."@,
    }
}

/// The argument schema of each tool.
pub open spec fn tool_parameters(k: BuiltinTool) -> JsonView {
    match k {
        BuiltinTool::ListTables => schema_view(
            seq![
                (
                    "schema"@,
                    param_view(
                        "string"@,
                        "Schema name to list tables from (optional, defaults to current database)"@,
                    ),
                ),
            ],
            seq![],
        ),
        BuiltinTool::GetColumns => schema_view(
            seq![
                ("table"@, param_view("string"@, "Table name to get columns for"@)),
                (
                    "schema"@,
                    param_view("string"@, "Schema name (optional, defaults to current database)"@),
                ),
            ],
            seq!["table"@],
        ),
        BuiltinTool::ExecuteQuery => schema_view(
            seq![
                ("sql"@, param_view("string"@, "The SQL query to execute"@)),
                ("limit"@, param_view("number"@, "Max rows to return (default 50, max 100)"@)),
            ],
            seq!["sql"@],
        ),
        BuiltinTool::GetSampleData => schema_view(
            seq![
                ("table"@, param_view("string"@, "Table name"@)),
                ("schema"@, param_view("string"@, "Schema name (optional)"@)),
                ("limit"@, param_view("number"@, "Max rows (default 20)"@)),
            ],
            seq!["table"@],
        ),
        BuiltinTool::ExplainQuery => schema_view(
            seq![("sql"@, param_view("string"@, "The SQL query to explain (must be read-only)"@))],
            seq!["sql"@],
        ),
        BuiltinTool::GetForeignKeys => schema_view(
            seq![
                ("table"@, param_view("string"@, "Table name to get foreign keys for"@)),
                (
                    "schema"@,
                    param_view("string"@, "Schema name (optional, defaults to current database)"@),
                ),
            ],
            seq!["table"@],
        ),
        BuiltinTool::GetIndexes => schema_view(
            seq![
                ("table"@, param_view("string"@, "Table name to get indexes for"@)),
                (
                    "schema"@,
                    param_view("string"@, "Schema name (optional, defaults to current database)"@),
                ),
            ],
            seq!["table"@],
        ),
    }
}

/// `t` is the definition of tool `k`: its name, description and schema,
/// read-only, parallel unless it runs queries, validated by `k`'s
/// validator.
pub open spec fn is_definition_of(t: ToolDefinition, k: BuiltinTool) -> bool {
    &&& t.name@ == tool_name(k)
    &&& t.description@ == tool_description(k)
    &&& t.parameters@ == tool_parameters(k)
    &&& t.read_only
    &&& t.parallel_ok == (k != BuiltinTool::ExecuteQuery)
    &&& t.validate_args == Some(k)
}

/// The schema of one argument as a value.
fn param_value(ty: &str, desc: &str) -> (r: JsonValue)
    ensures
        r@ == param_view(ty@, desc@),
{
    let mut ms: Vec<(String, JsonValue)> = Vec::new();
    ms.push(member("type", json_string(ty)));
    ms.push(member("description", json_string(desc)));
    let r = object_of(ms);
    proof {
        assert(Seq::new(ms@.len(), |i: int| (ms@[i].0@, ms@[i].1@)) =~= seq![
            ("type"@, JsonView::String(ty@)),
            ("description"@, JsonView::String(desc@)),
        ]);
    }
    r
}

/// An object schema as a value.
fn schema_value(props: Vec<(String, JsonValue)>, required: &[&str]) -> (r: JsonValue)
    ensures
        r@ == schema_view(
            Seq::new(props@.len(), |i: int| (props@[i].0@, props@[i].1@)),
            Seq::new(required@.len(), |i: int| required@[i]@),
        ),
{
    let ghost pv = Seq::new(props@.len(), |i: int| (props@[i].0@, props@[i].1@));
    let properties = object_of(props);
    let mut items: Vec<JsonValue> = Vec::new();
    let mut i: usize = 0;
    while i < required.len()
        invariant
            i <= required@.len(),
            items@.len() == i,
            forall|k: int| 0 <= k < i ==> (#[trigger] items@[k])@ == JsonView::String(required@[k]@),
        decreases required@.len() - i,
    {
        items.push(json_string(required[i]));
        i = i + 1;
    }
    let ghost iv = Seq::new(items@.len(), |k: int| items@[k]@);
    let req = array_of(items);
    let mut ms: Vec<(String, JsonValue)> = Vec::new();
    ms.push(member("type", json_string("object")));
    ms.push(member("properties", properties));
    ms.push(member("required", req));
    let r = object_of(ms);
    proof {
        let rv = Seq::new(required@.len(), |i: int| required@[i]@);
        assert(iv =~= Seq::new(rv.len(), |i: int| JsonView::String(rv[i])));
        assert(Seq::new(ms@.len(), |i: int| (ms@[i].0@, ms@[i].1@)) =~= seq![
            ("type"@, JsonView::String("object"@)),
            ("properties"@, JsonView::Object(pv)),
            ("required"@, JsonView::Array(iv)),
        ]);
    }
    r
}

/// The `list_tables` tool definition.
pub fn list_tables_tool() -> (t: ToolDefinition)
    ensures
        is_definition_of(t, BuiltinTool::ListTables),
{
    let mut props: Vec<(String, JsonValue)> = Vec::new();
    props.push(
        member(
            "schema",
            param_value(
                "string",
                "Schema name to list tables from (optional, defaults to current database)",
            ),
        ),
    );
    let ghost pv = Seq::new(props@.len(), |i: int| (props@[i].0@, props@[i].1@));
    let required: [&str; 0] = [];
    let parameters = schema_value(props, &required);
    proof {
        assert(pv =~= seq![
            (
                "schema"@,
                param_view(
                    "string"@,
                    "Schema name to list tables from (optional, defaults to current database)"@,
                ),
            ),
        ]);
        assert(Seq::new(required@.len(), |i: int| required@[i]@) =~= Seq::<Seq<char>>::empty());
    }
    ToolDefinition {
        name: "list_tables",
        description: "List all tables and views in the current database. Returns table names, types, and comments.",
        parameters,
        read_only: true,
        parallel_ok: true,
        validate_args: Some(BuiltinTool::ListTables),
    }
}

/// The schema of a tool that takes a table and a schema.
fn table_schema_parameters(table_desc: &str) -> (r: JsonValue)
    ensures
        r@ == schema_view(
            seq![
                ("table"@, param_view("string"@, table_desc@)),
                (
                    "schema"@,
                    param_view("string"@, "Schema name (optional, defaults to current database)"@),
                ),
            ],
            seq!["table"@],
        ),
{
    let mut props: Vec<(String, JsonValue)> = Vec::new();
    props.push(member("table", param_value("string", table_desc)));
    props.push(
        member(
            "schema",
            param_value("string", "Schema name (optional, defaults to current database)"),
        ),
    );
    let ghost pv = Seq::new(props@.len(), |i: int| (props@[i].0@, props@[i].1@));
    let required: [&str; 1] = ["table"];
    let parameters = schema_value(props, &required);
    proof {
        assert(pv =~= seq![
            ("table"@, param_view("string"@, table_desc@)),
            (
                "schema"@,
                param_view("string"@, "Schema name (optional, defaults to current database)"@),
            ),
        ]);
        assert(Seq::new(required@.len(), |i: int| required@[i]@) =~= seq!["table"@]);
    }
    parameters
}

/// The `get_columns` tool definition.
pub fn get_columns_tool() -> (t: ToolDefinition)
    ensures
        is_definition_of(t, BuiltinTool::GetColumns),
{
    ToolDefinition {
        name: "get_columns",
        description: "Get column definitions for a table: names, types, primary keys, nullable, defaults, and comments. \
             Use this when the user asks about table structure, column details, or field information \u{2014} \
             even if some schema context was provided, this tool returns the authoritative and complete column list.",
        parameters: table_schema_parameters("Table name to get columns for"),
        read_only: true,
        parallel_ok: true,
        validate_args: Some(BuiltinTool::GetColumns),
    }
}

/// The `execute_query` tool definition.
pub fn execute_query_tool() -> (t: ToolDefinition)
    ensures
        is_definition_of(t, BuiltinTool::ExecuteQuery),
{
    let mut props: Vec<(String, JsonValue)> = Vec::new();
    props.push(member("sql", param_value("string", "The SQL query to execute")));
    props.push(member("limit", param_value("number", "Max rows to return (default 50, max 100)")));
    let ghost pv = Seq::new(props@.len(), |i: int| (props@[i].0@, props@[i].1@));
    let required: [&str; 1] = ["sql"];
    let parameters = schema_value(props, &required);
    proof {
        assert(pv =~= seq![
            ("sql"@, param_view("string"@, "The SQL query to execute"@)),
            ("limit"@, param_view("number"@, "Max rows to return (default 50, max 100)"@)),
        ]);
        assert(Seq::new(required@.len(), |i: int| required@[i]@) =~= seq!["sql"@]);
    }
    ToolDefinition {
        name: "execute_query",
        description: "Execute a read-only SQL query and return results (max 50 rows). \
                      Only SELECT, WITH, SHOW, DESCRIBE, EXPLAIN statements are allowed. \
                      Write operations (INSERT/UPDATE/DELETE/DDL) are blocked.",
        parameters,
        read_only: true,
        parallel_ok: false,
        validate_args: Some(BuiltinTool::ExecuteQuery),
    }
}

/// The `get_sample_data` tool definition.
pub fn get_sample_data_tool() -> (t: ToolDefinition)
    ensures
        is_definition_of(t, BuiltinTool::GetSampleData),
{
    let mut props: Vec<(String, JsonValue)> = Vec::new();
    props.push(member("table", param_value("string", "Table name")));
    props.push(member("schema", param_value("string", "Schema name (optional)")));
    props.push(member("limit", param_value("number", "Max rows (default 20)")));
    let ghost pv = Seq::new(props@.len(), |i: int| (props@[i].0@, props@[i].1@));
    let required: [&str; 1] = ["table"];
    let parameters = schema_value(props, &required);
    proof {
        assert(pv =~= seq![
            ("table"@, param_view("string"@, "Table name"@)),
            ("schema"@, param_view("string"@, "Schema name (optional)"@)),
            ("limit"@, param_view("number"@, "Max rows (default 20)"@)),
        ]);
        assert(Seq::new(required@.len(), |i: int| required@[i]@) =~= seq!["table"@]);
    }
    ToolDefinition {
        name: "get_sample_data",
        description: "Get sample rows from a table to understand its data. Returns up to 20 rows.",
        parameters,
        read_only: true,
        parallel_ok: true,
        validate_args: Some(BuiltinTool::GetSampleData),
    }
}

/// The `explain_query` tool definition.
pub fn explain_query_tool() -> (t: ToolDefinition)
    ensures
        is_definition_of(t, BuiltinTool::ExplainQuery),
{
    let mut props: Vec<(String, JsonValue)> = Vec::new();
    props.push(member("sql", param_value("string", "The SQL query to explain (must be read-only)")));
    let ghost pv = Seq::new(props@.len(), |i: int| (props@[i].0@, props@[i].1@));
    let required: [&str; 1] = ["sql"];
    let parameters = schema_value(props, &required);
    proof {
        assert(pv =~= seq![
            ("sql"@, param_view("string"@, "The SQL query to explain (must be read-only)"@)),
        ]);
        assert(Seq::new(required@.len(), |i: int| required@[i]@) =~= seq!["sql"@]);
    }
    ToolDefinition {
        name: "explain_query",
        description: "Get the execution plan for a SQL query using EXPLAIN. \
                      Shows how the database will execute the query (scan type, indexes, cost). \
                      Only read-only queries (SELECT, WITH, SHOW, DESCRIBE, EXPLAIN) are allowed. \
                      Use this to analyze query performance and suggest index optimizations.",
        parameters,
        read_only: true,
        parallel_ok: true,
        validate_args: Some(BuiltinTool::ExplainQuery),
    }
}

/// The `get_foreign_keys` tool definition.
pub fn get_foreign_keys_tool() -> (t: ToolDefinition)
    ensures
        is_definition_of(t, BuiltinTool::GetForeignKeys),
{
    ToolDefinition {
        name: "get_foreign_keys",
        description: "Get foreign key relationships for a table. Returns the columns, referenced tables/columns, and delete/update rules.",
        parameters: table_schema_parameters("Table name to get foreign keys for"),
        read_only: true,
        parallel_ok: true,
        validate_args: Some(BuiltinTool::GetForeignKeys),
    }
}

/// The `get_indexes` tool definition.
pub fn get_indexes_tool() -> (t: ToolDefinition)
    ensures
        is_definition_of(t, BuiltinTool::GetIndexes),
{
    ToolDefinition {
        name: "get_indexes",
        description: "Get indexes for a table. Returns index names, columns, uniqueness, primary key status, and index type.",
        parameters: table_schema_parameters("Table name to get indexes for"),
        read_only: true,
        parallel_ok: true,
        validate_args: Some(BuiltinTool::GetIndexes),
    }
}

/// What a database type supports, as far as the tool set depends on it.
#[derive(Clone, Copy, Debug)]
pub struct ToolSupport {
    /// SQL queries (`execute_query`, `get_sample_data`).
    pub sql_query: bool,
    /// Execution plans (`explain_query`).
    pub explain_plan: bool,
    /// Foreign-key and index introspection (`get_foreign_keys`, `get_indexes`).
    pub fk_introspection: bool,
}

/// The tools offered for a database with the given support, in order.
pub open spec fn offered_tools(support: ToolSupport) -> Seq<BuiltinTool> {
    let base = seq![BuiltinTool::ListTables, BuiltinTool::GetColumns];
    let with_sql = if support.sql_query {
        base + seq![BuiltinTool::ExecuteQuery, BuiltinTool::GetSampleData]
    } else {
        base
    };
    let with_explain = if support.explain_plan {
        with_sql.push(BuiltinTool::ExplainQuery)
    } else {
        with_sql
    };
    if support.fk_introspection {
        with_explain + seq![BuiltinTool::GetForeignKeys, BuiltinTool::GetIndexes]
    } else {
        with_explain
    }
}

/// `tools` are the definitions of `kinds`, in order.
pub open spec fn defines(tools: Seq<ToolDefinition>, kinds: Seq<BuiltinTool>) -> bool {
    &&& tools.len() == kinds.len()
    &&& forall|i: int| 0 <= i < tools.len() ==> is_definition_of(#[trigger] tools[i], kinds[i])
}

/// The read-only tool definitions (`list_tables`, `get_columns`).
pub fn read_only_tools() -> (tools: Vec<ToolDefinition>)
    ensures
        defines(tools@, seq![BuiltinTool::ListTables, BuiltinTool::GetColumns]),
{
    let mut tools: Vec<ToolDefinition> = Vec::new();
    tools.push(list_tables_tool());
    tools.push(get_columns_tool());
    tools
}

/// Every tool definition offered for a database with the given support:
/// the read-only tools, then `execute_query` and `get_sample_data`,
/// `explain_query`, and `get_foreign_keys` and `get_indexes` where
/// supported.
pub fn all_tools(support: &ToolSupport) -> (tools: Vec<ToolDefinition>)
    ensures
        defines(tools@, offered_tools(*support)),
{
    let mut tools: Vec<ToolDefinition> = Vec::new();
    let ghost mut kinds: Seq<BuiltinTool> = seq![];
    tools.push(list_tables_tool());
    tools.push(get_columns_tool());
    proof {
        kinds = seq![BuiltinTool::ListTables, BuiltinTool::GetColumns];
    }
    if support.sql_query {
        tools.push(execute_query_tool());
        tools.push(get_sample_data_tool());
        proof {
            kinds = kinds + seq![BuiltinTool::ExecuteQuery, BuiltinTool::GetSampleData];
        }
    }
    assert(defines(tools@, kinds));
    if support.explain_plan {
        tools.push(explain_query_tool());
        proof {
            kinds = kinds.push(BuiltinTool::ExplainQuery);
        }
    }
    assert(defines(tools@, kinds));
    if support.fk_introspection {
        tools.push(get_foreign_keys_tool());
        tools.push(get_indexes_tool());
        proof {
            kinds = kinds + seq![BuiltinTool::GetForeignKeys, BuiltinTool::GetIndexes];
        }
    }
    assert(defines(tools@, kinds));
    assert(kinds =~= offered_tools(*support));
    tools
}

} // verus!
