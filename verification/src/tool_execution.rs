//! The decisions of a tool execution, taken apart from the database work:
//! which tool applies and what its validator makes of the arguments, which
//! request a call turns into, how each reply becomes text for the model,
//! and how the final result is worded.
use vstd::prelude::*;
use crate::agent_events::{BuiltinTool, ToolCall, ToolDefinition, ToolResult, ValidatedArgs};
use crate::agent_tools::{
    check_sql, check_table_name, requested_limit, schema_argument, schema_or_empty, sql_argument,
    table_argument, validate_args, validation, warnings_view, MAX_ALLOWED_ROWS,
    EXECUTE_QUERY_LIMIT, SAMPLE_DATA_LIMIT,
};
use crate::introspection_sql::{build_fk_sql, build_index_sql, fk_sql, index_sql, DatabaseType};
use crate::json::{get_str, get_u64, json_string, json_uint, member, object_of, str_member, JsonNumberView, JsonValue, JsonView};
use crate::tool_output::{
    column_list_text, format_column_list, format_fk_result, format_index_result,
    format_query_result_as_text, format_table_list, markdown_text, rows_match_columns,
    table_list_text, table_text, ColumnInfo, QueryResult, TableInfo,
};
use crate::text::{
    chars_eq, chars_of, decimal, join_seqs, push_chars, push_decimal, push_piece, push_str,
    string_from_chars,
};

verus! {

/// The seconds that one query of a tool may run.
pub const QUERY_TIMEOUT_SECS: u64 = 30;

/// The rows that an execution plan may return.
pub const EXPLAIN_MAX_ROWS: usize = 100;

/// The rows that an introspection query may return.
pub const INTROSPECTION_MAX_ROWS: usize = 200;

/// The tables that the listing asks the catalog for: one more than it
/// shows, to tell whether more exist.
pub const LIST_TABLES_FETCH: usize = 201;

// ---------------------------------------------------------------------------
// Finding the tool and validating its arguments
// ---------------------------------------------------------------------------

/// The position of the first definition named `name`, from `j` on.
pub open spec fn first_named(tools: Seq<ToolDefinition>, name: Seq<char>, j: int) -> Option<int>
    decreases tools.len() - j,
{
    if j < 0 || j >= tools.len() {
        None
    } else if tools[j].name@ == name {
        Some(j)
    } else {
        first_named(tools, name, j + 1)
    }
}

/// What the first definition named like the call makes of its arguments:
/// its validator's outcome, or the arguments unchanged when there is no
/// such definition or it has no validator.
pub open spec fn preparation(tools: Seq<ToolDefinition>, name: Seq<char>, args: JsonView) -> Result<
    (JsonView, Seq<Seq<char>>),
    Seq<char>,
> {
    match first_named(tools, name, 0) {
        Some(i) => match tools[i].validate_args {
            Some(k) => validation(k, args),
            None => Ok((args, seq![])),
        },
        None => Ok((args, seq![])),
    }
}

/// `r` answers `call` with `content`, as an error or not, with the given
/// explain data.
pub open spec fn answers(
    r: ToolResult,
    call: ToolCall,
    content: Seq<char>,
    is_error: bool,
    explain: Option<JsonView>,
) -> bool {
    &&& r.tool_call_id@ == call.id@
    &&& r.tool_name@ == call.name@
    &&& r.content@ == content
    &&& r.is_error == is_error
    &&& match r.explain_data {
        Some(d) => explain == Some(d@),
        None => explain is None,
    }
}

/// A result for `call` with the given content and no explain data.
fn result_for(call: &ToolCall, content: &[char], is_error: bool) -> (r: ToolResult)
    ensures
        answers(r, *call, content@, is_error, None),
{
    ToolResult {
        tool_call_id: String::from_str(call.id.as_str()),
        tool_name: String::from_str(call.name.as_str()),
        content: string_from_chars(content),
        is_error,
        explain_data: None,
    }
}

/// Finds the definition of the called tool and runs its validator: the
/// normalized arguments and warnings, or the error result `Error: <why>`.
pub fn prepare_tool_call(tool_call: &ToolCall, tools: &[ToolDefinition]) -> (r: Result<
    ValidatedArgs,
    ToolResult,
>)
    ensures
        match r {
            Ok(v) => preparation(tools@, tool_call.name@, tool_call.arguments@) == Ok::<
                (JsonView, Seq<Seq<char>>),
                Seq<char>,
            >((v.parsed@, warnings_view(v.warnings@))),
            Err(res) => preparation(tools@, tool_call.name@, tool_call.arguments@) matches Err(e)
                && answers(res, *tool_call, "Error: "@ + e, true, None),
        },
{
    let name = chars_of(tool_call.name.as_str());
    let mut j: usize = 0;
    while j < tools.len()
        invariant
            j <= tools@.len(),
            name@ == tool_call.name@,
            first_named(tools@, name@, j as int) == first_named(tools@, name@, 0),
        decreases tools@.len() - j,
    {
        let tn = chars_of(tools[j].name);
        if chars_eq(&tn, &name) {
            if let Some(k) = tools[j].validate_args {
                return match validate_args(k, &tool_call.arguments) {
                    Ok(v) => Ok(v),
                    Err(e) => {
                        let mut content: Vec<char> = Vec::new();
                        push_str(&mut content, "Error: ");
                        push_str(&mut content, e.as_str());
                        Err(result_for(tool_call, &content, true))
                    },
                };
            }
            let warnings: Vec<String> = Vec::new();
            proof {
                assert(warnings_view(warnings@) =~= seq![]);
            }
            return Ok(ValidatedArgs { parsed: tool_call.arguments.duplicate(), warnings });
        }
        j = j + 1;
    }
    let warnings: Vec<String> = Vec::new();
    proof {
        assert(warnings_view(warnings@) =~= seq![]);
    }
    Ok(ValidatedArgs { parsed: tool_call.arguments.duplicate(), warnings })
}

/// The result of a call that the before-execution hook refused:
/// `Blocked: <reason>`.
pub fn blocked_result(tool_call: &ToolCall, reason: &str) -> (r: ToolResult)
    ensures
        answers(r, *tool_call, "Blocked: "@ + reason@, true, None),
{
    let mut content: Vec<char> = Vec::new();
    push_str(&mut content, "Blocked: ");
    push_str(&mut content, reason);
    result_for(tool_call, &content, true)
}


// ---------------------------------------------------------------------------
// What a call asks of the database
// ---------------------------------------------------------------------------

/// The two catalog listings that the introspection tools run.
#[derive(Clone, Copy, Debug, PartialEq, Eq, Structural)]
pub enum Introspection {
    ForeignKeys,
    Indexes,
}

/// The database work that a tool call asks for, or the error that ends it
/// before any.
#[derive(Debug)]
pub enum ToolAction {
    /// List the tables of `schema` (empty: the current one).
    ListTables { schema: String },
    /// List the columns of `table`; `cache_key` names the listing in the
    /// session's schema cache.
    GetColumns { table: String, schema: String, cache_key: String },
    /// Run `sql`, returning at most `limit` rows.
    ExecuteQuery { sql: String, limit: usize },
    /// Run the sampling query `sql`, returning at most `limit` rows, with
    /// progress reported before and after.
    GetSampleData { sql: String, limit: usize },
    /// Get the execution plan of `sql`.
    ExplainQuery { sql: String },
    /// Run the catalog query `sql` for `table`.
    Introspect { kind: Introspection, table: String, sql: String },
    /// The call fails with `message`.
    Fail { message: String },
}

/// The mathematical form of a `ToolAction`.
pub enum ToolActionView {
    ListTables { schema: Seq<char> },
    GetColumns { table: Seq<char>, schema: Seq<char>, cache_key: Seq<char> },
    ExecuteQuery { sql: Seq<char>, limit: usize },
    GetSampleData { sql: Seq<char>, limit: usize },
    ExplainQuery { sql: Seq<char> },
    Introspect { kind: Introspection, table: Seq<char>, sql: Seq<char> },
    Fail { message: Seq<char> },
}

impl View for ToolAction {
    type V = ToolActionView;

    open spec fn view(&self) -> ToolActionView {
        match self {
            ToolAction::ListTables { schema } => ToolActionView::ListTables { schema: schema@ },
            ToolAction::GetColumns { table, schema, cache_key } => ToolActionView::GetColumns {
                table: table@,
                schema: schema@,
                cache_key: cache_key@,
            },
            ToolAction::ExecuteQuery { sql, limit } => ToolActionView::ExecuteQuery {
                sql: sql@,
                limit: *limit,
            },
            ToolAction::GetSampleData { sql, limit } => ToolActionView::GetSampleData {
                sql: sql@,
                limit: *limit,
            },
            ToolAction::ExplainQuery { sql } => ToolActionView::ExplainQuery { sql: sql@ },
            ToolAction::Introspect { kind, table, sql } => ToolActionView::Introspect {
                kind: *kind,
                table: table@,
                sql: sql@,
            },
            ToolAction::Fail { message } => ToolActionView::Fail { message: message@ },
        }
    }
}

/// The row limit that a query executor reads: the requested one, capped
/// at `cap`, or `default`.
pub open spec fn executor_limit(args: JsonView, default: usize, cap: usize) -> usize {
    match requested_limit(args) {
        Some(l) => if l > cap {
            cap
        } else {
            l
        },
        None => default,
    }
}

/// `SELECT * FROM ["<schema>".]"<table>" LIMIT <limit>`; the schema is
/// named only when one is given and it is not empty.
pub open spec fn sample_sql(table: Seq<char>, schema: Option<Seq<char>>, limit: usize) -> Seq<char> {
    let prefix = match schema {
        Some(s) => if s.len() > 0 {
            "\""@ + s + "\"."@
        } else {
            seq![]
        },
        None => seq![],
    };
    "SELECT * FROM "@ + prefix + "\""@ + table + "\" LIMIT "@ + decimal(limit as nat)
}

/// The name that `{:?}` gives a database type.
pub open spec fn db_type_name(db: DatabaseType) -> Seq<char> {
    match db {
        DatabaseType::Postgres => "Postgres"@,
        DatabaseType::Redshift => "Redshift"@,
        DatabaseType::OpenGauss => "OpenGauss"@,
        DatabaseType::Gaussdb => "Gaussdb"@,
        DatabaseType::Vastbase => "Vastbase"@,
        DatabaseType::Kingbase => "Kingbase"@,
        DatabaseType::Mysql => "Mysql"@,
        DatabaseType::Doris => "Doris"@,
        DatabaseType::StarRocks => "StarRocks"@,
        DatabaseType::Sqlite => "Sqlite"@,
        DatabaseType::Rqlite => "Rqlite"@,
        DatabaseType::Turso => "Turso"@,
        DatabaseType::SqlServer => "SqlServer"@,
        DatabaseType::Oracle => "Oracle"@,
        DatabaseType::Other(name) => name@,
    }
}

/// The introspection request for `table`, or why there is none.
pub open spec fn introspection_plan(
    kind: Introspection,
    args: JsonView,
    database: Seq<char>,
    db: DatabaseType,
) -> ToolActionView {
    match check_table_name(
        str_member(args, "table"@),
        "Missing required parameter: table"@,
        false,
        false,
    ) {
        Err(e) => ToolActionView::Fail { message: e },
        Ok(t) => {
            let schema = schema_or_empty(args);
            let sql = match kind {
                Introspection::ForeignKeys => fk_sql(t, schema, database, db),
                Introspection::Indexes => index_sql(t, schema, database, db),
            };
            let label = match kind {
                Introspection::ForeignKeys => "FK"@,
                Introspection::Indexes => "Index"@,
            };
            match sql {
                Some(q) => ToolActionView::Introspect { kind, table: t, sql: q },
                None => ToolActionView::Fail {
                    message: label + " introspection not supported for "@ + db_type_name(db),
                },
            }
        },
    }
}

/// The request that a call of the tool named `name` with the (validated)
/// arguments `args` turns into.
pub open spec fn plan(name: Seq<char>, args: JsonView, database: Seq<char>, db: DatabaseType) -> ToolActionView {
    if name == "list_tables"@ {
        ToolActionView::ListTables { schema: schema_or_empty(args) }
    } else if name == "get_columns"@ {
        match check_table_name(
            str_member(args, "table"@),
            "Missing required parameter: table"@,
            true,
            true,
        ) {
            Err(e) => ToolActionView::Fail { message: e },
            Ok(t) => ToolActionView::GetColumns {
                table: t,
                schema: schema_or_empty(args),
                cache_key: schema_or_empty(args) + "."@ + t,
            },
        }
    } else if name == "execute_query"@ {
        match check_sql(str_member(args, "sql"@), "Missing required parameter: sql"@) {
            Err(e) => ToolActionView::Fail { message: e },
            Ok(sql) => ToolActionView::ExecuteQuery {
                sql,
                limit: executor_limit(args, EXECUTE_QUERY_LIMIT, MAX_ALLOWED_ROWS),
            },
        }
    } else if name == "get_sample_data"@ {
        match check_table_name(
            str_member(args, "table"@),
            "Missing required parameter: table"@,
            false,
            true,
        ) {
            Err(e) => ToolActionView::Fail { message: e },
            Ok(t) => ToolActionView::GetSampleData {
                sql: sample_sql(
                    t,
                    str_member(args, "schema"@),
                    executor_limit(args, SAMPLE_DATA_LIMIT, SAMPLE_DATA_LIMIT),
                ),
                limit: executor_limit(args, SAMPLE_DATA_LIMIT, SAMPLE_DATA_LIMIT),
            },
        }
    } else if name == "explain_query"@ {
        match check_sql(str_member(args, "sql"@), "Missing required parameter: sql"@) {
            Err(e) => ToolActionView::Fail { message: e },
            Ok(sql) => ToolActionView::ExplainQuery { sql },
        }
    } else if name == "get_foreign_keys"@ {
        introspection_plan(Introspection::ForeignKeys, args, database, db)
    } else if name == "get_indexes"@ {
        introspection_plan(Introspection::Indexes, args, database, db)
    } else {
        ToolActionView::Fail { message: "Unknown tool: "@ + name }
    }
}

/// Exec form of `executor_limit`.
fn executor_limit_of(args: &JsonValue, default: usize, cap: usize) -> (r: usize)
    ensures
        r == executor_limit(args@, default, cap),
{
    match get_u64(args, "limit") {
        Some(l) => {
            let l = l as usize;
            if l > cap {
                cap
            } else {
                l
            }
        },
        None => default,
    }
}

/// The sampling query (see `sample_sql`).
pub fn sample_data_sql(table: &str, schema: Option<&str>, limit: usize) -> (sql: String)
    ensures
        sql@ == sample_sql(
            table@,
            match schema {
                Some(s) => Some(s@),
                None => None,
            },
            limit,
        ),
{
    let mut out: Vec<char> = Vec::new();
    push_str(&mut out, "SELECT * FROM ");
    let ghost before = out@;
    match schema {
        Some(s) => {
            if !s.is_empty() {
                push_str(&mut out, "\"");
                push_str(&mut out, s);
                push_str(&mut out, "\".");
            } else {
                proof {
                    assert(out@ =~= before + Seq::<char>::empty());
                }
            }
        },
        None => {
            proof {
                assert(out@ =~= before + Seq::<char>::empty());
            }
        },
    }
    push_str(&mut out, "\"");
    push_str(&mut out, table);
    push_str(&mut out, "\" LIMIT ");
    push_decimal(&mut out, limit);
    string_from_chars(&out)
}

/// Exec form of `db_type_name`.
fn database_type_name(db: &DatabaseType) -> (r: &str)
    ensures
        r@ == db_type_name(*db),
{
    match db {
        DatabaseType::Postgres => "Postgres",
        DatabaseType::Redshift => "Redshift",
        DatabaseType::OpenGauss => "OpenGauss",
        DatabaseType::Gaussdb => "Gaussdb",
        DatabaseType::Vastbase => "Vastbase",
        DatabaseType::Kingbase => "Kingbase",
        DatabaseType::Mysql => "Mysql",
        DatabaseType::Doris => "Doris",
        DatabaseType::StarRocks => "StarRocks",
        DatabaseType::Sqlite => "Sqlite",
        DatabaseType::Rqlite => "Rqlite",
        DatabaseType::Turso => "Turso",
        DatabaseType::SqlServer => "SqlServer",
        DatabaseType::Oracle => "Oracle",
        DatabaseType::Other(name) => name.as_str(),
    }
}

/// A failing action.
fn fail(message: String) -> (a: ToolAction)
    ensures
        a@ == (ToolActionView::Fail { message: message@ }),
{
    ToolAction::Fail { message }
}

/// Exec form of `introspection_plan`.
fn plan_introspection(kind: Introspection, args: &JsonValue, database: &str, db_type: &DatabaseType) -> (a:
    ToolAction)
    ensures
        a@ == introspection_plan(kind, args@, database@, *db_type),
{
    let table = match table_argument(args, "Missing required parameter: table", false, false) {
        Ok(t) => t,
        Err(e) => {
            return fail(e);
        },
    };
    let schema = schema_argument(args);
    let (sql, label) = match kind {
        Introspection::ForeignKeys => (
            build_fk_sql(table.as_str(), schema.as_str(), database, db_type),
            "FK",
        ),
        Introspection::Indexes => (
            build_index_sql(table.as_str(), schema.as_str(), database, db_type),
            "Index",
        ),
    };
    match sql {
        Some(q) => ToolAction::Introspect { kind, table, sql: q },
        None => {
            let mut msg: Vec<char> = Vec::new();
            push_str(&mut msg, label);
            push_str(&mut msg, " introspection not supported for ");
            push_str(&mut msg, database_type_name(db_type));
            fail(string_from_chars(&msg))
        },
    }
}

/// Whether `name` is the literal `lit`.
fn name_is(name: &[char], lit: &str) -> (r: bool)
    ensures
        r == (name@ == lit@),
{
    let l = chars_of(lit);
    chars_eq(name, &l)
}

/// The database work that a call of the tool `name` with the validated
/// arguments `args` asks for (see `plan`). Each executor reads its own
/// arguments again, so a tool defined without a validator is checked here
/// too.
pub fn plan_tool_action(name: &str, args: &JsonValue, database: &str, db_type: &DatabaseType) -> (a:
    ToolAction)
    ensures
        a@ == plan(name@, args@, database@, *db_type),
{
    let n = chars_of(name);
    if name_is(&n, "list_tables") {
        ToolAction::ListTables { schema: schema_argument(args) }
    } else if name_is(&n, "get_columns") {
        let table = match table_argument(args, "Missing required parameter: table", true, true) {
            Ok(t) => t,
            Err(e) => {
                return fail(e);
            },
        };
        let schema = schema_argument(args);
        let mut key: Vec<char> = Vec::new();
        push_str(&mut key, schema.as_str());
        push_str(&mut key, ".");
        push_str(&mut key, table.as_str());
        ToolAction::GetColumns { table, schema, cache_key: string_from_chars(&key) }
    } else if name_is(&n, "execute_query") {
        let sql = match sql_argument(args, "Missing required parameter: sql") {
            Ok(s) => s,
            Err(e) => {
                return fail(e);
            },
        };
        ToolAction::ExecuteQuery { sql, limit: executor_limit_of(args, EXECUTE_QUERY_LIMIT, MAX_ALLOWED_ROWS) }
    } else if name_is(&n, "get_sample_data") {
        let table = match table_argument(args, "Missing required parameter: table", false, true) {
            Ok(t) => t,
            Err(e) => {
                return fail(e);
            },
        };
        let schema = get_str(args, "schema");
        let limit = executor_limit_of(args, SAMPLE_DATA_LIMIT, SAMPLE_DATA_LIMIT);
        let sql = match &schema {
            Some(s) => sample_data_sql(table.as_str(), Some(s.as_str()), limit),
            None => sample_data_sql(table.as_str(), None, limit),
        };
        ToolAction::GetSampleData { sql, limit }
    } else if name_is(&n, "explain_query") {
        match sql_argument(args, "Missing required parameter: sql") {
            Ok(sql) => ToolAction::ExplainQuery { sql },
            Err(e) => fail(e),
        }
    } else if name_is(&n, "get_foreign_keys") {
        plan_introspection(Introspection::ForeignKeys, args, database, db_type)
    } else if name_is(&n, "get_indexes") {
        plan_introspection(Introspection::Indexes, args, database, db_type)
    } else {
        let mut msg: Vec<char> = Vec::new();
        push_str(&mut msg, "Unknown tool: ");
        push_str(&mut msg, name);
        fail(string_from_chars(&msg))
    }
}


// ---------------------------------------------------------------------------
// Replies turned into text
// ---------------------------------------------------------------------------

/// The outcome of the table listing: the listing text, or
/// `Failed to list tables: <why>`.
pub fn list_tables_outcome(reply: Result<Vec<TableInfo>, String>) -> (r: Result<String, String>)
    ensures
        match (reply, r) {
            (Ok(ts), Ok(text)) => text@ == table_list_text(ts@),
            (Err(e), Err(msg)) => msg@ == "Failed to list tables: "@ + e@,
            _ => false,
        },
{
    match reply {
        Ok(ts) => Ok(format_table_list(&ts)),
        Err(e) => {
            let mut msg: Vec<char> = Vec::new();
            push_str(&mut msg, "Failed to list tables: ");
            push_str(&mut msg, e.as_str());
            Err(string_from_chars(&msg))
        },
    }
}

/// The outcome of the column listing of `table`: the listing text, or
/// `Failed to get columns for <table>: <why>`.
pub fn columns_outcome(table: &str, reply: Result<Vec<ColumnInfo>, String>) -> (r: Result<
    String,
    String,
>)
    ensures
        match (reply, r) {
            (Ok(cs), Ok(text)) => text@ == column_list_text(table@, cs@),
            (Err(e), Err(msg)) => msg@ == "Failed to get columns for "@ + table@ + ": "@ + e@,
            _ => false,
        },
{
    match reply {
        Ok(cs) => Ok(format_column_list(table, &cs)),
        Err(e) => {
            let mut msg: Vec<char> = Vec::new();
            push_str(&mut msg, "Failed to get columns for ");
            push_str(&mut msg, table);
            push_str(&mut msg, ": ");
            push_str(&mut msg, e.as_str());
            Err(string_from_chars(&msg))
        },
    }
}

/// The outcome of a query: its rows as Markdown, or the error unchanged.
pub fn query_outcome(reply: Result<QueryResult, String>, limit: usize) -> (r: Result<String, String>)
    ensures
        match (reply, r) {
            (Ok(q), Ok(text)) => text@ == markdown_text(q, limit),
            (Err(e), Err(msg)) => msg@ == e@,
            _ => false,
        },
{
    match reply {
        Ok(q) => format_query_result_as_text(&q, limit),
        Err(e) => Err(e),
    }
}

/// The outcome of an introspection query for `table`: the padded listing,
/// or the error unchanged.
pub fn introspection_outcome(kind: Introspection, table: &str, reply: Result<QueryResult, String>) -> (r:
    Result<String, String>)
    requires
        reply matches Ok(q) ==> rows_match_columns(q),
    ensures
        match (reply, r) {
            (Ok(q), Ok(text)) => text@ == match kind {
                Introspection::ForeignKeys => table_text(
                    q,
                    "Foreign keys for \""@ + table@ + "\":"@,
                    "No foreign keys found for \""@ + table@ + "\"."@,
                ),
                Introspection::Indexes => table_text(
                    q,
                    "Indexes for \""@ + table@ + "\":"@,
                    "No indexes found for \""@ + table@ + "\"."@,
                ),
            },
            (Err(e), Err(msg)) => msg@ == e@,
            _ => false,
        },
{
    match reply {
        Ok(q) => match kind {
            Introspection::ForeignKeys => Ok(format_fk_result(&q, table)),
            Introspection::Indexes => Ok(format_index_result(&q, table)),
        },
        Err(e) => Err(e),
    }
}

/// What the plan builder made of the query to explain: the plan query
/// when it built one; `EXPLAIN SQL is empty` when it reported success
/// without one; otherwise the reason it gave (or `unknown`) in a message.
pub open spec fn explain_plan_outcome(ok: bool, sql: Option<Seq<char>>, reason: Option<Seq<char>>) -> Result<
    Seq<char>,
    Seq<char>,
> {
    if ok {
        match sql {
            Some(q) => Ok(q),
            None => Err("EXPLAIN SQL is empty"@),
        }
    } else {
        Err(
            "Cannot explain this query: "@ + match reason {
                Some(r) => r,
                None => "unknown"@,
            }
                + ". The database type may not support EXPLAIN, or the query may be unsafe."@,
        )
    }
}

/// Exec form of `explain_plan_outcome`.
pub fn explain_sql_outcome(ok: bool, sql: Option<String>, reason: Option<String>) -> (r: Result<
    String,
    String,
>)
    ensures
        match r {
            Ok(q) => explain_plan_outcome(
                ok,
                match sql {
                    Some(s) => Some(s@),
                    None => None,
                },
                match reason {
                    Some(s) => Some(s@),
                    None => None,
                },
            ) == Ok::<Seq<char>, Seq<char>>(q@),
            Err(e) => explain_plan_outcome(
                ok,
                match sql {
                    Some(s) => Some(s@),
                    None => None,
                },
                match reason {
                    Some(s) => Some(s@),
                    None => None,
                },
            ) == Err::<Seq<char>, Seq<char>>(e@),
        },
{
    if ok {
        match sql {
            Some(q) => Ok(q),
            None => Err(String::from_str("EXPLAIN SQL is empty")),
        }
    } else {
        let mut msg: Vec<char> = Vec::new();
        push_str(&mut msg, "Cannot explain this query: ");
        match &reason {
            Some(r) => push_str(&mut msg, r.as_str()),
            None => push_str(&mut msg, "unknown"),
        }
        push_str(
            &mut msg,
            ". The database type may not support EXPLAIN, or the query may be unsafe.",
        );
        Err(string_from_chars(&msg))
    }
}

// ---------------------------------------------------------------------------
// Sampling progress
// ---------------------------------------------------------------------------

/// The progress report of the sampling phase.
pub open spec fn sampling_progress_view(rows: usize) -> JsonView {
    JsonView::Object(
        seq![
            ("phase"@, JsonView::String("sampling"@)),
            ("rows_collected"@, JsonView::Number(JsonNumberView::PosInt(rows as u64))),
        ],
    )
}

/// `{"phase": "sampling", "rows_collected": rows}`.
pub fn sampling_progress(rows: usize) -> (v: JsonValue)
    ensures
        v@ == sampling_progress_view(rows),
{
    let mut ms: Vec<(String, JsonValue)> = Vec::new();
    ms.push(member("phase", json_string("sampling")));
    ms.push(member("rows_collected", json_uint(rows as u64)));
    let v = object_of(ms);
    proof {
        assert(Seq::new(ms@.len(), |i: int| (ms@[i].0@, ms@[i].1@)) =~= seq![
            ("phase"@, JsonView::String("sampling"@)),
            ("rows_collected"@, JsonView::Number(JsonNumberView::PosInt(rows as u64))),
        ]);
    }
    v
}

/// A line of `s` starts at `p` and begins with `|`.
pub open spec fn pipe_line_at(s: Seq<char>, p: int) -> bool {
    0 <= p < s.len() && s[p] == '|' && (p == 0 || s[p - 1] == '\n')
}

/// The number of lines beginning with `|` that start before `p`.
pub open spec fn pipe_lines_before(s: Seq<char>, p: int) -> nat
    decreases p,
{
    if p <= 0 {
        0
    } else {
        pipe_lines_before(s, p - 1) + if pipe_line_at(s, p - 1) {
            1nat
        } else {
            0nat
        }
    }
}

/// The data rows of a Markdown table: its lines beginning with `|`, less
/// the header line and the separator line under it, never below zero. A
/// reply without a table (`Query returned 0 rows.`) has none.
pub open spec fn table_row_count(s: Seq<char>) -> nat {
    let n = pipe_lines_before(s, s.len() as int);
    if n >= 2 {
        (n - 2) as nat
    } else {
        0
    }
}

/// The data rows that the sampling reply shows (see `table_row_count`).
pub fn count_table_rows(content: &str) -> (n: usize)
    ensures
        n == table_row_count(content@),
{
    let cs = chars_of(content);
    let len = cs.len();
    let mut count: usize = 0;
    let mut p: usize = 0;
    while p < len
        invariant
            len == cs@.len(),
            cs@ == content@,
            p <= len,
            count == pipe_lines_before(cs@, p as int),
            count <= p,
        decreases len - p,
    {
        if cs[p] == '|' && (p == 0 || cs[p - 1] == '\n') {
            count = count + 1;
        }
        p = p + 1;
    }
    if count >= 2 {
        count - 2
    } else {
        0
    }
}

// ---------------------------------------------------------------------------
// The final result
// ---------------------------------------------------------------------------

/// `[WARNING] <w1>; <w2>...` and a blank line, when there are warnings.
pub open spec fn warning_prefix(warnings: Seq<Seq<char>>) -> Seq<char> {
    if warnings.len() == 0 {
        seq![]
    } else {
        "[WARNING] "@ + join_seqs(warnings, "; "@) + "\n\n"@
    }
}

/// Appends `warning_prefix` of `warnings` to `out`.
fn push_warning_prefix(out: &mut Vec<char>, warnings: &[String])
    ensures
        final(out)@ == old(out)@ + warning_prefix(warnings_view(warnings@)),
{
    if warnings.len() == 0 {
        proof {
            assert(out@ =~= out@ + warning_prefix(warnings_view(warnings@)));
        }
        return;
    }
    let mut joined: Vec<char> = Vec::new();
    let ghost mut done: Seq<Seq<char>> = seq![];
    let mut i: usize = 0;
    while i < warnings.len()
        invariant
            i <= warnings@.len(),
            done == warnings_view(warnings@.take(i as int)),
            joined@ == join_seqs(done, "; "@),
        decreases warnings@.len() - i,
    {
        let w = chars_of(warnings[i].as_str());
        push_piece(&mut joined, i == 0, "; ", &w, Ghost(done));
        proof {
            assert(done.push(w@) =~= warnings_view(warnings@.take(i + 1)));
            done = done.push(w@);
        }
        i = i + 1;
    }
    proof {
        assert(warnings@.take(i as int) =~= warnings@);
    }
    push_str(out, "[WARNING] ");
    push_chars(out, &joined);
    push_str(out, "\n\n");
}

/// The result of a call: the warnings, then the text or `Error: <why>`.
pub fn finish_tool_result(tool_call: &ToolCall, warnings: &[String], outcome: Result<String, String>) -> (r:
    ToolResult)
    ensures
        match outcome {
            Ok(text) => answers(
                r,
                *tool_call,
                warning_prefix(warnings_view(warnings@)) + text@,
                false,
                None,
            ),
            Err(e) => answers(
                r,
                *tool_call,
                warning_prefix(warnings_view(warnings@)) + "Error: "@ + e@,
                true,
                None,
            ),
        },
{
    let mut content: Vec<char> = Vec::new();
    push_warning_prefix(&mut content, warnings);
    match outcome {
        Ok(text) => {
            push_str(&mut content, text.as_str());
            result_for(tool_call, &content, false)
        },
        Err(e) => {
            push_str(&mut content, "Error: ");
            push_str(&mut content, e.as_str());
            result_for(tool_call, &content, true)
        },
    }
}

/// The result of an `explain_query` call: as `finish_tool_result`, and on
/// success the plan's structured data for the frontend.
pub fn finish_explain_result(
    tool_call: &ToolCall,
    warnings: &[String],
    outcome: Result<String, String>,
    explain_data: Option<JsonValue>,
) -> (r: ToolResult)
    ensures
        match outcome {
            Ok(text) => answers(
                r,
                *tool_call,
                warning_prefix(warnings_view(warnings@)) + text@,
                false,
                match explain_data {
                    Some(d) => Some(d@),
                    None => None,
                },
            ),
            Err(e) => answers(
                r,
                *tool_call,
                warning_prefix(warnings_view(warnings@)) + "Error: "@ + e@,
                true,
                None,
            ),
        },
{
    let is_ok = outcome.is_ok();
    let mut r = finish_tool_result(tool_call, warnings, outcome);
    if is_ok {
        r.explain_data = explain_data;
    }
    r
}

} // verus!
