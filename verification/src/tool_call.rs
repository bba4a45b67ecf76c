//! One tool call as a sequence of steps. The caller performs each action
//! (asking the hook, reading the schema cache, running the database work)
//! and hands back what came of it as the next event; each step decides what
//! comes next, up to the answer. A call is answered at its first failure,
//! as an error, or once the database work is done.
use vstd::prelude::*;
use crate::agent_events::{ToolCall, ToolDefinition, ToolResult, ValidatedArgs};
use crate::agent_tools::warnings_view;
use crate::introspection_sql::DatabaseType;
use crate::json::{JsonValue, JsonView};
use crate::tool_execution::{
    answers, blocked_result, columns_outcome, count_table_rows, explain_plan_outcome,
    explain_sql_outcome, finish_explain_result, finish_tool_result, introspection_outcome,
    list_tables_outcome, plan, plan_tool_action, preparation, prepare_tool_call, query_outcome,
    sampling_progress, sampling_progress_view, table_row_count, warning_prefix, Introspection,
    ToolAction, ToolActionView, EXPLAIN_MAX_ROWS, INTROSPECTION_MAX_ROWS, LIST_TABLES_FETCH,
};
use crate::tool_output::{
    column_list_text, markdown_text, rows_fit_columns, rows_match_columns, table_list_text,
    table_text, ColumnInfo, QueryResult, TableInfo,
};

verus! {

/// Where a tool call stands.
pub enum CallState {
    /// Nothing has been done yet.
    Start,
    /// The arguments were validated; the before-execution hook is asked
    /// about them.
    AwaitingHook { validated: ValidatedArgs },
    /// The schema cache is asked for the listing that `action` would fetch.
    AwaitingCache { warnings: Vec<String>, action: ToolAction },
    /// The database work of `action` is under way.
    AwaitingDatabase { warnings: Vec<String>, action: ToolAction },
    /// The plan query of an `explain_query` call is being built.
    AwaitingExplainSql { warnings: Vec<String> },
    /// The plan query runs.
    AwaitingExplainRows { warnings: Vec<String> },
    /// The call has been answered.
    Answered,
}

/// What came of the last action.
pub enum CallEvent {
    /// The call begins.
    Begin,
    /// The hook's reply: `Err(reason)` blocks the call.
    HookReply(Result<(), String>),
    /// What the schema cache holds for the listing, if anything.
    Cached(Option<String>),
    /// The catalog's tables.
    Tables(Result<Vec<TableInfo>, String>),
    /// The catalog's columns.
    Columns(Result<Vec<ColumnInfo>, String>),
    /// The rows of a query.
    Rows(Result<QueryResult, String>),
    /// What the plan builder made of the query to explain.
    ExplainSql { ok: bool, sql: Option<String>, reason: Option<String> },
    /// The rows of the plan query, and on success its structured form.
    ExplainRows { reply: Result<QueryResult, String>, data: Option<JsonValue> },
}

/// What the schema cache is to keep after the answer.
pub enum CacheUpdate {
    Keep,
    Tables(String),
    Columns { key: String, text: String },
}

/// What the caller is to do next.
pub enum CallAction {
    /// Ask the hook about the validated arguments that the state holds.
    AskHook,
    /// Look up the table listing in the schema cache.
    LookUpTables,
    /// Look up the column listing named `key` in the schema cache.
    LookUpColumns { key: String },
    /// List at most `limit` tables of `schema`.
    ListTables { schema: String, limit: usize },
    /// List the columns of `schema.table`.
    GetColumns { table: String, schema: String },
    /// Report `progress` first, when it is given; then run `sql`, returning
    /// at most `max_rows` rows.
    RunQuery { sql: String, max_rows: usize, progress: Option<JsonValue> },
    /// Build the plan query for `sql`.
    BuildExplain { sql: String },
    /// Run the plan query `sql`, returning at most `EXPLAIN_MAX_ROWS` rows.
    RunExplain { sql: String },
    /// Report `progress` when it is given, update the cache, and answer
    /// the call with `result`.
    Answer { result: ToolResult, cache: CacheUpdate, progress: Option<JsonValue> },
}

/// Whether `event` is what `state` waits for (and, for a catalog query,
/// a reply whose rows match its columns).
pub open spec fn accepts(state: CallState, event: CallEvent) -> bool {
    match state {
        CallState::Start => event is Begin,
        CallState::AwaitingHook { .. } => event is HookReply,
        CallState::AwaitingCache { .. } => event is Cached,
        CallState::AwaitingDatabase { action, .. } => match action {
            ToolAction::ListTables { .. } => event is Tables,
            ToolAction::GetColumns { .. } => event is Columns,
            ToolAction::ExecuteQuery { .. } | ToolAction::GetSampleData { .. } => event is Rows,
            ToolAction::Introspect { .. } => match event {
                CallEvent::Rows(Ok(q)) => rows_match_columns(q),
                CallEvent::Rows(Err(_)) => true,
                _ => false,
            },
            _ => false,
        },
        CallState::AwaitingExplainSql { .. } => event is ExplainSql,
        CallState::AwaitingExplainRows { .. } => event is ExplainRows,
        CallState::Answered => false,
    }
}

/// Whether the step from `state` on `event` meets a failure: the
/// arguments do not validate, the hook blocks, the call asks for nothing
/// (an unknown tool or arguments its executor refuses), or the database
/// work fails.
pub open spec fn step_fails(
    call: ToolCall,
    tools: Seq<ToolDefinition>,
    has_hook: bool,
    database: Seq<char>,
    db: DatabaseType,
    state: CallState,
    event: CallEvent,
) -> bool {
    match state {
        CallState::Start => match preparation(tools, call.name@, call.arguments@) {
            Err(_) => true,
            Ok((parsed, _)) => !has_hook && plan(call.name@, parsed, database, db) is Fail,
        },
        CallState::AwaitingHook { validated } => match event {
            CallEvent::HookReply(Err(_)) => true,
            _ => plan(call.name@, validated.parsed@, database, db) is Fail,
        },
        CallState::AwaitingCache { .. } => false,
        CallState::AwaitingDatabase { .. } => match event {
            CallEvent::Tables(r) => r is Err,
            CallEvent::Columns(r) => r is Err,
            CallEvent::Rows(r) => r is Err,
            _ => false,
        },
        CallState::AwaitingExplainSql { .. } => match event {
            CallEvent::ExplainSql { ok, sql, reason } => explain_plan_outcome(
                ok,
                match sql {
                    Some(s) => Some(s@),
                    None => None,
                },
                match reason {
                    Some(s) => Some(s@),
                    None => None,
                },
            ) is Err,
            _ => false,
        },
        CallState::AwaitingExplainRows { .. } => match event {
            CallEvent::ExplainRows { reply, .. } => reply is Err,
            _ => false,
        },
        CallState::Answered => false,
    }
}

/// `r` answers `call` after the warnings: the text, or `Error: <why>`.
pub open spec fn concludes(
    r: ToolResult,
    call: ToolCall,
    warnings: Seq<Seq<char>>,
    outcome: Result<Seq<char>, Seq<char>>,
    explain: Option<JsonView>,
) -> bool {
    match outcome {
        Ok(t) => answers(r, call, warning_prefix(warnings) + t, false, explain),
        Err(e) => answers(r, call, warning_prefix(warnings) + "Error: "@ + e, true, None),
    }
}

/// The call is answered with `outcome` after the warnings, with nothing
/// for the cache and no progress.
pub open spec fn answered_with(
    call: ToolCall,
    warnings: Seq<Seq<char>>,
    outcome: Result<Seq<char>, Seq<char>>,
    next: CallState,
    act: CallAction,
) -> bool {
    &&& next is Answered
    &&& act matches CallAction::Answer { result, cache, progress } && concludes(
        result,
        call,
        warnings,
        outcome,
        None,
    ) && cache is Keep && progress is None
}

/// The step that follows the planning of `a` after the warnings.
pub open spec fn planned(
    call: ToolCall,
    warnings: Seq<Seq<char>>,
    a: ToolActionView,
    has_cache: bool,
    next: CallState,
    act: CallAction,
) -> bool {
    let waits = next matches CallState::AwaitingDatabase { warnings: w, action } && warnings_view(w@)
        == warnings && action@ == a;
    let looks = next matches CallState::AwaitingCache { warnings: w, action } && warnings_view(w@)
        == warnings && action@ == a;
    let explains = next matches CallState::AwaitingExplainSql { warnings: w } && warnings_view(w@)
        == warnings;
    match a {
        ToolActionView::Fail { message } => answered_with(call, warnings, Err(message), next, act),
        ToolActionView::ListTables { schema } => if has_cache {
            looks && act is LookUpTables
        } else {
            waits && (act matches CallAction::ListTables { schema: s, limit } && s@ == schema
                && limit == LIST_TABLES_FETCH)
        },
        ToolActionView::GetColumns { table, schema, cache_key } => if has_cache {
            looks && (act matches CallAction::LookUpColumns { key } && key@ == cache_key)
        } else {
            waits && (act matches CallAction::GetColumns { table: t, schema: s } && t@ == table
                && s@ == schema)
        },
        ToolActionView::ExecuteQuery { sql, limit } => waits && (act matches CallAction::RunQuery {
            sql: q,
            max_rows,
            progress,
        } && q@ == sql && max_rows == limit && progress is None),
        ToolActionView::GetSampleData { sql, limit } => waits && (act matches CallAction::RunQuery {
            sql: q,
            max_rows,
            progress,
        } && q@ == sql && max_rows == limit && (progress matches Some(p) && p@ == sampling_progress_view(0))),
        ToolActionView::ExplainQuery { sql } => explains && (act matches CallAction::BuildExplain {
            sql: q,
        } && q@ == sql),
        ToolActionView::Introspect { sql, .. } => waits && (act matches CallAction::RunQuery {
            sql: q,
            max_rows,
            progress,
        } && q@ == sql && max_rows == INTROSPECTION_MAX_ROWS && progress is None),
    }
}

/// The outcome text of a table listing.
pub open spec fn listing_outcome(reply: Result<Vec<TableInfo>, String>) -> Result<Seq<char>, Seq<char>> {
    match reply {
        Ok(ts) => Ok(table_list_text(ts@)),
        Err(e) => Err("Failed to list tables: "@ + e@),
    }
}

/// The outcome text of the column listing of `table`.
pub open spec fn column_outcome(table: Seq<char>, reply: Result<Vec<ColumnInfo>, String>) -> Result<
    Seq<char>,
    Seq<char>,
> {
    match reply {
        Ok(cs) => Ok(column_list_text(table, cs@)),
        Err(e) => Err("Failed to get columns for "@ + table + ": "@ + e@),
    }
}

/// The outcome text of a query returning at most `limit` rows.
pub open spec fn rows_outcome(reply: Result<QueryResult, String>, limit: usize) -> Result<
    Seq<char>,
    Seq<char>,
> {
    match reply {
        Ok(q) => Ok(markdown_text(q, limit)),
        Err(e) => Err(e@),
    }
}

/// The outcome text of a catalog query for `table`.
pub open spec fn catalog_outcome(kind: Introspection, table: Seq<char>, reply: Result<QueryResult, String>) -> Result<
    Seq<char>,
    Seq<char>,
> {
    match reply {
        Ok(q) => Ok(
            match kind {
                Introspection::ForeignKeys => table_text(
                    q,
                    "Foreign keys for \""@ + table + "\":"@,
                    "No foreign keys found for \""@ + table + "\"."@,
                ),
                Introspection::Indexes => table_text(
                    q,
                    "Indexes for \""@ + table + "\":"@,
                    "No indexes found for \""@ + table + "\"."@,
                ),
            },
        ),
        Err(e) => Err(e@),
    }
}

/// The rows that the sampling reply shows, as the progress report counts
/// them.
pub open spec fn sampled_rows(outcome: Result<Seq<char>, Seq<char>>) -> usize {
    match outcome {
        Ok(t) => table_row_count(t) as usize,
        Err(_) => 0,
    }
}

/// The step taken from `state` on `event`, for `call` on `database` of type
/// `db`, with or without a hook and a schema cache.
pub open spec fn step_taken(
    call: ToolCall,
    tools: Seq<ToolDefinition>,
    has_hook: bool,
    has_cache: bool,
    database: Seq<char>,
    db: DatabaseType,
    state: CallState,
    event: CallEvent,
    next: CallState,
    act: CallAction,
) -> bool {
    match state {
        CallState::Start => match preparation(tools, call.name@, call.arguments@) {
            Err(e) => next is Answered && (act matches CallAction::Answer { result, cache, progress }
                && answers(result, call, "Error: "@ + e, true, None) && cache is Keep && progress is None),
            Ok((parsed, ws)) => if has_hook {
                next matches CallState::AwaitingHook { validated } && validated.parsed@ == parsed
                    && warnings_view(validated.warnings@) == ws && act is AskHook
            } else {
                planned(call, ws, plan(call.name@, parsed, database, db), has_cache, next, act)
            },
        },
        CallState::AwaitingHook { validated } => match event {
            CallEvent::HookReply(Err(reason)) => next is Answered && (act matches CallAction::Answer {
                result,
                cache,
                progress,
            } && answers(result, call, "Blocked: "@ + reason@, true, None) && cache is Keep
                && progress is None),
            _ => planned(
                call,
                warnings_view(validated.warnings@),
                plan(call.name@, validated.parsed@, database, db),
                has_cache,
                next,
                act,
            ),
        },
        CallState::AwaitingCache { warnings, action } => match event {
            CallEvent::Cached(Some(text)) => answered_with(
                call,
                warnings_view(warnings@),
                Ok(text@),
                next,
                act,
            ),
            _ => next matches CallState::AwaitingDatabase { warnings: w, action: a } && w@
                == warnings@ && a@ == action@ && match action {
                ToolAction::ListTables { schema } => act matches CallAction::ListTables {
                    schema: s,
                    limit,
                } && s@ == schema@ && limit == LIST_TABLES_FETCH,
                ToolAction::GetColumns { table, schema, .. } => act matches CallAction::GetColumns {
                    table: t,
                    schema: s,
                } && t@ == table@ && s@ == schema@,
                _ => !(act is Answer),
            },
        },
        CallState::AwaitingDatabase { warnings, action } => {
            let ws = warnings_view(warnings@);
            next is Answered && (act matches CallAction::Answer { result, cache, progress } && match (
                action,
                event,
            ) {
                (ToolAction::ListTables { .. }, CallEvent::Tables(reply)) => {
                    let o = listing_outcome(reply);
                    &&& concludes(result, call, ws, o, None)
                    &&& progress is None
                    &&& match o {
                        Ok(t) => if has_cache {
                            cache matches CacheUpdate::Tables(c) && c@ == t
                        } else {
                            cache is Keep
                        },
                        Err(_) => cache is Keep,
                    }
                },
                (ToolAction::GetColumns { table, cache_key, .. }, CallEvent::Columns(reply)) => {
                    let o = column_outcome(table@, reply);
                    &&& concludes(result, call, ws, o, None)
                    &&& progress is None
                    &&& match o {
                        Ok(t) => if has_cache {
                            cache matches CacheUpdate::Columns { key, text } && key@ == cache_key@
                                && text@ == t
                        } else {
                            cache is Keep
                        },
                        Err(_) => cache is Keep,
                    }
                },
                (ToolAction::ExecuteQuery { limit, .. }, CallEvent::Rows(reply)) => concludes(
                    result,
                    call,
                    ws,
                    rows_outcome(reply, limit),
                    None,
                ) && cache is Keep && progress is None,
                (ToolAction::GetSampleData { limit, .. }, CallEvent::Rows(reply)) => {
                    let o = rows_outcome(reply, limit);
                    &&& concludes(result, call, ws, o, None)
                    &&& cache is Keep
                    &&& (progress matches Some(p) && p@ == sampling_progress_view(sampled_rows(o)))
                },
                (ToolAction::Introspect { kind, table, .. }, CallEvent::Rows(reply)) => concludes(
                    result,
                    call,
                    ws,
                    catalog_outcome(kind, table@, reply),
                    None,
                ) && cache is Keep && progress is None,
                _ => false,
            })
        },
        CallState::AwaitingExplainSql { warnings } => match event {
            CallEvent::ExplainSql { ok, sql, reason } => match explain_plan_outcome(
                ok,
                match sql {
                    Some(s) => Some(s@),
                    None => None,
                },
                match reason {
                    Some(s) => Some(s@),
                    None => None,
                },
            ) {
                Ok(q) => (next matches CallState::AwaitingExplainRows { warnings: w } && w@
                    == warnings@) && (act matches CallAction::RunExplain { sql: s } && s@ == q),
                Err(e) => answered_with(call, warnings_view(warnings@), Err(e), next, act),
            },
            _ => false,
        },
        CallState::AwaitingExplainRows { warnings } => match event {
            CallEvent::ExplainRows { reply, data } => {
                &&& next is Answered
                &&& act matches CallAction::Answer { result, cache, progress } && cache is Keep
                    && progress is None && match reply {
                    Ok(q) => concludes(
                        result,
                        call,
                        warnings_view(warnings@),
                        Ok(markdown_text(q, EXPLAIN_MAX_ROWS)),
                        match data {
                            Some(d) => Some(d@),
                            None => None,
                        },
                    ),
                    Err(e) => concludes(result, call, warnings_view(warnings@), Err(e@), None),
                }
            },
            _ => false,
        },
        CallState::Answered => false,
    }
}

/// Whether `event` is what `state` waits for (see `accepts`).
pub fn expects(state: &CallState, event: &CallEvent) -> (r: bool)
    ensures
        r == accepts(*state, *event),
{
    match state {
        CallState::Start => matches!(event, CallEvent::Begin),
        CallState::AwaitingHook { .. } => matches!(event, CallEvent::HookReply(_)),
        CallState::AwaitingCache { .. } => matches!(event, CallEvent::Cached(_)),
        CallState::AwaitingDatabase { action, .. } => match action {
            ToolAction::ListTables { .. } => matches!(event, CallEvent::Tables(_)),
            ToolAction::GetColumns { .. } => matches!(event, CallEvent::Columns(_)),
            ToolAction::ExecuteQuery { .. } | ToolAction::GetSampleData { .. } => matches!(
                event,
                CallEvent::Rows(_)
            ),
            ToolAction::Introspect { .. } => match event {
                CallEvent::Rows(Ok(q)) => rows_fit_columns(q),
                CallEvent::Rows(Err(_)) => true,
                _ => false,
            },
            _ => false,
        },
        CallState::AwaitingExplainSql { .. } => matches!(event, CallEvent::ExplainSql { .. }),
        CallState::AwaitingExplainRows { .. } => matches!(event, CallEvent::ExplainRows { .. }),
        CallState::Answered => false,
    }
}

/// Answers `call` with `outcome` after the warnings.
fn conclude(call: &ToolCall, warnings: &[String], outcome: Result<String, String>) -> (r: (
    CallState,
    CallAction,
))
    ensures
        answered_with(
            *call,
            warnings_view(warnings@),
            match outcome {
                Ok(t) => Ok(t@),
                Err(e) => Err(e@),
            },
            r.0,
            r.1,
        ),
{
    let result = finish_tool_result(call, warnings, outcome);
    (CallState::Answered, CallAction::Answer { result, cache: CacheUpdate::Keep, progress: None })
}

/// The step after planning: answer a failing plan, else start its work.
fn proceed(call: &ToolCall, warnings: Vec<String>, action: ToolAction, has_cache: bool) -> (r: (
    CallState,
    CallAction,
))
    ensures
        planned(*call, warnings_view(warnings@), action@, has_cache, r.0, r.1),
{
    match action {
        ToolAction::Fail { message } => conclude(call, &warnings, Err(message)),
        ToolAction::ListTables { schema } => {
            if has_cache {
                (
                    CallState::AwaitingCache { warnings, action: ToolAction::ListTables { schema } },
                    CallAction::LookUpTables,
                )
            } else {
                let s = schema.clone();
                (
                    CallState::AwaitingDatabase { warnings, action: ToolAction::ListTables { schema } },
                    CallAction::ListTables { schema: s, limit: LIST_TABLES_FETCH },
                )
            }
        },
        ToolAction::GetColumns { table, schema, cache_key } => {
            if has_cache {
                let key = cache_key.clone();
                (
                    CallState::AwaitingCache {
                        warnings,
                        action: ToolAction::GetColumns { table, schema, cache_key },
                    },
                    CallAction::LookUpColumns { key },
                )
            } else {
                let t = table.clone();
                let s = schema.clone();
                (
                    CallState::AwaitingDatabase {
                        warnings,
                        action: ToolAction::GetColumns { table, schema, cache_key },
                    },
                    CallAction::GetColumns { table: t, schema: s },
                )
            }
        },
        ToolAction::ExecuteQuery { sql, limit } => {
            let q = sql.clone();
            (
                CallState::AwaitingDatabase { warnings, action: ToolAction::ExecuteQuery { sql, limit } },
                CallAction::RunQuery { sql: q, max_rows: limit, progress: None },
            )
        },
        ToolAction::GetSampleData { sql, limit } => {
            let q = sql.clone();
            (
                CallState::AwaitingDatabase { warnings, action: ToolAction::GetSampleData { sql, limit } },
                CallAction::RunQuery { sql: q, max_rows: limit, progress: Some(sampling_progress(0)) },
            )
        },
        ToolAction::ExplainQuery { sql } => (
            CallState::AwaitingExplainSql { warnings },
            CallAction::BuildExplain { sql },
        ),
        ToolAction::Introspect { kind, table, sql } => {
            let q = sql.clone();
            (
                CallState::AwaitingDatabase {
                    warnings,
                    action: ToolAction::Introspect { kind, table, sql },
                },
                CallAction::RunQuery { sql: q, max_rows: INTROSPECTION_MAX_ROWS, progress: None },
            )
        },
    }
}

/// The step of a tool call from `state` on `event` (see `step_taken`). A
/// step answers the call exactly when it meets a failure (`step_fails`), as
/// an error, or when it ends the database work; the answer always carries
/// the call's id and name.
pub fn step_tool_call(
    call: &ToolCall,
    tools: &[ToolDefinition],
    has_hook: bool,
    has_cache: bool,
    database: &str,
    db_type: &DatabaseType,
    state: CallState,
    event: CallEvent,
) -> (r: (CallState, CallAction))
    requires
        accepts(state, event),
    ensures
        step_taken(*call, tools@, has_hook, has_cache, database@, *db_type, state, event, r.0, r.1),
        r.1 matches CallAction::Answer { result, .. } ==> result.tool_call_id@ == call.id@
            && result.tool_name@ == call.name@ && (result.is_error <==> step_fails(
            *call,
            tools@,
            has_hook,
            database@,
            *db_type,
            state,
            event,
        )),
        step_fails(*call, tools@, has_hook, database@, *db_type, state, event) ==> r.1 is Answer,
{
    let r = step_unchecked(call, tools, has_hook, has_cache, database, db_type, state, event);
    proof {
        law_call_answers_at_first_failure(*call, tools@, has_hook, has_cache, database@, *db_type, state, event, r.0, r.1);
    }
    r
}

/// The step itself, as `step_taken` describes it.
fn step_unchecked(
    call: &ToolCall,
    tools: &[ToolDefinition],
    has_hook: bool,
    has_cache: bool,
    database: &str,
    db_type: &DatabaseType,
    state: CallState,
    event: CallEvent,
) -> (r: (CallState, CallAction))
    requires
        accepts(state, event),
    ensures
        step_taken(*call, tools@, has_hook, has_cache, database@, *db_type, state, event, r.0, r.1),
{
    match state {
        CallState::Start => match prepare_tool_call(call, tools) {
            Err(result) => (
                CallState::Answered,
                CallAction::Answer { result, cache: CacheUpdate::Keep, progress: None },
            ),
            Ok(validated) => {
                if has_hook {
                    (CallState::AwaitingHook { validated }, CallAction::AskHook)
                } else {
                    let action = plan_tool_action(&call.name, &validated.parsed, database, db_type);
                    proceed(call, validated.warnings, action, has_cache)
                }
            },
        },
        CallState::AwaitingHook { validated } => match event {
            CallEvent::HookReply(Err(reason)) => {
                let result = blocked_result(call, reason.as_str());
                (CallState::Answered, CallAction::Answer { result, cache: CacheUpdate::Keep, progress: None })
            },
            _ => {
                let action = plan_tool_action(&call.name, &validated.parsed, database, db_type);
                proceed(call, validated.warnings, action, has_cache)
            },
        },
        CallState::AwaitingCache { warnings, action } => match event {
            CallEvent::Cached(Some(text)) => conclude(call, &warnings, Ok(text)),
            _ => {
                let act = match &action {
                    ToolAction::ListTables { schema } => CallAction::ListTables {
                        schema: schema.clone(),
                        limit: LIST_TABLES_FETCH,
                    },
                    ToolAction::GetColumns { table, schema, .. } => CallAction::GetColumns {
                        table: table.clone(),
                        schema: schema.clone(),
                    },
                    _ => CallAction::LookUpTables,
                };
                (CallState::AwaitingDatabase { warnings, action }, act)
            },
        },
        CallState::AwaitingDatabase { warnings, action } => match (action, event) {
            (ToolAction::ListTables { .. }, CallEvent::Tables(reply)) => {
                let outcome = list_tables_outcome(reply);
                let cache = match &outcome {
                    Ok(t) => if has_cache {
                        CacheUpdate::Tables(t.clone())
                    } else {
                        CacheUpdate::Keep
                    },
                    Err(_) => CacheUpdate::Keep,
                };
                let result = finish_tool_result(call, &warnings, outcome);
                (CallState::Answered, CallAction::Answer { result, cache, progress: None })
            },
            (ToolAction::GetColumns { table, cache_key, .. }, CallEvent::Columns(reply)) => {
                let outcome = columns_outcome(table.as_str(), reply);
                let cache = match &outcome {
                    Ok(t) => if has_cache {
                        CacheUpdate::Columns { key: cache_key, text: t.clone() }
                    } else {
                        CacheUpdate::Keep
                    },
                    Err(_) => CacheUpdate::Keep,
                };
                let result = finish_tool_result(call, &warnings, outcome);
                (CallState::Answered, CallAction::Answer { result, cache, progress: None })
            },
            (ToolAction::ExecuteQuery { limit, .. }, CallEvent::Rows(reply)) => {
                let outcome = query_outcome(reply, limit);
                conclude(call, &warnings, outcome)
            },
            (ToolAction::GetSampleData { limit, .. }, CallEvent::Rows(reply)) => {
                let outcome = query_outcome(reply, limit);
                let rows = match &outcome {
                    Ok(content) => count_table_rows(content.as_str()),
                    Err(_) => 0,
                };
                let progress = Some(sampling_progress(rows));
                let result = finish_tool_result(call, &warnings, outcome);
                (CallState::Answered, CallAction::Answer { result, cache: CacheUpdate::Keep, progress })
            },
            (ToolAction::Introspect { kind, table, .. }, CallEvent::Rows(reply)) => {
                let outcome = introspection_outcome(kind, table.as_str(), reply);
                conclude(call, &warnings, outcome)
            },
            _ => {
                proof {
                    assert(false);
                }
                (CallState::Answered, CallAction::AskHook)
            },
        },
        CallState::AwaitingExplainSql { warnings } => match event {
            CallEvent::ExplainSql { ok, sql, reason } => match explain_sql_outcome(ok, sql, reason) {
                Ok(q) => (CallState::AwaitingExplainRows { warnings }, CallAction::RunExplain { sql: q }),
                Err(e) => conclude(call, &warnings, Err(e)),
            },
            _ => {
                proof {
                    assert(false);
                }
                (CallState::Answered, CallAction::AskHook)
            },
        },
        CallState::AwaitingExplainRows { warnings } => match event {
            CallEvent::ExplainRows { reply, data } => {
                let outcome = query_outcome(reply, EXPLAIN_MAX_ROWS);
                let result = finish_explain_result(call, &warnings, outcome, data);
                (CallState::Answered, CallAction::Answer { result, cache: CacheUpdate::Keep, progress: None })
            },
            _ => {
                proof {
                    assert(false);
                }
                (CallState::Answered, CallAction::AskHook)
            },
        },
        CallState::Answered => {
            proof {
                assert(false);
            }
            (CallState::Answered, CallAction::AskHook)
        },
    }
}

/// A tool call is answered at its first failure, as an error, or at the
/// end of its database work, as a success: a step as `step_taken`
/// describes it answers exactly when it meets a failure (the arguments do
/// not validate, the hook blocks, the call asks for nothing, or the
/// database work fails) or when it ends the work; its answer carries the
/// call's id and name and is an error exactly when the step failed.
pub proof fn law_call_answers_at_first_failure(
    call: ToolCall,
    tools: Seq<ToolDefinition>,
    has_hook: bool,
    has_cache: bool,
    database: Seq<char>,
    db: DatabaseType,
    state: CallState,
    event: CallEvent,
    next: CallState,
    act: CallAction,
)
    requires
        accepts(state, event),
        step_taken(call, tools, has_hook, has_cache, database, db, state, event, next, act),
    ensures
        act matches CallAction::Answer { result, .. } ==> result.tool_call_id@ == call.id@
            && result.tool_name@ == call.name@ && (result.is_error <==> step_fails(
            call,
            tools,
            has_hook,
            database,
            db,
            state,
            event,
        )),
        step_fails(call, tools, has_hook, database, db, state, event) ==> act is Answer,
{
    match state {
        CallState::Start => {
            if let Ok((parsed, ws)) = preparation(tools, call.name@, call.arguments@) {
                if !has_hook {
                    lemma_planned_answers(call, ws, plan(call.name@, parsed, database, db), has_cache, next, act);
                }
            }
        },
        CallState::AwaitingHook { validated } => {
            if !(event matches CallEvent::HookReply(Err(_))) {
                lemma_planned_answers(
                    call,
                    warnings_view(validated.warnings@),
                    plan(call.name@, validated.parsed@, database, db),
                    has_cache,
                    next,
                    act,
                );
            }
        },
        CallState::AwaitingDatabase { warnings, action } => {
            let ws = warnings_view(warnings@);
            match (action, event) {
                (ToolAction::ListTables { .. }, CallEvent::Tables(reply)) => {
                    lemma_concludes(act->Answer_result, call, ws, listing_outcome(reply), None);
                },
                (ToolAction::GetColumns { table, .. }, CallEvent::Columns(reply)) => {
                    lemma_concludes(act->Answer_result, call, ws, column_outcome(table@, reply), None);
                },
                (ToolAction::ExecuteQuery { limit, .. }, CallEvent::Rows(reply)) => {
                    lemma_concludes(act->Answer_result, call, ws, rows_outcome(reply, limit), None);
                },
                (ToolAction::GetSampleData { limit, .. }, CallEvent::Rows(reply)) => {
                    lemma_concludes(act->Answer_result, call, ws, rows_outcome(reply, limit), None);
                },
                (ToolAction::Introspect { kind, table, .. }, CallEvent::Rows(reply)) => {
                    lemma_concludes(
                        act->Answer_result,
                        call,
                        ws,
                        catalog_outcome(kind, table@, reply),
                        None,
                    );
                },
                _ => {},
            }
        },
        CallState::AwaitingCache { warnings, .. } => {
            if let CallEvent::Cached(Some(text)) = event {
                lemma_concludes(act->Answer_result, call, warnings_view(warnings@), Ok(text@), None);
            }
        },
        CallState::AwaitingExplainSql { warnings } => {
            if let CallEvent::ExplainSql { ok, sql, reason } = event {
                let o = explain_plan_outcome(
                    ok,
                    match sql {
                        Some(s) => Some(s@),
                        None => None,
                    },
                    match reason {
                        Some(s) => Some(s@),
                        None => None,
                    },
                );
                if o is Err {
                    lemma_concludes(act->Answer_result, call, warnings_view(warnings@), o, None);
                }
            }
        },
        CallState::AwaitingExplainRows { warnings } => {
            if let CallEvent::ExplainRows { reply, data } = event {
                let o = match reply {
                    Ok(q) => Ok(markdown_text(q, EXPLAIN_MAX_ROWS)),
                    Err(e) => Err(e@),
                };
                let d = match data {
                    Some(d) => Some(d@),
                    None => None,
                };
                lemma_concludes(act->Answer_result, call, warnings_view(warnings@), o, if o is Ok { d } else { None });
            }
        },
        _ => {},
    }
}

/// A result that `concludes` an outcome is an error exactly when the
/// outcome is, and carries the call's id and name.
proof fn lemma_concludes(
    r: ToolResult,
    call: ToolCall,
    warnings: Seq<Seq<char>>,
    outcome: Result<Seq<char>, Seq<char>>,
    explain: Option<JsonView>,
)
    requires
        concludes(r, call, warnings, outcome, explain),
    ensures
        r.tool_call_id@ == call.id@,
        r.tool_name@ == call.name@,
        r.is_error == outcome is Err,
{
}

/// After planning, the call is answered exactly when the plan fails.
proof fn lemma_planned_answers(
    call: ToolCall,
    warnings: Seq<Seq<char>>,
    a: ToolActionView,
    has_cache: bool,
    next: CallState,
    act: CallAction,
)
    requires
        planned(call, warnings, a, has_cache, next, act),
    ensures
        act is Answer <==> a is Fail,
        act matches CallAction::Answer { result, .. } ==> result.tool_call_id@ == call.id@
            && result.tool_name@ == call.name@ && result.is_error,
{
}

} // verus!
