# dbx_core

The core of a database client's AI agent, written in Verus. Every function in
`src/` carries a contract; Verus proves all of them but two small wrappers of
std functions (building a `String` from characters, and `str::to_uppercase`),
whose contracts are trusted.

## Layout

- `src/sql_diagnostics.rs`: SQL redaction for diagnostics (string and
  identifier literals, comments, credential assignments), with truncation to
  a bounded length.
- `src/introspection_sql.rs`: the catalog queries behind the foreign-key and
  index tools, per database family.
- `src/tool_output.rs`: the text that the tools hand back to the model
  (table and column listings, Markdown query results, padded catalog tables).
- `src/agent_events.rs`, `src/agent_tools.rs`: the agent's events, tool
  definitions and their provider forms, the tool set per database, and the
  argument validators.
- `src/tool_execution.rs`: the decisions of a tool execution: which
  validator applies, what a call asks of the database, how each reply reads
  and how the final result is worded.
- `src/tool_call.rs`: a tool call as a sequence of steps, from state and
  event to next state and action (hook, schema cache, database work,
  progress, answer).
- `src/json.rs`, `src/text.rs`: the JSON model and the text helpers.
- `src/redaction_laws.rs`, `src/assignment_laws.rs`, `src/tool_laws.rs`,
  `src/table_laws.rs`, `src/progress_laws.rs`:
  properties that span functions (a call answered at its first failure, masking of literals and comments,
  idempotence of the redactions and validators, the padded-table shape, the
  sampling progress counting the returned rows, agreement of validators and
  executors, limits on rows, the read-only tool set).
- `app/`: the asynchronous runner of a tool call against a database
  backend, the schema cache, serde forms of the events and results, and
  logging.
- `tests/`: tests on concrete values.
