//! The verified core of a database client's AI agent: redaction of SQL for
//! diagnostics, the agent's tool definitions and argument validation, the
//! decisions of a tool execution, and the text the tools hand back.
pub mod text;
pub mod json;
pub mod sql_diagnostics;
pub mod introspection_sql;
pub mod tool_output;
pub mod agent_events;
pub mod agent_tools;
pub mod tool_execution;
pub mod tool_call;
pub mod redaction_laws;
pub mod assignment_laws;
pub mod tool_laws;
pub mod table_laws;
pub mod progress_laws;
pub mod content_laws;

pub use sql_diagnostics::{debug_sql, redact_sql_for_diagnostics};
pub use agent_events::{AgentEvent, BuiltinTool, ToolCall, ToolDefinition, ToolResult, ValidatedArgs};
pub use agent_tools::{all_tools, read_only_tools, ToolSupport};
