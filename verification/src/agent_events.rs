//! The data that the agent loop exchanges: events streamed to the
//! frontend, tool calls and their results, and tool definitions with their
//! provider-specific JSON forms.
use vstd::prelude::*;
use crate::json::{json_string, member, object_of, JsonValue, JsonView};

verus! {

/// Events emitted by the agent loop, streamed to the frontend.
#[derive(Debug)]
pub enum AgentEvent {
    /// A turn in the agent loop has started.
    TurnStart { turn: u32 },
    /// Text delta from the LLM response.
    TextDelta { delta: String },
    /// Reasoning/thinking delta (for models that support it).
    ReasoningDelta { delta: String },
    /// The LLM wants to call a tool.
    ToolCallStart { tool_call_id: String, tool_name: String, args: JsonValue },
    /// A tool execution has completed.
    ToolCallEnd { tool_call_id: String, tool_name: String, result: JsonValue, is_error: bool },
    /// Partial progress update during a long-running tool execution.
    ToolExecutionUpdate { tool_call_id: String, tool_name: String, partial_result: JsonValue },
    /// A turn in the agent loop has ended.
    TurnEnd { turn: u32 },
    /// The agent loop has finished.
    AgentEnd { input_tokens: Option<u32>, output_tokens: Option<u32> },
    /// Context was compacted to stay within context window limits.
    ContextCompacted {
        summary: String,
        summary_tokens: u32,
        compacted_messages: usize,
        estimated_before: u32,
        estimated_after: u32,
    },
    /// A steering message was injected into the conversation.
    SteeringApplied { content: String },
    /// An error occurred during the agent loop.
    Error { message: String },
}

/// A tool call extracted from any provider's response.
#[derive(Debug)]
pub struct ToolCall {
    pub id: String,
    pub name: String,
    pub arguments: JsonValue,
}

/// The result of executing a tool.
#[derive(Debug)]
pub struct ToolResult {
    pub tool_call_id: String,
    pub tool_name: String,
    pub content: String,
    pub is_error: bool,
    /// Structured explain data for `explain_query` results; `None` for all
    /// other tools.
    pub explain_data: Option<JsonValue>,
}

/// The result of tool argument validation.
#[derive(Debug)]
pub struct ValidatedArgs {
    /// Normalized arguments to pass to the tool executor.
    pub parsed: JsonValue,
    /// Non-fatal warnings (e.g. "limit capped from 200 to 100").
    pub warnings: Vec<String>,
}

/// The tools that this library defines and executes. A tool definition
/// names the one whose argument validator applies to it.
#[derive(Clone, Copy, Debug, PartialEq, Eq, Structural)]
pub enum BuiltinTool {
    ListTables,
    GetColumns,
    ExecuteQuery,
    GetSampleData,
    ExplainQuery,
    GetForeignKeys,
    GetIndexes,
}

/// Definition of a tool available to the agent.
#[derive(Debug)]
pub struct ToolDefinition {
    pub name: &'static str,
    pub description: &'static str,
    /// The JSON schema of the tool's arguments.
    pub parameters: JsonValue,
    pub read_only: bool,
    /// Whether this tool can be executed in parallel with other tools.
    pub parallel_ok: bool,
    /// The validator for the tool's arguments; without one, arguments are
    /// passed through as they are.
    pub validate_args: Option<BuiltinTool>,
}

/// The OpenAI form of a tool definition.
pub open spec fn openai_tool(t: ToolDefinition) -> JsonView {
    JsonView::Object(
        seq![
            ("type"@, JsonView::String("function"@)),
            (
                "function"@,
                JsonView::Object(
                    seq![
                        ("name"@, JsonView::String(t.name@)),
                        ("description"@, JsonView::String(t.description@)),
                        ("parameters"@, t.parameters@),
                    ],
                ),
            ),
        ],
    )
}

/// The Anthropic form of a tool definition.
pub open spec fn anthropic_tool(t: ToolDefinition) -> JsonView {
    JsonView::Object(
        seq![
            ("name"@, JsonView::String(t.name@)),
            ("description"@, JsonView::String(t.description@)),
            ("input_schema"@, t.parameters@),
        ],
    )
}

/// The Gemini form of a tool definition.
pub open spec fn gemini_tool(t: ToolDefinition) -> JsonView {
    JsonView::Object(
        seq![
            ("name"@, JsonView::String(t.name@)),
            ("description"@, JsonView::String(t.description@)),
            ("parameters"@, t.parameters@),
        ],
    )
}

impl ToolDefinition {
    /// The name/description/schema object, with the schema under `key`.
    fn declaration(&self, key: &str) -> (r: JsonValue)
        ensures
            r@ == JsonView::Object(
                seq![
                    ("name"@, JsonView::String(self.name@)),
                    ("description"@, JsonView::String(self.description@)),
                    (key@, self.parameters@),
                ],
            ),
    {
        let mut ms: Vec<(String, JsonValue)> = Vec::new();
        ms.push(member("name", json_string(self.name)));
        ms.push(member("description", json_string(self.description)));
        ms.push(member(key, self.parameters.duplicate()));
        let r = object_of(ms);
        proof {
            assert(Seq::new(ms@.len(), |i: int| (ms@[i].0@, ms@[i].1@)) =~= seq![
                ("name"@, JsonView::String(self.name@)),
                ("description"@, JsonView::String(self.description@)),
                (key@, self.parameters@),
            ]);
        }
        r
    }

    /// Converts to the OpenAI-compatible tool JSON for the API request.
    pub fn to_openai_tool(&self) -> (r: JsonValue)
        ensures
            r@ == openai_tool(*self),
    {
        let function = self.declaration("parameters");
        let mut ms: Vec<(String, JsonValue)> = Vec::new();
        ms.push(member("type", json_string("function")));
        ms.push(member("function", function));
        let r = object_of(ms);
        proof {
            assert(Seq::new(ms@.len(), |i: int| (ms@[i].0@, ms@[i].1@)) =~= seq![
                ("type"@, JsonView::String("function"@)),
                ("function"@, ms@[1].1@),
            ]);
        }
        r
    }

    /// Converts to the Anthropic-compatible tool JSON.
    pub fn to_anthropic_tool(&self) -> (r: JsonValue)
        ensures
            r@ == anthropic_tool(*self),
    {
        self.declaration("input_schema")
    }

    /// Converts to the Gemini-compatible function declaration.
    pub fn to_gemini_tool(&self) -> (r: JsonValue)
        ensures
            r@ == gemini_tool(*self),
    {
        self.declaration("parameters")
    }
}

} // verus!
