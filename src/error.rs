//! The errors this adapter reports.
use vstd::prelude::*;

verus! {

/// Failures of request construction, transport, decoding and classification.
///
/// `AnthropicClient` is caller-attributable and carries the HTTP status code;
/// `AnthropicServer` is provider-attributable.
#[derive(Clone, Debug, PartialEq)]
pub enum Error {
    ApiKeyMissing { provider_name: String },
    InferenceClient { message: String },
    AnthropicClient { status_code: u16, message: String },
    AnthropicServer { message: String },
    InvalidTool { message: String },
    InvalidRequest { message: String },
}

/// The provider's name in a missing-credential error.
pub const PROVIDER_NAME: &'static str = "GCP Vertex Anthropic";

/// The request had no messages.
pub const NO_MESSAGES: &'static str = "Anthropic requires at least one message";

/// Tool-call arguments that are not the text of a JSON object.
pub const ARGUMENTS_NOT_OBJECT: &'static str = "Tool call arguments must be a JSON object";

/// Tools were offered while tool use was disallowed.
pub const TOOL_CHOICE_DISABLED: &'static str = "Tool choice is None. Anthropic does not support tool choice None.";

/// A partial-arguments delta came before any tool-use start set the tool's name.
pub const NO_TOOL_NAME: &'static str = "Got InputJsonDelta chunk from Anthropic without current tool name being set by a ToolUse";

/// A partial-arguments delta came before any tool-use start set the tool's id.
pub const NO_TOOL_ID: &'static str = "Got InputJsonDelta chunk from Anthropic without current tool id being set by a ToolUse";

/// A content-block start whose payload is not a text or tool-use block.
pub const UNSUPPORTED_START: &'static str = "Unsupported content block type for ContentBlockStart";

/// A content-block delta whose payload is not a text or partial-arguments delta.
pub const UNSUPPORTED_DELTA: &'static str = "Unsupported content block type for ContentBlockDelta";

/// The event source ended before it produced a first item.
pub const STREAM_ENDED_EARLY: &'static str = "Stream ended before first chunk";

} // verus!
