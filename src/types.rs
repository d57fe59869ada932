//! The provider-neutral model shared by every provider adapter: request messages,
//! content blocks, tool configuration, usage, and the response and chunk envelopes.
use vstd::prelude::*;

verus! {

/// Who authored a request message.
#[derive(Clone, Copy, Debug, PartialEq, Eq)]
pub enum Role {
    User,
    Assistant,
}

#[derive(Clone, Debug, PartialEq)]
pub struct Text {
    pub text: String,
}

/// A tool invocation emitted by the model; `arguments` is JSON text.
#[derive(Clone, Debug, PartialEq)]
pub struct ToolCall {
    pub id: String,
    pub name: String,
    pub arguments: String,
}

/// The outcome of running a tool, fed back to the model.
#[derive(Clone, Debug, PartialEq)]
pub struct ToolResult {
    pub id: String,
    pub name: String,
    pub result: String,
}

/// One block of content in the input direction.
#[derive(Clone, Debug, PartialEq)]
pub enum ContentBlock {
    Text(Text),
    ToolCall(ToolCall),
    ToolResult(ToolResult),
}

#[derive(Clone, Debug, PartialEq)]
pub struct RequestMessage {
    pub role: Role,
    pub content: Vec<ContentBlock>,
}

/// How the model is asked to use the tools it is offered.
#[derive(Clone, Debug, PartialEq)]
pub enum ToolChoice {
    Disabled,
    Auto,
    Required,
    Specific(String),
}

/// A tool the model may call; `parameters` is the JSON schema of its input, as text.
#[derive(Clone, Debug, PartialEq)]
pub struct ToolConfig {
    pub name: String,
    pub description: String,
    pub parameters: String,
}

#[derive(Clone, Debug, PartialEq)]
pub struct ToolCallConfig {
    pub tools_available: Vec<ToolConfig>,
    pub tool_choice: ToolChoice,
}

/// A provider-neutral inference request.
///
/// `temperature_bits` holds the IEEE-754 bits of the sampling temperature, which
/// this layer only passes through.
#[derive(Clone, Debug, PartialEq)]
pub struct ModelInferenceRequest {
    pub messages: Vec<RequestMessage>,
    pub system: Option<String>,
    pub tool_config: Option<ToolCallConfig>,
    pub temperature_bits: Option<u32>,
    pub max_tokens: Option<u32>,
    pub seed: Option<u32>,
    pub stream: bool,
}

#[derive(Clone, Copy, Debug, PartialEq, Eq)]
pub struct Usage {
    pub input_tokens: u32,
    pub output_tokens: u32,
}

#[derive(Clone, Copy, Debug, PartialEq)]
pub enum Latency {
    Streaming { ttft: std::time::Duration, response_time: std::time::Duration },
    NonStreaming { response_time: std::time::Duration },
}

/// A complete response: neutral content, the provider's body as text, usage and latency.
#[derive(Clone, Debug, PartialEq)]
pub struct ProviderInferenceResponse {
    pub content: Vec<ContentBlock>,
    pub raw_response: String,
    pub usage: Usage,
    pub latency: Latency,
}

#[derive(Clone, Debug, PartialEq)]
pub struct TextChunk {
    pub id: String,
    pub text: String,
}

#[derive(Clone, Debug, PartialEq)]
pub struct ToolCallChunk {
    pub id: String,
    pub raw_name: String,
    pub raw_arguments: String,
}

/// One block of content in the streaming direction.
#[derive(Clone, Debug, PartialEq)]
pub enum ContentBlockChunk {
    Text(TextChunk),
    ToolCall(ToolCallChunk),
}

/// One incremental piece of a streamed response.
#[derive(Debug, PartialEq)]
pub struct ProviderInferenceResponseChunk {
    pub inference_id: uuid::Uuid,
    pub content: Vec<ContentBlockChunk>,
    pub usage: Option<Usage>,
    pub raw_response: String,
    pub latency: std::time::Duration,
}

#[verifier::external_type_specification]
#[verifier::external_body]
pub struct ExUuid(uuid::Uuid);

} // verus!
