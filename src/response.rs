//! Decoding of a complete response, and classification of error responses.
use vstd::prelude::*;
use crate::error::Error;
use crate::json::compact_object_of;
use crate::types::{ContentBlock, Latency, ProviderInferenceResponse, Text, ToolCall, Usage};
use crate::usage::GCPVertexAnthropic;
use crate::wire::{block_maps_to, GCPVertexAnthropicMessageContent};

verus! {

/// A content block of a response. `input` is the compact JSON text of the tool's input.
#[derive(Clone, Debug, PartialEq)]
pub enum GCPVertexAnthropicContentBlock {
    Text { text: String },
    ToolUse { id: String, name: String, input: String },
}

/// The neutral form of a response block.
pub open spec fn decodes_to(block: GCPVertexAnthropicContentBlock, out: ContentBlock) -> bool {
    match block {
        GCPVertexAnthropicContentBlock::Text { text } => out == ContentBlock::Text(Text { text }),
        GCPVertexAnthropicContentBlock::ToolUse { id, name, input } => out == ContentBlock::ToolCall(
            ToolCall { id, name, arguments: input },
        ),
    }
}

impl ContentBlock {
    /// Maps a response block; a tool use's input, already compact JSON text, becomes the
    /// call's arguments.
    pub fn try_from(block: GCPVertexAnthropicContentBlock) -> (r: Result<ContentBlock, Error>)
        ensures
            r matches Ok(out) && decodes_to(block, out),
    {
        match block {
            GCPVertexAnthropicContentBlock::Text { text } => Ok(ContentBlock::Text(Text { text })),
            GCPVertexAnthropicContentBlock::ToolUse { id, name, input } => Ok(
                ContentBlock::ToolCall(ToolCall { id, name, arguments: input }),
            ),
        }
    }
}

/// Tool arguments that are already the compact text of a JSON object come back unchanged
/// after a request carries them out and a response carries the same input back.
pub proof fn lemma_tool_arguments_round_trip(
    call: ToolCall,
    sent: GCPVertexAnthropicMessageContent,
    received: ContentBlock,
)
    requires
        compact_object_of(call.arguments@) == Some(call.arguments@),
        block_maps_to(ContentBlock::ToolCall(call), sent),
        sent matches GCPVertexAnthropicMessageContent::ToolUse { id, name, input } && decodes_to(
            GCPVertexAnthropicContentBlock::ToolUse { id, name, input },
            received,
        ),
    ensures
        received matches ContentBlock::ToolCall(back) && back.arguments@ == call.arguments@ && back.id
            == call.id && back.name == call.name,
{
}

/// A complete response body.
#[derive(Clone, Debug, PartialEq)]
pub struct GCPVertexAnthropicResponse {
    pub id: String,
    pub kind: String,
    pub role: String,
    pub content: Vec<GCPVertexAnthropicContentBlock>,
    pub model: String,
    pub stop_reason: Option<String>,
    pub stop_sequence: Option<String>,
    pub usage: GCPVertexAnthropic,
}

/// A response with its serialized text and the measured latency.
#[derive(Clone, Debug, PartialEq)]
pub struct GCPVertexAnthropicResponseWithLatency {
    pub response: GCPVertexAnthropicResponse,
    pub raw_response: String,
    pub latency: Latency,
}

impl ProviderInferenceResponse {
    /// Maps every content block in order and keeps the raw text, usage and latency.
    pub fn try_from(value: GCPVertexAnthropicResponseWithLatency) -> (r: Result<ProviderInferenceResponse, Error>)
        ensures
            r matches Ok(out) && {
                &&& out.content@.len() == value.response.content@.len()
                &&& forall|i: int|
                    0 <= i < out.content@.len() ==> decodes_to(
                        #[trigger] value.response.content@[i],
                        out.content@[i],
                    )
                &&& out.raw_response == value.raw_response
                &&& out.usage == Usage {
                    input_tokens: value.response.usage.input_tokens,
                    output_tokens: value.response.usage.output_tokens,
                }
                &&& out.latency == value.latency
            },
    {
        let GCPVertexAnthropicResponseWithLatency { response, raw_response, latency } = value;
        let ghost blocks = response.content@;
        let usage = Usage::from(response.usage);
        let mut rest = response.content;
        let mut content: Vec<ContentBlock> = Vec::new();
        let ghost mut k: int = 0;
        while rest.len() > 0
            invariant
                0 <= k <= blocks.len(),
                rest@ == blocks.skip(k),
                content@.len() == k,
                forall|i: int| 0 <= i < k ==> decodes_to(#[trigger] blocks[i], content@[i]),
            decreases rest@.len(),
        {
            let block = rest.remove(0);
            proof {
                assert(blocks[k] == block);
            }
            match ContentBlock::try_from(block) {
                Ok(b) => content.push(b),
                Err(e) => return Err(e),
            }
            proof {
                k = k + 1;
                assert(rest@ =~= blocks.skip(k));
            }
        }
        Ok(ProviderInferenceResponse { content, raw_response, usage, latency })
    }
}

/// The error payload of a failed call.
#[derive(Clone, Debug, PartialEq)]
pub struct GCPVertexAnthropicError {
    pub error: GCPVertexAnthropicErrorBody,
}

#[derive(Clone, Debug, PartialEq)]
pub struct GCPVertexAnthropicErrorBody {
    pub kind: String,
    pub message: String,
}

/// Statuses that blame the caller: bad request, unauthorized, payload too large, too
/// many requests.
pub open spec fn is_client_status(status: u16) -> bool {
    status == 400 || status == 401 || status == 413 || status == 429
}

/// Classifies a failed call: caller-attributable statuses give a client error with the
/// status, every other status a server error; both carry the provider's message.
pub fn handle_anthropic_error(response_code: u16, response_body: GCPVertexAnthropicErrorBody) -> (r: Result<
    ProviderInferenceResponse,
    Error,
>)
    ensures
        is_client_status(response_code) ==> r == Err::<ProviderInferenceResponse, Error>(
            Error::AnthropicClient { status_code: response_code, message: response_body.message },
        ),
        !is_client_status(response_code) ==> r == Err::<ProviderInferenceResponse, Error>(
            Error::AnthropicServer { message: response_body.message },
        ),
{
    match response_code {
        400 | 401 | 413 | 429 => Err(
            Error::AnthropicClient { status_code: response_code, message: response_body.message },
        ),
        _ => Err(Error::AnthropicServer { message: response_body.message }),
    }
}

} // verus!
