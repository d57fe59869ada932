//! Construction of the provider's request body from a neutral request.
use vstd::prelude::*;
use crate::error::{Error, ARGUMENTS_NOT_OBJECT, NO_MESSAGES, TOOL_CHOICE_DISABLED};
use crate::normalize::{normalized_from, prepare_messages};
use crate::types::{ModelInferenceRequest, ToolConfig};
use crate::wire::{
    message_convertible, messages_map_to, wire_tool_choice, GCPVertexAnthropicMessage,
    GCPVertexAnthropicTool, GCPVertexAnthropicToolChoice,
};

verus! {

/// The API version the provider is asked for.
pub const ANTHROPIC_API_VERSION: &'static str = "vertex-2023-10-16";

/// The token limit used when the request sets none.
pub const DEFAULT_MAX_TOKENS: u32 = 4096;

/// The request body on the wire. `temperature_bits` holds the IEEE-754 bits of the
/// temperature.
#[derive(Debug, PartialEq)]
pub struct GCPVertexAnthropicRequestBody {
    pub anthropic_version: String,
    pub messages: Vec<GCPVertexAnthropicMessage>,
    pub max_tokens: u32,
    pub stream: Option<bool>,
    pub system: Option<String>,
    pub temperature_bits: Option<u32>,
    pub tool_choice: Option<GCPVertexAnthropicToolChoice>,
    pub tools: Option<Vec<GCPVertexAnthropicTool>>,
}

/// The request offers at least one tool.
pub open spec fn offers_tools(request: ModelInferenceRequest) -> bool {
    request.tool_config matches Some(config) && config.tools_available@.len() > 0
}

/// Every message of the request maps onto the wire.
pub open spec fn all_convertible(request: ModelInferenceRequest) -> bool {
    forall|i: int| 0 <= i < request.messages@.len() ==> message_convertible(#[trigger] request.messages@[i])
}

/// The tool choice is one the wire can carry, or no tools are offered.
pub open spec fn choice_supported(request: ModelInferenceRequest) -> bool {
    offers_tools(request) ==> wire_tool_choice(request.tool_config->0.tool_choice) is Some
}

pub open spec fn tools_describe(wire: Seq<GCPVertexAnthropicTool>, tools: Seq<ToolConfig>) -> bool {
    &&& wire.len() == tools.len()
    &&& forall|i: int| 0 <= i < tools.len() ==> (#[trigger] wire[i]).describes(tools[i])
}

/// `body` is the wire form of `request`: its messages mapped and normalized, the tools
/// and tool choice present only when tools are offered, and the rest passed through.
pub open spec fn body_of(request: ModelInferenceRequest, body: GCPVertexAnthropicRequestBody) -> bool {
    &&& body.anthropic_version@ == ANTHROPIC_API_VERSION@
    &&& exists|wire: Seq<GCPVertexAnthropicMessage>|
        #[trigger] messages_map_to(request.messages@, wire) && normalized_from(wire, body.messages@)
    &&& body.max_tokens == match request.max_tokens {
        Some(n) => n,
        None => DEFAULT_MAX_TOKENS,
    }
    &&& body.stream == Some(request.stream)
    &&& body.system == request.system
    &&& body.temperature_bits == request.temperature_bits
    &&& if offers_tools(request) {
        &&& body.tools matches Some(tools) && tools_describe(tools@, request.tool_config->0.tools_available@)
        &&& body.tool_choice == wire_tool_choice(request.tool_config->0.tool_choice)
    } else {
        &&& body.tools is None
        &&& body.tool_choice is None
    }
}

/// Which error `r` is when the request cannot be built: an empty message list, then tool
/// arguments that are not a JSON object, then tools disallowed while tools are offered.
pub open spec fn failure_of(request: ModelInferenceRequest, r: Result<GCPVertexAnthropicRequestBody, Error>) -> bool {
    &&& request.messages@.len() == 0 ==> (r matches Err(Error::InvalidRequest { message }) && message@
        == NO_MESSAGES@)
    &&& request.messages@.len() > 0 && !all_convertible(request) ==> (r matches Err(
        Error::AnthropicClient { status_code, message },
    ) && status_code == 400 && message@ == ARGUMENTS_NOT_OBJECT@)
    &&& request.messages@.len() > 0 && all_convertible(request) && !choice_supported(request) ==> (r matches Err(
        Error::InvalidTool { message },
    ) && message@ == TOOL_CHOICE_DISABLED@)
}

fn wire_tools(tools: &Vec<ToolConfig>) -> (r: Vec<GCPVertexAnthropicTool>)
    ensures
        tools_describe(r@, tools@),
{
    let mut r: Vec<GCPVertexAnthropicTool> = Vec::new();
    let mut i: usize = 0;
    while i < tools.len()
        invariant
            i <= tools@.len(),
            r@.len() == i,
            forall|j: int| 0 <= j < i ==> (#[trigger] r@[j]).describes(tools@[j]),
        decreases tools@.len() - i,
    {
        r.push(GCPVertexAnthropicTool::from(&tools[i]));
        i += 1;
    }
    r
}

impl GCPVertexAnthropicRequestBody {
    /// Builds the wire body. Fails on an empty message list, on a tool call whose
    /// arguments are not a JSON object, and on tools offered with tools disallowed.
    pub fn new(request: &ModelInferenceRequest) -> (r: Result<Self, Error>)
        ensures
            r is Ok <==> request.messages@.len() > 0 && all_convertible(*request) && choice_supported(
                *request,
            ),
            r matches Ok(body) ==> body_of(*request, body),
            failure_of(*request, r),
    {
        if request.messages.len() == 0 {
            return Err(Error::InvalidRequest { message: NO_MESSAGES.to_owned() });
        }
        let mut wire: Vec<GCPVertexAnthropicMessage> = Vec::new();
        let mut i: usize = 0;
        while i < request.messages.len()
            invariant
                i <= request.messages@.len(),
                wire@.len() == i,
                forall|j: int| 0 <= j < i ==> message_convertible(#[trigger] request.messages@[j]),
                forall|j: int|
                    0 <= j < i ==> crate::wire::message_maps_to(#[trigger] request.messages@[j], wire@[j]),
            decreases request.messages@.len() - i,
        {
            match GCPVertexAnthropicMessage::try_from(&request.messages[i]) {
                Ok(m) => wire.push(m),
                Err(e) => {
                    assert(!message_convertible(request.messages@[i as int]));
                    return Err(e);
                },
            }
            i += 1;
        }
        let ghost mapped = wire@;
        assert(messages_map_to(request.messages@, mapped));
        let messages = match prepare_messages(wire) {
            Ok(m) => m,
            Err(e) => return Err(e),
        };
        let mut tools: Option<Vec<GCPVertexAnthropicTool>> = None;
        let mut tool_choice: Option<GCPVertexAnthropicToolChoice> = None;
        if let Some(config) = &request.tool_config {
            if config.tools_available.len() > 0 {
                tools = Some(wire_tools(&config.tools_available));
                match GCPVertexAnthropicToolChoice::try_from(&config.tool_choice) {
                    Ok(choice) => tool_choice = Some(choice),
                    Err(e) => return Err(e),
                }
            }
        }
        Ok(GCPVertexAnthropicRequestBody {
            anthropic_version: ANTHROPIC_API_VERSION.to_owned(),
            messages,
            max_tokens: match request.max_tokens {
                Some(n) => n,
                None => DEFAULT_MAX_TOKENS,
            },
            stream: Some(request.stream),
            system: request.system.clone(),
            temperature_bits: request.temperature_bits,
            tool_choice,
            tools,
        })
    }
}

} // verus!
