//! The provider's request-side wire types and the mapping of neutral values onto them.
use vstd::prelude::*;
use crate::error::{Error, ARGUMENTS_NOT_OBJECT, TOOL_CHOICE_DISABLED};
use crate::json::{compact_object, compact_object_of};
use crate::types::{ContentBlock, RequestMessage, Role, ToolChoice, ToolConfig};

verus! {

/// Only two roles exist on the wire; the system prompt is a separate field.
#[derive(Clone, Copy, Debug, PartialEq, Eq, Structural)]
pub enum GCPVertexAnthropicRole {
    User,
    Assistant,
}

pub open spec fn wire_role(role: Role) -> GCPVertexAnthropicRole {
    match role {
        Role::User => GCPVertexAnthropicRole::User,
        Role::Assistant => GCPVertexAnthropicRole::Assistant,
    }
}

impl From<Role> for GCPVertexAnthropicRole {
    fn from(role: Role) -> (r: Self)
        ensures
            r == wire_role(role),
    {
        match role {
            Role::User => GCPVertexAnthropicRole::User,
            Role::Assistant => GCPVertexAnthropicRole::Assistant,
        }
    }
}

impl vstd::std_specs::convert::FromSpecImpl<Role> for GCPVertexAnthropicRole {
    open spec fn obeys_from_spec() -> bool {
        true
    }

    open spec fn from_spec(role: Role) -> Self {
        wire_role(role)
    }
}

/// Which tool the model is told to use: any it likes, at least one, or the named one.
#[derive(Clone, Debug, PartialEq)]
pub enum GCPVertexAnthropicToolChoice {
    Auto,
    Any,
    Tool { name: String },
}

/// The wire form of a neutral tool choice; disallowing tools has none.
pub open spec fn wire_tool_choice(tool_choice: ToolChoice) -> Option<GCPVertexAnthropicToolChoice> {
    match tool_choice {
        ToolChoice::Disabled => None,
        ToolChoice::Auto => Some(GCPVertexAnthropicToolChoice::Auto),
        ToolChoice::Required => Some(GCPVertexAnthropicToolChoice::Any),
        ToolChoice::Specific(name) => Some(GCPVertexAnthropicToolChoice::Tool { name }),
    }
}

impl GCPVertexAnthropicToolChoice {
    /// Maps the neutral tool choice; disallowing tools is an invalid tool configuration.
    pub fn try_from(tool_choice: &ToolChoice) -> (r: Result<Self, Error>)
        ensures
            match wire_tool_choice(*tool_choice) {
                Some(w) => r == Ok::<Self, Error>(w),
                None => r matches Err(Error::InvalidTool { message }) && message@
                    == TOOL_CHOICE_DISABLED@,
            },
    {
        match tool_choice {
            ToolChoice::Auto => Ok(GCPVertexAnthropicToolChoice::Auto),
            ToolChoice::Required => Ok(GCPVertexAnthropicToolChoice::Any),
            ToolChoice::Specific(name) => Ok(GCPVertexAnthropicToolChoice::Tool { name: name.clone() }),
            ToolChoice::Disabled => Err(
                Error::InvalidTool {
                    message: TOOL_CHOICE_DISABLED.to_owned(),
                },
            ),
        }
    }
}

/// A tool descriptor; `input_schema` is the JSON schema as text.
#[derive(Clone, Debug, PartialEq)]
pub struct GCPVertexAnthropicTool {
    pub name: String,
    pub description: Option<String>,
    pub input_schema: String,
}

impl GCPVertexAnthropicTool {
    pub open spec fn describes(self, tool: ToolConfig) -> bool {
        &&& self.name == tool.name
        &&& self.description == Some(tool.description)
        &&& self.input_schema == tool.parameters
    }

    pub fn from(tool: &ToolConfig) -> (r: Self)
        ensures
            r.describes(*tool),
    {
        GCPVertexAnthropicTool {
            name: tool.name.clone(),
            description: Some(tool.description.clone()),
            input_schema: tool.parameters.clone(),
        }
    }
}

/// One block of message content on the wire. `input` is the compact JSON text of an object.
#[derive(Debug, PartialEq)]
pub enum GCPVertexAnthropicMessageContent {
    Text { text: String },
    ToolResult { tool_use_id: String, content: Vec<GCPVertexAnthropicMessageContent> },
    ToolUse { id: String, name: String, input: String },
}

/// A block maps onto the wire unless it is a tool call whose arguments are not a JSON object.
pub open spec fn block_convertible(block: ContentBlock) -> bool {
    match block {
        ContentBlock::ToolCall(call) => compact_object_of(call.arguments@) is Some,
        _ => true,
    }
}

/// `wire` is the wire form of `block`.
pub open spec fn block_maps_to(block: ContentBlock, wire: GCPVertexAnthropicMessageContent) -> bool {
    match block {
        ContentBlock::Text(t) => wire == GCPVertexAnthropicMessageContent::Text { text: t.text },
        ContentBlock::ToolCall(call) => match wire {
            GCPVertexAnthropicMessageContent::ToolUse { id, name, input } => {
                &&& id == call.id
                &&& name == call.name
                &&& compact_object_of(call.arguments@) == Some(input@)
            },
            _ => false,
        },
        ContentBlock::ToolResult(res) => match wire {
            GCPVertexAnthropicMessageContent::ToolResult { tool_use_id, content } => {
                &&& tool_use_id == res.id
                &&& content@ == seq![GCPVertexAnthropicMessageContent::Text { text: res.result }]
            },
            _ => false,
        },
    }
}

impl GCPVertexAnthropicMessageContent {
    /// Maps a neutral block; a tool call's arguments are parsed and must form a JSON object.
    pub fn try_from(block: &ContentBlock) -> (r: Result<Self, Error>)
        ensures
            r is Ok <==> block_convertible(*block),
            r matches Ok(w) ==> block_maps_to(*block, w),
            r matches Err(e) ==> e matches Error::AnthropicClient { status_code, message }
                && status_code == 400 && message@ == ARGUMENTS_NOT_OBJECT@,
    {
        match block {
            ContentBlock::Text(t) => Ok(GCPVertexAnthropicMessageContent::Text { text: t.text.clone() }),
            ContentBlock::ToolCall(call) => {
                match compact_object(call.arguments.as_str()) {
                    Some(input) => Ok(
                        GCPVertexAnthropicMessageContent::ToolUse {
                            id: call.id.clone(),
                            name: call.name.clone(),
                            input,
                        },
                    ),
                    None => Err(
                        Error::AnthropicClient {
                            status_code: 400,
                            message: ARGUMENTS_NOT_OBJECT.to_owned(),
                        },
                    ),
                }
            },
            ContentBlock::ToolResult(res) => {
                let mut content: Vec<GCPVertexAnthropicMessageContent> = Vec::new();
                content.push(GCPVertexAnthropicMessageContent::Text { text: res.result.clone() });
                Ok(GCPVertexAnthropicMessageContent::ToolResult { tool_use_id: res.id.clone(), content })
            },
        }
    }
}

/// One turn of the conversation on the wire.
#[derive(Debug, PartialEq)]
pub struct GCPVertexAnthropicMessage {
    pub role: GCPVertexAnthropicRole,
    pub content: Vec<GCPVertexAnthropicMessageContent>,
}

impl View for GCPVertexAnthropicMessage {
    type V = (GCPVertexAnthropicRole, Seq<GCPVertexAnthropicMessageContent>);

    open spec fn view(&self) -> Self::V {
        (self.role, self.content@)
    }
}

/// `wire` maps `msgs` one for one.
pub open spec fn messages_map_to(msgs: Seq<RequestMessage>, wire: Seq<GCPVertexAnthropicMessage>) -> bool {
    &&& wire.len() == msgs.len()
    &&& forall|i: int| 0 <= i < msgs.len() ==> message_maps_to(#[trigger] msgs[i], wire[i])
}

pub open spec fn message_convertible(msg: RequestMessage) -> bool {
    forall|i: int| 0 <= i < msg.content@.len() ==> block_convertible(#[trigger] msg.content@[i])
}

/// `wire` is the wire form of `msg`: same role, and each block mapped in order.
pub open spec fn message_maps_to(msg: RequestMessage, wire: GCPVertexAnthropicMessage) -> bool {
    &&& wire.role == wire_role(msg.role)
    &&& wire.content@.len() == msg.content@.len()
    &&& forall|i: int|
        0 <= i < msg.content@.len() ==> block_maps_to(#[trigger] msg.content@[i], wire.content@[i])
}

impl GCPVertexAnthropicMessage {
    /// Maps a neutral message block by block; fails on the first block that does not map.
    pub fn try_from(msg: &RequestMessage) -> (r: Result<Self, Error>)
        ensures
            r is Ok <==> message_convertible(*msg),
            r matches Ok(w) ==> message_maps_to(*msg, w),
            r matches Err(e) ==> e matches Error::AnthropicClient { status_code, message }
                && status_code == 400 && message@ == ARGUMENTS_NOT_OBJECT@,
    {
        let mut content: Vec<GCPVertexAnthropicMessageContent> = Vec::new();
        let mut i: usize = 0;
        while i < msg.content.len()
            invariant
                i <= msg.content@.len(),
                content@.len() == i,
                forall|j: int| 0 <= j < i ==> block_convertible(#[trigger] msg.content@[j]),
                forall|j: int| 0 <= j < i ==> block_maps_to(#[trigger] msg.content@[j], content@[j]),
            decreases msg.content@.len() - i,
        {
            match GCPVertexAnthropicMessageContent::try_from(&msg.content[i]) {
                Ok(w) => content.push(w),
                Err(e) => return Err(e),
            }
            i += 1;
        }
        Ok(GCPVertexAnthropicMessage { role: GCPVertexAnthropicRole::from(msg.role), content })
    }
}

} // verus!
