//! Decoding of the provider's streamed events into neutral chunks, including the
//! tool-call identity that partial-argument events omit.
use vstd::prelude::*;
use crate::error::{
    Error, NO_TOOL_ID, NO_TOOL_NAME, UNSUPPORTED_DELTA, UNSUPPORTED_START,
};
use crate::json::{decimal, decimal_text, json_member, member_of};
use crate::types::{ContentBlockChunk, ProviderInferenceResponseChunk, TextChunk, ToolCallChunk, Usage};
use crate::usage::{parse_usage_info, usage_of, GCPVertexAnthropic};

verus! {

/// The payload of a content-block event. `input` is JSON text.
#[derive(Clone, Debug, PartialEq)]
pub enum GCPVertexAnthropicMessageBlock {
    Text { text: String },
    TextDelta { text: String },
    ToolUse { id: String, name: String, input: String },
    InputJsonDelta { partial_json: String },
}

/// One server-sent event of the provider's stream. JSON payloads the adapter does not
/// dispatch on are held as text.
#[derive(Clone, Debug, PartialEq)]
pub enum GCPVertexAnthropicStreamMessage {
    ContentBlockDelta { delta: GCPVertexAnthropicMessageBlock, index: u32 },
    ContentBlockStart { content_block: GCPVertexAnthropicMessageBlock, index: u32 },
    ContentBlockStop { index: u32 },
    Error { error: String },
    MessageDelta { delta: String, usage: String },
    MessageStart { message: String },
    MessageStop,
    Ping,
}

/// A chunk's content block, over views.
pub enum ChunkContentView {
    Text { id: Seq<char>, text: Seq<char> },
    ToolCall { id: Seq<char>, raw_name: Seq<char>, raw_arguments: Seq<char> },
}

impl View for ContentBlockChunk {
    type V = ChunkContentView;

    open spec fn view(&self) -> ChunkContentView {
        match self {
            ContentBlockChunk::Text(t) => ChunkContentView::Text { id: t.id@, text: t.text@ },
            ContentBlockChunk::ToolCall(c) => ChunkContentView::ToolCall {
                id: c.id@,
                raw_name: c.raw_name@,
                raw_arguments: c.raw_arguments@,
            },
        }
    }
}

/// What one stream message yields.
pub enum StreamOutcome {
    /// Nothing is emitted.
    Nothing,
    /// A chunk with this one content block and no usage.
    Content(ChunkContentView),
    /// A chunk with no content and this usage.
    UsageOnly(GCPVertexAnthropic),
    /// The provider reported an error, with this text.
    Reported(Seq<char>),
    /// The message breaks the protocol, for this reason.
    Failure(Seq<char>),
}

pub open spec fn opt_view(o: Option<String>) -> Option<Seq<char>> {
    match o {
        Some(s) => Some(s@),
        None => None,
    }
}

/// What `msg` yields when the current tool call has this id and name.
pub open spec fn stream_outcome(
    msg: GCPVertexAnthropicStreamMessage,
    tool_id: Option<Seq<char>>,
    tool_name: Option<Seq<char>>,
) -> StreamOutcome {
    match msg {
        GCPVertexAnthropicStreamMessage::ContentBlockDelta { delta, index } => match delta {
            GCPVertexAnthropicMessageBlock::TextDelta { text } => StreamOutcome::Content(
                ChunkContentView::Text { id: decimal(index as nat), text: text@ },
            ),
            GCPVertexAnthropicMessageBlock::InputJsonDelta { partial_json } => {
                if tool_name is None {
                    StreamOutcome::Failure(NO_TOOL_NAME@)
                } else if tool_id is None {
                    StreamOutcome::Failure(NO_TOOL_ID@)
                } else {
                    StreamOutcome::Content(
                        ChunkContentView::ToolCall {
                            id: tool_id->0,
                            raw_name: tool_name->0,
                            raw_arguments: partial_json@,
                        },
                    )
                }
            },
            _ => StreamOutcome::Failure(UNSUPPORTED_DELTA@),
        },
        GCPVertexAnthropicStreamMessage::ContentBlockStart { content_block, index } => match content_block {
            GCPVertexAnthropicMessageBlock::Text { text } => StreamOutcome::Content(
                ChunkContentView::Text { id: decimal(index as nat), text: text@ },
            ),
            GCPVertexAnthropicMessageBlock::ToolUse { id, name, .. } => StreamOutcome::Content(
                ChunkContentView::ToolCall { id: id@, raw_name: name@, raw_arguments: Seq::empty() },
            ),
            _ => StreamOutcome::Failure(UNSUPPORTED_START@),
        },
        GCPVertexAnthropicStreamMessage::Error { error } => StreamOutcome::Reported(error@),
        GCPVertexAnthropicStreamMessage::MessageDelta { usage, .. } => StreamOutcome::UsageOnly(
            usage_of(usage@),
        ),
        GCPVertexAnthropicStreamMessage::MessageStart { message } => match member_of(message@, "usage"@) {
            Some(usage) => StreamOutcome::UsageOnly(usage_of(usage)),
            None => StreamOutcome::Nothing,
        },
        _ => StreamOutcome::Nothing,
    }
}

/// The current tool call's id and name after `msg`: a tool-use start replaces both.
pub open spec fn tool_state_after(
    msg: GCPVertexAnthropicStreamMessage,
    tool_id: Option<Seq<char>>,
    tool_name: Option<Seq<char>>,
) -> (Option<Seq<char>>, Option<Seq<char>>) {
    match msg {
        GCPVertexAnthropicStreamMessage::ContentBlockStart {
            content_block: GCPVertexAnthropicMessageBlock::ToolUse { id, name, .. },
            ..
        } => (Some(id@), Some(name@)),
        _ => (tool_id, tool_name),
    }
}

/// `chunk` belongs to this stream, was produced at this latency, and carries this event text.
pub open spec fn stamped(
    chunk: ProviderInferenceResponseChunk,
    inference_id: uuid::Uuid,
    latency: std::time::Duration,
    raw: Seq<char>,
) -> bool {
    &&& chunk.inference_id == inference_id
    &&& chunk.latency == latency
    &&& chunk.raw_response@ == raw
}

/// `r` is what `outcome` describes.
pub open spec fn yields(
    r: Result<Option<ProviderInferenceResponseChunk>, Error>,
    outcome: StreamOutcome,
    inference_id: uuid::Uuid,
    latency: std::time::Duration,
    raw: Seq<char>,
) -> bool {
    match outcome {
        StreamOutcome::Nothing => r matches Ok(None),
        StreamOutcome::Content(c) => r matches Ok(Some(chunk)) && {
            &&& stamped(chunk, inference_id, latency, raw)
            &&& chunk.content@.len() == 1
            &&& chunk.content@[0]@ == c
            &&& chunk.usage is None
        },
        StreamOutcome::UsageOnly(u) => r matches Ok(Some(chunk)) && {
            &&& stamped(chunk, inference_id, latency, raw)
            &&& chunk.content@.len() == 0
            &&& chunk.usage == Some(Usage { input_tokens: u.input_tokens, output_tokens: u.output_tokens })
        },
        StreamOutcome::Reported(text) => r matches Err(Error::AnthropicServer { message }) && message@
            == text,
        StreamOutcome::Failure(reason) => r matches Err(Error::AnthropicServer { message })
            && message@ == reason,
    }
}

fn content_chunk(
    block: ContentBlockChunk,
    raw_message: String,
    inference_id: uuid::Uuid,
    latency: std::time::Duration,
) -> (r: ProviderInferenceResponseChunk)
    ensures
        stamped(r, inference_id, latency, raw_message@),
        r.content@ == seq![block],
        r.usage is None,
{
    let mut content: Vec<ContentBlockChunk> = Vec::new();
    content.push(block);
    ProviderInferenceResponseChunk { inference_id, content, usage: None, raw_response: raw_message, latency }
}

fn usage_chunk(
    usage: GCPVertexAnthropic,
    raw_message: String,
    inference_id: uuid::Uuid,
    latency: std::time::Duration,
) -> (r: ProviderInferenceResponseChunk)
    ensures
        stamped(r, inference_id, latency, raw_message@),
        r.content@.len() == 0,
        r.usage == Some(Usage { input_tokens: usage.input_tokens, output_tokens: usage.output_tokens }),
{
    ProviderInferenceResponseChunk {
        inference_id,
        content: Vec::new(),
        usage: Some(Usage::from(usage)),
        raw_response: raw_message,
        latency,
    }
}

fn protocol_error(message: &str) -> (r: Error)
    ensures
        r matches Error::AnthropicServer { message: m } && m@ == message@,
{
    Error::AnthropicServer { message: message.to_owned() }
}

/// Turns one stream message into at most one chunk. A tool-use start records the tool
/// call's id and name, which later partial-argument deltas carry; such a delta before
/// any tool-use start is an error.
pub fn anthropic_to_tensorzero_stream_message(
    message: GCPVertexAnthropicStreamMessage,
    raw_message: String,
    inference_id: uuid::Uuid,
    message_latency: std::time::Duration,
    current_tool_id: &mut Option<String>,
    current_tool_name: &mut Option<String>,
) -> (r: Result<Option<ProviderInferenceResponseChunk>, Error>)
    ensures
        yields(
            r,
            stream_outcome(message, opt_view(*old(current_tool_id)), opt_view(*old(current_tool_name))),
            inference_id,
            message_latency,
            raw_message@,
        ),
        (opt_view(*final(current_tool_id)), opt_view(*final(current_tool_name))) == tool_state_after(
            message,
            opt_view(*old(current_tool_id)),
            opt_view(*old(current_tool_name)),
        ),
{
    match message {
        GCPVertexAnthropicStreamMessage::ContentBlockDelta { delta, index } => match delta {
            GCPVertexAnthropicMessageBlock::TextDelta { text } => {
                let block = ContentBlockChunk::Text(TextChunk { id: decimal_text(index), text });
                Ok(Some(content_chunk(block, raw_message, inference_id, message_latency)))
            },
            GCPVertexAnthropicMessageBlock::InputJsonDelta { partial_json } => {
                let raw_name = match current_tool_name {
                    Some(name) => name.clone(),
                    None => {
                        return Err(
                            protocol_error(NO_TOOL_NAME),
                        );
                    },
                };
                let id = match current_tool_id {
                    Some(id) => id.clone(),
                    None => {
                        return Err(
                            protocol_error(NO_TOOL_ID),
                        );
                    },
                };
                let block = ContentBlockChunk::ToolCall(
                    ToolCallChunk { id, raw_name, raw_arguments: partial_json },
                );
                Ok(Some(content_chunk(block, raw_message, inference_id, message_latency)))
            },
            _ => Err(protocol_error(UNSUPPORTED_DELTA)),
        },
        GCPVertexAnthropicStreamMessage::ContentBlockStart { content_block, index } => match content_block {
            GCPVertexAnthropicMessageBlock::Text { text } => {
                let block = ContentBlockChunk::Text(TextChunk { id: decimal_text(index), text });
                Ok(Some(content_chunk(block, raw_message, inference_id, message_latency)))
            },
            GCPVertexAnthropicMessageBlock::ToolUse { id, name, .. } => {
                *current_tool_id = Some(id.clone());
                *current_tool_name = Some(name.clone());
                let block = ContentBlockChunk::ToolCall(
                    ToolCallChunk { id, raw_name: name, raw_arguments: String::new() },
                );
                Ok(Some(content_chunk(block, raw_message, inference_id, message_latency)))
            },
            _ => Err(protocol_error(UNSUPPORTED_START)),
        },
        GCPVertexAnthropicStreamMessage::ContentBlockStop { .. } => Ok(None),
        GCPVertexAnthropicStreamMessage::Error { error } => Err(Error::AnthropicServer { message: error }),
        GCPVertexAnthropicStreamMessage::MessageDelta { usage, .. } => {
            let usage = parse_usage_info(usage.as_str());
            Ok(Some(usage_chunk(usage, raw_message, inference_id, message_latency)))
        },
        GCPVertexAnthropicStreamMessage::MessageStart { message } => {
            match json_member(message.as_str(), "usage") {
                Some(usage_info) => {
                    let usage = parse_usage_info(usage_info.as_str());
                    Ok(Some(usage_chunk(usage, raw_message, inference_id, message_latency)))
                },
                None => Ok(None),
            }
        },
        GCPVertexAnthropicStreamMessage::MessageStop | GCPVertexAnthropicStreamMessage::Ping => Ok(None),
    }
}

/// A tool-use start followed by a partial-arguments delta yields a tool-call chunk with
/// the start's id and name; the same delta with no tool call started is an error.
pub proof fn lemma_tool_identity_carried(
    start: GCPVertexAnthropicStreamMessage,
    delta: GCPVertexAnthropicStreamMessage,
    tool_id: Option<Seq<char>>,
    tool_name: Option<Seq<char>>,
)
    requires
        start matches GCPVertexAnthropicStreamMessage::ContentBlockStart {
            content_block: GCPVertexAnthropicMessageBlock::ToolUse { .. },
            ..
        },
        delta matches GCPVertexAnthropicStreamMessage::ContentBlockDelta {
            delta: GCPVertexAnthropicMessageBlock::InputJsonDelta { .. },
            ..
        },
    ensures
        ({
            let (id, name) = tool_state_after(start, tool_id, tool_name);
            stream_outcome(delta, id, name) == StreamOutcome::Content(
                ChunkContentView::ToolCall {
                    id: start->ContentBlockStart_content_block->ToolUse_id@,
                    raw_name: start->ContentBlockStart_content_block->ToolUse_name@,
                    raw_arguments: delta->ContentBlockDelta_delta->InputJsonDelta_partial_json@,
                },
            )
        }),
        stream_outcome(delta, None, None) == StreamOutcome::Failure(NO_TOOL_NAME@),
{
}

/// The data the wire sends, in place of a JSON event, to say the stream is over.
pub const STREAM_TERMINATOR: &'static str = "[DONE]";

/// One input of the stream decoder: a transport failure, or one event's data text with
/// the message parsed from it (or the reason it did not parse).
pub enum StreamEvent {
    TransportError { message: String },
    Message {
        parsed: Result<GCPVertexAnthropicStreamMessage, String>,
        data: String,
        latency: std::time::Duration,
    },
}

/// What the reader of the stream does next.
pub enum StreamStep {
    /// Stop reading and close the event source.
    Stop,
    /// Emit nothing for this event.
    Skip,
    /// Emit this item.
    Emit(Result<ProviderInferenceResponseChunk, Error>),
}

pub open spec fn step_result(step: StreamStep) -> Result<Option<ProviderInferenceResponseChunk>, Error> {
    match step {
        StreamStep::Emit(Ok(chunk)) => Ok(Some(chunk)),
        StreamStep::Emit(Err(e)) => Err(e),
        _ => Ok(None),
    }
}

/// The state of one stream: its id, the current tool call, and whether it has ended.
pub struct StreamDecoder {
    pub inference_id: uuid::Uuid,
    pub current_tool_id: Option<String>,
    pub current_tool_name: Option<String>,
    pub finished: bool,
}

impl StreamDecoder {
    pub fn new(inference_id: uuid::Uuid) -> (r: Self)
        ensures
            r.inference_id == inference_id,
            r.current_tool_id is None,
            r.current_tool_name is None,
            !r.finished,
    {
        StreamDecoder { inference_id, current_tool_id: None, current_tool_name: None, finished: false }
    }

    /// Handles one event. A message-stop, or the wire's terminator in place of an event,
    /// ends the stream: it and every later event yield `Stop` and change nothing else. Other events yield what their message yields, and
    /// failures are emitted in order.
    pub fn handle(&mut self, event: StreamEvent) -> (r: StreamStep)
        ensures
            final(self).inference_id == old(self).inference_id,
            old(self).finished ==> r is Stop && *final(self) == *old(self),
            !old(self).finished ==> match event {
                StreamEvent::TransportError { message } => {
                    &&& r matches StreamStep::Emit(Err(Error::AnthropicServer { message: m })) && m
                        == message
                    &&& *final(self) == *old(self)
                },
                StreamEvent::Message { parsed: Err(reason), data, .. } => if data@ == STREAM_TERMINATOR@ {
                    &&& r is Stop
                    &&& final(self).finished
                    &&& final(self).current_tool_id == old(self).current_tool_id
                    &&& final(self).current_tool_name == old(self).current_tool_name
                } else {
                    &&& r matches StreamStep::Emit(Err(Error::AnthropicServer { message: m })) && m
                        == reason
                    &&& *final(self) == *old(self)
                },
                StreamEvent::Message { parsed: Ok(GCPVertexAnthropicStreamMessage::MessageStop), .. } => {
                    &&& r is Stop
                    &&& final(self).finished
                    &&& final(self).current_tool_id == old(self).current_tool_id
                    &&& final(self).current_tool_name == old(self).current_tool_name
                },
                StreamEvent::Message { parsed: Ok(msg), data, latency } => {
                    &&& !(r is Stop)
                    &&& !final(self).finished
                    &&& yields(
                        step_result(r),
                        stream_outcome(
                            msg,
                            opt_view(old(self).current_tool_id),
                            opt_view(old(self).current_tool_name),
                        ),
                        old(self).inference_id,
                        latency,
                        data@,
                    )
                    &&& (opt_view(final(self).current_tool_id), opt_view(final(self).current_tool_name))
                        == tool_state_after(
                        msg,
                        opt_view(old(self).current_tool_id),
                        opt_view(old(self).current_tool_name),
                    )
                },
            },
    {
        if self.finished {
            return StreamStep::Stop;
        }
        match event {
            StreamEvent::TransportError { message } => StreamStep::Emit(Err(Error::AnthropicServer { message })),
            StreamEvent::Message { parsed, data, latency } => match parsed {
                Err(reason) => {
                    if data == STREAM_TERMINATOR.to_owned() {
                        self.finished = true;
                        StreamStep::Stop
                    } else {
                        StreamStep::Emit(Err(Error::AnthropicServer { message: reason }))
                    }
                },
                Ok(GCPVertexAnthropicStreamMessage::MessageStop) => {
                    self.finished = true;
                    StreamStep::Stop
                },
                Ok(msg) => {
                    let r = anthropic_to_tensorzero_stream_message(
                        msg,
                        data,
                        self.inference_id,
                        latency,
                        &mut self.current_tool_id,
                        &mut self.current_tool_name,
                    );
                    match r {
                        Ok(None) => StreamStep::Skip,
                        Ok(Some(chunk)) => StreamStep::Emit(Ok(chunk)),
                        Err(e) => StreamStep::Emit(Err(e)),
                    }
                },
            },
        }
    }
}

} // verus!
