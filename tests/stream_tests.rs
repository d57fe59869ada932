use std::time::Duration;

use uuid::Uuid;
use vertex_anthropic::error::Error;
use vertex_anthropic::provider::{first_chunk, GCPCredentials, GCPVertexAnthropicProvider};
use vertex_anthropic::stream::{
    anthropic_to_tensorzero_stream_message, GCPVertexAnthropicMessageBlock,
    GCPVertexAnthropicStreamMessage, StreamDecoder, StreamEvent, StreamStep, STREAM_TERMINATOR,
};
use vertex_anthropic::types::{ContentBlockChunk, ModelInferenceRequest, RequestMessage, Role, ContentBlock, Text};

fn call(
    message: GCPVertexAnthropicStreamMessage,
    latency: Duration,
    current_tool_id: &mut Option<String>,
    current_tool_name: &mut Option<String>,
) -> Result<Option<vertex_anthropic::types::ProviderInferenceResponseChunk>, Error> {
    anthropic_to_tensorzero_stream_message(
        message,
        "{}".to_string(),
        Uuid::nil(),
        latency,
        current_tool_id,
        current_tool_name,
    )
}

#[test]
fn test_anthropic_to_tensorzero_stream_message() {
    let inference_id = Uuid::now_v7();

    // ContentBlockDelta with TextDelta
    let mut current_tool_id = None;
    let mut current_tool_name = None;
    let content_block_delta = GCPVertexAnthropicStreamMessage::ContentBlockDelta {
        delta: GCPVertexAnthropicMessageBlock::TextDelta { text: "Hello".to_string() },
        index: 0,
    };
    let latency = Duration::from_millis(100);
    let result = anthropic_to_tensorzero_stream_message(
        content_block_delta,
        r#"{"type":"content_block_delta"}"#.to_string(),
        inference_id,
        latency,
        &mut current_tool_id,
        &mut current_tool_name,
    );
    assert!(result.is_ok());
    let chunk = result.unwrap().unwrap();
    assert_eq!(chunk.content.len(), 1);
    match &chunk.content[0] {
        ContentBlockChunk::Text(text) => {
            assert_eq!(text.text, "Hello".to_string());
            assert_eq!(text.id, "0".to_string());
        }
        _ => panic!("Expected a text content block"),
    }
    assert_eq!(chunk.latency, latency);
    assert_eq!(chunk.inference_id, inference_id);
    assert_eq!(chunk.raw_response, r#"{"type":"content_block_delta"}"#);

    // ContentBlockDelta with InputJsonDelta but no previous tool info
    let mut current_tool_id = None;
    let mut current_tool_name = None;
    let content_block_delta = GCPVertexAnthropicStreamMessage::ContentBlockDelta {
        delta: GCPVertexAnthropicMessageBlock::InputJsonDelta { partial_json: "aaaa: bbbbb".to_string() },
        index: 0,
    };
    let latency = Duration::from_millis(100);
    let result = call(content_block_delta, latency, &mut current_tool_id, &mut current_tool_name);
    let error = result.unwrap_err();
    assert_eq!(
        error,
        Error::AnthropicServer {
            message: "Got InputJsonDelta chunk from Anthropic without current tool name being set by a ToolUse".to_string()
        }
    );

    // ContentBlockDelta with InputJsonDelta and previous tool info
    let mut current_tool_id = Some("tool_id".to_string());
    let mut current_tool_name = Some("tool_name".to_string());
    let content_block_delta = GCPVertexAnthropicStreamMessage::ContentBlockDelta {
        delta: GCPVertexAnthropicMessageBlock::InputJsonDelta { partial_json: "aaaa: bbbbb".to_string() },
        index: 0,
    };
    let latency = Duration::from_millis(100);
    let result = call(content_block_delta, latency, &mut current_tool_id, &mut current_tool_name);
    let chunk = result.unwrap().unwrap();
    assert_eq!(chunk.content.len(), 1);
    match &chunk.content[0] {
        ContentBlockChunk::ToolCall(tool_call) => {
            assert_eq!(tool_call.id, "tool_id".to_string());
            assert_eq!(tool_call.raw_name, "tool_name".to_string());
            assert_eq!(tool_call.raw_arguments, "aaaa: bbbbb".to_string());
        }
        _ => panic!("Expected a tool call content block"),
    }
    assert_eq!(chunk.latency, latency);

    // ContentBlockStart with ToolUse
    let mut current_tool_id = None;
    let mut current_tool_name = None;
    let content_block_start = GCPVertexAnthropicStreamMessage::ContentBlockStart {
        content_block: GCPVertexAnthropicMessageBlock::ToolUse {
            id: "tool1".to_string(),
            name: "calculator".to_string(),
            input: "{}".to_string(),
        },
        index: 1,
    };
    let latency = Duration::from_millis(110);
    let result = call(content_block_start, latency, &mut current_tool_id, &mut current_tool_name);
    let chunk = result.unwrap().unwrap();
    assert_eq!(chunk.content.len(), 1);
    match &chunk.content[0] {
        ContentBlockChunk::ToolCall(tool_call) => {
            assert_eq!(tool_call.id, "tool1".to_string());
            assert_eq!(tool_call.raw_name, "calculator".to_string());
            assert_eq!(tool_call.raw_arguments, "".to_string());
        }
        _ => panic!("Expected a tool call content block"),
    }
    assert_eq!(chunk.latency, latency);
    assert_eq!(current_tool_id, Some("tool1".to_string()));
    assert_eq!(current_tool_name, Some("calculator".to_string()));

    // ContentBlockStart with Text
    let mut current_tool_id = None;
    let mut current_tool_name = None;
    let content_block_start = GCPVertexAnthropicStreamMessage::ContentBlockStart {
        content_block: GCPVertexAnthropicMessageBlock::Text { text: "Hello".to_string() },
        index: 2,
    };
    let latency = Duration::from_millis(120);
    let result = call(content_block_start, latency, &mut current_tool_id, &mut current_tool_name);
    let chunk = result.unwrap().unwrap();
    assert_eq!(chunk.content.len(), 1);
    match &chunk.content[0] {
        ContentBlockChunk::Text(text) => {
            assert_eq!(text.text, "Hello".to_string());
            assert_eq!(text.id, "2".to_string());
        }
        _ => panic!("Expected a text content block"),
    }
    assert_eq!(chunk.latency, latency);

    // ContentBlockStart with InputJsonDelta (should fail)
    let mut current_tool_id = None;
    let mut current_tool_name = None;
    let content_block_start = GCPVertexAnthropicStreamMessage::ContentBlockStart {
        content_block: GCPVertexAnthropicMessageBlock::InputJsonDelta { partial_json: "aaaa: bbbbb".to_string() },
        index: 3,
    };
    let latency = Duration::from_millis(130);
    let result = call(content_block_start, latency, &mut current_tool_id, &mut current_tool_name);
    let error = result.unwrap_err();
    assert_eq!(
        error,
        Error::AnthropicServer {
            message: "Unsupported content block type for ContentBlockStart".to_string()
        }
    );

    // ContentBlockStop
    let content_block_stop = GCPVertexAnthropicStreamMessage::ContentBlockStop { index: 2 };
    let latency = Duration::from_millis(120);
    let result = call(content_block_stop, latency, &mut current_tool_id, &mut current_tool_name);
    assert!(result.is_ok());
    assert!(result.unwrap().is_none());

    // Error
    let error_message = GCPVertexAnthropicStreamMessage::Error {
        error: r#"{"message":"Test error"}"#.to_string(),
    };
    let latency = Duration::from_millis(130);
    let result = call(error_message, latency, &mut current_tool_id, &mut current_tool_name);
    assert!(result.is_err());
    assert_eq!(
        result.unwrap_err(),
        Error::AnthropicServer { message: r#"{"message":"Test error"}"#.to_string() }
    );

    // MessageDelta with usage
    let message_delta = GCPVertexAnthropicStreamMessage::MessageDelta {
        delta: "{}".to_string(),
        usage: r#"{"input_tokens": 10, "output_tokens": 20}"#.to_string(),
    };
    let latency = Duration::from_millis(140);
    let result = call(message_delta, latency, &mut current_tool_id, &mut current_tool_name);
    assert!(result.is_ok());
    let chunk = result.unwrap().unwrap();
    assert_eq!(chunk.content.len(), 0);
    assert!(chunk.usage.is_some());
    let usage = chunk.usage.unwrap();
    assert_eq!(usage.input_tokens, 10);
    assert_eq!(usage.output_tokens, 20);
    assert_eq!(chunk.latency, latency);

    // MessageStart with usage
    let message_start = GCPVertexAnthropicStreamMessage::MessageStart {
        message: r#"{"usage": {"input_tokens": 5, "output_tokens": 15}}"#.to_string(),
    };
    let latency = Duration::from_millis(150);
    let result = call(message_start, latency, &mut current_tool_id, &mut current_tool_name);
    assert!(result.is_ok());
    let chunk = result.unwrap().unwrap();
    assert_eq!(chunk.content.len(), 0);
    assert!(chunk.usage.is_some());
    let usage = chunk.usage.unwrap();
    assert_eq!(usage.input_tokens, 5);
    assert_eq!(usage.output_tokens, 15);
    assert_eq!(chunk.latency, latency);

    // MessageStop
    let latency = Duration::from_millis(160);
    let result = call(GCPVertexAnthropicStreamMessage::MessageStop, latency, &mut current_tool_id, &mut current_tool_name);
    assert!(result.is_ok());
    assert!(result.unwrap().is_none());

    // Ping
    let latency = Duration::from_millis(170);
    let result = call(GCPVertexAnthropicStreamMessage::Ping, latency, &mut current_tool_id, &mut current_tool_name);
    assert!(result.is_ok());
    assert!(result.unwrap().is_none());
}

#[test]
fn message_start_without_usage_yields_nothing() {
    let mut id = None;
    let mut name = None;
    let message = GCPVertexAnthropicStreamMessage::MessageStart {
        message: r#"{"id":"msg","role":"assistant"}"#.to_string(),
    };
    let result = call(message, Duration::from_millis(1), &mut id, &mut name);
    assert!(result.unwrap().is_none());
}

#[test]
fn text_chunk_id_is_the_decimal_index() {
    let mut id = None;
    let mut name = None;
    let message = GCPVertexAnthropicStreamMessage::ContentBlockDelta {
        delta: GCPVertexAnthropicMessageBlock::TextDelta { text: "x".to_string() },
        index: 4294967295,
    };
    let chunk = call(message, Duration::from_millis(1), &mut id, &mut name).unwrap().unwrap();
    match &chunk.content[0] {
        ContentBlockChunk::Text(text) => assert_eq!(text.id, "4294967295"),
        _ => panic!("Expected a text content block"),
    }
}

fn message_event(message: GCPVertexAnthropicStreamMessage, data: &str) -> StreamEvent {
    StreamEvent::Message {
        parsed: Ok(message),
        data: data.to_string(),
        latency: Duration::from_millis(5),
    }
}

fn tool_start() -> GCPVertexAnthropicStreamMessage {
    GCPVertexAnthropicStreamMessage::ContentBlockStart {
        content_block: GCPVertexAnthropicMessageBlock::ToolUse {
            id: "t1".to_string(),
            name: "n1".to_string(),
            input: "{}".to_string(),
        },
        index: 0,
    }
}

fn partial_arguments() -> GCPVertexAnthropicStreamMessage {
    GCPVertexAnthropicStreamMessage::ContentBlockDelta {
        delta: GCPVertexAnthropicMessageBlock::InputJsonDelta { partial_json: "{\"a\":".to_string() },
        index: 0,
    }
}

#[test]
fn tool_identity_flows_from_start_to_delta() {
    let mut decoder = StreamDecoder::new(Uuid::nil());
    assert!(matches!(decoder.handle(message_event(tool_start(), "start")), StreamStep::Emit(Ok(_))));
    match decoder.handle(message_event(partial_arguments(), "delta")) {
        StreamStep::Emit(Ok(chunk)) => {
            assert_eq!(chunk.raw_response, "delta");
            match &chunk.content[0] {
                ContentBlockChunk::ToolCall(call) => {
                    assert_eq!(call.id, "t1");
                    assert_eq!(call.raw_name, "n1");
                    assert_eq!(call.raw_arguments, "{\"a\":");
                }
                _ => panic!("Expected a tool call content block"),
            }
        }
        _ => panic!("Expected a chunk"),
    }

    let mut fresh = StreamDecoder::new(Uuid::nil());
    assert!(matches!(
        fresh.handle(message_event(partial_arguments(), "delta")),
        StreamStep::Emit(Err(Error::AnthropicServer { .. }))
    ));
}

#[test]
fn events_after_message_stop_are_ignored() {
    let mut decoder = StreamDecoder::new(Uuid::nil());
    assert!(matches!(decoder.handle(message_event(GCPVertexAnthropicStreamMessage::Ping, "ping")), StreamStep::Skip));
    assert!(matches!(decoder.handle(message_event(GCPVertexAnthropicStreamMessage::MessageStop, "stop")), StreamStep::Stop));
    assert!(decoder.finished);
    assert!(matches!(decoder.handle(message_event(tool_start(), "start")), StreamStep::Stop));
    assert!(matches!(
        decoder.handle(StreamEvent::TransportError { message: "gone".to_string() }),
        StreamStep::Stop
    ));
    assert_eq!(decoder.current_tool_id, None);
}

#[test]
fn transport_and_parse_failures_are_emitted_in_order() {
    let mut decoder = StreamDecoder::new(Uuid::nil());
    match decoder.handle(StreamEvent::TransportError { message: "reset".to_string() }) {
        StreamStep::Emit(Err(e)) => assert_eq!(e, Error::AnthropicServer { message: "reset".to_string() }),
        _ => panic!("Expected an error"),
    }
    let event = StreamEvent::Message {
        parsed: Err("bad data".to_string()),
        data: "??".to_string(),
        latency: Duration::from_millis(1),
    };
    match decoder.handle(event) {
        StreamStep::Emit(Err(e)) => assert_eq!(e, Error::AnthropicServer { message: "bad data".to_string() }),
        _ => panic!("Expected an error"),
    }
    assert!(!decoder.finished);
}

#[test]
fn stream_that_ends_early_has_no_first_chunk() {
    assert_eq!(
        first_chunk(None).unwrap_err(),
        Error::AnthropicServer { message: "Stream ended before first chunk".to_string() }
    );
    assert_eq!(
        first_chunk(Some(Err(Error::InferenceClient { message: "x".to_string() }))).unwrap_err(),
        Error::InferenceClient { message: "x".to_string() }
    );
}

#[test]
fn missing_credentials_are_reported() {
    let mut provider = GCPVertexAnthropicProvider {
        request_url: "https://example.invalid/raw".to_string(),
        streaming_request_url: "https://example.invalid/stream".to_string(),
        audience: "https://example.invalid/".to_string(),
        credentials: None,
        model_id: "model".to_string(),
    };
    let request = ModelInferenceRequest {
        messages: vec![RequestMessage { role: Role::User, content: vec![ContentBlock::Text(Text { text: "hi".to_string() })] }],
        system: None,
        tool_config: None,
        temperature_bits: None,
        max_tokens: None,
        seed: None,
        stream: true,
    };
    assert!(!provider.has_credentials());
    assert_eq!(
        provider.request_body(&request).unwrap_err(),
        Error::ApiKeyMissing { provider_name: "GCP Vertex Anthropic".to_string() }
    );
    provider.credentials = Some(GCPCredentials {
        client_email: "svc@example.invalid".to_string(),
        private_key_id: "key".to_string(),
        private_key: "SECRET-REDACTED".to_string(),
    });
    assert!(provider.has_credentials());
    let (body, credentials) = provider.request_body(&request).unwrap();
    assert_eq!(body.stream, Some(true));
    assert_eq!(credentials.private_key_id, "key");
}

#[test]
fn terminator_closes_the_stream_without_an_error() {
    let mut decoder = StreamDecoder::new(Uuid::nil());
    let event = StreamEvent::Message {
        parsed: Err("expected value at line 1 column 1".to_string()),
        data: STREAM_TERMINATOR.to_string(),
        latency: Duration::from_millis(1),
    };
    assert!(matches!(decoder.handle(event), StreamStep::Stop));
    assert!(decoder.finished);
    assert!(matches!(decoder.handle(message_event(tool_start(), "start")), StreamStep::Stop));
}

#[test]
fn unsupported_delta_payload_is_a_protocol_error() {
    let mut id = Some("t".to_string());
    let mut name = Some("n".to_string());
    let message = GCPVertexAnthropicStreamMessage::ContentBlockDelta {
        delta: GCPVertexAnthropicMessageBlock::Text { text: "x".to_string() },
        index: 0,
    };
    assert_eq!(
        call(message, Duration::from_millis(1), &mut id, &mut name).unwrap_err(),
        Error::AnthropicServer {
            message: "Unsupported content block type for ContentBlockDelta".to_string()
        }
    );
    let mut id = None;
    let mut name = Some("n".to_string());
    assert_eq!(
        call(partial_arguments(), Duration::from_millis(1), &mut id, &mut name).unwrap_err(),
        Error::AnthropicServer {
            message: "Got InputJsonDelta chunk from Anthropic without current tool id being set by a ToolUse".to_string()
        }
    );
}
