use std::time::Duration;

use vertex_anthropic::error::Error;
use vertex_anthropic::request::GCPVertexAnthropicRequestBody;
use vertex_anthropic::response::{
    handle_anthropic_error, GCPVertexAnthropicContentBlock, GCPVertexAnthropicErrorBody,
    GCPVertexAnthropicResponse, GCPVertexAnthropicResponseWithLatency,
};
use vertex_anthropic::types::{
    ContentBlock, Latency, ModelInferenceRequest, ProviderInferenceResponse, RequestMessage, Role,
    Text, ToolCall, Usage,
};
use vertex_anthropic::usage::{parse_usage_info, GCPVertexAnthropic};
use vertex_anthropic::wire::GCPVertexAnthropicMessageContent;

fn text_block(s: &str) -> ContentBlock {
    ContentBlock::Text(Text { text: s.to_string() })
}

fn response_with(id: &str, content: Vec<GCPVertexAnthropicContentBlock>) -> GCPVertexAnthropicResponse {
    GCPVertexAnthropicResponse {
        id: id.to_string(),
        kind: "message".to_string(),
        role: "assistant".to_string(),
        content,
        model: "model-name".to_string(),
        stop_reason: None,
        stop_sequence: None,
        usage: GCPVertexAnthropic { input_tokens: 100, output_tokens: 50 },
    }
}

#[test]
fn test_handle_anthropic_error() {
    let error_body = GCPVertexAnthropicErrorBody {
        kind: "error".to_string(),
        message: "test_message".to_string(),
    };
    for response_code in [400u16, 401, 429] {
        let result = handle_anthropic_error(response_code, error_body.clone());
        assert!(result.is_err());
        assert_eq!(
            result.err().unwrap(),
            Error::AnthropicClient { message: "test_message".to_string(), status_code: response_code }
        );
    }
    for response_code in [404u16, 500] {
        let result = handle_anthropic_error(response_code, error_body.clone());
        assert!(result.is_err());
        assert_eq!(
            result.err().unwrap(),
            Error::AnthropicServer { message: "test_message".to_string() }
        );
    }
}

#[test]
fn status_classification_for_identical_bodies() {
    let body = GCPVertexAnthropicErrorBody { kind: "error".to_string(), message: "m".to_string() };
    for code in [400u16, 401, 413, 429] {
        assert!(matches!(
            handle_anthropic_error(code, body.clone()),
            Err(Error::AnthropicClient { status_code, .. }) if status_code == code
        ));
    }
    for code in [403u16, 404, 500, 529] {
        assert_eq!(
            handle_anthropic_error(code, body.clone()).unwrap_err(),
            Error::AnthropicServer { message: "m".to_string() }
        );
    }
}

#[test]
fn test_anthropic_usage_to_usage() {
    let anthropic_usage = GCPVertexAnthropic { input_tokens: 100, output_tokens: 50 };
    let usage: Usage = anthropic_usage.into();
    assert_eq!(usage.input_tokens, 100);
    assert_eq!(usage.output_tokens, 50);
}

#[test]
fn test_anthropic_response_conversion() {
    let latency = Latency::NonStreaming { response_time: Duration::from_millis(100) };

    // Text response
    let mut body = response_with(
        "1",
        vec![GCPVertexAnthropicContentBlock::Text { text: "Response text".to_string() }],
    );
    body.stop_reason = Some("stop reason".to_string());
    body.stop_sequence = Some("stop sequence".to_string());
    let raw_json = r#"{"id":"1","type":"message","role":"assistant","content":[{"type":"text","text":"Response text"}],"model":"model-name","stop_reason":"stop reason","stop_sequence":"stop sequence","usage":{"input_tokens":100,"output_tokens":50}}"#;
    let body_with_latency = GCPVertexAnthropicResponseWithLatency {
        response: body,
        raw_response: raw_json.to_string(),
        latency,
    };
    let inference_response = ProviderInferenceResponse::try_from(body_with_latency).unwrap();
    assert_eq!(inference_response.content, vec![text_block("Response text")]);
    assert_eq!(raw_json, inference_response.raw_response);
    assert_eq!(inference_response.usage.input_tokens, 100);
    assert_eq!(inference_response.usage.output_tokens, 50);
    assert_eq!(inference_response.latency, latency);

    // Tool call response
    let mut body = response_with(
        "2",
        vec![GCPVertexAnthropicContentBlock::ToolUse {
            id: "tool_call_1".to_string(),
            name: "get_temperature".to_string(),
            input: r#"{"location":"New York"}"#.to_string(),
        }],
    );
    body.stop_reason = Some("tool_call".to_string());
    let raw_json = r#"{"id":"2","type":"message","role":"assistant","content":[{"type":"tool_use","id":"tool_call_1","name":"get_temperature","input":{"location":"New York"}}],"model":"model-name","stop_reason":"tool_call","usage":{"input_tokens":100,"output_tokens":50}}"#;
    let body_with_latency = GCPVertexAnthropicResponseWithLatency {
        response: body,
        raw_response: raw_json.to_string(),
        latency,
    };
    let inference_response = ProviderInferenceResponse::try_from(body_with_latency).unwrap();
    assert!(inference_response.content.len() == 1);
    assert_eq!(
        inference_response.content[0],
        ContentBlock::ToolCall(ToolCall {
            id: "tool_call_1".to_string(),
            name: "get_temperature".to_string(),
            arguments: r#"{"location":"New York"}"#.to_string(),
        })
    );
    assert_eq!(raw_json, inference_response.raw_response);
    assert_eq!(inference_response.usage.input_tokens, 100);
    assert_eq!(inference_response.usage.output_tokens, 50);
    assert_eq!(inference_response.latency, latency);

    // Mixed response
    let body = response_with(
        "3",
        vec![
            GCPVertexAnthropicContentBlock::Text { text: "Here's the weather:".to_string() },
            GCPVertexAnthropicContentBlock::ToolUse {
                id: "tool_call_2".to_string(),
                name: "get_temperature".to_string(),
                input: r#"{"location":"London"}"#.to_string(),
            },
        ],
    );
    let raw_json = r#"{"id":"3","type":"message","role":"assistant","content":[{"type":"text","text":"Here's the weather:"},{"type":"tool_use","id":"tool_call_2","name":"get_temperature","input":{"location":"London"}}],"model":"model-name","usage":{"input_tokens":100,"output_tokens":50}}"#;
    let body_with_latency = GCPVertexAnthropicResponseWithLatency {
        response: body,
        raw_response: raw_json.to_string(),
        latency,
    };
    let inference_response = ProviderInferenceResponse::try_from(body_with_latency).unwrap();
    assert_eq!(inference_response.content[0], text_block("Here's the weather:"));
    assert!(inference_response.content.len() == 2);
    assert_eq!(
        inference_response.content[1],
        ContentBlock::ToolCall(ToolCall {
            id: "tool_call_2".to_string(),
            name: "get_temperature".to_string(),
            arguments: r#"{"location":"London"}"#.to_string(),
        })
    );
    assert_eq!(raw_json, inference_response.raw_response);
    assert_eq!(inference_response.usage.input_tokens, 100);
    assert_eq!(inference_response.usage.output_tokens, 50);
    assert_eq!(inference_response.latency, latency);
}

#[test]
fn tool_arguments_survive_request_and_response() {
    let arguments = r#"{"location":"Paris","units":"celsius"}"#;
    let request = ModelInferenceRequest {
        messages: vec![RequestMessage {
            role: Role::User,
            content: vec![ContentBlock::ToolCall(ToolCall {
                id: "call".to_string(),
                name: "get_temperature".to_string(),
                arguments: arguments.to_string(),
            })],
        }],
        system: None,
        tool_config: None,
        temperature_bits: None,
        max_tokens: None,
        seed: None,
        stream: false,
    };
    let body = GCPVertexAnthropicRequestBody::new(&request).unwrap();
    let sent = &body.messages[0].content[0];
    let (id, name, input) = match sent {
        GCPVertexAnthropicMessageContent::ToolUse { id, name, input } => (id, name, input),
        other => panic!("expected a tool use, got {other:?}"),
    };
    let decoded = ContentBlock::try_from(GCPVertexAnthropicContentBlock::ToolUse {
        id: id.clone(),
        name: name.clone(),
        input: input.clone(),
    })
    .unwrap();
    assert_eq!(
        decoded,
        ContentBlock::ToolCall(ToolCall {
            id: "call".to_string(),
            name: "get_temperature".to_string(),
            arguments: arguments.to_string(),
        })
    );
}

#[test]
fn test_parse_usage_info() {
    let result = parse_usage_info(r#"{"input_tokens": 100, "output_tokens": 200}"#);
    assert_eq!(result.input_tokens, 100);
    assert_eq!(result.output_tokens, 200);

    let result = parse_usage_info(r#"{"input_tokens": 50}"#);
    assert_eq!(result.input_tokens, 50);
    assert_eq!(result.output_tokens, 0);

    let result = parse_usage_info("{}");
    assert_eq!(result.input_tokens, 0);
    assert_eq!(result.output_tokens, 0);

    let result = parse_usage_info(r#"{"input_tokens": "not a number", "output_tokens": true}"#);
    assert_eq!(result.input_tokens, 0);
    assert_eq!(result.output_tokens, 0);
}

#[test]
fn usage_counts_outside_u64_read_as_zero() {
    let result = parse_usage_info(r#"{"input_tokens": -3, "output_tokens": 1.5}"#);
    assert_eq!(result, GCPVertexAnthropic { input_tokens: 0, output_tokens: 0 });
    let result = parse_usage_info("not json");
    assert_eq!(result, GCPVertexAnthropic { input_tokens: 0, output_tokens: 0 });
}
