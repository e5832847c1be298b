use serde_json::Value;
use unai::api::anthropic::{
    stop_reason_of, thinking_budget, AnthropicContentBlock, AnthropicDelta, AnthropicError,
    AnthropicMessageDelta, AnthropicModel, AnthropicResponse, AnthropicStream,
    AnthropicStreamEvent, AnthropicUsage,
};
use unai::client::ClientError;
use unai::model::{FinishReason, Message, Part, Response};
use unai::usage::Usage;

fn units(response: &Response) -> Vec<Part> {
    assert_eq!(response.data.len(), 1);
    match &response.data[0] {
        Message::Assistant(parts) => parts.clone(),
        Message::User(_) => panic!("a decoder builds an assistant message"),
    }
}

fn usage(input: u32, output: u32) -> AnthropicUsage {
    AnthropicUsage {
        input_tokens: input,
        output_tokens: output,
        cache_creation_input_tokens: None,
        cache_read_input_tokens: None,
    }
}

fn opening(input: u32, output: u32) -> AnthropicStreamEvent {
    AnthropicStreamEvent::MessageStart {
        message: AnthropicResponse {
            id: "msg_1".to_string(),
            msg_type: "message".to_string(),
            role: "assistant".to_string(),
            content: vec![],
            model: "m".to_string(),
            stop_reason: None,
            stop_sequence: None,
            usage: usage(input, output),
        },
    }
}

fn start_text(index: u32, text: &str) -> AnthropicStreamEvent {
    AnthropicStreamEvent::ContentBlockStart {
        index,
        content_block: AnthropicContentBlock::Text { text: text.to_string(), cache_control: None },
    }
}

fn start_tool(index: u32, id: &str, name: &str) -> AnthropicStreamEvent {
    AnthropicStreamEvent::ContentBlockStart {
        index,
        content_block: AnthropicContentBlock::ToolUse {
            id: id.to_string(),
            name: name.to_string(),
            input: Value::Object(serde_json::Map::new()),
            cache_control: None,
        },
    }
}

fn text_delta(index: u32, text: &str) -> AnthropicStreamEvent {
    AnthropicStreamEvent::ContentBlockDelta {
        index,
        delta: AnthropicDelta::TextDelta { text: text.to_string() },
    }
}

fn json_delta(index: u32, text: &str) -> AnthropicStreamEvent {
    AnthropicStreamEvent::ContentBlockDelta {
        index,
        delta: AnthropicDelta::InputJsonDelta { partial_json: text.to_string() },
    }
}

fn stop(index: u32) -> AnthropicStreamEvent {
    AnthropicStreamEvent::ContentBlockStop { index }
}

fn ending(reason: Option<&str>, output: Option<u32>) -> AnthropicStreamEvent {
    AnthropicStreamEvent::MessageDelta {
        delta: AnthropicMessageDelta {
            stop_reason: reason.map(|s| s.to_string()),
            stop_sequence: None,
        },
        usage: output.map(|n| usage(0, n)),
    }
}

fn call(id: &str, name: &str, arguments: Value, finished: bool) -> Part {
    Part::FunctionCall {
        id: Some(id.to_string()),
        name: name.to_string(),
        arguments,
        signature: None,
        finished,
    }
}

#[test]
fn a_text_block_is_opened_filled_and_closed() {
    let mut stream = AnthropicStream::new();
    assert_eq!(stream.apply(&start_text(0, "He")), Ok(true));
    assert_eq!(
        units(&stream.snapshot()),
        vec![Part::Text { content: "He".to_string(), finished: false }]
    );
    assert_eq!(stream.apply(&text_delta(0, "llo")), Ok(true));
    assert_eq!(stream.apply(&stop(0)), Ok(true));
    assert_eq!(
        units(&stream.snapshot()),
        vec![Part::Text { content: "Hello".to_string(), finished: true }]
    );
    stream.apply(&text_delta(0, " again")).unwrap();
    assert_eq!(
        units(&stream.snapshot()),
        vec![Part::Text { content: "Hello".to_string(), finished: true }]
    );
}

#[test]
fn arguments_are_parsed_when_the_call_is_closed() {
    let mut stream = AnthropicStream::new();
    stream.apply(&start_tool(0, "call_1", "weather")).unwrap();
    stream.apply(&json_delta(0, "{\"city\":")).unwrap();
    assert_eq!(
        units(&stream.snapshot()),
        vec![call("call_1", "weather", Value::Null, false)]
    );
    stream.apply(&json_delta(0, " \"Oslo\"}")).unwrap();
    stream.apply(&stop(0)).unwrap();
    assert_eq!(
        units(&stream.snapshot()),
        vec![call(
            "call_1",
            "weather",
            serde_json::from_str::<Value>("{\"city\": \"Oslo\"}").unwrap(),
            true
        )]
    );
}

#[test]
fn arguments_that_do_not_parse_stay_null() {
    let mut stream = AnthropicStream::new();
    stream.apply(&start_tool(3, "c", "f")).unwrap();
    stream.apply(&json_delta(3, "{\"broken\": ")).unwrap();
    stream.apply(&stop(3)).unwrap();
    assert_eq!(units(&stream.snapshot()), vec![call("c", "f", Value::Null, true)]);
    let mut empty = AnthropicStream::new();
    empty.apply(&start_tool(0, "c", "f")).unwrap();
    empty.apply(&stop(0)).unwrap();
    assert_eq!(units(&empty.snapshot()), vec![call("c", "f", Value::Null, true)]);
}

#[test]
fn deltas_find_their_unit_by_index() {
    let mut stream = AnthropicStream::new();
    stream
        .apply(&AnthropicStreamEvent::ContentBlockStart {
            index: 0,
            content_block: AnthropicContentBlock::RedactedThinking { data: "x".to_string() },
        })
        .unwrap();
    stream.apply(&start_text(1, "a")).unwrap();
    stream.apply(&start_tool(2, "c", "f")).unwrap();
    stream.apply(&json_delta(2, "[1")).unwrap();
    stream.apply(&text_delta(1, "b")).unwrap();
    stream.apply(&json_delta(2, ",2]")).unwrap();
    stream.apply(&text_delta(0, "lost")).unwrap();
    stream.apply(&text_delta(9, "lost")).unwrap();
    stream.apply(&stop(2)).unwrap();
    assert_eq!(
        units(&stream.snapshot()),
        vec![
            Part::Text { content: "ab".to_string(), finished: false },
            call("c", "f", serde_json::from_str::<Value>("[1,2]").unwrap(), true),
        ]
    );
}

#[test]
fn fragments_of_two_calls_do_not_mix() {
    let mut stream = AnthropicStream::new();
    stream.apply(&start_tool(2, "late", "g")).unwrap();
    stream.apply(&json_delta(2, "{\"b\":")).unwrap();
    stream.apply(&start_tool(0, "early", "f")).unwrap();
    stream.apply(&json_delta(0, "{\"a\":")).unwrap();
    stream.apply(&json_delta(2, "2}")).unwrap();
    stream.apply(&json_delta(0, "1}")).unwrap();
    stream.apply(&stop(0)).unwrap();
    stream.apply(&stop(2)).unwrap();
    assert_eq!(
        units(&stream.snapshot()),
        vec![
            call("late", "g", serde_json::from_str::<Value>("{\"b\":2}").unwrap(), true),
            call("early", "f", serde_json::from_str::<Value>("{\"a\":1}").unwrap(), true),
        ]
    );
}

#[test]
fn thinking_takes_text_and_a_signature() {
    let mut stream = AnthropicStream::new();
    stream
        .apply(&AnthropicStreamEvent::ContentBlockStart {
            index: 0,
            content_block: AnthropicContentBlock::Thinking {
                thinking: "a".to_string(),
                signature: "".to_string(),
            },
        })
        .unwrap();
    stream
        .apply(&AnthropicStreamEvent::ContentBlockDelta {
            index: 0,
            delta: AnthropicDelta::ThinkingDelta { thinking: "b".to_string() },
        })
        .unwrap();
    stream
        .apply(&AnthropicStreamEvent::ContentBlockDelta {
            index: 0,
            delta: AnthropicDelta::SignatureDelta { signature: "signed".to_string() },
        })
        .unwrap();
    stream.apply(&text_delta(0, "not for thinking")).unwrap();
    assert_eq!(
        units(&stream.snapshot()),
        vec![Part::Reasoning {
            content: "ab".to_string(),
            summary: None,
            signature: Some("signed".to_string()),
            finished: false
        }]
    );
}

#[test]
fn a_ping_changes_nothing() {
    let mut stream = AnthropicStream::new();
    stream.apply(&start_text(0, "x")).unwrap();
    let before = stream.snapshot();
    assert_eq!(stream.apply(&AnthropicStreamEvent::Ping), Ok(false));
    assert_eq!(stream.snapshot(), before);
}

#[test]
fn an_error_event_aborts_the_stream() {
    let mut stream = AnthropicStream::new();
    stream.apply(&start_text(0, "x")).unwrap();
    let before = stream.snapshot();
    let result = stream.apply(&AnthropicStreamEvent::Error {
        error: AnthropicError {
            error_type: "overloaded_error".to_string(),
            message: "try later".to_string(),
        },
    });
    assert_eq!(
        result,
        Err(ClientError::ProviderError("Stream error (overloaded_error): try later".to_string()))
    );
    assert_eq!(stream.snapshot(), before);
}

#[test]
fn a_stop_reason_closes_every_unit_and_ends_the_turn() {
    let mut stream = AnthropicStream::new();
    stream.apply(&opening(12, 1)).unwrap();
    stream.apply(&start_text(0, "x")).unwrap();
    stream.apply(&start_tool(1, "c", "f")).unwrap();
    stream.apply(&json_delta(1, "{\"k\": null}")).unwrap();
    assert_eq!(stream.snapshot().finish, FinishReason::Unfinished);
    stream.apply(&ending(Some("tool_use"), Some(30))).unwrap();
    let shown = stream.snapshot();
    assert_eq!(shown.finish, FinishReason::ToolCalls);
    assert_eq!(shown.usage, Usage { prompt_tokens: Some(12), completion_tokens: Some(31) });
    assert_eq!(
        units(&shown),
        vec![
            Part::Text { content: "x".to_string(), finished: true },
            call("c", "f", serde_json::from_str::<Value>("{\"k\": null}").unwrap(), true),
        ]
    );
}

#[test]
fn a_message_stop_closes_every_unit() {
    let mut stream = AnthropicStream::new();
    stream.apply(&start_text(0, "x")).unwrap();
    stream.apply(&start_text(1, "y")).unwrap();
    stream.apply(&ending(None, None)).unwrap();
    assert!(units(&stream.snapshot()).iter().any(|p| !p.is_finished()));
    stream.apply(&AnthropicStreamEvent::MessageStop).unwrap();
    let shown = stream.into_response();
    assert!(units(&shown).iter().all(|p| p.is_finished()));
    assert_eq!(shown.finish, FinishReason::Stop);
}

#[test]
fn a_message_stop_keeps_the_stop_reason() {
    let mut stream = AnthropicStream::new();
    stream.apply(&ending(Some("max_tokens"), None)).unwrap();
    stream.apply(&AnthropicStreamEvent::MessageStop).unwrap();
    assert_eq!(stream.snapshot().finish, FinishReason::OutputTokens);
}

#[test]
fn anthropic_event_whose_usage_does_not_fit_is_not_accepted() {
    let mut stream = AnthropicStream::new();
    assert!(stream.can_apply(&opening(u32::MAX, 5)));
    stream.apply(&opening(u32::MAX, 5)).unwrap();
    assert!(!stream.can_apply(&opening(1, 0)));
    assert!(stream.can_apply(&ending(None, Some(u32::MAX - 5))));
    assert!(!stream.can_apply(&ending(None, Some(u32::MAX - 4))));
    assert!(stream.can_apply(&AnthropicStreamEvent::Ping));
}

#[test]
fn anthropic_stop_words_are_mapped() {
    assert_eq!(stop_reason_of("end_turn"), FinishReason::Stop);
    assert_eq!(stop_reason_of("max_tokens"), FinishReason::OutputTokens);
    assert_eq!(stop_reason_of("stop_sequence"), FinishReason::Stop);
    assert_eq!(stop_reason_of("tool_use"), FinishReason::ToolCalls);
    assert_eq!(stop_reason_of("refusal"), FinishReason::Stop);
}

#[test]
fn anthropic_whole_response_has_closed_units() {
    let response = AnthropicResponse {
        id: "msg".to_string(),
        msg_type: "message".to_string(),
        role: "assistant".to_string(),
        content: vec![
            AnthropicContentBlock::Thinking {
                thinking: "hm".to_string(),
                signature: "s".to_string(),
            },
            AnthropicContentBlock::RedactedThinking { data: "x".to_string() },
            AnthropicContentBlock::Text { text: "hi".to_string(), cache_control: None },
            AnthropicContentBlock::ToolUse {
                id: "c".to_string(),
                name: "f".to_string(),
                input: serde_json::from_str::<Value>("{\"n\": 3}").unwrap(),
                cache_control: None,
            },
        ],
        model: "m".to_string(),
        stop_reason: Some("max_tokens".to_string()),
        stop_sequence: None,
        usage: usage(5, 6),
    };
    let decoded = response.to_response();
    assert_eq!(decoded.finish, FinishReason::OutputTokens);
    assert_eq!(decoded.usage, Usage { prompt_tokens: Some(5), completion_tokens: Some(6) });
    assert_eq!(
        units(&decoded),
        vec![
            Part::Reasoning {
                content: "hm".to_string(),
                summary: None,
                signature: Some("s".to_string()),
                finished: true
            },
            Part::Text { content: "hi".to_string(), finished: true },
            call("c", "f", serde_json::from_str::<Value>("{\"n\": 3}").unwrap(), true),
        ]
    );
}

#[test]
fn the_thinking_budget_has_a_default() {
    let mut options = AnthropicModel::default();
    assert_eq!(thinking_budget(None, &options), None);
    assert_eq!(thinking_budget(Some(false), &options), None);
    assert_eq!(thinking_budget(Some(true), &options), Some(1024));
    options.thinking_budget = Some(4096);
    assert_eq!(thinking_budget(Some(true), &options), Some(4096));
    assert_eq!(thinking_budget(None, &options), None);
}
