use nonempty::NonEmpty;
use serde_json::Value;
use unai::api::gemini::{
    generate_url as api_generate_url, GeminiContent, GeminiFunctionCall, GeminiFunctionResponse,
    GeminiInlineData, GeminiPart, GeminiUsageMetadata,
};
use unai::api::anthropic::messages_url;
use unai::api::openai::chat_completions_url;
use unai::client::{bearer, required_model, ClientError};
use unai::model::{FinishReason, Message, Part, Role, StreamChunk};
use unai::providers::gemini::{
    finish_reason_of, generate_url, message_of as gemini_message_of, GeminiCandidate,
    GeminiFinishReason, GeminiResponse,
};
use unai::providers::openai::{
    finish_of, item_of, items_for_request, message_of, responses_url, stream_chunks, text_of,
    IncompleteDetails, IncompleteReason, OpenAiContent, OpenAiContentType, OpenAiMessage,
    OpenAiResponse, OpenAiRole, OpenAiStreamEvent, OpenAiUsage,
};
use unai::usage::Usage;

fn fragment(text: &str, content_type: OpenAiContentType) -> OpenAiContent {
    OpenAiContent { text: text.to_string(), content_type }
}

fn response(usage: Option<OpenAiUsage>, reason: Option<IncompleteReason>) -> OpenAiResponse {
    OpenAiResponse {
        id: "r".to_string(),
        created_at: 0,
        model: "m".to_string(),
        output: vec![
            OpenAiMessage::Reasoning {
                summary: vec![],
                content: vec![fragment("think", OpenAiContentType::ReasoningText)],
            },
            OpenAiMessage::Text {
                content: vec![
                    fragment("one", OpenAiContentType::OutputText),
                    fragment("two", OpenAiContentType::OutputText),
                ],
                role: OpenAiRole::Assistant,
            },
        ],
        usage,
        incomplete_details: reason.map(|reason| IncompleteDetails { reason }),
    }
}

#[test]
fn fragments_are_joined_by_an_empty_line() {
    assert_eq!(text_of(&vec![]), "");
    assert_eq!(text_of(&vec![fragment("one", OpenAiContentType::Text)]), "one");
    assert_eq!(
        text_of(&vec![
            fragment("one", OpenAiContentType::Text),
            fragment("", OpenAiContentType::Text),
            fragment("three", OpenAiContentType::Text),
        ]),
        "one\n\n\n\nthree"
    );
}

#[test]
fn an_output_item_becomes_one_closed_unit() {
    assert_eq!(
        message_of(&OpenAiMessage::Text {
            content: vec![
                fragment("a", OpenAiContentType::InputText),
                fragment("b", OpenAiContentType::InputText)
            ],
            role: OpenAiRole::User,
        }),
        Message::User(vec![Part::Text { content: "a\n\nb".to_string(), finished: true }])
    );
    assert_eq!(
        message_of(&OpenAiMessage::Reasoning {
            summary: vec![fragment("short", OpenAiContentType::SummaryText)],
            content: vec![fragment("long", OpenAiContentType::ReasoningText)],
        }),
        Message::Assistant(vec![Part::Reasoning {
            content: "long".to_string(),
            summary: Some("short".to_string()),
            signature: None,
            finished: true,
        }])
    );
    assert_eq!(
        message_of(&OpenAiMessage::Reasoning {
            summary: vec![fragment("", OpenAiContentType::SummaryText)],
            content: vec![],
        }),
        Message::Assistant(vec![Part::Reasoning {
            content: String::new(),
            summary: None,
            signature: None,
            finished: true,
        }])
    );
}

#[test]
fn a_whole_item_response_is_decoded() {
    let decoded =
        response(Some(OpenAiUsage { input_tokens: 3, output_tokens: 4 }), None).to_response();
    assert_eq!(decoded.finish, FinishReason::Stop);
    assert_eq!(decoded.usage, Usage { prompt_tokens: Some(3), completion_tokens: Some(4) });
    assert_eq!(decoded.data.len(), 2);
    assert_eq!(
        decoded.data[1],
        Message::Assistant(vec![Part::Text { content: "one\n\ntwo".to_string(), finished: true }])
    );
    let cut = response(None, Some(IncompleteReason::MaxOutputTokens)).to_response();
    assert_eq!(cut.finish, FinishReason::OutputTokens);
    assert_eq!(cut.usage, Usage::default());
}

#[test]
fn incomplete_reasons_are_mapped() {
    let finish = |reason| finish_of(&Some(IncompleteDetails { reason }));
    assert_eq!(finish(IncompleteReason::MaxPromptTokens), FinishReason::Error);
    assert_eq!(finish(IncompleteReason::MaxOutputTokens), FinishReason::OutputTokens);
    assert_eq!(finish(IncompleteReason::ContentFilter), FinishReason::ContentFilter);
    assert_eq!(finish(IncompleteReason::Other), FinishReason::Stop);
    assert_eq!(finish_of(&None), FinishReason::Stop);
}

#[test]
fn events_become_chunks() {
    assert_eq!(
        stream_chunks(&OpenAiStreamEvent::ResponseOutputTextDelta { delta: "he".to_string() }),
        vec![StreamChunk::Data(Message::Assistant(vec![Part::Text {
            content: "he".to_string(),
            finished: false
        }]))]
    );
    assert_eq!(
        stream_chunks(&OpenAiStreamEvent::ResponseReasoningTextDelta { delta: "hm".to_string() }),
        vec![StreamChunk::Data(Message::Assistant(vec![Part::Reasoning {
            content: "hm".to_string(),
            summary: None,
            signature: None,
            finished: false
        }]))]
    );
    assert_eq!(stream_chunks(&OpenAiStreamEvent::Other), vec![]);
    assert_eq!(
        stream_chunks(&OpenAiStreamEvent::ResponseComplete {
            response: response(Some(OpenAiUsage { input_tokens: 1, output_tokens: 2 }), None)
        }),
        vec![
            StreamChunk::Usage(Usage { prompt_tokens: Some(1), completion_tokens: Some(2) }),
            StreamChunk::Finish(FinishReason::Stop),
        ]
    );
    assert_eq!(
        stream_chunks(&OpenAiStreamEvent::ResponseIncomplete {
            response: response(None, Some(IncompleteReason::ContentFilter))
        }),
        vec![StreamChunk::Finish(FinishReason::ContentFilter)]
    );
}

#[test]
fn units_become_input_items() {
    let text = Part::Text { content: "hi".to_string(), finished: true };
    assert_eq!(
        item_of(Role::User, &text),
        OpenAiMessage::Text {
            content: vec![fragment("hi", OpenAiContentType::InputText)],
            role: OpenAiRole::User
        }
    );
    assert_eq!(
        item_of(Role::Assistant, &text),
        OpenAiMessage::Text {
            content: vec![fragment("hi", OpenAiContentType::OutputText)],
            role: OpenAiRole::Assistant
        }
    );
    let call = Part::FunctionCall {
        id: None,
        name: "f".to_string(),
        arguments: Value::Null,
        signature: None,
        finished: true,
    };
    let items = items_for_request(&vec![
        Message::User(vec![text, call]),
        Message::Assistant(vec![]),
        Message::Assistant(vec![Part::Reasoning {
            content: "long".to_string(),
            summary: None,
            signature: Some("s".to_string()),
            finished: true,
        }]),
    ]);
    assert_eq!(
        items,
        vec![
            OpenAiMessage::Text {
                content: vec![fragment("hi", OpenAiContentType::InputText)],
                role: OpenAiRole::User
            },
            OpenAiMessage::Text {
                content: vec![fragment("", OpenAiContentType::Text)],
                role: OpenAiRole::Assistant
            },
            OpenAiMessage::Reasoning {
                summary: vec![fragment("", OpenAiContentType::SummaryText)],
                content: vec![fragment("long", OpenAiContentType::ReasoningText)],
            },
        ]
    );
}

fn candidate(parts: Vec<GeminiPart>, finish: Option<GeminiFinishReason>) -> GeminiCandidate {
    GeminiCandidate {
        content: GeminiContent { role: "model".to_string(), parts },
        finish_reason: finish,
    }
}

#[test]
fn typed_finish_reasons_are_mapped() {
    assert_eq!(finish_reason_of(GeminiFinishReason::Stop), FinishReason::Stop);
    assert_eq!(finish_reason_of(GeminiFinishReason::MaxTokens), FinishReason::OutputTokens);
    for reason in [
        GeminiFinishReason::Safety,
        GeminiFinishReason::Language,
        GeminiFinishReason::Blocklist,
        GeminiFinishReason::ProhibitedContent,
        GeminiFinishReason::Spii,
        GeminiFinishReason::ImageSafety,
        GeminiFinishReason::ImageProhibitedContent,
        GeminiFinishReason::ImageRecitation,
    ] {
        assert_eq!(finish_reason_of(reason), FinishReason::ContentFilter);
    }
    for reason in [
        GeminiFinishReason::MalformedFunctionCall,
        GeminiFinishReason::UnexpectedToolCall,
        GeminiFinishReason::TooManyToolCalls,
    ] {
        assert_eq!(finish_reason_of(reason), FinishReason::ToolCalls);
    }
    assert_eq!(finish_reason_of(GeminiFinishReason::Other), FinishReason::Stop);
}

#[test]
fn a_typed_response_becomes_chunks() {
    let text = |s: &str| GeminiPart::Text { text: s.to_string(), thought: None };
    let response = GeminiResponse {
        candidates: NonEmpty {
            head: candidate(
                vec![
                    text("a"),
                    GeminiPart::InlineData {
                        inline_data: GeminiInlineData {
                            mime_type: "x/y".to_string(),
                            data: "D".to_string(),
                        },
                    },
                ],
                Some(GeminiFinishReason::Safety),
            ),
            tail: vec![
                candidate(vec![], None),
                candidate(
                    vec![
                        GeminiPart::Text { text: "hm".to_string(), thought: Some(true) },
                        GeminiPart::FunctionCall {
                            function_call: GeminiFunctionCall {
                                name: "f".to_string(),
                                args: Value::Bool(true),
                            },
                            thought_signature: None,
                        },
                    ],
                    Some(GeminiFinishReason::MaxTokens),
                ),
            ],
        },
        model_version: None,
        usage_metadata: Some(GeminiUsageMetadata {
            prompt_token_count: 2,
            candidates_token_count: Some(3),
            total_token_count: 9,
            thoughts_token_count: Some(4),
        }),
    };
    assert!(response.is_countable());
    assert_eq!(
        response.stream_chunks(),
        vec![
            StreamChunk::Data(Message::Assistant(vec![Part::Text {
                content: "a".to_string(),
                finished: false
            }])),
            StreamChunk::Data(Message::Assistant(vec![Part::Reasoning {
                content: "hm".to_string(),
                summary: None,
                signature: None,
                finished: false
            }])),
            StreamChunk::Data(Message::Assistant(vec![Part::FunctionCall {
                id: None,
                name: "f".to_string(),
                arguments: Value::Bool(true),
                signature: None,
                finished: false
            }])),
            StreamChunk::Usage(Usage { prompt_tokens: Some(2), completion_tokens: Some(7) }),
            StreamChunk::Finish(FinishReason::OutputTokens),
        ]
    );
    let whole = response.to_response();
    assert_eq!(whole.finish, FinishReason::OutputTokens);
    assert_eq!(whole.usage, Usage { prompt_tokens: Some(2), completion_tokens: Some(7) });
    assert_eq!(
        whole.data,
        vec![
            Message::Assistant(vec![Part::Text { content: "a".to_string(), finished: true }]),
            Message::Assistant(vec![Part::Reasoning {
                content: "hm".to_string(),
                summary: None,
                signature: None,
                finished: true
            }]),
            Message::Assistant(vec![Part::FunctionCall {
                id: None,
                name: "f".to_string(),
                arguments: Value::Bool(true),
                signature: None,
                finished: true
            }]),
        ]
    );
    let single = GeminiResponse {
        candidates: NonEmpty { head: candidate(vec![text("x")], None), tail: vec![] },
        model_version: None,
        usage_metadata: None,
    };
    assert_eq!(single.stream_chunks().len(), 1);
    let decoded = single.to_response();
    assert_eq!(decoded.finish, FinishReason::Stop);
    assert_eq!(decoded.usage, Usage::default());
    assert_eq!(decoded.data.len(), 1);
}

#[test]
fn a_function_response_speaks_for_the_user() {
    let part = GeminiPart::FunctionResponse {
        function_response: GeminiFunctionResponse {
            name: "f".to_string(),
            response: Value::Null,
            parts: None,
        },
    };
    assert_eq!(
        gemini_message_of(&part, false),
        Some(Message::User(vec![Part::FunctionResponse {
            id: None,
            name: "f".to_string(),
            response: Value::Null,
            parts: vec![],
            finished: false
        }]))
    );
}

#[test]
fn addresses_are_built_from_their_parts() {
    assert_eq!(responses_url(&None), "https://api.openai.com/v1/responses");
    assert_eq!(responses_url(&Some("http://x".to_string())), "http://x/v1/responses");
    assert_eq!(
        generate_url(&None, &None, "K", false),
        "https://generativelanguage.googleapis.com/v1beta/models/gemini-2.0-flash-exp:generateContent?key=K"
    );
    assert_eq!(
        generate_url(&Some("http://x".to_string()), &Some("m".to_string()), "K", true),
        "http://x/v1beta/models/m:streamGenerateContent?alt=sse&key=K"
    );
    assert_eq!(
        api_generate_url("http://x/v1", "m", "K", true),
        "http://x/v1/models/m:streamGenerateContent?alt=sse&key=K"
    );
    assert_eq!(
        api_generate_url("http://x/v1", "m", "K", false),
        "http://x/v1/models/m:generateContent?key=K"
    );
    assert_eq!(messages_url("http://a/v1"), "http://a/v1/messages");
    assert_eq!(chat_completions_url("http://o/v1"), "http://o/v1/chat/completions");
    assert_eq!(bearer("sk"), "Bearer sk");
}

#[test]
fn errors_of_a_client_are_worded() {
    assert_eq!(required_model(&Some("m".to_string())), Ok("m".to_string()));
    assert_eq!(
        required_model(&None),
        Err(ClientError::Config("Model must be specified".to_string()))
    );
    assert_eq!(
        ClientError::provider_reported("Anthropic", "overloaded_error", "busy"),
        ClientError::ProviderError("Anthropic error (overloaded_error): busy".to_string())
    );
    assert_eq!(
        ClientError::http_status("404 Not Found", "nope"),
        ClientError::ProviderError("HTTP 404 Not Found: nope".to_string())
    );
}
