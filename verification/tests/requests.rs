use serde_json::Value;
use unai::api::anthropic::request::{
    content_blocks, messages_for_request as anthropic_messages, AnthropicMessage,
};
use unai::api::anthropic::{
    max_tokens_or_default, AnthropicContentBlock, AnthropicDocumentSource, AnthropicImageSource,
    AnthropicToolResultBlock, AnthropicToolResultContent,
};
use unai::api::gemini::request::{contents_for_request, parts_for_request, system_instruction};
use unai::api::gemini::{
    GeminiContent, GeminiFunctionCall, GeminiFunctionResponse, GeminiFunctionResponseBlob,
    GeminiFunctionResponsePart, GeminiInlineData, GeminiPart,
};
use unai::api::openai::request::{
    message_for_request, messages_for_request as openai_messages, token_limits, OpenAiContent,
    OpenAiContentPart, OpenAiFileContent, OpenAiImageUrl, OpenAiMessage,
};
use unai::api::openai::{OpenAiFunctionCall, OpenAiToolCall};
use unai::encoding::decode_payload;
use unai::model::{Media, MediaType, Message, Part};

fn json(text: &str) -> Value {
    serde_json::from_str::<Value>(text).unwrap()
}

fn text(s: &str) -> Part {
    Part::Text { content: s.to_string(), finished: true }
}

fn media(media_type: MediaType, data: &str, mime: &str, uri: Option<&str>) -> Media {
    Media {
        media_type,
        data: data.to_string(),
        mime_type: mime.to_string(),
        uri: uri.map(|s| s.to_string()),
        finished: true,
    }
}

fn call(id: Option<&str>) -> Part {
    Part::FunctionCall {
        id: id.map(|s| s.to_string()),
        name: "f".to_string(),
        arguments: json("{\"b\": 1, \"a\": [true, null]}"),
        signature: Some("sig".to_string()),
        finished: true,
    }
}

fn result(id: Option<&str>, response: &str, parts: Vec<Media>) -> Part {
    Part::FunctionResponse {
        id: id.map(|s| s.to_string()),
        name: "f".to_string(),
        response: json(response),
        parts,
        finished: true,
    }
}

fn a_text(s: &str) -> AnthropicContentBlock {
    AnthropicContentBlock::Text { text: s.to_string(), cache_control: None }
}

#[test]
fn a_media_unit_is_announced_by_its_source_and_type() {
    assert_eq!(
        media(MediaType::Image, "AAAA", "image/png", Some("file:///a.png")).anchor(),
        "[media: file:///a.png (image/png)]"
    );
    assert_eq!(media(MediaType::Binary, "AAAA", "x/y", None).anchor(), "[media: x/y]");
    assert_eq!(
        Part::Media(media(MediaType::Text, "", "text/plain", None)).anchor_media(),
        "[media: text/plain]"
    );
    assert_eq!(text("hi").anchor_media(), "");
}

#[test]
fn a_payload_is_decoded_where_it_is_text() {
    assert_eq!(decode_payload("aGVsbG8="), "hello");
    assert_eq!(decode_payload("w6Q="), "\u{e4}");
    assert_eq!(decode_payload(""), "");
    assert_eq!(decode_payload("not base64!"), "not base64!");
    assert_eq!(decode_payload("/w=="), "/w==");
}

#[test]
fn anthropic_blocks_follow_the_units() {
    let blocks = content_blocks(&vec![
        text("hi"),
        Part::Reasoning {
            content: "hm".to_string(),
            summary: None,
            signature: None,
            finished: true,
        },
        call(Some("c1")),
        call(None),
        Part::Media(media(MediaType::Image, "IMG", "image/png", None)),
        Part::Media(media(MediaType::Document, "PDF", "application/pdf", Some("u"))),
        Part::Media(media(MediaType::Text, "aGVsbG8=", "text/plain", None)),
    ]);
    assert_eq!(
        blocks,
        vec![
            a_text("hi"),
            AnthropicContentBlock::Thinking { thinking: "hm".to_string(), signature: String::new() },
            AnthropicContentBlock::ToolUse {
                id: "c1".to_string(),
                name: "f".to_string(),
                input: json("{\"b\": 1, \"a\": [true, null]}"),
                cache_control: None,
            },
            a_text("[media: image/png]"),
            AnthropicContentBlock::Image {
                source: AnthropicImageSource {
                    source_type: "base64".to_string(),
                    media_type: "image/png".to_string(),
                    data: "IMG".to_string(),
                },
                cache_control: None,
            },
            a_text("[media: u (application/pdf)]"),
            AnthropicContentBlock::Document {
                source: AnthropicDocumentSource {
                    source_type: "base64".to_string(),
                    media_type: "application/pdf".to_string(),
                    data: "PDF".to_string(),
                },
                cache_control: None,
            },
            a_text("[media: text/plain]"),
            a_text("hello"),
        ]
    );
}

#[test]
fn anthropic_tool_results_carry_text_and_attachments() {
    let blocks = content_blocks(&vec![
        result(
            Some("c1"),
            "{\"ok\": true}",
            vec![
                media(MediaType::Image, "IMG", "image/png", None),
                media(MediaType::Binary, "aGVsbG8=", "x/y", None),
            ],
        ),
        result(Some("c2"), "{}", vec![]),
        result(None, "1", vec![]),
    ]);
    assert_eq!(
        blocks,
        vec![
            AnthropicContentBlock::ToolResult {
                tool_use_id: "c1".to_string(),
                content: AnthropicToolResultContent::Blocks(vec![
                    AnthropicToolResultBlock::Text { text: "{\"ok\":true}".to_string() },
                    AnthropicToolResultBlock::Text { text: "[media: image/png]".to_string() },
                    AnthropicToolResultBlock::Image {
                        source: AnthropicImageSource {
                            source_type: "base64".to_string(),
                            media_type: "image/png".to_string(),
                            data: "IMG".to_string(),
                        },
                    },
                    AnthropicToolResultBlock::Text { text: "[media: x/y]".to_string() },
                    AnthropicToolResultBlock::Text { text: "hello".to_string() },
                ]),
                is_error: None,
                cache_control: None,
            },
            AnthropicContentBlock::ToolResult {
                tool_use_id: "c2".to_string(),
                content: AnthropicToolResultContent::Blocks(vec![]),
                is_error: None,
                cache_control: None,
            },
        ]
    );
}

#[test]
fn anthropic_messages_without_blocks_are_left_out() {
    let messages = anthropic_messages(&vec![
        Message::User(vec![text("q")]),
        Message::Assistant(vec![call(None)]),
        Message::User(vec![]),
        Message::Assistant(vec![text("a")]),
    ]);
    assert_eq!(
        messages,
        vec![
            AnthropicMessage { role: "user".to_string(), content: vec![a_text("q")] },
            AnthropicMessage { role: "assistant".to_string(), content: vec![a_text("a")] },
        ]
    );
    assert_eq!(max_tokens_or_default(None), 1024);
    assert_eq!(max_tokens_or_default(Some(7)), 7);
}

fn o_text(s: &str) -> OpenAiContentPart {
    OpenAiContentPart::Text { text: s.to_string() }
}

#[test]
fn openai_single_text_is_plain_content() {
    assert_eq!(
        message_for_request(&Message::User(vec![text("hi")])),
        OpenAiMessage {
            role: "user".to_string(),
            content: OpenAiContent::Text("hi".to_string()),
            name: None,
            tool_call_id: None,
            tool_calls: vec![],
        }
    );
    assert_eq!(
        message_for_request(&Message::Assistant(vec![])),
        OpenAiMessage {
            role: "assistant".to_string(),
            content: OpenAiContent::Text(String::new()),
            name: None,
            tool_call_id: None,
            tool_calls: vec![],
        }
    );
}

#[test]
fn openai_calls_become_tool_calls() {
    assert_eq!(
        message_for_request(&Message::Assistant(vec![
            call(Some("c1")),
            call(None),
            Part::Reasoning {
                content: "hm".to_string(),
                summary: None,
                signature: None,
                finished: true
            },
        ])),
        OpenAiMessage {
            role: "assistant".to_string(),
            content: OpenAiContent::Text(String::new()),
            name: None,
            tool_call_id: None,
            tool_calls: vec![OpenAiToolCall {
                id: "c1".to_string(),
                call_type: "function".to_string(),
                function: OpenAiFunctionCall {
                    name: "f".to_string(),
                    arguments: "{\"a\":[true,null],\"b\":1}".to_string(),
                },
            }],
        }
    );
}

#[test]
fn openai_media_become_parts() {
    assert_eq!(
        message_for_request(&Message::User(vec![
            text("see"),
            Part::Media(media(MediaType::Image, "IMG", "image/png", None)),
            Part::Media(media(MediaType::Document, "PDF", "application/pdf", Some("a.pdf"))),
        ]))
        .content,
        OpenAiContent::Parts(vec![
            o_text("see"),
            o_text("[media: image/png]"),
            OpenAiContentPart::ImageUrl {
                image_url: OpenAiImageUrl { url: "data:image/png;base64,IMG".to_string() },
            },
            o_text("[media: a.pdf (application/pdf)]"),
            OpenAiContentPart::File {
                file: OpenAiFileContent {
                    file_data: Some("PDF".to_string()),
                    file_id: None,
                    filename: Some("a.pdf".to_string()),
                },
            },
        ])
    );
    assert_eq!(
        message_for_request(&Message::User(vec![Part::Media(media(
            MediaType::Image,
            "IMG",
            "image/png",
            None
        ))]))
        .content,
        OpenAiContent::Parts(vec![
            o_text("[media: image/png]"),
            OpenAiContentPart::ImageUrl {
                image_url: OpenAiImageUrl { url: "data:image/png;base64,IMG".to_string() },
            },
        ])
    );
}

#[test]
fn openai_tool_results_are_tool_messages() {
    let message = message_for_request(&Message::User(vec![result(
        Some("c1"),
        "{\"ok\": true}",
        vec![
            media(MediaType::Image, "IMG", "image/png", None),
            media(MediaType::Binary, "BIN", "x/y", None),
        ],
    )]));
    assert_eq!(
        message,
        OpenAiMessage {
            role: "tool".to_string(),
            content: OpenAiContent::Text(
                "{\"ok\":true}\n[media: image/png]\n[Image Content]\n[media: x/y]\n[File: x/y]"
                    .to_string()
            ),
            name: None,
            tool_call_id: Some("c1".to_string()),
            tool_calls: vec![],
        }
    );
    let empty = message_for_request(&Message::User(vec![result(Some("c2"), "{}", vec![])]));
    assert_eq!(empty.content, OpenAiContent::Text(String::new()));
    assert_eq!(empty.role, "tool");
    let no_id = message_for_request(&Message::User(vec![result(None, "1", vec![])]));
    assert_eq!(no_id.role, "user");
    assert_eq!(no_id.tool_call_id, None);
    assert_eq!(no_id.content, OpenAiContent::Text(String::new()));
}

#[test]
fn openai_requests_start_with_the_system_prompt() {
    let messages = openai_messages(
        &Some("be brief".to_string()),
        &vec![Message::User(vec![text("q")]), Message::Assistant(vec![])],
    );
    assert_eq!(messages.len(), 3);
    assert_eq!(messages[0].role, "system");
    assert_eq!(messages[0].content, OpenAiContent::Text("be brief".to_string()));
    assert_eq!(messages[1].role, "user");
    assert_eq!(messages[2].role, "assistant");
    assert_eq!(openai_messages(&None, &vec![]), vec![]);
}

#[test]
fn openai_token_limits_depend_on_the_model() {
    let plain = token_limits("gpt-4o", Some(5));
    assert_eq!((plain.max_tokens, plain.max_completion_tokens), (Some(5), None));
    let o1 = token_limits("o1-mini", Some(5));
    assert_eq!((o1.max_tokens, o1.max_completion_tokens), (None, Some(5)));
    let o3 = token_limits("o3", None);
    assert_eq!((o3.max_tokens, o3.max_completion_tokens), (None, None));
    let o4 = token_limits("o4", Some(1));
    assert_eq!((o4.max_tokens, o4.max_completion_tokens), (Some(1), None));
}

fn g_text(s: &str, thought: Option<bool>) -> GeminiPart {
    GeminiPart::Text { text: s.to_string(), thought }
}

#[test]
fn gemini_parts_follow_the_units() {
    let parts = parts_for_request(&vec![
        text("hi"),
        Part::Reasoning {
            content: "hm".to_string(),
            summary: None,
            signature: Some("s".to_string()),
            finished: true,
        },
        Part::Media(media(MediaType::Image, "IMG", "image/png", Some("u"))),
        call(None),
        result(Some("c1"), "{}", vec![]),
        result(None, "[1]", vec![media(MediaType::Binary, "BIN", "x/y", None)]),
    ]);
    assert_eq!(
        parts,
        vec![
            g_text("hi", None),
            g_text("hm", Some(true)),
            g_text("[media: u (image/png)]", None),
            GeminiPart::InlineData {
                inline_data: GeminiInlineData {
                    mime_type: "image/png".to_string(),
                    data: "IMG".to_string(),
                },
            },
            GeminiPart::FunctionCall {
                function_call: GeminiFunctionCall {
                    name: "f".to_string(),
                    args: json("{\"b\": 1, \"a\": [true, null]}"),
                },
                thought_signature: Some("sig".to_string()),
            },
            GeminiPart::FunctionResponse {
                function_response: GeminiFunctionResponse {
                    name: "f".to_string(),
                    response: json("{}"),
                    parts: None,
                },
            },
            GeminiPart::FunctionResponse {
                function_response: GeminiFunctionResponse {
                    name: "f".to_string(),
                    response: json("[1]"),
                    parts: Some(vec![GeminiFunctionResponsePart {
                        inline_data: GeminiFunctionResponseBlob {
                            mime_type: "x/y".to_string(),
                            data: "BIN".to_string(),
                        },
                    }]),
                },
            },
        ]
    );
}

#[test]
fn gemini_contents_name_the_model_and_skip_empty_messages() {
    let contents = contents_for_request(&vec![
        Message::User(vec![text("q")]),
        Message::Assistant(vec![]),
        Message::Assistant(vec![text("a")]),
    ]);
    assert_eq!(
        contents,
        vec![
            GeminiContent { role: "user".to_string(), parts: vec![g_text("q", None)] },
            GeminiContent { role: "model".to_string(), parts: vec![g_text("a", None)] },
        ]
    );
    assert_eq!(
        system_instruction("be brief"),
        GeminiContent { role: "user".to_string(), parts: vec![g_text("be brief", None)] }
    );
}
