use serde_json::Value;
use unai::mcp::{
    attach_resources, contains_name, prompt_messages, resource_to_media, resource_to_part,
    tool_result_part, MCPError, PromptContent, PromptEntry, ResourceBody, Servable, Served,
    ToolContent, ToolOutput,
};
use unai::model::{Media, MediaType, Message, Part, Role};

fn json(text: &str) -> Value {
    serde_json::from_str::<Value>(text).unwrap()
}

fn blob(mime: Option<&str>) -> ResourceBody {
    ResourceBody::Blob {
        blob: "AAAA".to_string(),
        mime_type: mime.map(|s| s.to_string()),
        uri: "file:///x".to_string(),
    }
}

fn media(media_type: MediaType, data: &str, mime: &str, uri: Option<&str>) -> Media {
    Media {
        media_type,
        data: data.to_string(),
        mime_type: mime.to_string(),
        uri: uri.map(|s| s.to_string()),
        finished: true,
    }
}

#[test]
fn error_messages_name_what_went_wrong() {
    assert_eq!(MCPError::Mcp("x".to_string()).message(), "MCP error: x");
    assert_eq!(MCPError::ToolNotFound("t".to_string()).message(), "Tool not found: t");
    assert_eq!(MCPError::PromptNotFound("p".to_string()).message(), "Prompt not found: p");
    assert_eq!(MCPError::ResourceNotFound("r".to_string()).message(), "Resource not found: r");
    assert_eq!(MCPError::ServerNotFound("s".to_string()).message(), "Server not found: s");
    assert_eq!(MCPError::ServerIdMismatch.message(), "Server ID mismatch");
}

#[test]
fn a_served_value_remembers_its_server() {
    let served = Served::new(5u8, "srv".to_string());
    assert_eq!(served.value, 5);
    assert_eq!(served.server_id, "srv");
    let tool = rmcp::model::Tool::default();
    let served = tool.clone().served("srv-2".to_string());
    assert_eq!(served.value, tool);
    assert_eq!(served.server_id, "srv-2");
}

#[test]
fn blobs_are_classified_by_mime_type() {
    assert_eq!(
        resource_to_media(blob(Some("image/png"))),
        media(MediaType::Image, "AAAA", "image/png", Some("file:///x"))
    );
    assert_eq!(
        resource_to_media(blob(Some("application/pdf"))),
        media(MediaType::Document, "AAAA", "application/pdf", Some("file:///x"))
    );
    assert_eq!(
        resource_to_media(blob(Some("application/pdf; v=1"))),
        media(MediaType::Binary, "AAAA", "application/pdf; v=1", Some("file:///x"))
    );
    assert_eq!(
        resource_to_media(blob(Some("ximage/png"))),
        media(MediaType::Binary, "AAAA", "ximage/png", Some("file:///x"))
    );
    assert_eq!(
        resource_to_media(blob(None)),
        media(MediaType::Binary, "AAAA", "application/octet-stream", Some("file:///x"))
    );
}

#[test]
fn text_resources_default_to_plain_text() {
    let text = |mime: Option<&str>| ResourceBody::Text {
        text: "hello".to_string(),
        mime_type: mime.map(|s| s.to_string()),
        uri: "mem://t".to_string(),
    };
    assert_eq!(
        resource_to_part(text(None)),
        Part::Media(media(MediaType::Text, "hello", "text/plain", Some("mem://t")))
    );
    assert_eq!(
        resource_to_part(text(Some("image/svg+xml"))),
        Part::Media(media(MediaType::Text, "hello", "image/svg+xml", Some("mem://t")))
    );
}

fn shaped(content: Vec<ToolContent>, structured: Option<Value>) -> Part {
    tool_result_part("tool".to_string(), ToolOutput { content, structured_content: structured })
}

fn response_of(part: &Part) -> Value {
    match part {
        Part::FunctionResponse { response, .. } => response.clone(),
        _ => panic!("a tool result is a function response"),
    }
}

#[test]
fn structured_content_wins() {
    let part = shaped(
        vec![ToolContent::Text("{\"from\": \"text\"}".to_string())],
        Some(json("{\"from\": \"structured\"}")),
    );
    assert_eq!(
        part,
        Part::FunctionResponse {
            id: None,
            name: "tool".to_string(),
            response: json("{\"from\": \"structured\"}"),
            parts: vec![],
            finished: true,
        }
    );
}

#[test]
fn the_last_text_that_parses_is_the_response() {
    let part = shaped(
        vec![
            ToolContent::Text("[1]".to_string()),
            ToolContent::Text("plain".to_string()),
            ToolContent::Text("{\"n\": 2}".to_string()),
            ToolContent::Other,
        ],
        None,
    );
    assert_eq!(response_of(&part), json("{\"n\": 2}"));
}

#[test]
fn texts_that_do_not_parse_are_listed() {
    let part = shaped(
        vec![
            ToolContent::Text("first line".to_string()),
            ToolContent::Other,
            ToolContent::Text("second, line".to_string()),
        ],
        None,
    );
    assert_eq!(response_of(&part), json("{\"response\": [\"first line\", \"second, line\"]}"));
}

#[test]
fn an_output_without_text_has_an_empty_response() {
    assert_eq!(response_of(&shaped(vec![], None)), json("{}"));
    assert_eq!(response_of(&shaped(vec![ToolContent::Other], None)), json("{}"));
}

#[test]
fn images_and_resources_become_attachments_in_order() {
    let part = shaped(
        vec![
            ToolContent::Image { data: "IMG".to_string(), mime_type: "image/jpeg".to_string() },
            ToolContent::Text("caption".to_string()),
            ToolContent::Resource(blob(Some("application/pdf"))),
        ],
        None,
    );
    assert_eq!(
        part,
        Part::FunctionResponse {
            id: None,
            name: "tool".to_string(),
            response: json("{\"response\": [\"caption\"]}"),
            parts: vec![
                media(MediaType::Image, "IMG", "image/jpeg", None),
                media(MediaType::Document, "AAAA", "application/pdf", Some("file:///x")),
            ],
            finished: true,
        }
    );
}

#[test]
fn a_prompt_becomes_one_message_for_each_entry() {
    let messages = prompt_messages(vec![
        PromptEntry { role: Role::User, content: PromptContent::Text("hi".to_string()) },
        PromptEntry { role: Role::Assistant, content: PromptContent::Other },
        PromptEntry {
            role: Role::Assistant,
            content: PromptContent::Image {
                data: "IMG".to_string(),
                mime_type: "image/png".to_string(),
            },
        },
        PromptEntry { role: Role::User, content: PromptContent::Resource(blob(None)) },
    ]);
    assert_eq!(
        messages,
        vec![
            Message::User(vec![Part::Text { content: "hi".to_string(), finished: true }]),
            Message::Assistant(vec![Part::Media(media(MediaType::Image, "IMG", "image/png", None))]),
            Message::User(vec![Part::Media(media(
                MediaType::Binary,
                "AAAA",
                "application/octet-stream",
                Some("file:///x")
            ))]),
        ]
    );
    assert_eq!(prompt_messages(vec![]), vec![]);
}

#[test]
fn resources_are_attached_after_the_units_of_a_message() {
    let message = Message::User(vec![Part::Text { content: "see".to_string(), finished: true }]);
    let attached = attach_resources(message, vec![blob(Some("image/gif")), blob(None)]);
    assert_eq!(
        attached,
        Message::User(vec![
            Part::Text { content: "see".to_string(), finished: true },
            Part::Media(media(MediaType::Image, "AAAA", "image/gif", Some("file:///x"))),
            Part::Media(media(
                MediaType::Binary,
                "AAAA",
                "application/octet-stream",
                Some("file:///x")
            )),
        ])
    );
    assert_eq!(
        attach_resources(Message::Assistant(vec![]), vec![]),
        Message::Assistant(vec![])
    );
}

#[test]
fn names_are_found_by_exact_match() {
    let names = vec!["alpha".to_string(), "beta".to_string()];
    assert!(contains_name(&names, "beta"));
    assert!(!contains_name(&names, "bet"));
    assert!(!contains_name(&names, "Beta"));
    assert!(!contains_name(&vec![], "alpha"));
}
