use serde_json::Value;
use unai::client::ClientError;
use unai::model::{
    clone_messages, clone_parts, FinishReason, Media, MediaType, Message, Part, Response, Role,
};
use unai::stream::Turn;
use unai::usage::Usage;

fn sample_parts() -> Vec<Part> {
    vec![
        Part::Media(Media {
            media_type: MediaType::Document,
            data: "AAAA".to_string(),
            mime_type: "application/pdf".to_string(),
            uri: Some("file:///a.pdf".to_string()),
            finished: false,
        }),
        Part::Reasoning {
            content: "thinking".to_string(),
            summary: Some("short".to_string()),
            signature: None,
            finished: false,
        },
        Part::Text { content: "text".to_string(), finished: false },
        Part::FunctionCall {
            id: Some("c".to_string()),
            name: "f".to_string(),
            arguments: serde_json::from_str::<Value>("{\"a\": [1, {\"b\": null}]}").unwrap(),
            signature: Some("sig".to_string()),
            finished: false,
        },
        Part::FunctionResponse {
            id: None,
            name: "f".to_string(),
            response: Value::String("done".to_string()),
            parts: vec![Media {
                media_type: MediaType::Image,
                data: "IMG".to_string(),
                mime_type: "image/png".to_string(),
                uri: None,
                finished: true,
            }],
            finished: false,
        },
    ]
}

#[test]
fn a_copy_equals_what_it_copies() {
    let parts = sample_parts();
    assert_eq!(clone_parts(&parts), parts);
    for part in &parts {
        assert_eq!(&part.clone(), part);
    }
    let messages = vec![Message::User(sample_parts()), Message::Assistant(vec![])];
    assert_eq!(clone_messages(&messages), messages);
    let response = Response {
        data: messages,
        usage: Usage { prompt_tokens: Some(1), completion_tokens: None },
        finish: FinishReason::ContentFilter,
    };
    assert_eq!(response.clone(), response);
}

#[test]
fn finishing_a_unit_changes_its_flag_only() {
    for part in sample_parts() {
        assert!(!part.is_finished());
        let mut closed = part.clone();
        closed.finish();
        assert!(closed.is_finished());
        closed.finish();
        assert!(closed.is_finished());
        let reopened = match closed {
            Part::Text { content, .. } => Part::Text { content, finished: false },
            Part::Reasoning { content, summary, signature, .. } => {
                Part::Reasoning { content, summary, signature, finished: false }
            }
            Part::FunctionCall { id, name, arguments, signature, .. } => {
                Part::FunctionCall { id, name, arguments, signature, finished: false }
            }
            Part::FunctionResponse { id, name, response, parts, .. } => {
                Part::FunctionResponse { id, name, response, parts, finished: false }
            }
            Part::Media(m) => Part::Media(Media { finished: false, ..m }),
        };
        assert_eq!(reopened, part);
    }
}

#[test]
fn a_message_knows_its_role_and_its_text() {
    let user = Message::User(sample_parts());
    assert_eq!(user.role(), &Role::User);
    assert_eq!(user.content(), Some("thinking".to_string()));
    assert_eq!(user.parts().len(), 5);
    let mut assistant = Message::Assistant(vec![]);
    assert_eq!(assistant.role(), &Role::Assistant);
    assert_eq!(assistant.content(), None);
    assistant.parts_mut().push(Part::Text { content: "hi".to_string(), finished: true });
    assert_eq!(assistant.content(), Some("hi".to_string()));
    assert_eq!(
        assistant,
        Message::Assistant(vec![Part::Text { content: "hi".to_string(), finished: true }])
    );
}

#[test]
fn only_unfinished_is_not_terminal() {
    assert!(!FinishReason::Unfinished.terminal());
    for reason in [
        FinishReason::Stop,
        FinishReason::OutputTokens,
        FinishReason::ToolCalls,
        FinishReason::ContentFilter,
        FinishReason::Error,
    ] {
        assert!(reason.terminal());
    }
}

#[test]
fn a_turn_closes_its_units() {
    let mut turn = Turn::new();
    for part in sample_parts() {
        turn.push(part);
    }
    turn.close_last();
    let shown = turn.snapshot();
    assert_eq!(shown.finish, FinishReason::Unfinished);
    let parts = shown.data[0].parts();
    assert!(parts[4].is_finished());
    assert!(!parts[3].is_finished());
    turn.count(&Usage { prompt_tokens: Some(2), completion_tokens: Some(3) });
    turn.count(&Usage { prompt_tokens: None, completion_tokens: Some(4) });
    turn.close_all();
    let done = turn.into_response();
    assert!(done.data[0].parts().iter().all(|p| p.is_finished()));
    assert_eq!(done.usage, Usage { prompt_tokens: Some(2), completion_tokens: Some(7) });
    let mut empty = Turn::new();
    empty.close_last();
    empty.close_all();
    assert_eq!(empty.into_response().data, vec![Message::Assistant(vec![])]);
}

#[test]
fn client_errors_have_messages() {
    assert_eq!(ClientError::Http("x".to_string()).message(), "HTTP error: x");
    assert_eq!(ClientError::Parse("x".to_string()).message(), "JSON parse error: x");
    assert_eq!(ClientError::ProviderError("x".to_string()).message(), "Provider error: x");
    assert_eq!(ClientError::StreamCancelled.message(), "Stream cancelled");
    assert_eq!(ClientError::Config("x".to_string()).message(), "Configuration error: x");
}

#[test]
fn closing_a_message_closes_its_units_and_keeps_the_rest() {
    let mut message = Message::User(sample_parts());
    message.close();
    assert_eq!(message.role(), &Role::User);
    let mut expected = sample_parts();
    for part in expected.iter_mut() {
        part.finish();
    }
    assert_eq!(message, Message::User(expected));
    let again = message.clone();
    message.close();
    assert_eq!(message, again);
}
