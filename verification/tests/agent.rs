use serde_json::Value;
use unai::agent::{
    answer, settle, tools_unavailable, Agent, Chat, ChatStream, Phase, Step, ToolCall,
};
use unai::client::ClientError;
use unai::mcp::MCPError;
use unai::model::{FinishReason, Message, Part, Response};
use unai::usage::Usage;

fn json(text: &str) -> Value {
    serde_json::from_str::<Value>(text).unwrap()
}

fn user(text: &str) -> Message {
    Message::User(vec![Part::Text { content: text.to_string(), finished: true }])
}

fn call_part(id: &str, name: &str, arguments: &str, finished: bool) -> Part {
    Part::FunctionCall {
        id: Some(id.to_string()),
        name: name.to_string(),
        arguments: json(arguments),
        signature: None,
        finished,
    }
}

fn calling(id: &str, name: &str, arguments: &str) -> Response {
    Response {
        data: vec![Message::Assistant(vec![
            Part::Text { content: "let me check".to_string(), finished: true },
            call_part(id, name, arguments, true),
        ])],
        usage: Usage { prompt_tokens: Some(10), completion_tokens: Some(2) },
        finish: FinishReason::ToolCalls,
    }
}

fn saying(text: &str) -> Response {
    Response {
        data: vec![Message::Assistant(vec![Part::Text {
            content: text.to_string(),
            finished: true,
        }])],
        usage: Usage { prompt_tokens: Some(20), completion_tokens: Some(3) },
        finish: FinishReason::Stop,
    }
}

fn tool_output(name: &str, response: &str) -> Part {
    Part::FunctionResponse {
        id: None,
        name: name.to_string(),
        response: json(response),
        parts: vec![],
        finished: true,
    }
}

/// Drives a one-shot loop with a transport that plays back `script`, one
/// response for each request, and a tool executor `tool`. Returns what the
/// loop returned and how many requests were made.
fn run_once(
    agent: &Agent<(), ()>,
    history: Vec<Message>,
    script: &dyn Fn(usize) -> Result<Response, ClientError>,
    tool: &dyn Fn(&str, &Value) -> Result<Part, MCPError>,
) -> (Result<Response, ClientError>, usize, Vec<Message>) {
    let mut chat = agent.chat(history);
    let mut requests = 0;
    loop {
        match chat.next_step() {
            Step::Request => {
                let response = script(requests);
                requests += 1;
                assert!(requests <= 1000, "the loop does not end");
                match response {
                    Ok(response) => {
                        assert!(chat.can_take(&response));
                        chat.on_response(response);
                    }
                    Err(error) => chat.on_transport_error(error),
                }
            }
            Step::CallTool { name, arguments } => {
                chat.on_tool_result(tool(&name, &arguments));
            }
            Step::Poll => panic!("a one-shot loop does not stream"),
            Step::Done | Step::Failed => break,
        }
    }
    let history = chat.history().clone();
    (chat.finish(), requests, history)
}

#[test]
fn the_loop_converges_once_the_model_stops_calling() {
    let agent = Agent::new(()).with_server(());
    let (result, requests, history) = run_once(
        &agent,
        vec![user("weather in Oslo?")],
        &|round| {
            if round == 0 {
                Ok(calling("call_1", "weather", "{\"city\": \"Oslo\"}"))
            } else {
                Ok(saying("It is sunny."))
            }
        },
        &|name, arguments| {
            assert_eq!(name, "weather");
            assert_eq!(arguments, &json("{\"city\": \"Oslo\"}"));
            Ok(tool_output("weather", "{\"sky\": \"sunny\"}"))
        },
    );
    assert_eq!(requests, 2);
    let output = result.unwrap();
    assert_eq!(output.finish, FinishReason::Stop);
    assert_eq!(output.usage, Usage { prompt_tokens: Some(30), completion_tokens: Some(5) });
    let answer = Message::User(vec![Part::FunctionResponse {
        id: Some("call_1".to_string()),
        name: "weather".to_string(),
        response: json("{\"sky\": \"sunny\"}"),
        parts: vec![],
        finished: true,
    }]);
    assert_eq!(
        output.data,
        vec![
            calling("call_1", "weather", "{\"city\": \"Oslo\"}").data.remove(0),
            answer.clone(),
            saying("It is sunny.").data.remove(0),
        ]
    );
    assert_eq!(history.len(), 4);
    assert_eq!(history[0], user("weather in Oslo?"));
    assert_eq!(history[2], answer);
}

#[test]
fn a_model_that_always_calls_uses_up_the_budget() {
    let agent = Agent::new(()).with_server(()).with_max_iterations(3);
    let (result, requests, history) = run_once(
        &agent,
        vec![user("go")],
        &|_| Ok(calling("c", "f", "{}")),
        &|_, _| Ok(tool_output("f", "1")),
    );
    assert_eq!(requests, 3);
    assert_eq!(
        result,
        Err(ClientError::Config("Max iterations reached in agent loop".to_string()))
    );
    assert_eq!(history.len(), 1 + 3 * 2);
}

#[test]
fn a_failing_tool_does_not_fail_the_loop() {
    let agent = Agent::new(()).with_server(());
    let (result, requests, _) = run_once(
        &agent,
        vec![user("go")],
        &|round| if round == 0 { Ok(calling("c9", "f", "{}")) } else { Ok(saying("sorry")) },
        &|_, _| Err(MCPError::ToolNotFound("f".to_string())),
    );
    assert_eq!(requests, 2);
    let output = result.unwrap();
    assert_eq!(output.data.len(), 3);
    assert_eq!(
        output.data[1],
        Message::User(vec![Part::FunctionResponse {
            id: Some("c9".to_string()),
            name: "f".to_string(),
            response: json("{\"error\": \"Error: Tool not found: f\"}"),
            parts: vec![],
            finished: true,
        }])
    );
}

#[test]
fn the_answers_of_a_round_go_into_one_message_in_call_order() {
    let agent = Agent::new(()).with_server(());
    let two_calls = || Response {
        data: vec![
            Message::Assistant(vec![call_part("a", "f", "1", true)]),
            Message::Assistant(vec![
                Part::Text { content: "and".to_string(), finished: true },
                call_part("b", "g", "2", false),
            ]),
        ],
        usage: Usage::default(),
        finish: FinishReason::ToolCalls,
    };
    let (result, requests, _) = run_once(
        &agent,
        vec![],
        &|round| if round == 0 { Ok(two_calls()) } else { Ok(saying("ok")) },
        &|name, arguments| {
            if name == "f" {
                Ok(tool_output("f", &arguments.to_string()))
            } else {
                Err(MCPError::Mcp("down".to_string()))
            }
        },
    );
    assert_eq!(requests, 2);
    let output = result.unwrap();
    assert_eq!(output.data.len(), 4);
    assert_eq!(
        output.data[2],
        Message::User(vec![
            Part::FunctionResponse {
                id: Some("a".to_string()),
                name: "f".to_string(),
                response: json("1"),
                parts: vec![],
                finished: true,
            },
            Part::FunctionResponse {
                id: Some("b".to_string()),
                name: "g".to_string(),
                response: json("{\"error\": \"Error: MCP error: down\"}"),
                parts: vec![],
                finished: true,
            },
        ])
    );
}

#[test]
fn a_call_without_a_server_fails_the_loop() {
    let agent = Agent::new(());
    let mut chat = agent.chat(vec![user("go")]);
    assert_eq!(chat.next_step(), Step::Request);
    chat.on_response(calling("c", "f", "{}"));
    assert_eq!(chat.phase(), Phase::Failed);
    assert_eq!(chat.next_step(), Step::Failed);
    assert_eq!(chat.history().len(), 2);
    assert_eq!(
        chat.finish(),
        Err(ClientError::Config("No MCP server configured".to_string()))
    );
}

#[test]
fn a_transport_error_ends_the_loop() {
    let agent = Agent::new(()).with_server(());
    let (result, requests, history) = run_once(
        &agent,
        vec![user("go")],
        &|round| {
            if round == 0 {
                Ok(calling("c", "f", "{}"))
            } else {
                Err(ClientError::Http("connection reset".to_string()))
            }
        },
        &|_, _| Ok(tool_output("f", "1")),
    );
    assert_eq!(requests, 2);
    assert_eq!(result, Err(ClientError::Http("connection reset".to_string())));
    assert_eq!(history.len(), 3);
}

#[test]
fn a_budget_of_no_rounds_fails_at_once() {
    let agent = Agent::new(()).with_max_iterations(0);
    let chat = agent.chat(vec![user("go")]);
    assert_eq!(chat.next_step(), Step::Failed);
    assert_eq!(chat.rounds(), 0);
    assert_eq!(
        chat.finish(),
        Err(ClientError::Config("Max iterations reached in agent loop".to_string()))
    );
    let stream = agent.chat_stream(vec![]);
    assert_eq!(stream.phase(), Phase::Failed);
    assert!(stream.finish().is_err());
}

#[test]
fn an_agent_starts_with_ten_rounds_and_no_server() {
    let agent = Agent::new(7u8);
    assert_eq!(agent.max_iterations(), 10);
    assert_eq!(*agent.client(), 7);
    assert!(agent.server().is_none());
    let agent = agent.with_max_iterations(4).with_server("tools");
    assert_eq!(agent.max_iterations(), 4);
    assert_eq!(*agent.client(), 7);
    assert_eq!(agent.server(), Some(&"tools"));
}

#[test]
fn an_answer_carries_the_id_of_the_call() {
    let call = ToolCall { id: Some("c1".to_string()), name: "f".to_string(), arguments: json("{}") };
    assert_eq!(
        answer(&call, Ok(tool_output("other", "[]"))),
        Part::FunctionResponse {
            id: Some("c1".to_string()),
            name: "other".to_string(),
            response: json("[]"),
            parts: vec![],
            finished: true,
        }
    );
    let text = Part::Text { content: "plain".to_string(), finished: true };
    assert_eq!(answer(&call, Ok(text.clone())), text);
    let nameless = ToolCall { id: None, name: "g".to_string(), arguments: Value::Null };
    assert_eq!(
        answer(&nameless, Err(MCPError::ServerIdMismatch)),
        Part::FunctionResponse {
            id: None,
            name: "g".to_string(),
            response: json("{\"error\": \"Error: Server ID mismatch\"}"),
            parts: vec![],
            finished: true,
        }
    );
}

#[test]
fn a_catalogue_that_cannot_be_fetched_is_a_provider_error() {
    assert_eq!(
        tools_unavailable(&MCPError::Mcp("closed".to_string())),
        ClientError::ProviderError(
            "Failed to list tools from MCP server: MCP error: closed".to_string()
        )
    );
}

fn partial(text: &str, call: Option<Part>) -> Response {
    let mut parts = vec![Part::Text { content: text.to_string(), finished: call.is_some() }];
    if let Some(call) = call {
        parts.push(call);
    }
    Response {
        data: vec![Message::Assistant(parts)],
        usage: Usage { prompt_tokens: Some(5), completion_tokens: Some(text.len() as u32) },
        finish: FinishReason::Unfinished,
    }
}

#[test]
fn a_snapshot_takes_the_place_of_the_one_before() {
    let mut stream = ChatStream::new(vec![user("go")], 10, true);
    assert_eq!(stream.next_step(), Step::Request);
    stream.on_stream_opened();
    assert_eq!(stream.next_step(), Step::Poll);
    stream.on_snapshot(partial("a", None));
    stream.on_snapshot(partial("ab", None));
    assert!(stream.can_take(&partial("abc", None)));
    stream.on_snapshot(partial("abc", Some(call_part("c", "f", "{}", true))));
    let shown = stream.snapshot();
    assert_eq!(shown.data, partial("abc", Some(call_part("c", "f", "{}", true))).data);
    assert_eq!(shown.usage, Usage { prompt_tokens: Some(5), completion_tokens: Some(3) });
    assert_eq!(stream.history().len(), 1);

    assert_eq!(stream.snapshot().finish, FinishReason::Unfinished);
    assert!(stream.on_stream_end());
    assert_eq!(stream.snapshot().finish, FinishReason::Stop);
    assert_eq!(stream.history().len(), 2);
    assert_eq!(stream.next_step(), Step::CallTool { name: "f".to_string(), arguments: json("{}") });
    assert!(stream.on_tool_result(Ok(tool_output("f", "true"))));
    assert_eq!(stream.snapshot().data.len(), 2);
    assert_eq!(stream.history().len(), 3);

    assert_eq!(stream.next_step(), Step::Request);
    stream.on_stream_opened();
    stream.on_snapshot(partial("x", None));
    stream.on_snapshot(partial("xy", None));
    let shown = stream.snapshot();
    assert_eq!(shown.data.len(), 3);
    assert_eq!(shown.data[0], partial("abc", Some(call_part("c", "f", "{}", true))).data[0]);
    assert_eq!(shown.data[2], partial("xy", None).data[0]);
    assert_eq!(shown.usage, Usage { prompt_tokens: Some(10), completion_tokens: Some(5) });
    stream.on_stream_end();
    assert_eq!(stream.phase(), Phase::Done);
    assert_eq!(stream.history().len(), 4);
    assert_eq!(stream.finish(), Ok(()));
}

#[test]
fn a_call_that_is_still_open_at_the_end_of_a_round_is_not_run() {
    let mut stream = ChatStream::new(vec![], 10, true);
    stream.on_stream_opened();
    stream.on_snapshot(partial("a", Some(call_part("c", "f", "{}", false))));
    stream.on_stream_end();
    assert_eq!(stream.phase(), Phase::Done);
    assert_eq!(stream.next_step(), Step::Done);
}

#[test]
fn a_streamed_round_without_messages_ends_the_loop() {
    let mut stream = ChatStream::new(vec![user("go")], 10, false);
    stream.on_stream_opened();
    stream.on_stream_end();
    assert_eq!(stream.phase(), Phase::Done);
    assert_eq!(stream.snapshot().data, vec![]);
    let mut failing = ChatStream::new(vec![], 2, false);
    failing.on_stream_opened();
    failing.on_snapshot(partial("a", Some(call_part("c", "f", "{}", true))));
    failing.on_stream_end();
    assert_eq!(
        failing.finish(),
        Err(ClientError::Config("No MCP server configured".to_string()))
    );
    let mut broken = ChatStream::new(vec![], 2, true);
    broken.on_stream_opened();
    broken.on_transport_error(ClientError::StreamCancelled);
    assert_eq!(broken.finish(), Err(ClientError::StreamCancelled));
}

#[test]
fn a_streamed_loop_uses_up_its_budget() {
    let mut stream = ChatStream::new(vec![], 2, true);
    let mut rounds = 0;
    loop {
        match stream.next_step() {
            Step::Request => {
                rounds += 1;
                stream.on_stream_opened();
                stream.on_snapshot(partial("a", Some(call_part("c", "f", "{}", true))));
                stream.on_stream_end();
            }
            Step::CallTool { .. } => {
                stream.on_tool_result(Err(MCPError::Mcp("x".to_string())));
            }
            Step::Poll => panic!("no stream is open"),
            Step::Done | Step::Failed => break,
        }
    }
    assert_eq!(rounds, 2);
    assert_eq!(stream.snapshot().data.len(), 4);
    assert_eq!(
        stream.finish(),
        Err(ClientError::Config("Max iterations reached in agent loop".to_string()))
    );
}

#[test]
fn a_turn_that_ended_without_a_reason_counts_as_stopped() {
    assert_eq!(settle(FinishReason::Unfinished), FinishReason::Stop);
    assert_eq!(settle(FinishReason::ToolCalls), FinishReason::ToolCalls);
    assert_eq!(settle(FinishReason::Error), FinishReason::Error);
    let mut chat = Chat::new(vec![], 3, false);
    let mut open = saying("hm");
    open.finish = FinishReason::Unfinished;
    chat.on_response(open);
    assert_eq!(chat.finish().unwrap().finish, FinishReason::Stop);
    let mut stream = ChatStream::new(vec![], 3, false);
    stream.on_stream_opened();
    stream.on_snapshot(saying("done"));
    assert!(!stream.on_stream_end());
    assert_eq!(stream.snapshot().finish, FinishReason::Stop);
}

#[test]
fn a_new_chat_has_done_nothing() {
    let chat = Chat::new(vec![user("a"), user("b")], 1, false);
    assert_eq!(chat.phase(), Phase::AwaitingModel);
    assert_eq!(chat.rounds(), 0);
    assert_eq!(chat.history(), &vec![user("a"), user("b")]);
}
