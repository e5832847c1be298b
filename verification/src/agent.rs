//! The tool-execution loop.
//!
//! An agent sends the conversation to a model, runs the tools that the
//! model calls, appends their results, and asks again, until the model
//! calls no tool or the budget of rounds is used up.
//!
//! Sending requests and running tools is not done here. This module holds
//! the decisions: `Chat` and `ChatStream` say in `next_step` what has to
//! happen next, and take what happened through their `on_` methods. The
//! caller owns the loop and does the work.

use crate::client::{ClientError, ClientErrorView};
use crate::json::{json_member, json_string, member_object, string_value};
use crate::mcp::{MCPError, MCPErrorView};
use crate::model::{
    clone_opt_string, message_views, opt_text, part_views, FinishReason, Message,
    MessageView, Part, PartView, Response, ResponseView, Role,
};
use crate::text::concat;
use crate::usage::{Usage, UsageView};
use serde_json::Value;
use vstd::prelude::*;
use vstd::string::StringExecFns;

verus! {

/// A call that the model asked for.
#[derive(Debug, PartialEq)]
pub struct ToolCall {
    pub id: Option<String>,
    pub name: String,
    pub arguments: Value,
}

pub struct ToolCallView {
    pub id: Option<Seq<char>>,
    pub name: Seq<char>,
    pub arguments: Value,
}

impl View for ToolCall {
    type V = ToolCallView;

    open spec fn view(&self) -> ToolCallView {
        ToolCallView { id: opt_text(self.id), name: self.name@, arguments: self.arguments }
    }
}

/// The views of a sequence of calls.
pub open spec fn call_views(v: Seq<ToolCall>) -> Seq<ToolCallView> {
    v.map_values(|c: ToolCall| c@)
}

/// Where the loop stands.
#[derive(Debug, Clone, Copy, PartialEq, Eq, Structural)]
pub enum Phase {
    /// The conversation has to be sent to the model.
    AwaitingModel,
    /// A streamed round is open and snapshots are arriving.
    Streaming,
    /// The calls of the round are being run, one after another.
    ExecutingTools,
    /// The model called no tool: the loop converged.
    Done,
    /// The loop ended with an error.
    Failed,
}

/// What the caller has to do next.
#[derive(Debug, PartialEq)]
pub enum Step {
    /// Send the history to the model.
    Request,
    /// Wait for the next snapshot of the open stream, or for its end.
    Poll,
    /// Run this tool and report what it returned.
    CallTool { name: String, arguments: Value },
    /// Nothing: the loop converged.
    Done,
    /// Nothing: the loop failed.
    Failed,
}

pub enum StepView {
    Request,
    Poll,
    CallTool { name: Seq<char>, arguments: Value },
    Done,
    Failed,
}

impl View for Step {
    type V = StepView;

    open spec fn view(&self) -> StepView {
        match *self {
            Step::Request => StepView::Request,
            Step::Poll => StepView::Poll,
            Step::CallTool { name, arguments } => StepView::CallTool { name: name@, arguments },
            Step::Done => StepView::Done,
            Step::Failed => StepView::Failed,
        }
    }
}

/// The message of the error for a loop that used up its rounds.
pub open spec fn limit_message() -> Seq<char> {
    "Max iterations reached in agent loop"@
}

/// The message of the error for a call without anything to run it.
pub open spec fn no_server_message() -> Seq<char> {
    "No MCP server configured"@
}

/// The call that a function-call unit asks for.
pub open spec fn call_of(unit: PartView) -> ToolCallView {
    ToolCallView {
        id: unit->FunctionCall_id,
        name: unit->FunctionCall_name,
        arguments: unit->FunctionCall_arguments,
    }
}

/// Whether a unit is a call to act on. A streamed round acts on closed
/// calls only.
pub open spec fn is_call(unit: PartView, only_finished: bool) -> bool {
    unit is FunctionCall && (!only_finished || unit.finished())
}

/// The calls among the units, in order.
pub open spec fn calls_in(parts: Seq<PartView>, only_finished: bool) -> Seq<ToolCallView>
    decreases parts.len(),
{
    if parts.len() == 0 {
        Seq::empty()
    } else if is_call(parts.last(), only_finished) {
        calls_in(parts.drop_last(), only_finished).push(call_of(parts.last()))
    } else {
        calls_in(parts.drop_last(), only_finished)
    }
}

/// The calls in the messages, in order.
pub open spec fn calls_of(messages: Seq<MessageView>) -> Seq<ToolCallView>
    decreases messages.len(),
{
    if messages.len() == 0 {
        Seq::empty()
    } else {
        calls_of(messages.drop_last()) + calls_in(messages.last().parts, false)
    }
}

/// What running a tool gave: a unit, or the error.
pub open spec fn result_view(result: Result<Part, MCPError>) -> Result<PartView, MCPErrorView> {
    match result {
        Ok(part) => Ok(part@),
        Err(e) => Err(e@),
    }
}

/// The payload that stands for a failed tool: an object whose `error`
/// member is the message of the error.
pub open spec fn error_payload(error: MCPErrorView) -> Value {
    json_member("error"@, json_string("Error: "@ + error.message()))
}

/// The unit that answers a call. A function response from the tool gets the
/// id of the call. A failure becomes a closed function response with the
/// error as its payload, so it is content for the model and not an error
/// of the loop.
pub open spec fn answered(call: ToolCallView, result: Result<PartView, MCPErrorView>) -> PartView {
    match result {
        Ok(part) => match part {
            PartView::FunctionResponse { id: _, name, response, parts, finished } => {
                PartView::FunctionResponse { id: call.id, name, response, parts, finished }
            },
            _ => part,
        },
        Err(error) => PartView::FunctionResponse {
            id: call.id,
            name: call.name,
            response: error_payload(error),
            parts: Seq::empty(),
            finished: true,
        },
    }
}

/// The finish reason of a turn that is over: one that ended without
/// saying why counts as a normal stop.
pub open spec fn settled(finish: FinishReason) -> FinishReason {
    if finish == FinishReason::Unfinished {
        FinishReason::Stop
    } else {
        finish
    }
}

/// The finish reason of a turn that is over.
pub fn settle(finish: FinishReason) -> (r: FinishReason)
    ensures
        r == settled(finish),
        r.is_terminal(),
{
    match finish {
        FinishReason::Unfinished => FinishReason::Stop,
        other => other,
    }
}

/// The state of a loop.
pub struct ChatView {
    /// The conversation, as it would be sent to the model.
    pub history: Seq<MessageView>,
    /// Everything that the loop has added, with the token totals.
    pub output: ResponseView,
    /// How many rounds are complete.
    pub rounds: nat,
    pub max_iterations: nat,
    pub has_server: bool,
    /// The calls of the round.
    pub pending: Seq<ToolCallView>,
    /// The answers to the calls that have been run.
    pub results: Seq<PartView>,
    pub phase: Phase,
    pub error: Option<ClientErrorView>,
}

impl ChatView {
    pub open spec fn initial(history: Seq<MessageView>, max_iterations: nat, has_server: bool) -> ChatView {
        ChatView {
            history,
            output: ResponseView {
                data: Seq::empty(),
                usage: UsageView::empty(),
                finish: FinishReason::Unfinished,
            },
            rounds: 0,
            max_iterations,
            has_server,
            pending: Seq::empty(),
            results: Seq::empty(),
            phase: if max_iterations == 0 {
                Phase::Failed
            } else {
                Phase::AwaitingModel
            },
            error: if max_iterations == 0 {
                Some(ClientErrorView::Config(limit_message()))
            } else {
                None
            },
        }
    }

    pub open spec fn wf(self) -> bool {
        &&& self.phase == Phase::Failed <==> self.error is Some
        &&& self.phase == Phase::ExecutingTools ==> self.results.len() < self.pending.len()
        &&& self.phase != Phase::Failed ==> self.rounds < self.max_iterations
        &&& self.phase == Phase::Done ==> self.output.finish.is_terminal()
    }

    /// The loop, failed with an error.
    pub open spec fn failed(self, error: ClientErrorView) -> ChatView {
        ChatView { phase: Phase::Failed, error: Some(error), ..self }
    }

    /// The loop once the calls of a round are known: without calls it is
    /// done, without anything to run them it fails, else it runs them.
    pub open spec fn with_calls(self, calls: Seq<ToolCallView>) -> ChatView {
        if calls.len() == 0 {
            ChatView { phase: Phase::Done, ..self }
        } else if !self.has_server {
            self.failed(ClientErrorView::Config(no_server_message()))
        } else {
            ChatView { phase: Phase::ExecutingTools, pending: calls, results: Seq::empty(), ..self }
        }
    }

    /// The loop after the model's response to a request: the messages are
    /// appended to the history and to the output, the usage is merged into
    /// the totals, and every call in the messages is to be run.
    pub open spec fn responded(self, response: ResponseView) -> ChatView {
        ChatView {
            history: self.history + response.data,
            output: ResponseView {
                data: self.output.data + response.data,
                usage: self.output.usage.merge(response.usage),
                finish: settled(response.finish),
            },
            ..self
        }.with_calls(calls_of(response.data))
    }

    /// The loop after the last call of a round was answered: the answers
    /// go into one user message after the messages of the round, and the
    /// round is complete. The loop fails if that was the last round of the
    /// budget.
    pub open spec fn round_closed(self, results: Seq<PartView>) -> ChatView {
        let message = MessageView { role: Role::User, parts: results };
        let s = ChatView {
            history: self.history.push(message),
            output: ResponseView { data: self.output.data.push(message), ..self.output },
            rounds: self.rounds + 1,
            pending: Seq::empty(),
            results: Seq::empty(),
            phase: Phase::AwaitingModel,
            ..self
        };
        if self.rounds + 1 >= self.max_iterations {
            s.failed(ClientErrorView::Config(limit_message()))
        } else {
            s
        }
    }

    /// The loop after a tool ran: the call that was due is answered.
    pub open spec fn tool_done(self, result: Result<PartView, MCPErrorView>) -> ChatView {
        let results = self.results.push(answered(self.pending[self.results.len() as int], result));
        if results.len() < self.pending.len() {
            ChatView { results, ..self }
        } else {
            self.round_closed(results)
        }
    }

    /// What is due in this state.
    pub open spec fn step(self) -> StepView {
        match self.phase {
            Phase::AwaitingModel => StepView::Request,
            Phase::Streaming => StepView::Poll,
            Phase::ExecutingTools => StepView::CallTool {
                name: self.pending[self.results.len() as int].name,
                arguments: self.pending[self.results.len() as int].arguments,
            },
            Phase::Done => StepView::Done,
            Phase::Failed => StepView::Failed,
        }
    }

    /// What the loop returns when it has ended: the output if it converged,
    /// and only the error if it failed.
    pub open spec fn outcome(self) -> Result<ResponseView, ClientErrorView> {
        match self.error {
            Some(e) => Err(e),
            None => Ok(self.output),
        }
    }
}

/// The view of what a loop returned.
pub open spec fn outcome_view(r: Result<Response, ClientError>) -> Result<
    ResponseView,
    ClientErrorView,
> {
    match r {
        Ok(response) => Ok(response@),
        Err(e) => Err(e@),
    }
}

/// Adds the calls among the units to a list.
fn collect_calls(parts: &Vec<Part>, only_finished: bool, out: &mut Vec<ToolCall>)
    ensures
        call_views(final(out)@) == call_views(old(out)@) + calls_in(
            part_views(parts@),
            only_finished,
        ),
{
    let ghost units = part_views(parts@);
    let mut i: usize = 0;
    assert(call_views(out@) =~= call_views(old(out)@) + calls_in(units.take(0), only_finished));
    while i < parts.len()
        invariant
            i <= parts.len(),
            units == part_views(parts@),
            call_views(out@) == call_views(old(out)@) + calls_in(
                units.take(i as int),
                only_finished,
            ),
        decreases parts.len() - i,
    {
        assert(units.take(i + 1).drop_last() =~= units.take(i as int));
        assert(units.take(i + 1).last() == parts[i as int]@);
        match &parts[i] {
            Part::FunctionCall { id, name, arguments, finished, .. } => {
                if !only_finished || *finished {
                    let ghost before = call_views(out@);
                    out.push(
                        ToolCall {
                            id: clone_opt_string(id),
                            name: name.clone(),
                            arguments: arguments.clone(),
                        },
                    );
                    assert(call_views(out@) =~= before.push(call_of(parts[i as int]@)));
                    assert(call_views(out@) =~= call_views(old(out)@) + calls_in(
                        units.take(i + 1),
                        only_finished,
                    ));
                }
            },
            _ => {},
        }
        i += 1;
    }
    assert(units.take(i as int) =~= units);
}

/// The unit that answers a call.
pub fn answer(call: &ToolCall, result: Result<Part, MCPError>) -> (r: Part)
    ensures
        r@ == answered(call@, result_view(result)),
{
    match result {
        Ok(part) => match part {
            Part::FunctionResponse { id, name, response, parts, finished } => {
                Part::FunctionResponse {
                    id: clone_opt_string(&call.id),
                    name,
                    response,
                    parts,
                    finished,
                }
            },
            other => other,
        },
        Err(error) => {
            let message = concat("Error: ", error.message().as_str());
            let r = Part::FunctionResponse {
                id: clone_opt_string(&call.id),
                name: call.name.clone(),
                response: member_object("error", string_value(message.as_str())),
                parts: Vec::new(),
                finished: true,
            };
            assert(r@->FunctionResponse_parts =~= Seq::empty());
            r
        },
    }
}

/// The error for a tool catalogue that could not be fetched.
pub fn tools_unavailable(error: &MCPError) -> (r: ClientError)
    ensures
        r@ == ClientErrorView::ProviderError(
            "Failed to list tools from MCP server: "@ + error@.message(),
        ),
{
    ClientError::ProviderError(
        concat("Failed to list tools from MCP server: ", error.message().as_str()),
    )
}

/// A one-shot loop: every round is one request and one whole response.
#[derive(Debug)]
pub struct Chat {
    history: Vec<Message>,
    output: Response,
    rounds: usize,
    max_iterations: usize,
    has_server: bool,
    pending: Vec<ToolCall>,
    results: Vec<Part>,
    phase: Phase,
    error: Option<ClientError>,
}

/// The view of an optional error.
pub open spec fn error_view(e: Option<ClientError>) -> Option<ClientErrorView> {
    match e {
        Some(e) => Some(e@),
        None => None,
    }
}

impl View for Chat {
    type V = ChatView;

    closed spec fn view(&self) -> ChatView {
        ChatView {
            history: message_views(self.history@),
            output: self.output@,
            rounds: self.rounds as nat,
            max_iterations: self.max_iterations as nat,
            has_server: self.has_server,
            pending: call_views(self.pending@),
            results: part_views(self.results@),
            phase: self.phase,
            error: error_view(self.error),
        }
    }
}

impl Chat {
    /// A loop over a conversation that has not asked the model yet. With a
    /// budget of no rounds it has failed already.
    pub fn new(history: Vec<Message>, max_iterations: usize, has_server: bool) -> (r: Chat)
        ensures
            r@ == ChatView::initial(message_views(history@), max_iterations as nat, has_server),
            r@.wf(),
    {
        let failed = max_iterations == 0;
        let r = Chat {
            history,
            output: Response {
                data: Vec::new(),
                usage: Usage::default(),
                finish: FinishReason::Unfinished,
            },
            rounds: 0,
            max_iterations,
            has_server,
            pending: Vec::new(),
            results: Vec::new(),
            phase: if failed {
                Phase::Failed
            } else {
                Phase::AwaitingModel
            },
            error: if failed {
                Some(ClientError::Config(String::from_str("Max iterations reached in agent loop")))
            } else {
                None
            },
        };
        assert(r@.output.data =~= Seq::empty());
        assert(r@.pending =~= Seq::empty());
        assert(r@.results =~= Seq::empty());
        r
    }

    /// Where the loop stands.
    pub fn phase(&self) -> (r: Phase)
        ensures
            r == self@.phase,
    {
        self.phase
    }

    /// The conversation as it is to be sent to the model.
    pub fn history(&self) -> (r: &Vec<Message>)
        ensures
            message_views(r@) == self@.history,
    {
        &self.history
    }

    /// How many rounds are complete.
    pub fn rounds(&self) -> (r: usize)
        ensures
            r == self@.rounds,
    {
        self.rounds
    }

    /// What the caller has to do next.
    pub fn next_step(&self) -> (r: Step)
        requires
            self@.wf(),
        ensures
            r@ == self@.step(),
    {
        match self.phase {
            Phase::AwaitingModel => Step::Request,
            Phase::Streaming => Step::Poll,
            Phase::ExecutingTools => {
                assert(self@.results.len() == self.results.len());
                assert(self@.pending.len() == self.pending.len());
                let call = &self.pending[self.results.len()];
                Step::CallTool { name: call.name.clone(), arguments: call.arguments.clone() }
            },
            Phase::Done => Step::Done,
            Phase::Failed => Step::Failed,
        }
    }

    fn fail(&mut self, error: ClientError)
        ensures
            final(self)@ == old(self)@.failed(error@),
    {
        self.phase = Phase::Failed;
        self.error = Some(error);
    }

    /// The request failed: the loop ends with the transport's error.
    pub fn on_transport_error(&mut self, error: ClientError)
        requires
            old(self)@.wf(),
        ensures
            final(self)@ == old(self)@.failed(error@),
            final(self)@.wf(),
    {
        self.fail(error);
    }

    fn take_calls(&mut self, calls: Vec<ToolCall>)
        requires
            old(self)@.wf(),
            old(self)@.phase != Phase::Failed,
            old(self)@.output.finish.is_terminal(),
        ensures
            final(self)@ == old(self)@.with_calls(call_views(calls@)),
            final(self)@.wf(),
    {
        assert(call_views(calls@).len() == calls.len());
        if calls.len() == 0 {
            self.phase = Phase::Done;
        } else if !self.has_server {
            self.fail(ClientError::Config(String::from_str("No MCP server configured")));
        } else {
            self.phase = Phase::ExecutingTools;
            self.pending = calls;
            self.results = Vec::new();
            assert(self@.results =~= Seq::empty());
        }
    }

    /// Whether `on_response` can take the response: its usage, merged into
    /// the totals, must stay within 32 bits.
    pub fn can_take(&self, response: &Response) -> (r: bool)
        ensures
            r == self@.output.usage.merge(response@.usage).fits(),
    {
        self.output.usage.can_merge(&response.usage)
    }

    /// The model answered the request.
    ///
    /// Its messages go to the history and to the output. If they hold no
    /// call, the loop is done. If they do and nothing can run them, the
    /// loop fails. Otherwise the calls are run in the order they appear.
    pub fn on_response(&mut self, response: Response)
        requires
            old(self)@.wf(),
            old(self)@.phase == Phase::AwaitingModel,
            old(self)@.output.usage.merge(response@.usage).fits(),
        ensures
            final(self)@ == old(self)@.responded(response@),
            final(self)@.wf(),
            old(self)@.history.is_prefix_of(final(self)@.history),
    {
        let ghost incoming = response@.data;
        let mut calls: Vec<ToolCall> = Vec::new();
        let mut i: usize = 0;
        assert(call_views(calls@) =~= calls_of(incoming.take(0)));
        assert(self@.history =~= old(self)@.history + incoming.take(0));
        assert(self@.output.data =~= old(self)@.output.data + incoming.take(0));
        while i < response.data.len()
            invariant
                i <= response.data.len(),
                incoming == message_views(response.data@),
                call_views(calls@) == calls_of(incoming.take(i as int)),
                self@.history == old(self)@.history + incoming.take(i as int),
                self@.output.data == old(self)@.output.data + incoming.take(i as int),
                self.output.usage == old(self).output.usage,
                self.rounds == old(self).rounds,
                self.max_iterations == old(self).max_iterations,
                self.has_server == old(self).has_server,
                self.pending == old(self).pending,
                self.results == old(self).results,
                self.phase == old(self).phase,
                self.error == old(self).error,
            decreases response.data.len() - i,
        {
            let message = &response.data[i];
            assert(incoming.take(i + 1).drop_last() =~= incoming.take(i as int));
            assert(incoming.take(i + 1).last() == message@);
            let ghost history = self@.history;
            let ghost data = self@.output.data;
            self.history.push(message.clone());
            self.output.data.push(message.clone());
            assert(self@.history =~= history.push(message@));
            assert(self@.output.data =~= data.push(message@));
            assert(self@.history =~= old(self)@.history + incoming.take(i + 1));
            assert(self@.output.data =~= old(self)@.output.data + incoming.take(i + 1));
            collect_calls(message.parts(), false, &mut calls);
            i += 1;
        }
        assert(incoming.take(i as int) =~= incoming);
        self.output.usage = self.output.usage.merge(&response.usage);
        self.output.finish = settle(response.finish);
        self.take_calls(calls);
    }

    /// A tool ran: the call that was due is answered.
    ///
    /// A tool that failed does not fail the loop: its error becomes the
    /// payload of the answer. With the last answer of a round, all answers
    /// go into one user message after the messages of the round. The loop
    /// fails if that was the last round of the budget, and asks the model
    /// again otherwise. The result says whether the round was closed.
    pub fn on_tool_result(&mut self, result: Result<Part, MCPError>) -> (closed: bool)
        requires
            old(self)@.wf(),
            old(self)@.phase == Phase::ExecutingTools,
        ensures
            final(self)@ == old(self)@.tool_done(result_view(result)),
            final(self)@.wf(),
            closed == (final(self)@.phase != Phase::ExecutingTools),
            old(self)@.history.is_prefix_of(final(self)@.history),
    {
        assert(self@.results.len() == self.results.len());
        assert(self@.pending.len() == self.pending.len());
        let part = answer(&self.pending[self.results.len()], result);
        let ghost before = self@.results;
        self.results.push(part);
        assert(self@.results =~= before.push(part@));
        if self.results.len() < self.pending.len() {
            false
        } else {
            let mut results: Vec<Part> = Vec::new();
            core::mem::swap(&mut results, &mut self.results);
            let message = Message::User(results);
            let ghost history = self@.history;
            let ghost data = self@.output.data;
            self.history.push(message.clone());
            self.output.data.push(message);
            assert(self@.history =~= history.push(message@));
            assert(self@.output.data =~= data.push(message@));
            self.pending = Vec::new();
            assert(self@.pending =~= Seq::empty());
            assert(self@.results =~= Seq::empty());
            self.rounds = self.rounds + 1;
            self.phase = Phase::AwaitingModel;
            if self.rounds >= self.max_iterations {
                self.fail(
                    ClientError::Config(String::from_str("Max iterations reached in agent loop")),
                );
            }
            true
        }
    }

    /// What the loop returns. A loop that failed returns its error only:
    /// what it had accumulated is dropped, so that a run that did not
    /// converge cannot be taken for one that did.
    pub fn finish(self) -> (r: Result<Response, ClientError>)
        requires
            self@.wf(),
            self@.phase == Phase::Done || self@.phase == Phase::Failed,
        ensures
            outcome_view(r) == self@.outcome(),
            r is Ok <==> self@.phase == Phase::Done,
            r matches Ok(response) ==> response@.finish.is_terminal(),
    {
        match self.error {
            Some(e) => Err(e),
            None => Ok(self.output),
        }
    }
}

/// The state of a streamed loop.
pub struct ChatStreamView {
    pub chat: ChatView,
    /// How many messages the output held when the round was opened.
    pub base_len: nat,
    /// The token totals when the round was opened.
    pub base_usage: UsageView,
}

impl ChatStreamView {
    pub open spec fn initial(history: Seq<MessageView>, max_iterations: nat, has_server: bool) -> ChatStreamView {
        ChatStreamView {
            chat: ChatView::initial(history, max_iterations, has_server),
            base_len: 0,
            base_usage: UsageView::empty(),
        }
    }

    pub open spec fn wf(self) -> bool {
        &&& self.chat.wf()
        &&& self.chat.phase == Phase::Streaming ==> self.base_len <= self.chat.output.data.len()
    }

    /// The loop once the stream of a round is open: what the output holds
    /// now is what the earlier rounds left.
    pub open spec fn opened(self) -> ChatStreamView {
        ChatStreamView {
            chat: ChatView { phase: Phase::Streaming, ..self.chat },
            base_len: self.chat.output.data.len(),
            base_usage: self.chat.output.usage,
        }
    }

    /// The loop after a snapshot of the round: it takes the place of the
    /// snapshot before it. What the earlier rounds left stays as it is.
    pub open spec fn updated(self, response: ResponseView) -> ChatStreamView {
        ChatStreamView {
            chat: ChatView {
                output: ResponseView {
                    data: self.chat.output.data.take(self.base_len as int) + response.data,
                    usage: self.base_usage.merge(response.usage),
                    finish: response.finish,
                },
                ..self.chat
            },
            ..self
        }
    }

    /// The calls to run at the end of a streamed round: the closed calls of
    /// the last message. A call that is still open is not acted on.
    pub open spec fn due(self) -> Seq<ToolCallView> {
        if self.chat.output.data.len() > 0 {
            calls_in(self.chat.output.data.last().parts, true)
        } else {
            Seq::empty()
        }
    }

    /// The loop after the stream of a round ended: the messages of the
    /// round go to the history, and the calls that are due are to be run.
    pub open spec fn ended(self) -> ChatStreamView {
        ChatStreamView {
            chat: ChatView {
                history: self.chat.history + self.chat.output.data.skip(self.base_len as int),
                output: ResponseView {
                    finish: settled(self.chat.output.finish),
                    ..self.chat.output
                },
                ..self.chat
            }.with_calls(self.due()),
            ..self
        }
    }
}

/// A snapshot takes the place of the one before it: after two snapshots of
/// a round the output is what it would be after the second alone, and the
/// messages of earlier rounds are untouched.
pub proof fn snapshot_supersedes(s: ChatStreamView, first: ResponseView, second: ResponseView)
    requires
        s.wf(),
        s.chat.phase == Phase::Streaming,
    ensures
        s.updated(first).updated(second) == s.updated(second),
        s.updated(second).chat.output.data.take(s.base_len as int) == s.chat.output.data.take(
            s.base_len as int,
        ),
        s.updated(second).chat.history == s.chat.history,
{
    let a = s.updated(first).chat.output.data;
    assert(a.take(s.base_len as int) =~= s.chat.output.data.take(s.base_len as int));
    assert(s.updated(second).chat.output.data.take(s.base_len as int) =~= s.chat.output.data.take(
        s.base_len as int,
    ));
}

/// The loop after tools ran with the given results, in order.
pub open spec fn tools_done(s: ChatView, results: Seq<Result<PartView, MCPErrorView>>) -> ChatView
    decreases results.len(),
{
    if results.len() == 0 {
        s
    } else {
        tools_done(s, results.drop_last()).tool_done(results.last())
    }
}

/// The answers to the calls of a round, in order.
pub open spec fn answers(
    calls: Seq<ToolCallView>,
    results: Seq<Result<PartView, MCPErrorView>>,
) -> Seq<PartView> {
    Seq::new(results.len(), |i: int| answered(calls[i], results[i]))
}

/// One round of a loop: the response of the model, and what the tools
/// returned for the calls in it.
pub struct Round {
    pub response: ResponseView,
    pub results: Seq<Result<PartView, MCPErrorView>>,
}

impl Round {
    /// A round whose response holds calls, with a result for each.
    pub open spec fn calls_tools(self) -> bool {
        calls_of(self.response.data).len() > 0 && self.results.len() == calls_of(
            self.response.data,
        ).len()
    }
}

/// The loop after a round.
pub open spec fn after_round(s: ChatView, round: Round) -> ChatView {
    tools_done(s.responded(round.response), round.results)
}

/// The loop after rounds, in order.
pub open spec fn after_rounds(s: ChatView, rounds: Seq<Round>) -> ChatView
    decreases rounds.len(),
{
    if rounds.len() == 0 {
        s
    } else {
        after_round(after_rounds(s, rounds.drop_last()), rounds.last())
    }
}

proof fn tools_done_partly(s: ChatView, results: Seq<Result<PartView, MCPErrorView>>)
    requires
        s.wf(),
        s.phase == Phase::ExecutingTools,
        s.results.len() == 0,
        results.len() < s.pending.len(),
    ensures
        tools_done(s, results) == (ChatView { results: answers(s.pending, results), ..s }),
    decreases results.len(),
{
    if results.len() == 0 {
        assert(answers(s.pending, results) =~= s.results);
    } else {
        tools_done_partly(s, results.drop_last());
        assert(answers(s.pending, results.drop_last()).push(
            answered(s.pending[results.len() - 1], results.last()),
        ) =~= answers(s.pending, results));
    }
}

/// A response without calls ends the loop: it converges with everything
/// accumulated so far, and the response's messages last.
pub proof fn converges_without_calls(s: ChatView, response: ResponseView)
    requires
        s.wf(),
        s.phase == Phase::AwaitingModel,
        calls_of(response.data).len() == 0,
    ensures
        s.responded(response).phase == Phase::Done,
        s.responded(response).outcome() == Ok::<ResponseView, ClientErrorView>(
            ResponseView {
                data: s.output.data + response.data,
                usage: s.output.usage.merge(response.usage),
                finish: settled(response.finish),
            },
        ),
        s.responded(response).rounds == s.rounds,
{
}

/// A round with calls adds the messages of the response and then one user
/// message with the answers, in the order of the calls, and uses up one
/// round of the budget. Whether tools failed makes no difference to where
/// the loop stands: it fails only when the budget is used up.
pub proof fn round_with_calls(s: ChatView, round: Round)
    requires
        s.wf(),
        s.phase == Phase::AwaitingModel,
        s.has_server,
        round.calls_tools(),
    ensures
        ({
            let t = after_round(s, round);
            let message = MessageView {
                role: Role::User,
                parts: answers(calls_of(round.response.data), round.results),
            };
            &&& t.wf()
            &&& t.history == (s.history + round.response.data).push(message)
            &&& t.output.data == (s.output.data + round.response.data).push(message)
            &&& t.output.usage == s.output.usage.merge(round.response.usage)
            &&& t.rounds == s.rounds + 1
            &&& t.max_iterations == s.max_iterations
            &&& t.has_server
            &&& if s.rounds + 1 == s.max_iterations {
                t.phase == Phase::Failed && t.error == Some(
                    ClientErrorView::Config(limit_message()),
                )
            } else {
                t.phase == Phase::AwaitingModel
            }
        }),
{
    let r = s.responded(round.response);
    let results = round.results;
    tools_done_partly(r, results.drop_last());
    assert(answers(r.pending, results.drop_last()).push(
        answered(r.pending[results.len() - 1], results.last()),
    ) =~= answers(r.pending, results));
}

/// A model that calls tools in every round cannot keep the loop going: a
/// loop with rounds left that meets as many such rounds as it has left
/// fails with the error for a used-up budget, and not before.
pub proof fn always_calling_exhausts_budget(s: ChatView, rounds: Seq<Round>)
    requires
        s.wf(),
        s.phase == Phase::AwaitingModel,
        s.has_server,
        s.rounds + rounds.len() <= s.max_iterations,
        forall|i: int| 0 <= i < rounds.len() ==> (#[trigger] rounds[i]).calls_tools(),
    ensures
        ({
            let t = after_rounds(s, rounds);
            &&& t.wf()
            &&& t.rounds == s.rounds + rounds.len()
            &&& t.max_iterations == s.max_iterations
            &&& t.has_server
            &&& s.history.is_prefix_of(t.history)
            &&& if s.rounds + rounds.len() == s.max_iterations {
                t.phase == Phase::Failed && t.error == Some(
                    ClientErrorView::Config(limit_message()),
                )
            } else {
                t.phase == Phase::AwaitingModel
            }
        }),
    decreases rounds.len(),
{
    if rounds.len() > 0 {
        always_calling_exhausts_budget(s, rounds.drop_last());
        round_with_calls(after_rounds(s, rounds.drop_last()), rounds.last());
    }
}

/// A tool that fails does not fail the loop: the failure becomes a closed
/// function response whose payload holds the message of the error, and the
/// loop goes on as it would after a success. The only error that can
/// follow is the one for a used-up budget.
pub proof fn tool_failure_is_content(s: ChatView, error: MCPErrorView)
    requires
        s.wf(),
        s.phase == Phase::ExecutingTools,
    ensures
        ({
            let t = s.tool_done(Err(error));
            let call = s.pending[s.results.len() as int];
            let answer = PartView::FunctionResponse {
                id: call.id,
                name: call.name,
                response: error_payload(error),
                parts: Seq::empty(),
                finished: true,
            };
            &&& t.wf()
            &&& t.phase == Phase::ExecutingTools ==> t.results == s.results.push(answer)
            &&& t.phase != Phase::ExecutingTools ==> t.history.last() == (MessageView {
                role: Role::User,
                parts: s.results.push(answer),
            })
            &&& t.phase == Phase::Failed ==> t.error == Some(
                ClientErrorView::Config(limit_message()),
            ) && s.rounds + 1 == s.max_iterations
        }),
{
}

/// A streamed loop: every round is a stream of snapshots of one response.
#[derive(Debug)]
pub struct ChatStream {
    chat: Chat,
    base_len: usize,
    base_usage: Usage,
}

impl View for ChatStream {
    type V = ChatStreamView;

    closed spec fn view(&self) -> ChatStreamView {
        ChatStreamView {
            chat: self.chat@,
            base_len: self.base_len as nat,
            base_usage: self.base_usage@,
        }
    }
}

impl ChatStream {
    /// A loop over a conversation that has not asked the model yet. With a
    /// budget of no rounds it has failed already.
    pub fn new(history: Vec<Message>, max_iterations: usize, has_server: bool) -> (r: ChatStream)
        ensures
            r@ == ChatStreamView::initial(
                message_views(history@),
                max_iterations as nat,
                has_server,
            ),
            r@.wf(),
    {
        ChatStream {
            chat: Chat::new(history, max_iterations, has_server),
            base_len: 0,
            base_usage: Usage::default(),
        }
    }

    /// Where the loop stands.
    pub fn phase(&self) -> (r: Phase)
        ensures
            r == self@.chat.phase,
    {
        self.chat.phase
    }

    /// The conversation as it is to be sent to the model.
    pub fn history(&self) -> (r: &Vec<Message>)
        ensures
            message_views(r@) == self@.chat.history,
    {
        &self.chat.history
    }

    /// What the caller has to do next.
    pub fn next_step(&self) -> (r: Step)
        requires
            self@.wf(),
        ensures
            r@ == self@.chat.step(),
    {
        self.chat.next_step()
    }

    /// A copy of the output as it stands: everything that the loop has
    /// added to the conversation, the open round included.
    pub fn snapshot(&self) -> (r: Response)
        ensures
            r@ == self@.chat.output,
    {
        self.chat.output.clone()
    }

    /// The request or the stream failed: the loop ends with the error.
    pub fn on_transport_error(&mut self, error: ClientError)
        requires
            old(self)@.wf(),
        ensures
            final(self)@.chat == old(self)@.chat.failed(error@),
            final(self)@.wf(),
    {
        self.chat.fail(error);
    }

    /// The stream of a round was opened.
    pub fn on_stream_opened(&mut self)
        requires
            old(self)@.wf(),
            old(self)@.chat.phase == Phase::AwaitingModel,
        ensures
            final(self)@ == old(self)@.opened(),
            final(self)@.wf(),
    {
        assert(self.chat@.output.data.len() == self.chat.output.data.len());
        self.base_len = self.chat.output.data.len();
        self.base_usage = self.chat.output.usage;
        self.chat.phase = Phase::Streaming;
    }

    /// Whether `on_snapshot` can take the response: its usage, added to
    /// the totals of the earlier rounds, must stay within 32 bits.
    pub fn can_take(&self, response: &Response) -> (r: bool)
        ensures
            r == self@.base_usage.merge(response@.usage).fits(),
    {
        self.base_usage.can_merge(&response.usage)
    }

    /// A snapshot of the round arrived. It takes the place of the snapshot
    /// before it; what the earlier rounds left is not touched.
    pub fn on_snapshot(&mut self, response: Response)
        requires
            old(self)@.wf(),
            old(self)@.chat.phase == Phase::Streaming,
            old(self)@.base_usage.merge(response@.usage).fits(),
        ensures
            final(self)@ == old(self)@.updated(response@),
            final(self)@.wf(),
    {
        assert(self.chat@.output.data.len() == self.chat.output.data.len());
        let ghost incoming = response@;
        let mut response = response;
        self.chat.output.data.truncate(self.base_len);
        self.chat.output.data.append(&mut response.data);
        self.chat.output.usage = self.base_usage.merge(&response.usage);
        self.chat.output.finish = response.finish;
        assert(self@.chat.output.data =~= old(self)@.updated(incoming).chat.output.data);
    }

    /// The stream of the round ended.
    ///
    /// The messages of the round go to the history. If the last message
    /// holds no closed call, the loop is done. If it does and nothing can
    /// run them, the loop fails. Otherwise they are run in the order they
    /// appear. A round that ended without saying why counts as stopped:
    /// the result says whether that changed what the output shows.
    pub fn on_stream_end(&mut self) -> (changed: bool)
        requires
            old(self)@.wf(),
            old(self)@.chat.phase == Phase::Streaming,
        ensures
            final(self)@ == old(self)@.ended(),
            final(self)@.wf(),
            old(self)@.chat.history.is_prefix_of(final(self)@.chat.history),
            changed == (old(self)@.chat.output.finish == FinishReason::Unfinished),
    {
        let n = self.chat.output.data.len();
        assert(self.chat@.output.data.len() == n);
        let ghost data = self.chat@.output.data;
        let mut i: usize = self.base_len;
        assert(self.chat@.history =~= old(self)@.chat.history + data.subrange(
            self.base_len as int,
            i as int,
        ));
        while i < n
            invariant
                self.base_len <= i <= n,
                n == self.chat.output.data.len(),
                self.chat.output == old(self).chat.output,
                data == old(self)@.chat.output.data,
                data == message_views(self.chat.output.data@),
                self.chat@.history == old(self)@.chat.history + data.subrange(
                    self.base_len as int,
                    i as int,
                ),
                self.base_len == old(self).base_len,
                self.base_usage == old(self).base_usage,
                self.chat.rounds == old(self).chat.rounds,
                self.chat.max_iterations == old(self).chat.max_iterations,
                self.chat.has_server == old(self).chat.has_server,
                self.chat.pending == old(self).chat.pending,
                self.chat.results == old(self).chat.results,
                self.chat.phase == old(self).chat.phase,
                self.chat.error == old(self).chat.error,
            decreases n - i,
        {
            let ghost history = self.chat@.history;
            let message = self.chat.output.data[i].clone();
            self.chat.history.push(message);
            assert(self.chat@.history =~= history.push(data[i as int]));
            assert(self.chat@.history =~= old(self)@.chat.history + data.subrange(
                self.base_len as int,
                i + 1,
            ));
            i += 1;
        }
        assert(data.subrange(self.base_len as int, n as int) =~= data.skip(self.base_len as int));
        let mut calls: Vec<ToolCall> = Vec::new();
        assert(call_views(calls@) =~= Seq::empty());
        if n > 0 {
            collect_calls(self.chat.output.data[n - 1].parts(), true, &mut calls);
            assert(data.last() == self.chat.output.data[n - 1]@);
        }
        assert(call_views(calls@) =~= old(self)@.due());
        let changed = !self.chat.output.finish.terminal();
        self.chat.output.finish = settle(self.chat.output.finish);
        self.chat.take_calls(calls);
        changed
    }

    /// A tool ran: the call that was due is answered, as in a one-shot
    /// loop. The result says whether the round was closed, which is when
    /// there is a new message to show.
    pub fn on_tool_result(&mut self, result: Result<Part, MCPError>) -> (closed: bool)
        requires
            old(self)@.wf(),
            old(self)@.chat.phase == Phase::ExecutingTools,
        ensures
            final(self)@.chat == old(self)@.chat.tool_done(result_view(result)),
            final(self)@.base_len == old(self)@.base_len,
            final(self)@.base_usage == old(self)@.base_usage,
            final(self)@.wf(),
            closed == (final(self)@.chat.phase != Phase::ExecutingTools),
            old(self)@.chat.history.is_prefix_of(final(self)@.chat.history),
    {
        self.chat.on_tool_result(result)
    }

    /// What the loop ended with: nothing if it converged, its error if it
    /// failed.
    pub fn finish(self) -> (r: Result<(), ClientError>)
        requires
            self@.wf(),
            self@.chat.phase == Phase::Done || self@.chat.phase == Phase::Failed,
        ensures
            r is Ok <==> self@.chat.phase == Phase::Done,
            r matches Err(e) ==> Some(e@) == self@.chat.error,
    {
        match self.chat.error {
            Some(e) => Err(e),
            None => Ok(()),
        }
    }
}

/// The place of a server in an agent that has none.
#[derive(Debug)]
pub struct NoServer;

/// A client, the tool server it may use, and its budget of rounds.
#[derive(Debug)]
pub struct Agent<C, S> {
    client: C,
    max_iterations: usize,
    server: Option<S>,
}

impl<C> Agent<C, NoServer> {
    /// An agent without a tool server, with a budget of ten rounds.
    pub fn new(client: C) -> (r: Self)
        ensures
            r.client_spec() == client,
            r.budget() == 10,
            r.server_spec() is None,
    {
        Agent { client, max_iterations: 10, server: None }
    }
}

impl<C, S> Agent<C, S> {
    pub closed spec fn client_spec(self) -> C {
        self.client
    }

    pub closed spec fn server_spec(self) -> Option<S> {
        self.server
    }

    /// The budget of rounds.
    pub closed spec fn budget(self) -> usize {
        self.max_iterations
    }

    /// The agent with a tool server.
    pub fn with_server<T>(self, server: T) -> (r: Agent<C, T>)
        ensures
            r.client_spec() == self.client_spec(),
            r.budget() == self.budget(),
            r.server_spec() == Some(server),
    {
        Agent { client: self.client, max_iterations: self.max_iterations, server: Some(server) }
    }

    /// The agent with another budget of rounds.
    pub fn with_max_iterations(self, max: usize) -> (r: Self)
        ensures
            r.client_spec() == self.client_spec(),
            r.budget() == max,
            r.server_spec() == self.server_spec(),
    {
        Agent { client: self.client, max_iterations: max, server: self.server }
    }

    /// The client.
    pub fn client(&self) -> (r: &C)
        ensures
            *r == self.client_spec(),
    {
        &self.client
    }

    /// The tool server, if there is one.
    pub fn server(&self) -> (r: Option<&S>)
        ensures
            r is Some <==> self.server_spec() is Some,
            r matches Some(s) ==> Some(*s) == self.server_spec(),
    {
        match &self.server {
            Some(s) => Some(s),
            None => None,
        }
    }

    /// The budget of rounds.
    pub fn max_iterations(&self) -> (r: usize)
        ensures
            r == self.budget(),
    {
        self.max_iterations
    }

    /// Begins a one-shot loop over the conversation.
    pub fn chat(&self, messages: Vec<Message>) -> (r: Chat)
        ensures
            r@ == ChatView::initial(
                message_views(messages@),
                self.budget() as nat,
                self.server_spec() is Some,
            ),
            r@.wf(),
    {
        Chat::new(messages, self.max_iterations, self.server.is_some())
    }

    /// Begins a streamed loop over the conversation.
    pub fn chat_stream(&self, messages: Vec<Message>) -> (r: ChatStream)
        ensures
            r@ == ChatStreamView::initial(
                message_views(messages@),
                self.budget() as nat,
                self.server_spec() is Some,
            ),
            r@.wf(),
    {
        ChatStream::new(messages, self.max_iterations, self.server.is_some())
    }
}

} // verus!
