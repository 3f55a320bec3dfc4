//! The agent: one conversation, its tools and policy, and the engine that
//! runs a turn.
//!
//! The engine performs no input or output. Each operation updates the agent
//! and returns an [`Action`] for the caller: send a request to the backend,
//! run a tool, show a reply, wait for approval. The caller reports what came
//! of the action with the next operation. At most one request, one tool run
//! or one approval is outstanding at a time.

use crate::config::{
    provider_for, shell_denial, Config, ConfigError, ConfigErrorView, ConfigView,
};
use crate::conversation::{awaiting_results, request_view, AgentState};
use crate::json::{
    error_json, error_object, json_string_member_of, json_syntax_error, json_syntax_error_of,
    rejection_json, rejection_object, text_outcome,
};
use crate::message::{
    assistant_message, clone_tool_calls, system_message, tool_message, user_message,
    ChatCompletionRequest, ChatCompletionRequestView, ChatCompletionResponse,
    ChatCompletionResponseView, Message, MessageView, ToolCall, ToolCallView,
};
use crate::providers::{ProviderKind, ProviderKindView};
use crate::registry::{definitions_json, has_tool, ToolDefinitionView, ToolRegistry};
use crate::tasks::{first_pending_at, none_pending, task_prompt, TaskStack, TaskView};
use crate::tools::with_builtin_tools;
use crate::text::{concat2, concat3, list_contains, same_text};
use vstd::prelude::*;
use vstd::string::StringExecFns;

verus! {

/// A tool call taken out of a batch: the one that waits for approval, or the
/// one handed to the caller to run. The arguments are JSON text.
#[derive(Debug, PartialEq, Eq)]
pub struct PendingToolCall {
    pub id: String,
    pub tool_name: String,
    pub arguments: String,
}

/// Model of a [`PendingToolCall`].
pub struct PendingToolCallView {
    pub id: Seq<char>,
    pub tool_name: Seq<char>,
    pub arguments: Seq<char>,
}

impl DeepView for PendingToolCall {
    type V = PendingToolCallView;

    open spec fn deep_view(&self) -> PendingToolCallView {
        PendingToolCallView { id: self.id@, tool_name: self.tool_name@, arguments: self.arguments@ }
    }
}

impl View for PendingToolCall {
    type V = PendingToolCallView;

    open spec fn view(&self) -> PendingToolCallView {
        self.deep_view()
    }
}

impl Clone for PendingToolCall {
    fn clone(&self) -> (res: Self)
        ensures
            res@ == self@,
    {
        PendingToolCall {
            id: self.id.clone(),
            tool_name: self.tool_name.clone(),
            arguments: self.arguments.clone(),
        }
    }
}

/// What the agent is doing.
#[derive(Debug, PartialEq, Eq)]
pub enum AgentStatus {
    Idle,
    Thinking,
    WaitingForApproval(PendingToolCall),
    Error(String),
}

/// Model of an [`AgentStatus`].
pub enum AgentStatusView {
    Idle,
    Thinking,
    WaitingForApproval(PendingToolCallView),
    Error(Seq<char>),
}

impl DeepView for AgentStatus {
    type V = AgentStatusView;

    open spec fn deep_view(&self) -> AgentStatusView {
        match self {
            AgentStatus::Idle => AgentStatusView::Idle,
            AgentStatus::Thinking => AgentStatusView::Thinking,
            AgentStatus::WaitingForApproval(p) => AgentStatusView::WaitingForApproval(p@),
            AgentStatus::Error(message) => AgentStatusView::Error(message@),
        }
    }
}

impl View for AgentStatus {
    type V = AgentStatusView;

    open spec fn view(&self) -> AgentStatusView {
        self.deep_view()
    }
}

impl Clone for AgentStatus {
    fn clone(&self) -> (res: Self)
        ensures
            res@ == self@,
    {
        match self {
            AgentStatus::Idle => AgentStatus::Idle,
            AgentStatus::Thinking => AgentStatus::Thinking,
            AgentStatus::WaitingForApproval(p) => AgentStatus::WaitingForApproval(p.clone()),
            AgentStatus::Error(message) => AgentStatus::Error(message.clone()),
        }
    }
}

/// What the caller is to do after an operation of the agent.
#[derive(Debug, PartialEq, Eq)]
pub enum Action {
    /// Send the request to the backend and report the outcome with
    /// `backend_replied` or `backend_failed`.
    CallBackend(ChatCompletionRequest),
    /// Run the tool and report the outcome with `tool_finished`.
    RunTool(PendingToolCall),
    /// The turn is over; this is its text, which may be empty.
    Reply(String),
    /// A tool call waits for `approve_tool_call`, `approve_always` or
    /// `reject_tool_call`.
    AwaitApproval,
    /// The turn waits for something that is already outstanding; there is
    /// nothing to do.
    Wait,
    /// The operation failed; this is why.
    Fail(String),
}

/// Model of an [`Action`].
pub enum ActionView {
    CallBackend(ChatCompletionRequestView),
    RunTool(PendingToolCallView),
    Reply(Seq<char>),
    AwaitApproval,
    Wait,
    Fail(Seq<char>),
}

impl DeepView for Action {
    type V = ActionView;

    open spec fn deep_view(&self) -> ActionView {
        match self {
            Action::CallBackend(request) => ActionView::CallBackend(request@),
            Action::RunTool(call) => ActionView::RunTool(call@),
            Action::Reply(text) => ActionView::Reply(text@),
            Action::AwaitApproval => ActionView::AwaitApproval,
            Action::Wait => ActionView::Wait,
            Action::Fail(message) => ActionView::Fail(message@),
        }
    }
}

impl View for Action {
    type V = ActionView;

    open spec fn view(&self) -> ActionView {
        self.deep_view()
    }
}

/// One agent.
///
/// `batch` holds the tool calls of the assistant message being worked on and
/// `next` the position of the call to take up next. `requesting` is set while
/// a backend request is outstanding, `running` holds the call the caller is
/// running, `pending_tool_call` the call that waits for approval. After an
/// approval or a rejection every further call of the batch is checked against
/// the approval policy, which `gate_each` records.
#[derive(Debug, PartialEq, Eq)]
pub struct Agent {
    pub provider: ProviderKind,
    pub state: AgentState,
    pub tools: ToolRegistry,
    pub config: Config,
    pub task_stack: TaskStack,
    pub paused: bool,
    pub pending_tool_call: Option<PendingToolCall>,
    pub status: AgentStatus,
    pub allowed_tools: Vec<String>,
    pub batch: Vec<ToolCall>,
    pub next: usize,
    pub gate_each: bool,
    pub requesting: bool,
    pub running: Option<PendingToolCall>,
}

/// Model of an [`Agent`].
pub struct AgentView {
    pub provider: ProviderKindView,
    pub history: Seq<MessageView>,
    pub tools: Seq<ToolDefinitionView>,
    pub config: ConfigView,
    pub tasks: Seq<TaskView>,
    pub paused: bool,
    pub pending_tool_call: Option<PendingToolCallView>,
    pub status: AgentStatusView,
    pub allowed_tools: Seq<Seq<char>>,
    pub batch: Seq<ToolCallView>,
    pub next: nat,
    pub gate_each: bool,
    pub requesting: bool,
    pub running: Option<PendingToolCallView>,
}

impl DeepView for Agent {
    type V = AgentView;

    open spec fn deep_view(&self) -> AgentView {
        AgentView {
            provider: self.provider@,
            history: self.state@,
            tools: self.tools@,
            config: self.config@,
            tasks: self.task_stack@,
            paused: self.paused,
            pending_tool_call: self.pending_tool_call.deep_view(),
            status: self.status@,
            allowed_tools: self.allowed_tools.deep_view(),
            batch: self.batch.deep_view(),
            next: self.next as nat,
            gate_each: self.gate_each,
            requesting: self.requesting,
            running: self.running.deep_view(),
        }
    }
}

impl View for Agent {
    type V = AgentView;

    open spec fn view(&self) -> AgentView {
        self.deep_view()
    }
}

/// A tool call as it is taken out of its batch.
pub open spec fn pending_of(call: ToolCallView) -> PendingToolCallView {
    PendingToolCallView {
        id: call.id,
        tool_name: call.function.name,
        arguments: call.function.arguments,
    }
}

/// The tool calls of a response: none when the field is absent.
pub open spec fn response_calls(response: ChatCompletionResponseView) -> Seq<ToolCallView> {
    match response.tool_calls {
        Some(calls) => calls,
        None => Seq::empty(),
    }
}

/// The text of a response: empty when the field is absent.
pub open spec fn response_text(response: ChatCompletionResponseView) -> Seq<char> {
    match response.content {
        Some(text) => text,
        None => Seq::empty(),
    }
}

/// The system message that brings memories into a conversation: a heading,
/// then one line per memory with its summary and its content. A memory is a
/// pair of content and summary.
pub open spec fn memory_context(memories: Seq<(Seq<char>, Seq<char>)>) -> Seq<char>
    decreases memories.len(),
{
    if memories.len() == 0 {
        "Relevant past interactions:\n"@
    } else {
        memory_context(memories.drop_last()) + "- "@ + memories.last().1 + ": "@
            + memories.last().0 + "\n"@
    }
}

/// The history after a user's input is taken in: the memories, if there are
/// any, as one system message, then the input as a user message.
pub open spec fn with_user_input(
    history: Seq<MessageView>,
    input: Seq<char>,
    memories: Seq<(Seq<char>, Seq<char>)>,
) -> Seq<MessageView> {
    if memories.len() > 0 {
        history.push(system_message(memory_context(memories))).push(user_message(input))
    } else {
        history.push(user_message(input))
    }
}

/// Whether something is outstanding: a backend request, a tool run or an
/// approval.
pub open spec fn busy(s: AgentView) -> bool {
    s.requesting || s.running is Some || s.pending_tool_call is Some
}

/// Whether a call to the tool `name` has to be approved first: the policy
/// asks for approval and the name is not on the session's allow-list.
pub open spec fn needs_approval(s: AgentView, name: Seq<char>) -> bool {
    s.config.tools.require_approval && !s.allowed_tools.contains(name)
}

/// The content of the tool message that is recorded in place of running a
/// call, or `None` when the call is to be run. In this order: arguments that
/// are not JSON, a shell command that the policy refuses, a tool that is not
/// registered.
pub open spec fn refusal(s: AgentView, name: Seq<char>, arguments: Seq<char>) -> Option<Seq<char>> {
    match json_syntax_error_of(arguments) {
        Some(error) => Some(error_json("Invalid tool arguments: "@ + error)),
        None => {
            let denial = if name == "shell"@ {
                shell_denial(s.config.tools, json_string_member_of(arguments, "command"@))
            } else {
                None
            };
            match denial {
                Some(message) => Some(error_json(message)),
                None => if has_tool(s.tools, name) {
                    None
                } else {
                    Some(error_json("Tool "@ + name + " not found"@))
                },
            }
        },
    }
}

/// The request that the engine sends for a history.
pub open spec fn request_of(s: AgentView) -> ChatCompletionRequestView {
    ChatCompletionRequestView {
        messages: request_view(s.history),
        temperature_milli: Some(700u32),
        max_tokens: Some(1024u32),
        tools: Some(definitions_json(s.tools)),
    }
}

/// The agent with a tool message appended and the cursor moved past the
/// call it answers.
pub open spec fn answered(s: AgentView, id: Seq<char>, content: Seq<char>) -> AgentView {
    AgentView {
        history: s.history.push(tool_message(id, content)),
        next: if s.next < s.batch.len() {
            s.next + 1
        } else {
            s.next
        },
        ..s
    }
}

/// Start of a round: while the most recent assistant message has an
/// unanswered call the engine stops and leaves the status as it is;
/// otherwise it starts thinking and sends the projection of the history.
pub open spec fn step_request(s: AgentView) -> (AgentView, ActionView) {
    if awaiting_results(s.history) {
        (s, ActionView::Wait)
    } else {
        (
            AgentView { status: AgentStatusView::Thinking, requesting: true, ..s },
            ActionView::CallBackend(request_of(s)),
        )
    }
}

/// Work on the batch from the cursor on, call by call in the order of the
/// batch. A call that needs approval stops the engine; a call that is
/// refused gets its tool message at once and the engine goes on; a call that
/// may run is handed to the caller. After the last call the next round
/// starts.
pub open spec fn step_batch(s: AgentView) -> (AgentView, ActionView)
    decreases s.batch.len() - s.next,
{
    if s.next >= s.batch.len() {
        step_request(s)
    } else {
        let call = s.batch[s.next as int];
        if s.gate_each && needs_approval(s, call.function.name) {
            (
                AgentView {
                    status: AgentStatusView::WaitingForApproval(pending_of(call)),
                    pending_tool_call: Some(pending_of(call)),
                    ..s
                },
                ActionView::AwaitApproval,
            )
        } else {
            step_execute(s, pending_of(call))
        }
    }
}

/// Take up a call that is cleared to run: record its refusal and go on with
/// the batch, or hand it to the caller.
pub open spec fn step_execute(s: AgentView, call: PendingToolCallView) -> (AgentView, ActionView)
    decreases s.batch.len() - s.next, 0nat,
{
    match refusal(s, call.tool_name, call.arguments) {
        Some(content) => if s.next < s.batch.len() {
            step_batch(answered(s, call.id, content))
        } else {
            step_request(answered(s, call.id, content))
        },
        None => (AgentView { running: Some(call), ..s }, ActionView::RunTool(call)),
    }
}

/// A user's input arrives. It is always added to the history. While
/// something is outstanding nothing else happens; otherwise a round starts.
pub open spec fn step_chat(s: AgentView, input: Seq<char>, memories: Seq<(Seq<char>, Seq<char>)>) -> (
    AgentView,
    ActionView,
) {
    let taken = AgentView { history: with_user_input(s.history, input, memories), ..s };
    if busy(s) {
        (taken, ActionView::Wait)
    } else {
        step_request(taken)
    }
}

/// The backend answers. A response without text and without tool calls ends
/// the turn with empty text and adds nothing to the history. Any other
/// response is added as an assistant message. Without tool calls its text
/// ends the turn. With tool calls they become the batch: when the first call
/// needs approval it becomes the pending call and nothing is run; otherwise
/// the calls are taken up in order.
pub open spec fn step_backend_replied(s: AgentView, response: ChatCompletionResponseView) -> (
    AgentView,
    ActionView,
) {
    let calls = response_calls(response);
    if !s.requesting {
        (s, ActionView::Fail("No backend request is outstanding"@))
    } else if response.content is None && calls.len() == 0 {
        (
            AgentView { status: AgentStatusView::Idle, requesting: false, ..s },
            ActionView::Reply(Seq::empty()),
        )
    } else if calls.len() == 0 {
        (
            AgentView {
                history: s.history.push(assistant_message(response)),
                status: AgentStatusView::Idle,
                requesting: false,
                ..s
            },
            ActionView::Reply(response_text(response)),
        )
    } else {
        let started = AgentView {
            history: s.history.push(assistant_message(response)),
            requesting: false,
            batch: calls,
            next: 0,
            gate_each: false,
            ..s
        };
        if needs_approval(s, calls[0].function.name) {
            (
                AgentView {
                    status: AgentStatusView::WaitingForApproval(pending_of(calls[0])),
                    pending_tool_call: Some(pending_of(calls[0])),
                    ..started
                },
                ActionView::AwaitApproval,
            )
        } else {
            step_batch(started)
        }
    }
}

/// The backend request failed: the turn ends with the error, which becomes
/// the status. Nothing is retried.
pub open spec fn step_backend_failed(s: AgentView, message: Seq<char>) -> (AgentView, ActionView) {
    if !s.requesting {
        (s, ActionView::Fail("No backend request is outstanding"@))
    } else {
        (
            AgentView { status: AgentStatusView::Error(message), requesting: false, ..s },
            ActionView::Fail(message),
        )
    }
}

/// The content of the tool message for the outcome of a tool run: the
/// result as it is, or the failure as a JSON object with the member `error`.
pub open spec fn outcome_content(outcome: Result<Seq<char>, Seq<char>>) -> Seq<char> {
    match outcome {
        Ok(result) => result,
        Err(message) => error_json(message),
    }
}

/// The tool run is over. Its outcome, failure included, is added as the tool
/// message of the call, and the engine goes on with the batch.
pub open spec fn step_tool_finished(s: AgentView, outcome: Result<Seq<char>, Seq<char>>) -> (
    AgentView,
    ActionView,
) {
    match s.running {
        None => (s, ActionView::Fail("No tool call is running"@)),
        Some(call) => step_batch(
            answered(AgentView { running: None, ..s }, call.id, outcome_content(outcome)),
        ),
    }
}

/// The pending call is approved: it is taken up as a call cleared to run,
/// and every later call of the batch is checked against the approval policy.
pub open spec fn step_approve(s: AgentView) -> (AgentView, ActionView) {
    match s.pending_tool_call {
        None => (s, ActionView::Fail("No pending tool call to approve"@)),
        Some(call) => step_execute(
            AgentView {
                pending_tool_call: None,
                status: AgentStatusView::Thinking,
                gate_each: true,
                ..s
            },
            call,
        ),
    }
}

/// The allow-list with `name` on it.
pub open spec fn allowing(allowed: Seq<Seq<char>>, name: Seq<char>) -> Seq<Seq<char>> {
    if allowed.contains(name) {
        allowed
    } else {
        allowed.push(name)
    }
}

/// The tool `name` is put on the session's allow-list, then the pending call
/// is approved.
pub open spec fn step_approve_always(s: AgentView, name: Seq<char>) -> (AgentView, ActionView) {
    step_approve(AgentView { allowed_tools: allowing(s.allowed_tools, name), ..s })
}

/// The pending call is rejected: a tool message with the rejection and the
/// user's reason answers it, the call is not run, and the engine goes on
/// with the batch, checking every later call against the approval policy.
pub open spec fn step_reject(s: AgentView, reason: Seq<char>) -> (AgentView, ActionView) {
    match s.pending_tool_call {
        None => (s, ActionView::Fail("No pending tool call to reject"@)),
        Some(call) => step_batch(
            answered(
                AgentView {
                    pending_tool_call: None,
                    status: AgentStatusView::Thinking,
                    gate_each: true,
                    ..s
                },
                call.id,
                rejection_json(reason),
            ),
        ),
    }
}

/// The agent after its conversation is cut back to the initial system
/// message: nothing is outstanding any more and the agent is idle.
pub open spec fn step_clear(s: AgentView) -> AgentView {
    AgentView {
        history: crate::conversation::cleared(s.history),
        status: AgentStatusView::Idle,
        pending_tool_call: None,
        running: None,
        requesting: false,
        batch: Seq::empty(),
        next: 0,
        gate_each: false,
        ..s
    }
}

/// Takes a tool call out of its batch.
pub fn pending_from(call: &ToolCall) -> (res: PendingToolCall)
    ensures
        res@ == pending_of(call@),
{
    PendingToolCall {
        id: call.id.clone(),
        tool_name: call.function.name.clone(),
        arguments: call.function.arguments.clone(),
    }
}

/// The system message text that brings `memories` into a conversation.
pub fn build_memory_context(memories: &Vec<(String, String)>) -> (res: String)
    ensures
        res@ == memory_context(memories.deep_view()),
{
    let ghost all = memories.deep_view();
    let mut out = String::from_str("Relevant past interactions:\n");
    let mut i: usize = 0;
    assert(all.take(0) =~= Seq::empty());
    while i < memories.len()
        invariant
            i <= memories.len(),
            all == memories.deep_view(),
            out@ == memory_context(all.take(i as int)),
        decreases memories.len() - i,
    {
        let ghost prefix = all.take(i as int + 1);
        assert(prefix.drop_last() =~= all.take(i as int));
        assert(prefix.last() == memories[i as int].deep_view());
        let ghost before = out@;
        out.append("- ");
        out.append(memories[i].1.as_str());
        out.append(": ");
        out.append(memories[i].0.as_str());
        out.append("\n");
        assert(out@ =~= before + "- "@ + memories[i as int].1@ + ": "@ + memories[i as int].0@
            + "\n"@);
        i += 1;
    }
    assert(all.take(i as int) =~= all);
    out
}

impl Agent {
    /// Whether something is outstanding.
    pub fn is_busy(&self) -> (res: bool)
        ensures
            res == busy(self@),
    {
        self.requesting || self.running.is_some() || self.pending_tool_call.is_some()
    }

    /// Whether a call to the tool `name` has to be approved first.
    pub fn requires_approval(&self, name: &str) -> (res: bool)
        ensures
            res == needs_approval(self@, name@),
    {
        self.config.tools.require_approval && !list_contains(&self.allowed_tools, name)
    }

    /// The content of the tool message recorded in place of running a call
    /// of the tool `name` with `arguments`, or `None` when the call is to be
    /// run.
    pub fn refuse(&self, name: &str, arguments: &str) -> (res: Option<String>)
        ensures
            res.deep_view() == refusal(self@, name@, arguments@),
    {
        match json_syntax_error(arguments) {
            Some(error) => {
                let message = concat2("Invalid tool arguments: ", error.as_str());
                Some(error_object(message.as_str()))
            },
            None => {
                if same_text(name, "shell") {
                    match self.config.tools.check_shell_security(arguments) {
                        Err(message) => {
                            return Some(error_object(message.as_str()));
                        },
                        Ok(_) => {},
                    }
                }
                if self.tools.contains(name) {
                    None
                } else {
                    let message = concat3("Tool ", name, " not found");
                    Some(error_object(message.as_str()))
                }
            },
        }
    }

    /// Starts a round.
    fn request(&mut self) -> (action: Action)
        ensures
            (final(self)@, action@) == step_request(old(self)@),
    {
        let (messages, early_return) = self.state.build_request_view();
        if early_return {
            return Action::Wait;
        }
        let request = ChatCompletionRequest {
            messages,
            temperature_milli: Some(700),
            max_tokens: Some(1024),
            tools: Some(self.tools.get_definitions()),
        };
        self.status = AgentStatus::Thinking;
        self.requesting = true;
        Action::CallBackend(request)
    }

    /// Appends the tool message that answers the call `id` and moves the
    /// cursor past it.
    fn answer(&mut self, id: String, content: String)
        ensures
            final(self)@ == answered(old(self)@, id@, content@),
    {
        self.state.push(Message::tool(id, content));
        if self.next < self.batch.len() {
            assert(self.batch.deep_view().len() == self.batch.len());
            self.next = self.next + 1;
        } else {
            assert(self.batch.deep_view().len() == self.batch.len());
        }
    }

    /// Works on the batch from the cursor on.
    fn run_batch(&mut self) -> (action: Action)
        ensures
            (final(self)@, action@) == step_batch(old(self)@),
    {
        let ghost goal = step_batch(self@);
        loop
            invariant
                goal == step_batch(old(self)@),
                step_batch(self@) == goal,
            decreases self.batch.len() - self.next,
        {
            assert(self.batch.deep_view().len() == self.batch.len());
            if self.next >= self.batch.len() {
                return self.request();
            }
            let call = pending_from(&self.batch[self.next]);
            assert(self.batch.deep_view()[self.next as int] == self.batch[self.next as int]@);
            if self.gate_each && self.requires_approval(call.tool_name.as_str()) {
                self.status = AgentStatus::WaitingForApproval(call.clone());
                self.pending_tool_call = Some(call);
                return Action::AwaitApproval;
            }
            match self.refuse(call.tool_name.as_str(), call.arguments.as_str()) {
                Some(content) => {
                    self.answer(call.id, content);
                },
                None => {
                    self.running = Some(call.clone());
                    return Action::RunTool(call);
                },
            }
        }
    }

    /// Takes up a call that is cleared to run.
    fn execute(&mut self, call: PendingToolCall) -> (action: Action)
        ensures
            (final(self)@, action@) == step_execute(old(self)@, call@),
    {
        match self.refuse(call.tool_name.as_str(), call.arguments.as_str()) {
            Some(content) => {
                assert(self.batch.deep_view().len() == self.batch.len());
                let more = self.next < self.batch.len();
                self.answer(call.id, content);
                if more {
                    self.run_batch()
                } else {
                    self.request()
                }
            },
            None => {
                self.running = Some(call.clone());
                Action::RunTool(call)
            },
        }
    }

    /// Takes in a user's input, with the memories found for it as pairs of
    /// content and summary, and starts a round unless something is
    /// outstanding.
    pub fn chat(&mut self, user_input: String, memories: Vec<(String, String)>) -> (action: Action)
        ensures
            (final(self)@, action@) == step_chat(old(self)@, user_input@, memories.deep_view()),
    {
        let was_busy = self.is_busy();
        if memories.len() > 0 {
            let context = build_memory_context(&memories);
            self.state.push(Message::system(context));
        }
        assert(memories.deep_view().len() == memories.len());
        self.state.push(Message::user(user_input));
        if was_busy {
            Action::Wait
        } else {
            self.request()
        }
    }

    /// Takes in the backend's response to the outstanding request.
    pub fn backend_replied(&mut self, response: ChatCompletionResponse) -> (action: Action)
        ensures
            (final(self)@, action@) == step_backend_replied(old(self)@, response@),
    {
        if !self.requesting {
            return Action::Fail(String::from_str("No backend request is outstanding"));
        }
        let calls: Vec<ToolCall> = match &response.tool_calls {
            Some(calls) => clone_tool_calls(calls),
            None => Vec::new(),
        };
        assert(calls.deep_view() =~= response_calls(response@));
        assert(calls.deep_view().len() == calls.len());
        if response.content.is_none() && calls.len() == 0 {
            self.status = AgentStatus::Idle;
            self.requesting = false;
            return Action::Reply(String::new());
        }
        let text = match &response.content {
            Some(text) => text.clone(),
            None => String::new(),
        };
        self.state.push(Message::assistant(response.content, response.tool_calls));
        self.requesting = false;
        if calls.len() == 0 {
            self.status = AgentStatus::Idle;
            return Action::Reply(text);
        }
        let first = pending_from(&calls[0]);
        assert(calls.deep_view()[0] == calls[0]@);
        self.batch = calls;
        self.next = 0;
        self.gate_each = false;
        if self.requires_approval(first.tool_name.as_str()) {
            self.status = AgentStatus::WaitingForApproval(first.clone());
            self.pending_tool_call = Some(first);
            Action::AwaitApproval
        } else {
            self.run_batch()
        }
    }

    /// Takes in the failure of the outstanding backend request.
    pub fn backend_failed(&mut self, message: String) -> (action: Action)
        ensures
            (final(self)@, action@) == step_backend_failed(old(self)@, message@),
    {
        if !self.requesting {
            return Action::Fail(String::from_str("No backend request is outstanding"));
        }
        self.status = AgentStatus::Error(message.clone());
        self.requesting = false;
        Action::Fail(message)
    }

    /// Takes in the outcome of the tool run that the caller was handed: the
    /// tool's result as JSON text, or the message of its failure.
    pub fn tool_finished(&mut self, outcome: Result<String, String>) -> (action: Action)
        ensures
            (final(self)@, action@) == step_tool_finished(old(self)@, text_outcome(outcome)),
    {
        match self.running.take() {
            None => Action::Fail(String::from_str("No tool call is running")),
            Some(call) => {
                let content = match outcome {
                    Ok(result) => result,
                    Err(message) => error_object(message.as_str()),
                };
                self.answer(call.id, content);
                self.run_batch()
            },
        }
    }

    /// Approves the pending call.
    pub fn approve_tool_call(&mut self) -> (action: Action)
        ensures
            (final(self)@, action@) == step_approve(old(self)@),
    {
        match self.pending_tool_call.take() {
            None => Action::Fail(String::from_str("No pending tool call to approve")),
            Some(call) => {
                self.status = AgentStatus::Thinking;
                self.gate_each = true;
                self.execute(call)
            },
        }
    }

    /// Puts the tool `tool_name` on the session's allow-list, then approves
    /// the pending call.
    pub fn approve_always(&mut self, tool_name: String) -> (action: Action)
        ensures
            (final(self)@, action@) == step_approve_always(old(self)@, tool_name@),
    {
        if !list_contains(&self.allowed_tools, tool_name.as_str()) {
            let ghost before = self.allowed_tools.deep_view();
            self.allowed_tools.push(tool_name);
            assert(self.allowed_tools.deep_view() =~= before.push(tool_name@));
        }
        self.approve_tool_call()
    }

    /// Rejects the pending call for the given reason.
    pub fn reject_tool_call(&mut self, reason: &str) -> (action: Action)
        ensures
            (final(self)@, action@) == step_reject(old(self)@, reason@),
    {
        match self.pending_tool_call.take() {
            None => Action::Fail(String::from_str("No pending tool call to reject")),
            Some(call) => {
                self.status = AgentStatus::Thinking;
                self.gate_each = true;
                self.answer(call.id, rejection_object(reason));
                self.run_batch()
            },
        }
    }

    /// Cuts the conversation back to its initial system message and drops
    /// whatever was outstanding.
    pub fn clear(&mut self)
        ensures
            final(self)@ == step_clear(old(self)@),
    {
        self.state.clear();
        self.status = AgentStatus::Idle;
        self.pending_tool_call = None;
        self.running = None;
        self.requesting = false;
        self.batch = Vec::new();
        self.next = 0;
        self.gate_each = false;
        assert(self.batch.deep_view() =~= Seq::empty());
    }
}

/// The agent that a configuration starts with: its default model's
/// provider, an empty conversation, the six built-in tools, no tasks, not
/// paused, idle, nothing allowed for the session and nothing outstanding.
pub open spec fn fresh_agent(config: ConfigView, provider: ProviderKindView) -> AgentView {
    AgentView {
        provider,
        history: Seq::empty(),
        tools: with_builtin_tools(Seq::empty()),
        config,
        tasks: Seq::empty(),
        paused: false,
        pending_tool_call: None,
        status: AgentStatusView::Idle,
        allowed_tools: Seq::empty(),
        batch: Seq::empty(),
        next: 0,
        gate_each: false,
        requesting: false,
        running: None,
    }
}

/// Model of a fresh agent or the reason there is none.
pub open spec fn agent_result(outcome: Result<Agent, ConfigError>) -> Result<
    AgentView,
    ConfigErrorView,
> {
    match outcome {
        Ok(agent) => Ok(agent@),
        Err(error) => Err(error@),
    }
}

/// The agent for a configuration, or why its default model gives no provider.
pub open spec fn agent_for(config: ConfigView) -> Result<AgentView, ConfigErrorView> {
    match provider_for(config, config.default_model) {
        Ok(provider) => Ok(fresh_agent(config, provider)),
        Err(error) => Err(error),
    }
}

/// What the autonomous loop does next.
#[derive(Debug, PartialEq, Eq)]
pub enum AutonomousStep {
    /// The loop is paused: look again later.
    Paused,
    /// No task is pending: the loop ends.
    Finished,
    /// A task was taken off the queue: send this directive as user input.
    Prompt(String),
}

/// Model of an [`AutonomousStep`].
pub enum AutonomousStepView {
    Paused,
    Finished,
    Prompt(Seq<char>),
}

impl DeepView for AutonomousStep {
    type V = AutonomousStepView;

    open spec fn deep_view(&self) -> AutonomousStepView {
        match self {
            AutonomousStep::Paused => AutonomousStepView::Paused,
            AutonomousStep::Finished => AutonomousStepView::Finished,
            AutonomousStep::Prompt(text) => AutonomousStepView::Prompt(text@),
        }
    }
}

impl View for AutonomousStep {
    type V = AutonomousStepView;

    open spec fn view(&self) -> AutonomousStepView {
        self.deep_view()
    }
}

/// The request that asks a backend to summarize an interaction.
pub open spec fn summary_prompt(user_input: Seq<char>, assistant_response: Seq<char>) -> Seq<char> {
    "Summarize the following interaction in one short sentence for long-term memory:\nUser: "@
        + user_input + "\nAssistant: "@ + assistant_response
}

/// The summary that a backend's response gives: its text, or a fixed
/// phrase when it has none.
pub open spec fn summary_text(response: ChatCompletionResponseView) -> Seq<char> {
    match response.content {
        Some(text) => text,
        None => "Interaction summary"@,
    }
}

/// The request that asks a backend to summarize an interaction: one user
/// message, a temperature of 0.3, at most 100 tokens and no tools.
pub fn summary_request(user_input: &str, assistant_response: &str) -> (res: ChatCompletionRequest)
    ensures
        res@ == (ChatCompletionRequestView {
            messages: seq![user_message(summary_prompt(user_input@, assistant_response@))],
            temperature_milli: Some(300u32),
            max_tokens: Some(100u32),
            tools: None,
        }),
{
    let mut prompt = String::from_str(
        "Summarize the following interaction in one short sentence for long-term memory:\nUser: ",
    );
    prompt.append(user_input);
    prompt.append("\nAssistant: ");
    prompt.append(assistant_response);
    assert(prompt@ =~= summary_prompt(user_input@, assistant_response@));
    let mut messages: Vec<Message> = Vec::new();
    messages.push(Message::user(prompt));
    assert(messages.deep_view() =~= seq![user_message(summary_prompt(user_input@, assistant_response@))]);
    ChatCompletionRequest {
        messages,
        temperature_milli: Some(300),
        max_tokens: Some(100),
        tools: None,
    }
}

/// The summary that a backend's response gives.
pub fn summary_of(response: &ChatCompletionResponse) -> (res: String)
    ensures
        res@ == summary_text(response@),
{
    match &response.content {
        Some(text) => text.clone(),
        None => String::from_str("Interaction summary"),
    }
}

impl Agent {
    /// A fresh agent for a configuration. It fails when the configuration
    /// holds no model under the key of its default model, or when that model
    /// names an unknown kind of backend.
    pub fn new(config: Config) -> (res: Result<Agent, ConfigError>)
        ensures
            agent_result(res) == agent_for(config@),
    {
        let provider = match config.create_provider(config.default_model.as_str()) {
            Ok(provider) => provider,
            Err(error) => {
                return Err(error);
            },
        };
        let mut tools = ToolRegistry::new();
        tools.register_builtin_tools();
        let agent = Agent {
            provider,
            state: AgentState::new(),
            tools,
            config,
            task_stack: TaskStack::new(),
            paused: false,
            pending_tool_call: None,
            status: AgentStatus::Idle,
            allowed_tools: Vec::new(),
            batch: Vec::new(),
            next: 0,
            gate_each: false,
            requesting: false,
            running: None,
        };
        assert(agent.allowed_tools.deep_view() =~= Seq::empty());
        assert(agent.batch.deep_view() =~= Seq::empty());
        Ok(agent)
    }

    /// Points the agent at the model under `model_name`. When the
    /// configuration gives no provider for it the agent keeps the provider
    /// it has.
    pub fn switch_model(&mut self, model_name: &str) -> (res: Result<(), ConfigError>)
        ensures
            match provider_for(old(self)@.config, model_name@) {
                Ok(provider) => res is Ok && final(self)@ == (AgentView {
                    provider,
                    ..old(self)@
                }),
                Err(error) => res matches Err(e) && e@ == error && final(self)@ == old(self)@,
            },
    {
        match self.config.create_provider(model_name) {
            Ok(provider) => {
                self.provider = provider;
                Ok(())
            },
            Err(error) => Err(error),
        }
    }

    /// What the agent is doing.
    pub fn current_status(&self) -> (res: AgentStatus)
        ensures
            res@ == self@.status,
    {
        self.status.clone()
    }

    /// Puts a task on the queue for the autonomous loop and returns its
    /// fresh identifier. Nothing else changes.
    pub fn push_autonomous_task(&mut self, description: String) -> (id: u128)
        ensures
            final(self)@.tasks.len() == old(self)@.tasks.len() + 1,
            final(self)@.tasks.drop_last() == old(self)@.tasks,
            final(self)@.tasks.last() == crate::tasks::new_task(
                id,
                description@,
                final(self)@.tasks.last().created_at,
            ),
            final(self)@ == (AgentView { tasks: final(self)@.tasks, ..old(self)@ }),
    {
        self.task_stack.push(description)
    }

    /// Pauses the autonomous loop.
    pub fn pause(&mut self)
        ensures
            final(self)@ == (AgentView { paused: true, ..old(self)@ }),
    {
        self.paused = true;
    }

    /// Lets the autonomous loop go on.
    pub fn resume(&mut self)
        ensures
            final(self)@ == (AgentView { paused: false, ..old(self)@ }),
    {
        self.paused = false;
    }

    /// One step of the autonomous loop. While the agent is paused nothing
    /// changes. Otherwise the first pending task leaves the queue and its
    /// directive is returned, to be sent with `chat`; without a pending task
    /// the loop is finished.
    pub fn next_autonomous_prompt(&mut self) -> (step: AutonomousStep)
        ensures
            old(self)@.paused ==> step@ == AutonomousStepView::Paused && final(self)@ == old(self)@,
            !old(self)@.paused && none_pending(old(self)@.tasks) ==> step@
                == AutonomousStepView::Finished && final(self)@ == old(self)@,
            !old(self)@.paused && !none_pending(old(self)@.tasks) ==> exists|i: int|
                first_pending_at(old(self)@.tasks, i) && step@ == AutonomousStepView::Prompt(
                    task_prompt(old(self)@.tasks[i].description),
                ) && final(self)@ == (AgentView {
                    tasks: old(self)@.tasks.remove(i),
                    ..old(self)@
                }),
    {
        if self.paused {
            return AutonomousStep::Paused;
        }
        match self.task_stack.pop() {
            None => AutonomousStep::Finished,
            Some(task) => {
                let ghost i = choose|i: int|
                    first_pending_at(old(self)@.tasks, i) && task@ == old(self)@.tasks[i]
                        && self.task_stack@ == old(self)@.tasks.remove(i);
                assert(!none_pending(old(self)@.tasks)) by {
                    assert(old(self)@.tasks[i].status is Pending);
                }
                let mut prompt = concat3(
                    "Current Task: ",
                    task.description.as_str(),
                    "\n\nExecute the next step for this ",
                );
                prompt.append(
                    "task using available tools. If the task is finished, explain what you did. If you need to break it down further, you can use the 'push_task' tool.",
                );
                AutonomousStep::Prompt(prompt)
            },
        }
    }
}

} // verus!
