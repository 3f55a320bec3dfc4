//! Messages exchanged with a chat backend, and their mathematical models.

use vstd::prelude::*;

verus! {

/// Who a message in the conversation speaks for.
#[derive(Clone, Copy, Debug, PartialEq, Eq, Structural)]
pub enum Role {
    System,
    User,
    Assistant,
    Tool,
}

/// The function a tool call names, with its arguments as JSON text.
#[derive(Debug, PartialEq, Eq)]
pub struct ToolFunction {
    pub name: String,
    pub arguments: String,
}

/// Model of a [`ToolFunction`].
pub struct ToolFunctionView {
    pub name: Seq<char>,
    pub arguments: Seq<char>,
}

impl DeepView for ToolFunction {
    type V = ToolFunctionView;

    open spec fn deep_view(&self) -> ToolFunctionView {
        ToolFunctionView { name: self.name@, arguments: self.arguments@ }
    }
}

impl View for ToolFunction {
    type V = ToolFunctionView;

    open spec fn view(&self) -> ToolFunctionView {
        self.deep_view()
    }
}

impl Clone for ToolFunction {
    fn clone(&self) -> (res: Self)
        ensures
            res@ == self@,
    {
        ToolFunction { name: self.name.clone(), arguments: self.arguments.clone() }
    }
}

/// A request from the model to invoke a named tool.
#[derive(Debug, PartialEq, Eq)]
pub struct ToolCall {
    pub id: String,
    pub kind: String,
    pub function: ToolFunction,
}

/// Model of a [`ToolCall`].
pub struct ToolCallView {
    pub id: Seq<char>,
    pub kind: Seq<char>,
    pub function: ToolFunctionView,
}

impl DeepView for ToolCall {
    type V = ToolCallView;

    open spec fn deep_view(&self) -> ToolCallView {
        ToolCallView { id: self.id@, kind: self.kind@, function: self.function@ }
    }
}

impl View for ToolCall {
    type V = ToolCallView;

    open spec fn view(&self) -> ToolCallView {
        self.deep_view()
    }
}

impl Clone for ToolCall {
    fn clone(&self) -> (res: Self)
        ensures
            res@ == self@,
    {
        ToolCall { id: self.id.clone(), kind: self.kind.clone(), function: self.function.clone() }
    }
}

/// Copies a list of tool calls.
pub fn clone_tool_calls(calls: &Vec<ToolCall>) -> (res: Vec<ToolCall>)
    ensures
        res.deep_view() == calls.deep_view(),
{
    let mut out: Vec<ToolCall> = Vec::new();
    let mut i: usize = 0;
    while i < calls.len()
        invariant
            i <= calls.len(),
            out.len() == i,
            forall|k: int| 0 <= k < i ==> out[k]@ == calls[k]@,
        decreases calls.len() - i,
    {
        out.push(calls[i].clone());
        i += 1;
    }
    assert(out.deep_view() =~= calls.deep_view());
    out
}

/// One entry of the conversation.
///
/// An assistant message carries text, tool calls, or both; a tool message
/// carries the id of the call it answers.
#[derive(Debug, PartialEq, Eq)]
pub struct Message {
    pub role: Role,
    pub content: Option<String>,
    pub tool_calls: Option<Vec<ToolCall>>,
    pub tool_call_id: Option<String>,
}

/// Model of a [`Message`].
pub struct MessageView {
    pub role: Role,
    pub content: Option<Seq<char>>,
    pub tool_calls: Option<Seq<ToolCallView>>,
    pub tool_call_id: Option<Seq<char>>,
}

impl DeepView for Message {
    type V = MessageView;

    open spec fn deep_view(&self) -> MessageView {
        MessageView {
            role: self.role,
            content: self.content.deep_view(),
            tool_calls: self.tool_calls.deep_view(),
            tool_call_id: self.tool_call_id.deep_view(),
        }
    }
}

impl View for Message {
    type V = MessageView;

    open spec fn view(&self) -> MessageView {
        self.deep_view()
    }
}

/// Copies an optional string.
pub fn clone_text(text: &Option<String>) -> (res: Option<String>)
    ensures
        res.deep_view() == text.deep_view(),
{
    match text {
        Some(s) => Some(s.clone()),
        None => None,
    }
}

impl Clone for Message {
    fn clone(&self) -> (res: Self)
        ensures
            res@ == self@,
    {
        let tool_calls = match &self.tool_calls {
            Some(calls) => Some(clone_tool_calls(calls)),
            None => None,
        };
        Message {
            role: self.role,
            content: clone_text(&self.content),
            tool_calls,
            tool_call_id: clone_text(&self.tool_call_id),
        }
    }
}

impl Message {
    /// A system message with the given text.
    pub fn system(text: String) -> (res: Self)
        ensures
            res@ == system_message(text@),
    {
        Message { role: Role::System, content: Some(text), tool_calls: None, tool_call_id: None }
    }

    /// A user message with the given text.
    pub fn user(text: String) -> (res: Self)
        ensures
            res@ == user_message(text@),
    {
        Message { role: Role::User, content: Some(text), tool_calls: None, tool_call_id: None }
    }

    /// The assistant message that records a backend response.
    pub fn assistant(content: Option<String>, tool_calls: Option<Vec<ToolCall>>) -> (res: Self)
        ensures
            res@ == assistant_message(
                ChatCompletionResponseView {
                    content: content.deep_view(),
                    tool_calls: tool_calls.deep_view(),
                },
            ),
    {
        Message { role: Role::Assistant, content, tool_calls, tool_call_id: None }
    }

    /// The tool message that answers the call `call_id` with `content`.
    pub fn tool(call_id: String, content: String) -> (res: Self)
        ensures
            res@ == tool_message(call_id@, content@),
    {
        Message {
            role: Role::Tool,
            content: Some(content),
            tool_calls: None,
            tool_call_id: Some(call_id),
        }
    }
}

/// Model of the system message with the given text.
pub open spec fn system_message(text: Seq<char>) -> MessageView {
    MessageView { role: Role::System, content: Some(text), tool_calls: None, tool_call_id: None }
}

/// Model of the user message with the given text.
pub open spec fn user_message(text: Seq<char>) -> MessageView {
    MessageView { role: Role::User, content: Some(text), tool_calls: None, tool_call_id: None }
}

/// Model of the assistant message that records a response.
pub open spec fn assistant_message(response: ChatCompletionResponseView) -> MessageView {
    MessageView {
        role: Role::Assistant,
        content: response.content,
        tool_calls: response.tool_calls,
        tool_call_id: None,
    }
}

/// Model of the tool message that answers the call `call_id` with `content`.
pub open spec fn tool_message(call_id: Seq<char>, content: Seq<char>) -> MessageView {
    MessageView {
        role: Role::Tool,
        content: Some(content),
        tool_calls: None,
        tool_call_id: Some(call_id),
    }
}

/// What a chat backend answers: text, tool calls, both or neither.
#[derive(Debug, PartialEq, Eq)]
pub struct ChatCompletionResponse {
    pub content: Option<String>,
    pub tool_calls: Option<Vec<ToolCall>>,
}

/// Model of a [`ChatCompletionResponse`].
pub struct ChatCompletionResponseView {
    pub content: Option<Seq<char>>,
    pub tool_calls: Option<Seq<ToolCallView>>,
}

impl DeepView for ChatCompletionResponse {
    type V = ChatCompletionResponseView;

    open spec fn deep_view(&self) -> ChatCompletionResponseView {
        ChatCompletionResponseView {
            content: self.content.deep_view(),
            tool_calls: self.tool_calls.deep_view(),
        }
    }
}

impl View for ChatCompletionResponse {
    type V = ChatCompletionResponseView;

    open spec fn view(&self) -> ChatCompletionResponseView {
        self.deep_view()
    }
}

impl Clone for ChatCompletionResponse {
    fn clone(&self) -> (res: Self)
        ensures
            res@ == self@,
    {
        let tool_calls = match &self.tool_calls {
            Some(calls) => Some(clone_tool_calls(calls)),
            None => None,
        };
        ChatCompletionResponse { content: clone_text(&self.content), tool_calls }
    }
}

impl Default for ChatCompletionResponse {
    fn default() -> (res: Self)
        ensures
            res@ == (ChatCompletionResponseView { content: None, tool_calls: None }),
    {
        ChatCompletionResponse { content: None, tool_calls: None }
    }
}

/// What is sent to a chat backend. The temperature is given in thousandths:
/// 700 stands for 0.7.
#[derive(Debug, PartialEq, Eq)]
pub struct ChatCompletionRequest {
    pub messages: Vec<Message>,
    pub temperature_milli: Option<u32>,
    pub max_tokens: Option<u32>,
    /// The function definitions of the tools on offer, each as JSON text.
    pub tools: Option<Vec<String>>,
}

/// Model of a [`ChatCompletionRequest`].
pub struct ChatCompletionRequestView {
    pub messages: Seq<MessageView>,
    pub temperature_milli: Option<u32>,
    pub max_tokens: Option<u32>,
    pub tools: Option<Seq<Seq<char>>>,
}

impl DeepView for ChatCompletionRequest {
    type V = ChatCompletionRequestView;

    open spec fn deep_view(&self) -> ChatCompletionRequestView {
        ChatCompletionRequestView {
            messages: self.messages.deep_view(),
            temperature_milli: self.temperature_milli,
            max_tokens: self.max_tokens,
            tools: self.tools.deep_view(),
        }
    }
}

impl View for ChatCompletionRequest {
    type V = ChatCompletionRequestView;

    open spec fn view(&self) -> ChatCompletionRequestView {
        self.deep_view()
    }
}

/// Copies a list of messages.
pub fn clone_messages(messages: &Vec<Message>) -> (res: Vec<Message>)
    ensures
        res.deep_view() == messages.deep_view(),
{
    let mut out: Vec<Message> = Vec::new();
    let mut i: usize = 0;
    while i < messages.len()
        invariant
            i <= messages.len(),
            out.len() == i,
            forall|k: int| 0 <= k < i ==> out[k]@ == messages[k]@,
        decreases messages.len() - i,
    {
        out.push(messages[i].clone());
        i += 1;
    }
    assert(out.deep_view() =~= messages.deep_view());
    out
}

} // verus!
