//! The chat backends an agent can be pointed at.
//!
//! A provider value names a backend and holds what is needed to reach it.
//! Talking to the backend is the caller's work; the values here say where
//! to send each request and, for the mock backend, what comes back.

use crate::json::{
    json_compact, json_compact_of, json_items, json_items_of, json_member, json_member_of,
    json_number_value, json_number_value_of, json_string_member, json_string_member_of,
    json_syntax_error, json_syntax_error_of, text_outcome,
};
use crate::message::{
    clone_text, ChatCompletionResponse, ChatCompletionResponseView, ToolCall, ToolCallView,
    ToolFunction, ToolFunctionView,
};
use crate::text::{
    chars_of, concat2, concat3, decimal, decimal_text, ends_with, ends_with_chars, split_terms,
    trim_end_char, trim_end_text, trimmed_end, whitespace_terms, without_suffix,
};
use vstd::prelude::*;
use vstd::string::StringExecFns;

verus! {

/// A backend that answers without a network: every request gets the same reply.
#[derive(Clone, Copy, Debug, PartialEq, Eq)]
pub struct MockProvider;

/// A llama.cpp server.
#[derive(Debug, PartialEq, Eq)]
pub struct LlamaCppProvider {
    pub url: String,
}

/// A server that speaks the OpenAI protocol.
#[derive(Debug, PartialEq, Eq)]
pub struct OpenAiProvider {
    pub url: String,
    pub api_key: Option<String>,
    pub model_id: String,
}

/// The backend an agent talks to.
#[derive(Debug, PartialEq, Eq)]
pub enum ProviderKind {
    LlamaCpp(LlamaCppProvider),
    OpenAi(OpenAiProvider),
    Mock(MockProvider),
}

/// Model of a [`ProviderKind`].
pub enum ProviderKindView {
    LlamaCpp { url: Seq<char> },
    OpenAi { url: Seq<char>, api_key: Option<Seq<char>>, model_id: Seq<char> },
    Mock,
}

impl DeepView for ProviderKind {
    type V = ProviderKindView;

    open spec fn deep_view(&self) -> ProviderKindView {
        match self {
            ProviderKind::LlamaCpp(p) => ProviderKindView::LlamaCpp { url: p.url@ },
            ProviderKind::OpenAi(p) => ProviderKindView::OpenAi {
                url: p.url@,
                api_key: p.api_key.deep_view(),
                model_id: p.model_id@,
            },
            ProviderKind::Mock(_) => ProviderKindView::Mock,
        }
    }
}

impl View for ProviderKind {
    type V = ProviderKindView;

    open spec fn view(&self) -> ProviderKindView {
        self.deep_view()
    }
}

impl Clone for ProviderKind {
    fn clone(&self) -> (res: Self)
        ensures
            res@ == self@,
    {
        match self {
            ProviderKind::LlamaCpp(p) => ProviderKind::LlamaCpp(
                LlamaCppProvider { url: p.url.clone() },
            ),
            ProviderKind::OpenAi(p) => ProviderKind::OpenAi(
                OpenAiProvider {
                    url: p.url.clone(),
                    api_key: clone_text(&p.api_key),
                    model_id: p.model_id.clone(),
                },
            ),
            ProviderKind::Mock(_) => ProviderKind::Mock(MockProvider),
        }
    }
}

/// What the mock backend answers to every request.
pub open spec fn mock_response() -> ChatCompletionResponseView {
    ChatCompletionResponseView { content: Some("Mock response"@), tool_calls: None }
}

/// The tokens that the mock backend gives a text of `count` terms: the
/// numbers from zero up, each cut to 32 bits.
pub open spec fn mock_tokens(count: nat) -> Seq<u32> {
    Seq::new(count, |i: int| (i % 0x1_0000_0000) as u32)
}

/// The tokens that the mock backend gives a text of `count` terms.
pub fn number_tokens(count: usize) -> (res: Vec<u32>)
    ensures
        res@ == mock_tokens(count as nat),
{
    let mut out: Vec<u32> = Vec::new();
    let mut i: usize = 0;
    let mut token: u32 = 0;
    while i < count
        invariant
            i <= count,
            out.len() == i,
            token as int == i as int % 0x1_0000_0000,
            forall|k: int| 0 <= k < i ==> out[k] as int == k % 0x1_0000_0000,
        decreases count - i,
    {
        out.push(token);
        token = token.wrapping_add(1);
        i += 1;
    }
    assert(out@ =~= mock_tokens(count as nat));
    out
}

impl MockProvider {
    /// The reply to a chat request: always the text `Mock response`, never a
    /// tool call.
    pub fn chat_completion(&self) -> (res: ChatCompletionResponse)
        ensures
            res@ == mock_response(),
    {
        ChatCompletionResponse { content: Some(String::from_str("Mock response")), tool_calls: None }
    }

    /// The tokens of a text: one per whitespace-separated term, numbered
    /// from zero.
    pub fn tokenize(&self, text: &str) -> (res: Vec<u32>)
        ensures
            res@ == mock_tokens(whitespace_terms(text@).len()),
    {
        let terms = split_terms(text);
        assert(terms.deep_view().len() == terms.len());
        number_tokens(terms.len())
    }

    /// The text for a list of tokens: how many there are.
    pub fn detokenize(&self, tokens: &Vec<u32>) -> (res: String)
        ensures
            res@ == "Detokenized "@ + decimal_text(tokens.len() as nat) + " tokens"@,
    {
        let count = decimal(tokens.len());
        concat3("Detokenized ", count.as_str(), " tokens")
    }

    /// The models the mock backend offers: `mock-model` alone.
    pub fn list_models(&self) -> (res: Vec<String>)
        ensures
            res.deep_view() == seq!["mock-model"@],
    {
        let mut out: Vec<String> = Vec::new();
        out.push(String::from_str("mock-model"));
        assert(out.deep_view() =~= seq!["mock-model"@]);
        out
    }

    /// The mock backend is always healthy.
    pub fn health_check(&self) -> (res: bool)
        ensures
            res,
    {
        true
    }
}

/// The address of a path of the versioned API below a server's address:
/// trailing slashes are dropped, and `/v1` is put in unless the address ends
/// with it.
pub open spec fn versioned_url(url: Seq<char>, path: Seq<char>) -> Seq<char> {
    let base = trimmed_end(url, '/');
    if ends_with(base, "/v1"@) {
        base + path
    } else {
        base + "/v1"@ + path
    }
}

/// The address of a path directly below a server's address, trailing
/// slashes dropped.
pub open spec fn plain_url(url: Seq<char>, path: Seq<char>) -> Seq<char> {
    trimmed_end(url, '/') + path
}

/// The address of a path below the root of a server whose address may end
/// with `/v1`: trailing slashes and then every trailing `/v1` are dropped.
pub open spec fn root_url(url: Seq<char>, path: Seq<char>) -> Seq<char> {
    without_suffix(trimmed_end(url, '/'), "/v1"@) + path
}

/// The address of a path of the versioned API below `url`.
pub fn versioned_endpoint(url: &str, path: &str) -> (res: String)
    ensures
        res@ == versioned_url(url@, path@),
{
    let base = trim_end_char(url, '/');
    let chars = chars_of(base.as_str());
    let suffix = chars_of("/v1");
    assert(chars@.take(chars.len() as int) =~= chars@);
    if ends_with_chars(&chars, chars.len(), &suffix) {
        concat2(base.as_str(), path)
    } else {
        let mut out = base;
        out.append("/v1");
        out.append(path);
        assert(out@ =~= versioned_url(url@, path@));
        out
    }
}

/// The address of a path directly below `url`.
pub fn plain_endpoint(url: &str, path: &str) -> (res: String)
    ensures
        res@ == plain_url(url@, path@),
{
    let base = trim_end_char(url, '/');
    concat2(base.as_str(), path)
}

/// The address of a path below the root of the server at `url`.
pub fn root_endpoint(url: &str, path: &str) -> (res: String)
    ensures
        res@ == root_url(url@, path@),
{
    let base = trim_end_char(url, '/');
    let root = trim_end_text(base.as_str(), "/v1");
    concat2(root.as_str(), path)
}

impl LlamaCppProvider {
    /// Where chat requests go.
    pub fn chat_endpoint(&self) -> (res: String)
        ensures
            res@ == versioned_url(self.url@, "/chat/completions"@),
    {
        versioned_endpoint(self.url.as_str(), "/chat/completions")
    }

    /// Where embedding requests go.
    pub fn embedding_endpoint(&self) -> (res: String)
        ensures
            res@ == plain_url(self.url@, "/embedding"@),
    {
        plain_endpoint(self.url.as_str(), "/embedding")
    }

    /// Where texts are turned into tokens.
    pub fn tokenize_endpoint(&self) -> (res: String)
        ensures
            res@ == plain_url(self.url@, "/tokenize"@),
    {
        plain_endpoint(self.url.as_str(), "/tokenize")
    }

    /// Where tokens are turned into text.
    pub fn detokenize_endpoint(&self) -> (res: String)
        ensures
            res@ == plain_url(self.url@, "/detokenize"@),
    {
        plain_endpoint(self.url.as_str(), "/detokenize")
    }

    /// Where the models are listed.
    pub fn models_endpoint(&self) -> (res: String)
        ensures
            res@ == versioned_url(self.url@, "/models"@),
    {
        versioned_endpoint(self.url.as_str(), "/models")
    }

    /// Where the server reports its health.
    pub fn health_endpoint(&self) -> (res: String)
        ensures
            res@ == plain_url(self.url@, "/health"@),
    {
        plain_endpoint(self.url.as_str(), "/health")
    }
}

/// The value of the authorization header for an API key.
pub open spec fn bearer(key: Option<Seq<char>>) -> Option<Seq<char>> {
    match key {
        Some(k) => Some("Bearer "@ + k),
        None => None,
    }
}

impl OpenAiProvider {
    /// Where chat requests go.
    pub fn chat_endpoint(&self) -> (res: String)
        ensures
            res@ == versioned_url(self.url@, "/chat/completions"@),
    {
        versioned_endpoint(self.url.as_str(), "/chat/completions")
    }

    /// Where embedding requests go.
    pub fn embedding_endpoint(&self) -> (res: String)
        ensures
            res@ == versioned_url(self.url@, "/embeddings"@),
    {
        versioned_endpoint(self.url.as_str(), "/embeddings")
    }

    /// Where texts are turned into tokens.
    pub fn tokenize_endpoint(&self) -> (res: String)
        ensures
            res@ == root_url(self.url@, "/tokenize"@),
    {
        root_endpoint(self.url.as_str(), "/tokenize")
    }

    /// Where tokens are turned into text.
    pub fn detokenize_endpoint(&self) -> (res: String)
        ensures
            res@ == root_url(self.url@, "/detokenize"@),
    {
        root_endpoint(self.url.as_str(), "/detokenize")
    }

    /// Where the models are listed.
    pub fn models_endpoint(&self) -> (res: String)
        ensures
            res@ == versioned_url(self.url@, "/models"@),
    {
        versioned_endpoint(self.url.as_str(), "/models")
    }

    /// Where the server reports its health.
    pub fn health_endpoint(&self) -> (res: String)
        ensures
            res@ == root_url(self.url@, "/health"@),
    {
        root_endpoint(self.url.as_str(), "/health")
    }

    /// The authorization header to send, when the provider has an API key.
    pub fn authorization(&self) -> (res: Option<String>)
        ensures
            res.deep_view() == bearer(self.api_key.deep_view()),
    {
        match &self.api_key {
            Some(key) => Some(concat2("Bearer ", key.as_str())),
            None => None,
        }
    }
}

/// The tool call that four members of a JSON object make: all four have to
/// be there as strings.
pub open spec fn tool_call_of(
    id: Option<Seq<char>>,
    kind: Option<Seq<char>>,
    name: Option<Seq<char>>,
    arguments: Option<Seq<char>>,
) -> Option<ToolCallView> {
    if id is Some && kind is Some && name is Some && arguments is Some {
        Some(
            ToolCallView {
                id: id->0,
                kind: kind->0,
                function: ToolFunctionView { name: name->0, arguments: arguments->0 },
            },
        )
    } else {
        None
    }
}

/// The string member `key` of the object that `text` holds under `outer`.
pub open spec fn nested_string_of(text: Seq<char>, outer: Seq<char>, key: Seq<char>) -> Option<
    Seq<char>,
> {
    match json_member_of(text, outer) {
        Some(inner) => json_string_member_of(inner, key),
        None => None,
    }
}

/// The tool call that one element of a `tool_calls` array stands for, given
/// as JSON text: its `id`, its `type`, and the `name` and `arguments` of its
/// `function`.
pub open spec fn parsed_tool_call(item: Seq<char>) -> Option<ToolCallView> {
    tool_call_of(
        json_string_member_of(item, "id"@),
        json_string_member_of(item, "type"@),
        nested_string_of(item, "function"@, "name"@),
        nested_string_of(item, "function"@, "arguments"@),
    )
}

/// The tool calls that the elements of a `tool_calls` array stand for, in
/// order; an element that is no complete tool call is left out.
pub open spec fn parsed_tool_calls(items: Seq<Seq<char>>) -> Seq<ToolCallView>
    decreases items.len(),
{
    if items.len() == 0 {
        Seq::empty()
    } else {
        match parsed_tool_call(items.last()) {
            Some(call) => parsed_tool_calls(items.drop_last()).push(call),
            None => parsed_tool_calls(items.drop_last()),
        }
    }
}

/// The elements of the array that `text` holds under `key`.
pub open spec fn member_items_of(text: Seq<char>, key: Seq<char>) -> Option<Seq<Seq<char>>> {
    match json_member_of(text, key) {
        Some(member) => json_items_of(member),
        None => None,
    }
}

/// The response that one choice of a completion stands for, given as JSON
/// text: the `content` of its `message` when that is a string, and the tool
/// calls of its `message` when `tool_calls` is an array.
pub open spec fn parsed_choice(choice: Seq<char>) -> ChatCompletionResponseView {
    match json_member_of(choice, "message"@) {
        Some(message) => ChatCompletionResponseView {
            content: json_string_member_of(message, "content"@),
            tool_calls: match member_items_of(message, "tool_calls"@) {
                Some(items) => Some(parsed_tool_calls(items)),
                None => None,
            },
        },
        None => ChatCompletionResponseView { content: None, tool_calls: None },
    }
}

/// The failure that a body with an `error` member stands for: the label of
/// the backend and the error's message, or `Unknown error` without one.
pub open spec fn backend_error(label: Seq<char>, message: Option<Seq<char>>) -> Seq<char> {
    label + ": "@ + match message {
        Some(m) => m,
        None => "Unknown error"@,
    }
}

/// What the body of a completion stands for. A body that is not JSON fails
/// with the parser's message; a body with an `error` member fails with that
/// error; a body without a first choice fails and shows the body; otherwise
/// the first choice is the response.
pub open spec fn parsed_chat_response(body: Seq<char>, label: Seq<char>) -> Result<
    ChatCompletionResponseView,
    Seq<char>,
> {
    match json_syntax_error_of(body) {
        Some(error) => Err(error),
        None => match json_member_of(body, "error"@) {
            Some(error) => Err(backend_error(label, json_string_member_of(error, "message"@))),
            None => match member_items_of(body, "choices"@) {
                Some(choices) if choices.len() > 0 => Ok(parsed_choice(choices[0])),
                _ => Err(
                    "No choices returned from model. Response: "@ + match json_compact_of(body) {
                        Some(text) => text,
                        None => body,
                    },
                ),
            },
        },
    }
}

/// Model of a response or a failure.
pub open spec fn response_result(outcome: Result<ChatCompletionResponse, String>) -> Result<
    ChatCompletionResponseView,
    Seq<char>,
> {
    match outcome {
        Ok(response) => Ok(response@),
        Err(message) => Err(message@),
    }
}

/// The tool call that four members of a JSON object make.
pub fn assemble_tool_call(
    id: Option<String>,
    kind: Option<String>,
    name: Option<String>,
    arguments: Option<String>,
) -> (res: Option<ToolCall>)
    ensures
        res.deep_view() == tool_call_of(
            id.deep_view(),
            kind.deep_view(),
            name.deep_view(),
            arguments.deep_view(),
        ),
{
    match (id, kind, name, arguments) {
        (Some(id), Some(kind), Some(name), Some(arguments)) => Some(
            ToolCall { id, kind, function: ToolFunction { name, arguments } },
        ),
        _ => None,
    }
}

/// The failure that a body with an `error` member stands for.
pub fn backend_failure(label: &str, message: Option<String>) -> (res: String)
    ensures
        res@ == backend_error(label@, message.deep_view()),
{
    let mut out = String::from_str(label);
    out.append(": ");
    match &message {
        Some(m) => out.append(m.as_str()),
        None => out.append("Unknown error"),
    }
    assert(out@ =~= backend_error(label@, message.deep_view()));
    out
}

/// The string member `key` of the object that `text` holds under `outer`.
fn nested_string(text: &str, outer: &str, key: &str) -> (res: Option<String>)
    ensures
        res.deep_view() == nested_string_of(text@, outer@, key@),
{
    match json_member(text, outer) {
        Some(inner) => json_string_member(inner.as_str(), key),
        None => None,
    }
}

/// The elements of the array that `text` holds under `key`.
fn member_items(text: &str, key: &str) -> (res: Option<Vec<String>>)
    ensures
        res.deep_view() == member_items_of(text@, key@),
{
    match json_member(text, key) {
        Some(member) => json_items(member.as_str()),
        None => None,
    }
}

/// The tool call that one element of a `tool_calls` array stands for.
pub fn parse_tool_call(item: &str) -> (res: Option<ToolCall>)
    ensures
        res.deep_view() == parsed_tool_call(item@),
{
    assemble_tool_call(
        json_string_member(item, "id"),
        json_string_member(item, "type"),
        nested_string(item, "function", "name"),
        nested_string(item, "function", "arguments"),
    )
}

/// The tool calls that the elements of a `tool_calls` array stand for.
pub fn parse_tool_calls(items: &Vec<String>) -> (res: Vec<ToolCall>)
    ensures
        res.deep_view() == parsed_tool_calls(items.deep_view()),
{
    let ghost all = items.deep_view();
    let mut out: Vec<ToolCall> = Vec::new();
    let mut i: usize = 0;
    assert(all.take(0) =~= Seq::empty());
    assert(out.deep_view() =~= Seq::empty());
    while i < items.len()
        invariant
            i <= items.len(),
            all == items.deep_view(),
            out.deep_view() == parsed_tool_calls(all.take(i as int)),
        decreases items.len() - i,
    {
        let ghost prefix = all.take(i as int + 1);
        assert(prefix.drop_last() =~= all.take(i as int));
        assert(prefix.last() == items[i as int]@);
        match parse_tool_call(items[i].as_str()) {
            Some(call) => {
                let ghost before = out.deep_view();
                out.push(call);
                assert(out.deep_view() =~= before.push(call@));
            },
            None => {},
        }
        i += 1;
    }
    assert(all.take(i as int) =~= all);
    out
}

/// The response that one choice of a completion stands for.
pub fn parse_choice(choice: &str) -> (res: ChatCompletionResponse)
    ensures
        res@ == parsed_choice(choice@),
{
    match json_member(choice, "message") {
        Some(message) => {
            let content = json_string_member(message.as_str(), "content");
            let tool_calls = match member_items(message.as_str(), "tool_calls") {
                Some(items) => Some(parse_tool_calls(&items)),
                None => None,
            };
            ChatCompletionResponse { content, tool_calls }
        },
        None => ChatCompletionResponse { content: None, tool_calls: None },
    }
}

/// Reads the body of a completion. `label` names the backend in the failure
/// that an `error` member gives.
pub fn parse_chat_response(body: &str, label: &str) -> (res: Result<ChatCompletionResponse, String>)
    ensures
        response_result(res) == parsed_chat_response(body@, label@),
{
    match json_syntax_error(body) {
        Some(error) => {
            return Err(error);
        },
        None => {},
    }
    match json_member(body, "error") {
        Some(error) => {
            return Err(backend_failure(label, json_string_member(error.as_str(), "message")));
        },
        None => {},
    }
    match member_items(body, "choices") {
        Some(choices) => {
            assert(choices.deep_view().len() == choices.len());
            if choices.len() > 0 {
                assert(choices.deep_view()[0] == choices[0]@);
                return Ok(parse_choice(choices[0].as_str()));
            }
        },
        None => {},
    }
    let shown = match json_compact(body) {
        Some(text) => text,
        None => String::from_str(body),
    };
    Err(concat2("No choices returned from model. Response: ", shown.as_str()))
}

/// The tokens that the elements of a `tokens` array stand for, in order:
/// each whole number from zero up, cut to 32 bits; any other element is
/// left out.
pub open spec fn parsed_tokens(items: Seq<Seq<char>>) -> Seq<u32>
    decreases items.len(),
{
    if items.len() == 0 {
        Seq::empty()
    } else {
        match json_number_value_of(items.last()) {
            Some(n) => parsed_tokens(items.drop_last()).push((n % 0x1_0000_0000) as u32),
            None => parsed_tokens(items.drop_last()),
        }
    }
}

/// The model ids that the elements of a `data` array stand for, in order:
/// the string member `id` of each element that has one.
pub open spec fn parsed_model_ids(items: Seq<Seq<char>>) -> Seq<Seq<char>>
    decreases items.len(),
{
    if items.len() == 0 {
        Seq::empty()
    } else {
        match json_string_member_of(items.last(), "id"@) {
            Some(id) => parsed_model_ids(items.drop_last()).push(id),
            None => parsed_model_ids(items.drop_last()),
        }
    }
}

/// What the body of a tokenize response stands for: the tokens of its
/// `tokens` array, or `failure` when it has none.
pub open spec fn parsed_tokenize_response(body: Seq<char>, failure: Seq<char>) -> Result<
    Seq<u32>,
    Seq<char>,
> {
    match member_items_of(body, "tokens"@) {
        Some(items) => Ok(parsed_tokens(items)),
        None => Err(failure),
    }
}

/// What the body of a detokenize response stands for: its string member
/// `content`, or a failure.
pub open spec fn parsed_detokenize_response(body: Seq<char>) -> Result<Seq<char>, Seq<char>> {
    match json_string_member_of(body, "content"@) {
        Some(content) => Ok(content),
        None => Err("Detokenization failed"@),
    }
}

/// What the body of a model list stands for: the ids of its `data` array,
/// or a failure when it has none.
pub open spec fn parsed_models_response(body: Seq<char>) -> Result<Seq<Seq<char>>, Seq<char>> {
    match member_items_of(body, "data"@) {
        Some(items) => Ok(parsed_model_ids(items)),
        None => Err("Could not list models"@),
    }
}

/// Model of a list of tokens or a failure.
pub open spec fn tokens_outcome(outcome: Result<Vec<u32>, String>) -> Result<Seq<u32>, Seq<char>> {
    match outcome {
        Ok(tokens) => Ok(tokens@),
        Err(message) => Err(message@),
    }
}

/// Model of a list of texts or a failure.
pub open spec fn texts_outcome(outcome: Result<Vec<String>, String>) -> Result<
    Seq<Seq<char>>,
    Seq<char>,
> {
    match outcome {
        Ok(texts) => Ok(texts.deep_view()),
        Err(message) => Err(message@),
    }
}

/// The tokens that the elements of a `tokens` array stand for.
pub fn parse_tokens(items: &Vec<String>) -> (res: Vec<u32>)
    ensures
        res@ == parsed_tokens(items.deep_view()),
{
    let ghost all = items.deep_view();
    let mut out: Vec<u32> = Vec::new();
    let mut i: usize = 0;
    assert(all.take(0) =~= Seq::empty());
    while i < items.len()
        invariant
            i <= items.len(),
            all == items.deep_view(),
            out@ == parsed_tokens(all.take(i as int)),
        decreases items.len() - i,
    {
        let ghost prefix = all.take(i as int + 1);
        assert(prefix.drop_last() =~= all.take(i as int));
        assert(prefix.last() == items[i as int]@);
        match json_number_value(items[i].as_str()) {
            Some(n) => {
                out.push((n % 0x1_0000_0000) as u32);
            },
            None => {},
        }
        i += 1;
    }
    assert(all.take(i as int) =~= all);
    out
}

/// The model ids that the elements of a `data` array stand for.
pub fn parse_model_ids(items: &Vec<String>) -> (res: Vec<String>)
    ensures
        res.deep_view() == parsed_model_ids(items.deep_view()),
{
    let ghost all = items.deep_view();
    let mut out: Vec<String> = Vec::new();
    let mut i: usize = 0;
    assert(all.take(0) =~= Seq::empty());
    assert(out.deep_view() =~= Seq::empty());
    while i < items.len()
        invariant
            i <= items.len(),
            all == items.deep_view(),
            out.deep_view() == parsed_model_ids(all.take(i as int)),
        decreases items.len() - i,
    {
        let ghost prefix = all.take(i as int + 1);
        assert(prefix.drop_last() =~= all.take(i as int));
        assert(prefix.last() == items[i as int]@);
        match json_string_member(items[i].as_str(), "id") {
            Some(id) => {
                let ghost before = out.deep_view();
                out.push(id);
                assert(out.deep_view() =~= before.push(id@));
            },
            None => {},
        }
        i += 1;
    }
    assert(all.take(i as int) =~= all);
    out
}

/// Reads the body of a tokenize response; `failure` is the message for a
/// body without a `tokens` array.
pub fn parse_tokenize_response(body: &str, failure: &str) -> (res: Result<Vec<u32>, String>)
    ensures
        tokens_outcome(res) == parsed_tokenize_response(body@, failure@),
{
    match member_items(body, "tokens") {
        Some(items) => Ok(parse_tokens(&items)),
        None => Err(String::from_str(failure)),
    }
}

/// Reads the body of a detokenize response.
pub fn parse_detokenize_response(body: &str) -> (res: Result<String, String>)
    ensures
        text_outcome(res) == parsed_detokenize_response(body@),
{
    match json_string_member(body, "content") {
        Some(content) => Ok(content),
        None => Err(String::from_str("Detokenization failed")),
    }
}

/// Reads the body of a model list.
pub fn parse_models_response(body: &str) -> (res: Result<Vec<String>, String>)
    ensures
        texts_outcome(res) == parsed_models_response(body@),
{
    match member_items(body, "data") {
        Some(items) => Ok(parse_model_ids(&items)),
        None => Err(String::from_str("Could not list models")),
    }
}

impl LlamaCppProvider {
    /// Reads the body of a tokenize response from a llama.cpp server.
    pub fn read_tokens(&self, body: &str) -> (res: Result<Vec<u32>, String>)
        ensures
            tokens_outcome(res) == parsed_tokenize_response(body@, "Tokenization failed"@),
    {
        parse_tokenize_response(body, "Tokenization failed")
    }

    /// Reads the body of a completion from a llama.cpp server.
    pub fn read_chat_completion(&self, body: &str) -> (res: Result<ChatCompletionResponse, String>)
        ensures
            response_result(res) == parsed_chat_response(body@, "Server Error"@),
    {
        parse_chat_response(body, "Server Error")
    }
}

impl OpenAiProvider {
    /// Reads the body of a tokenize response from an OpenAI server.
    pub fn read_tokens(&self, body: &str) -> (res: Result<Vec<u32>, String>)
        ensures
            tokens_outcome(res) == parsed_tokenize_response(
                body@,
                "Tokenization failed or endpoint not found"@,
            ),
    {
        parse_tokenize_response(body, "Tokenization failed or endpoint not found")
    }

    /// Reads the body of a completion from an OpenAI server.
    pub fn read_chat_completion(&self, body: &str) -> (res: Result<ChatCompletionResponse, String>)
        ensures
            response_result(res) == parsed_chat_response(body@, "OpenAI Error"@),
    {
        parse_chat_response(body, "OpenAI Error")
    }
}

} // verus!
