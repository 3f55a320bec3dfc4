use pecan::message::{ChatCompletionResponse, ToolCall, ToolFunction};
use pecan::providers::{
    assemble_tool_call, backend_failure, parse_chat_response, parse_choice,
    parse_detokenize_response, parse_model_ids, parse_models_response, parse_tokens,
    parse_tool_call, parse_tool_calls, plain_endpoint, root_endpoint, versioned_endpoint,
    LlamaCppProvider, MockProvider, OpenAiProvider,
};
use pecan::text::{begins_with, chars_of, concat2, concat3, contains_text, same_text, trim_end_char, trim_end_text};

fn llama(url: &str) -> LlamaCppProvider {
    LlamaCppProvider { url: url.to_string() }
}

fn openai(url: &str, key: Option<&str>) -> OpenAiProvider {
    OpenAiProvider {
        url: url.to_string(),
        api_key: key.map(|k| k.to_string()),
        model_id: "gpt-4o".to_string(),
    }
}

#[test]
fn mock_provider_answers() {
    assert_eq!(
        MockProvider.chat_completion(),
        ChatCompletionResponse { content: Some("Mock response".to_string()), tool_calls: None }
    );
    assert_eq!(MockProvider.list_models(), vec!["mock-model".to_string()]);
    assert!(MockProvider.health_check());
    assert_eq!(
        ChatCompletionResponse::default(),
        ChatCompletionResponse { content: None, tool_calls: None }
    );
}

#[test]
fn llama_endpoints() {
    let p = llama("http://localhost:8080");
    assert_eq!(p.chat_endpoint(), "http://localhost:8080/v1/chat/completions");
    assert_eq!(p.models_endpoint(), "http://localhost:8080/v1/models");
    assert_eq!(p.embedding_endpoint(), "http://localhost:8080/embedding");
    assert_eq!(p.tokenize_endpoint(), "http://localhost:8080/tokenize");
    assert_eq!(p.detokenize_endpoint(), "http://localhost:8080/detokenize");
    assert_eq!(p.health_endpoint(), "http://localhost:8080/health");
}

#[test]
fn llama_endpoints_with_version_and_slashes() {
    let p = llama("http://localhost:8080/v1///");
    assert_eq!(p.chat_endpoint(), "http://localhost:8080/v1/chat/completions");
    assert_eq!(p.models_endpoint(), "http://localhost:8080/v1/models");
    assert_eq!(p.embedding_endpoint(), "http://localhost:8080/v1/embedding");
    assert_eq!(p.health_endpoint(), "http://localhost:8080/v1/health");
}

#[test]
fn openai_endpoints() {
    let p = openai("https://api.example.com/v1/", Some("SECRET-REDACTED"));
    assert_eq!(p.chat_endpoint(), "https://api.example.com/v1/chat/completions");
    assert_eq!(p.embedding_endpoint(), "https://api.example.com/v1/embeddings");
    assert_eq!(p.models_endpoint(), "https://api.example.com/v1/models");
    assert_eq!(p.tokenize_endpoint(), "https://api.example.com/tokenize");
    assert_eq!(p.detokenize_endpoint(), "https://api.example.com/detokenize");
    assert_eq!(p.health_endpoint(), "https://api.example.com/health");
    assert_eq!(p.authorization(), Some("Bearer SECRET-REDACTED".to_string()));
    assert_eq!(openai("x", None).authorization(), None);
}

#[test]
fn openai_endpoints_without_version() {
    let p = openai("https://api.example.com", None);
    assert_eq!(p.chat_endpoint(), "https://api.example.com/v1/chat/completions");
    assert_eq!(p.embedding_endpoint(), "https://api.example.com/v1/embeddings");
    assert_eq!(p.tokenize_endpoint(), "https://api.example.com/tokenize");
}

#[test]
fn endpoint_helpers() {
    assert_eq!(versioned_endpoint("", "/models"), "/v1/models");
    assert_eq!(versioned_endpoint("/v1", "/models"), "/v1/models");
    assert_eq!(versioned_endpoint("a/v1x/", "/m"), "a/v1x/v1/m");
    assert_eq!(plain_endpoint("a//", "/b"), "a/b");
    assert_eq!(root_endpoint("a/v1/v1", "/b"), "a/b");
    assert_eq!(root_endpoint("a/v1/", "/b"), "a/b");
    assert_eq!(root_endpoint("a/v2", "/b"), "a/v2/b");
}

#[test]
fn text_helpers() {
    assert_eq!(chars_of("a\u{e9}\u{1f600}"), vec!['a', '\u{e9}', '\u{1f600}']);
    assert!(same_text("abc", "abc"));
    assert!(!same_text("abc", "abd"));
    assert_eq!(concat2("a", "b"), "ab");
    assert_eq!(concat3("a", "", "c"), "ac");
    assert!(contains_text("hello world", "o w"));
    assert!(contains_text("hello", ""));
    assert!(contains_text("", ""));
    assert!(!contains_text("hello", "world"));
    assert!(!contains_text("ab", "abc"));
    assert!(contains_text("na\u{ef}ve caf\u{e9}", "caf\u{e9}"));
    assert!(begins_with("/model x", "/model "));
    assert!(!begins_with("/mode", "/model "));
    assert!(begins_with("x", ""));
    assert_eq!(trim_end_char("a//", '/'), "a");
    assert_eq!(trim_end_char("///", '/'), "");
    assert_eq!(trim_end_char("a/b", '/'), "a/b");
    assert_eq!(trim_end_text("abab", "ab"), "");
    assert_eq!(trim_end_text("xab", "ab"), "x");
    assert_eq!(trim_end_text("xab", ""), "xab");
    assert_eq!(trim_end_text("xa", "ab"), "xa");
}

#[test]
fn chat_response_with_content() {
    let body = "{\"choices\":[{\"message\":{\"role\":\"assistant\",\"content\":\"Hello!\"}}]}";
    assert_eq!(
        parse_chat_response(body, "Server Error"),
        Ok(ChatCompletionResponse { content: Some("Hello!".to_string()), tool_calls: None })
    );
}

#[test]
fn chat_response_with_tool_calls() {
    let body = "{\"choices\":[{\"message\":{\"content\":null,\"tool_calls\":[\
        {\"id\":\"call_1\",\"type\":\"function\",\"function\":{\"name\":\"read_file\",\"arguments\":\"{\\\"path\\\":\\\"a\\\"}\"}},\
        {\"id\":\"broken\",\"type\":\"function\",\"function\":{\"name\":\"x\"}},\
        {\"id\":\"call_2\",\"type\":\"function\",\"function\":{\"name\":\"shell\",\"arguments\":\"{}\"}}\
        ]}},{\"message\":{\"content\":\"second choice\"}}]}";
    let expected = ChatCompletionResponse {
        content: None,
        tool_calls: Some(vec![
            ToolCall {
                id: "call_1".to_string(),
                kind: "function".to_string(),
                function: ToolFunction {
                    name: "read_file".to_string(),
                    arguments: "{\"path\":\"a\"}".to_string(),
                },
            },
            ToolCall {
                id: "call_2".to_string(),
                kind: "function".to_string(),
                function: ToolFunction { name: "shell".to_string(), arguments: "{}".to_string() },
            },
        ]),
    };
    assert_eq!(llama("x").read_chat_completion(body), Ok(expected));
}

#[test]
fn chat_response_with_error_member() {
    let body = "{\"error\":{\"message\":\"model overloaded\",\"code\":503}}";
    assert_eq!(
        llama("x").read_chat_completion(body),
        Err("Server Error: model overloaded".to_string())
    );
    assert_eq!(
        openai("x", None).read_chat_completion(body),
        Err("OpenAI Error: model overloaded".to_string())
    );
    assert_eq!(
        parse_chat_response("{\"error\":\"plain\"}", "OpenAI Error"),
        Err("OpenAI Error: Unknown error".to_string())
    );
    assert_eq!(
        parse_chat_response("{\"error\":null,\"choices\":[]}", "Server Error"),
        Err("Server Error: Unknown error".to_string())
    );
}

#[test]
fn chat_response_without_choices() {
    assert_eq!(
        parse_chat_response("{ \"choices\" : [ ] }", "Server Error"),
        Err("No choices returned from model. Response: {\"choices\":[]}".to_string())
    );
    assert_eq!(
        parse_chat_response("{\"choices\":{\"0\":{}}}", "Server Error"),
        Err("No choices returned from model. Response: {\"choices\":{\"0\":{}}}".to_string())
    );
    assert_eq!(
        parse_chat_response("[1, 2]", "Server Error"),
        Err("No choices returned from model. Response: [1,2]".to_string())
    );
}

#[test]
fn chat_response_that_is_not_json() {
    let error = parse_chat_response("<html>", "Server Error").unwrap_err();
    assert!(!error.is_empty());
    assert!(!error.starts_with("Server Error"));
    assert!(!error.starts_with("No choices"));
}

#[test]
fn choice_without_message_is_empty() {
    assert_eq!(parse_choice("{}"), ChatCompletionResponse { content: None, tool_calls: None });
    assert_eq!(
        parse_choice("{\"message\":{\"content\":\"x\",\"tool_calls\":[]}}"),
        ChatCompletionResponse { content: Some("x".to_string()), tool_calls: Some(Vec::new()) }
    );
    assert_eq!(
        parse_choice("{\"message\":{\"content\":7,\"tool_calls\":{}}}"),
        ChatCompletionResponse { content: None, tool_calls: None }
    );
}

#[test]
fn tool_call_needs_all_four_strings() {
    let full = "{\"id\":\"i\",\"type\":\"function\",\"function\":{\"name\":\"n\",\"arguments\":\"a\"}}";
    let call = ToolCall {
        id: "i".to_string(),
        kind: "function".to_string(),
        function: ToolFunction { name: "n".to_string(), arguments: "a".to_string() },
    };
    assert_eq!(parse_tool_call(full), Some(call.clone()));
    assert_eq!(parse_tool_call("{\"id\":\"i\",\"function\":{\"name\":\"n\",\"arguments\":\"a\"}}"), None);
    assert_eq!(parse_tool_call("{\"id\":\"i\",\"type\":\"function\",\"function\":{\"name\":\"n\",\"arguments\":{}}}"), None);
    assert_eq!(parse_tool_call("7"), None);
    assert_eq!(parse_tool_calls(&vec!["7".to_string(), full.to_string()]), vec![call.clone()]);
    let s = |t: &str| Some(t.to_string());
    assert_eq!(assemble_tool_call(s("i"), s("function"), s("n"), s("a")), Some(call));
    assert_eq!(assemble_tool_call(None, s("function"), s("n"), s("a")), None);
    assert_eq!(assemble_tool_call(s("i"), None, s("n"), s("a")), None);
    assert_eq!(assemble_tool_call(s("i"), s("function"), None, s("a")), None);
    assert_eq!(assemble_tool_call(s("i"), s("function"), s("n"), None), None);
}

#[test]
fn backend_failure_text() {
    assert_eq!(backend_failure("Server Error", Some("down".to_string())), "Server Error: down");
    assert_eq!(backend_failure("OpenAI Error", None), "OpenAI Error: Unknown error");
}

#[test]
fn tokenize_responses() {
    assert_eq!(llama("x").read_tokens("{\"tokens\":[1, 2, 30000]}"), Ok(vec![1, 2, 30000]));
    assert_eq!(
        llama("x").read_tokens("{\"tokens\":[1, \"two\", -3, 4.5, 4294967297, null]}"),
        Ok(vec![1, 1])
    );
    assert_eq!(llama("x").read_tokens("{\"tokens\":[]}"), Ok(Vec::new()));
    assert_eq!(llama("x").read_tokens("{}"), Err("Tokenization failed".to_string()));
    assert_eq!(llama("x").read_tokens("{\"tokens\":7}"), Err("Tokenization failed".to_string()));
    assert_eq!(
        openai("x", None).read_tokens("oops"),
        Err("Tokenization failed or endpoint not found".to_string())
    );
    assert_eq!(
        parse_tokens(&vec!["7".to_string(), "x".to_string(), "18446744073709551615".to_string()]),
        vec![7, 4294967295]
    );
}

#[test]
fn detokenize_responses() {
    assert_eq!(
        parse_detokenize_response("{\"content\":\"hello world\"}"),
        Ok("hello world".to_string())
    );
    assert_eq!(parse_detokenize_response("{\"content\":5}"), Err("Detokenization failed".to_string()));
    assert_eq!(parse_detokenize_response("[]"), Err("Detokenization failed".to_string()));
}

#[test]
fn model_list_responses() {
    assert_eq!(
        parse_models_response("{\"data\":[{\"id\":\"a\"},{\"name\":\"b\"},{\"id\":7},{\"id\":\"c\"}]}"),
        Ok(vec!["a".to_string(), "c".to_string()])
    );
    assert_eq!(parse_models_response("{\"data\":[]}"), Ok(Vec::new()));
    assert_eq!(parse_models_response("{\"data\":{}}"), Err("Could not list models".to_string()));
    assert_eq!(parse_models_response("{}"), Err("Could not list models".to_string()));
    assert_eq!(
        parse_model_ids(&vec!["{\"id\":\"m\"}".to_string(), "3".to_string()]),
        vec!["m".to_string()]
    );
}
