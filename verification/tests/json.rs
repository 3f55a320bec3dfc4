use pecan::agent::{Agent, AgentStatus};
use pecan::config::Config;
use pecan::json::{
    json_compact, json_list_member, json_string_member, json_syntax_error, string_values,
};
use pecan::logbuf::LogBuffer;

#[test]
fn string_members() {
    let text = "{\"a\":\"x\",\"b\":5,\"c\":{\"d\":\"deep\"},\"e\":\"line\\nbreak \\u00e9\"}";
    assert_eq!(json_string_member(text, "a"), Some("x".to_string()));
    assert_eq!(json_string_member(text, "b"), None);
    assert_eq!(json_string_member(text, "c"), None);
    assert_eq!(json_string_member(text, "d"), None);
    assert_eq!(json_string_member(text, "e"), Some("line\nbreak \u{e9}".to_string()));
    assert_eq!(json_string_member(text, "missing"), None);
    assert_eq!(json_string_member("[\"a\"]", "0"), None);
    assert_eq!(json_string_member("\"a\"", "a"), None);
    assert_eq!(json_string_member("{\"a\":", "a"), None);
}

#[test]
fn list_members() {
    let text = "{\"args\":[\"-l\",2,null,\"x\",[\"y\"]],\"other\":\"z\"}";
    assert_eq!(
        json_list_member(text, "args"),
        vec![Some("-l".to_string()), None, None, Some("x".to_string()), None]
    );
    assert_eq!(json_list_member(text, "other"), Vec::<Option<String>>::new());
    assert_eq!(json_list_member(text, "none"), Vec::<Option<String>>::new());
    assert_eq!(json_list_member("not json", "args"), Vec::<Option<String>>::new());
    assert_eq!(
        string_values(&vec!["\"a\"".to_string(), "1".to_string(), "oops".to_string()]),
        vec![Some("a".to_string()), None, None]
    );
}

#[test]
fn syntax_errors_and_compact_form() {
    assert_eq!(json_syntax_error("{\"a\": [1, 2]}"), None);
    assert_eq!(json_syntax_error("null"), None);
    assert!(json_syntax_error("{").is_some());
    assert!(json_syntax_error("").is_some());
    assert!(json_syntax_error("{} {}").is_some());
    assert_eq!(json_compact("{ \"b\" : [1, 2],\n \"a\" : null }"), Some("{\"a\":null,\"b\":[1,2]}".to_string()));
    assert_eq!(json_compact("{"), None);
    let message = json_syntax_error("[1,").unwrap();
    let direct = serde_json::from_str::<serde_json::Value>("[1,").unwrap_err().to_string();
    assert_eq!(message, direct);
}

#[test]
fn log_buffer_evicts_oldest() {
    let mut log = LogBuffer::new(3);
    assert_eq!(log.capacity(), 3);
    assert_eq!(log.len(), 0);
    for line in ["a", "b", "c"] {
        log.push(line.to_string());
    }
    assert_eq!(log.lines(), vec!["a", "b", "c"]);
    log.push("d".to_string());
    assert_eq!(log.lines(), vec!["b", "c", "d"]);
    log.push("e".to_string());
    assert_eq!(log.lines(), vec!["c", "d", "e"]);
    assert_eq!(log.len(), 3);
}

#[test]
fn log_buffer_without_room_holds_nothing() {
    let mut log = LogBuffer::new(0);
    log.push("a".to_string());
    assert_eq!(log.len(), 0);
    assert!(log.lines().is_empty());
    let mut one = LogBuffer::new(1);
    one.push("a".to_string());
    one.push("b".to_string());
    assert_eq!(one.lines(), vec!["b"]);
}

#[test]
fn status_and_autonomous_tasks() {
    let mut agent = Agent::new(Config::default()).unwrap();
    assert_eq!(agent.current_status(), AgentStatus::Idle);
    let id = agent.push_autonomous_task("tidy up".to_string());
    assert_eq!(agent.task_stack.tasks.len(), 1);
    assert_eq!(agent.task_stack.tasks[0].id, id);
    assert_eq!(agent.task_stack.tasks[0].description, "tidy up");
    assert!(agent.state.history.is_empty());
    agent.chat("hi".to_string(), Vec::new());
    assert_eq!(agent.current_status(), AgentStatus::Thinking);
}
