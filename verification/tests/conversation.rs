use pecan::conversation::{find_last_assistant, is_answered, is_resolved, keeps, normalize, AgentState};
use pecan::message::{Message, Role, ToolCall, ToolFunction};

fn tool_call(id: &str) -> ToolCall {
    ToolCall {
        id: id.to_string(),
        kind: "function".to_string(),
        function: ToolFunction { name: "read_file".to_string(), arguments: "{}".to_string() },
    }
}

fn history(messages: Vec<Message>) -> AgentState {
    AgentState { history: messages }
}

#[test]
fn view_of_empty_history() {
    let state = AgentState::new();
    let (view, early) = state.build_request_view();
    assert!(view.is_empty());
    assert!(!early);
}

#[test]
fn view_drops_empty_assistant_messages() {
    let state = history(vec![
        Message::user("a".to_string()),
        Message::assistant(None, None),
        Message::assistant(Some(String::new()), Some(Vec::new())),
        Message::assistant(Some("kept".to_string()), None),
    ]);
    let (view, early) = state.build_request_view();
    assert!(!early);
    assert_eq!(
        view,
        vec![Message::user("a".to_string()), Message::assistant(Some("kept".to_string()), None)]
    );
    assert_eq!(state.history.len(), 4);
}

#[test]
fn view_gives_tool_messages_content() {
    let bare = Message {
        role: Role::Tool,
        content: None,
        tool_calls: None,
        tool_call_id: Some("c1".to_string()),
    };
    let state = history(vec![
        Message::assistant(None, Some(vec![tool_call("c1")])),
        bare,
    ]);
    let (view, early) = state.build_request_view();
    assert!(!early);
    assert_eq!(view.len(), 2);
    assert_eq!(view[1], Message::tool("c1".to_string(), String::new()));
}

#[test]
fn view_passes_other_roles_unchanged() {
    let system = Message { role: Role::System, content: None, tool_calls: None, tool_call_id: None };
    let user = Message { role: Role::User, content: Some(String::new()), tool_calls: None, tool_call_id: None };
    let state = history(vec![system.clone(), user.clone()]);
    let (view, early) = state.build_request_view();
    assert!(!early);
    assert_eq!(view, vec![system, user]);
}

#[test]
fn early_return_when_last_assistant_has_open_call() {
    let state = history(vec![
        Message::user("a".to_string()),
        Message::assistant(None, Some(vec![tool_call("c1"), tool_call("c2")])),
        Message::tool("c1".to_string(), "{}".to_string()),
        Message::user("b".to_string()),
    ]);
    let (view, early) = state.build_request_view();
    assert!(early);
    assert_eq!(view.len(), 4);
}

#[test]
fn no_early_return_when_all_calls_are_answered() {
    let state = history(vec![
        Message::assistant(None, Some(vec![tool_call("c1"), tool_call("c2")])),
        Message::tool("c2".to_string(), "{}".to_string()),
        Message::tool("c1".to_string(), "{}".to_string()),
    ]);
    let (_, early) = state.build_request_view();
    assert!(!early);
}

#[test]
fn only_the_last_assistant_message_decides() {
    let state = history(vec![
        Message::assistant(None, Some(vec![tool_call("c1")])),
        Message::assistant(Some("done".to_string()), None),
    ]);
    let (view, early) = state.build_request_view();
    assert!(!early);
    assert_eq!(view.len(), 2);
}

#[test]
fn answers_before_the_call_do_not_count() {
    let state = history(vec![
        Message::tool("c1".to_string(), "{}".to_string()),
        Message::assistant(None, Some(vec![tool_call("c1")])),
    ]);
    let (_, early) = state.build_request_view();
    assert!(early);
    assert!(!is_answered(&state.history, 1, &"c1".to_string()));
    assert!(is_answered(&state.history, 0, &"c1".to_string()) == false);
}

#[test]
fn a_user_message_with_the_id_is_no_answer() {
    let impostor = Message {
        role: Role::User,
        content: Some("x".to_string()),
        tool_calls: None,
        tool_call_id: Some("c1".to_string()),
    };
    let state = history(vec![Message::assistant(None, Some(vec![tool_call("c1")])), impostor]);
    assert!(!is_resolved(&state.history, 0));
    assert!(state.build_request_view().1);
}

#[test]
fn last_assistant_position() {
    let state = history(vec![
        Message::assistant(Some("a".to_string()), None),
        Message::user("b".to_string()),
        Message::assistant(Some("c".to_string()), None),
        Message::user("d".to_string()),
    ]);
    assert_eq!(find_last_assistant(&state.history), Some(2));
    assert_eq!(find_last_assistant(&Vec::new()), None);
    assert_eq!(find_last_assistant(&vec![Message::user("x".to_string())]), None);
}

#[test]
fn keeps_and_normalize() {
    assert!(!keeps(&Message::assistant(None, None)));
    assert!(keeps(&Message::assistant(None, Some(vec![tool_call("c")]))));
    assert!(keeps(&Message::assistant(Some("x".to_string()), None)));
    assert!(keeps(&Message { role: Role::User, content: None, tool_calls: None, tool_call_id: None }));
    let m = Message::user("x".to_string());
    assert_eq!(normalize(&m), m);
}

#[test]
fn push_appends() {
    let mut state = AgentState::new();
    state.push(Message::user("a".to_string()));
    state.push(Message::user("b".to_string()));
    assert_eq!(state.history, vec![Message::user("a".to_string()), Message::user("b".to_string())]);
}

#[test]
fn clear_keeps_initial_system_message() {
    let mut state = history(vec![
        Message::system("rules".to_string()),
        Message::user("a".to_string()),
        Message::system("later".to_string()),
    ]);
    state.clear();
    assert_eq!(state.history, vec![Message::system("rules".to_string())]);
}

#[test]
fn clear_without_system_message_empties() {
    let mut state = history(vec![Message::user("a".to_string()), Message::system("s".to_string())]);
    state.clear();
    assert!(state.history.is_empty());
    state.clear();
    assert!(state.history.is_empty());
}

#[test]
fn clone_copies_history() {
    let state = history(vec![Message::assistant(Some("x".to_string()), Some(vec![tool_call("c1")]))]);
    assert_eq!(state.clone(), state);
}
