use pecan::json::{error_object, rejection_object};
use pecan::registry::{ToolDefinition, ToolRegistry};
use pecan::tools::{
    definition_of, keep_strings, require, required_text, Invocation, ListDir, PushTask, ReadFile,
    Shell, SpawnSubagent, Tool, WriteFile, WriteRequest,
};

fn definition(name: &str, description: &str) -> ToolDefinition {
    ToolDefinition {
        name: name.to_string(),
        description: description.to_string(),
        parameters: "{}".to_string(),
    }
}

#[test]
fn error_object_escapes_message() {
    assert_eq!(error_object("boom"), "{\"error\":\"boom\"}");
    assert_eq!(error_object("say \"hi\"\n"), "{\"error\":\"say \\\"hi\\\"\\n\"}");
    assert_eq!(error_object(""), "{\"error\":\"\"}");
    let parsed: serde_json::Value = serde_json::from_str(&error_object("a\\b\t\u{1}\u{e9}")).unwrap();
    assert_eq!(parsed.get("error").unwrap().as_str(), Some("a\\b\t\u{1}\u{e9}"));
}

#[test]
fn rejection_object_holds_reason() {
    assert_eq!(
        rejection_object("no"),
        "{\"error\":\"User rejected tool execution\",\"reason\":\"no\"}"
    );
    let parsed: serde_json::Value = serde_json::from_str(&rejection_object("too \"risky\"")).unwrap();
    assert_eq!(parsed.get("error").unwrap().as_str(), Some("User rejected tool execution"));
    assert_eq!(parsed.get("reason").unwrap().as_str(), Some("too \"risky\""));
}

#[test]
fn registry_registers_and_replaces() {
    let mut registry = ToolRegistry::new();
    registry.register(definition("a", "first"));
    registry.register(definition("b", "second"));
    registry.register(definition("a", "third"));
    assert_eq!(registry.tools.len(), 2);
    assert_eq!(registry.tools[0], definition("a", "third"));
    assert_eq!(registry.tools[1], definition("b", "second"));
    assert!(registry.contains("a"));
    assert!(!registry.contains("c"));
    assert_eq!(registry.get("b"), Some(&definition("b", "second")));
    assert_eq!(registry.get("zz"), None);
    assert_eq!(registry.clone(), registry);
}

#[test]
fn definitions_are_function_objects() {
    let mut registry = ToolRegistry::new();
    assert!(registry.get_definitions().is_empty());
    registry.register(ToolDefinition {
        name: "echo".to_string(),
        description: "Says \"it\" back.".to_string(),
        parameters: "{\"type\":\"object\"}".to_string(),
    });
    let definitions = registry.get_definitions();
    assert_eq!(
        definitions,
        vec![
            "{\"function\":{\"description\":\"Says \\\"it\\\" back.\",\"name\":\"echo\",\"parameters\":{\"type\":\"object\"}},\"type\":\"function\"}"
                .to_string()
        ]
    );
    let parsed: serde_json::Value = serde_json::from_str(&definitions[0]).unwrap();
    assert_eq!(parsed.pointer("/type").unwrap().as_str(), Some("function"));
    assert_eq!(parsed.pointer("/function/name").unwrap().as_str(), Some("echo"));
    assert_eq!(parsed.pointer("/function/description").unwrap().as_str(), Some("Says \"it\" back."));
    assert!(parsed.pointer("/function/parameters").unwrap().is_object());
}

#[test]
fn builtin_tools_describe_themselves() {
    assert_eq!(ReadFile.name(), "read_file");
    assert_eq!(ReadFile.description(), "Reads the content of a file.");
    assert_eq!(WriteFile.name(), "write_file");
    assert_eq!(WriteFile.description(), "Writes content to a file.");
    assert_eq!(ListDir.name(), "list_dir");
    assert_eq!(ListDir.description(), "Lists files in a directory.");
    assert_eq!(SpawnSubagent.name(), "spawn_subagent");
    assert_eq!(SpawnSubagent.description(), "Spawns a new subagent to handle a subtask.");
    assert_eq!(PushTask.name(), "push_task");
    assert_eq!(PushTask.description(), "Pushes a new task or subtask onto the task stack.");
    assert_eq!(Shell.name(), "shell");
    assert_eq!(Shell.description(), "Executes a shell command.");
}

#[test]
fn builtin_schemas_are_json_objects() {
    let schemas = vec![
        (ReadFile.parameters(), vec!["path"]),
        (WriteFile.parameters(), vec!["path", "content"]),
        (ListDir.parameters(), vec!["path"]),
        (SpawnSubagent.parameters(), vec!["task"]),
        (PushTask.parameters(), vec!["description"]),
        (Shell.parameters(), vec!["command"]),
    ];
    for (schema, required) in schemas {
        let parsed: serde_json::Value = serde_json::from_str(&schema).unwrap();
        assert_eq!(parsed.get("type").unwrap().as_str(), Some("object"));
        let listed: Vec<&str> = parsed
            .get("required")
            .unwrap()
            .as_array()
            .unwrap()
            .iter()
            .map(|v| v.as_str().unwrap())
            .collect();
        assert_eq!(listed, required);
        for key in required {
            assert!(parsed.pointer(&format!("/properties/{}/description", key)).is_some());
        }
        assert_eq!(parsed.to_string(), schema);
    }
}

#[test]
fn shell_schema_lists_args() {
    let parsed: serde_json::Value = serde_json::from_str(&Shell.parameters()).unwrap();
    assert_eq!(parsed.pointer("/properties/args/type").unwrap().as_str(), Some("array"));
    assert_eq!(parsed.pointer("/properties/args/items/type").unwrap().as_str(), Some("string"));
}

#[test]
fn register_builtin_tools_in_order() {
    let mut registry = ToolRegistry::new();
    registry.register(definition("shell", "old"));
    registry.register_builtin_tools();
    let names: Vec<&str> = registry.tools.iter().map(|t| t.name.as_str()).collect();
    assert_eq!(
        names,
        vec!["shell", "read_file", "write_file", "list_dir", "spawn_subagent", "push_task"]
    );
    assert_eq!(registry.tools[0], definition_of(&Shell));
    registry.register_tool(&ReadFile);
    assert_eq!(registry.tools.len(), 6);
}

#[test]
fn required_arguments() {
    assert_eq!(ReadFile::path_of("{\"path\":\"a.txt\"}"), Ok("a.txt".to_string()));
    assert_eq!(ReadFile::path_of("{}"), Err("Missing path".to_string()));
    assert_eq!(ReadFile::path_of("{\"path\":1}"), Err("Missing path".to_string()));
    assert_eq!(ListDir::path_of("{\"path\":\"/tmp\"}"), Ok("/tmp".to_string()));
    assert_eq!(ListDir::path_of("null"), Err("Missing path".to_string()));
    assert_eq!(PushTask::description_of("{\"description\":\"d\"}"), Ok("d".to_string()));
    assert_eq!(PushTask::description_of("{}"), Err("Missing description".to_string()));
    assert_eq!(required_text("{\"k\":\"v\\n\"}", "k"), Ok("v\n".to_string()));
    assert_eq!(required_text("{\"k\":\"v\"}", "other"), Err("Missing other".to_string()));
    assert_eq!(require(Some("x".to_string()), "k"), Ok("x".to_string()));
    assert_eq!(require(None, "k"), Err("Missing k".to_string()));
}

#[test]
fn write_request_needs_path_then_content() {
    assert_eq!(
        WriteFile::request_of("{\"path\":\"a\",\"content\":\"b\"}"),
        Ok(WriteRequest { path: "a".to_string(), content: "b".to_string() })
    );
    assert_eq!(WriteFile::request_of("{\"content\":\"b\"}"), Err("Missing path".to_string()));
    assert_eq!(WriteFile::request_of("{\"path\":\"a\"}"), Err("Missing content".to_string()));
    assert_eq!(WriteFile::request_of("{}"), Err("Missing path".to_string()));
    assert_eq!(WriteFile::plan(None, None), Err("Missing path".to_string()));
}

#[test]
fn subagent_answers_with_placeholder() {
    let expected =
        "{\"note\":\"Placeholder for real subagent spawning.\",\"status\":\"subagent_spawned\"}";
    assert_eq!(SpawnSubagent::call("{\"task\":\"anything\"}"), Ok(expected.to_string()));
    assert_eq!(SpawnSubagent::call("{}"), Err("Missing task".to_string()));
    assert_eq!(SpawnSubagent::answer(Some(String::new())), Ok(expected.to_string()));
    let parsed: serde_json::Value = serde_json::from_str(expected).unwrap();
    assert_eq!(parsed.to_string(), expected);
}

#[test]
fn shell_invocation_keeps_string_arguments() {
    assert_eq!(
        Shell::invocation_of("{\"command\":\"ls\",\"args\":[\"-l\",1,\"x y\",null]}"),
        Ok(Invocation { command: "ls".to_string(), args: vec!["-l".to_string(), "x y".to_string()] })
    );
    assert_eq!(
        Shell::invocation_of("{\"command\":\"pwd\"}"),
        Ok(Invocation { command: "pwd".to_string(), args: Vec::new() })
    );
    assert_eq!(
        Shell::invocation_of("{\"command\":\"pwd\",\"args\":\"-P\"}"),
        Ok(Invocation { command: "pwd".to_string(), args: Vec::new() })
    );
    assert_eq!(Shell::invocation_of("{\"args\":[\"a\"]}"), Err("Missing command".to_string()));
    assert_eq!(
        keep_strings(vec![None, Some("a".to_string()), None, Some("b".to_string())]),
        vec!["a".to_string(), "b".to_string()]
    );
}
