use pecan::config::{matches_any, Config, ConfigError, ModelDef, ToolConfig};
use pecan::providers::{LlamaCppProvider, MockProvider, OpenAiProvider, ProviderKind};

fn model(provider: &str, url: &str, model_id: Option<&str>, api_key: Option<&str>) -> ModelDef {
    ModelDef {
        name: "m".to_string(),
        provider: provider.to_string(),
        url: url.to_string(),
        api_key: api_key.map(|s| s.to_string()),
        model_id: model_id.map(|s| s.to_string()),
        description: None,
    }
}

#[test]
fn default_tool_policy() {
    let policy = ToolConfig::default();
    assert!(policy.require_approval);
    assert_eq!(policy.allowed_shell_commands, vec!["ls", "cat", "grep", "pwd"]);
    assert_eq!(policy.blocked_shell_commands, vec!["rm", "mv"]);
}

#[test]
fn default_config_has_mock_model() {
    let config = Config::default();
    assert_eq!(config.default_model, "mock");
    assert_eq!(config.models.len(), 1);
    assert_eq!(config.models[0].0, "mock");
    let mock = &config.models[0].1;
    assert_eq!(mock.name, "mock");
    assert_eq!(mock.provider, "mock");
    assert_eq!(mock.url, "");
    assert_eq!(mock.api_key, None);
    assert_eq!(mock.model_id, None);
    assert_eq!(mock.description.as_deref(), Some("Mock model for testing"));
    assert_eq!(config.tools, ToolConfig::default());
    assert_eq!(config.clone(), config);
}

#[test]
fn blocked_command_is_refused() {
    let policy = ToolConfig::default();
    assert_eq!(
        policy.check_shell_security("{\"command\":\"rm -rf /\"}"),
        Err("Command 'rm -rf /' is explicitly blocked in configuration.".to_string())
    );
}

#[test]
fn blocked_takes_precedence_over_allowed() {
    let policy = ToolConfig::default();
    assert_eq!(
        policy.check_shell_security("{\"command\":\"ls && rm x\"}"),
        Err("Command 'ls && rm x' is explicitly blocked in configuration.".to_string())
    );
}

#[test]
fn command_outside_allow_list_is_refused() {
    let policy = ToolConfig::default();
    assert_eq!(
        policy.check_shell_security("{\"command\":\"top\"}"),
        Err("Command 'top' is not in the allowed list.".to_string())
    );
}

#[test]
fn allowed_command_passes() {
    let policy = ToolConfig::default();
    assert_eq!(policy.check_shell_security("{\"command\":\"ls\"}"), Ok(()));
    assert_eq!(policy.check_shell_security("{\"command\":\"cat notes.txt\",\"args\":[]}"), Ok(()));
}

#[test]
fn empty_allow_list_allows_everything_not_blocked() {
    let policy = ToolConfig {
        require_approval: false,
        allowed_shell_commands: Vec::new(),
        blocked_shell_commands: vec!["rm".to_string()],
    };
    assert_eq!(policy.check_shell_security("{\"command\":\"top\"}"), Ok(()));
    assert!(policy.check_shell_security("{\"command\":\"rm\"}").is_err());
}

#[test]
fn missing_command_is_refused() {
    let policy = ToolConfig::default();
    let missing = Err("Missing command".to_string());
    assert_eq!(policy.check_shell_security("{}"), missing);
    assert_eq!(policy.check_shell_security("{\"command\":5}"), missing);
    assert_eq!(policy.check_shell_security("[\"ls\"]"), missing);
    assert_eq!(policy.check_shell_security("not json"), missing);
    assert_eq!(policy.check_command(&None), missing);
}

#[test]
fn check_command_on_plain_values() {
    let policy = ToolConfig::default();
    assert_eq!(policy.check_command(&Some("pwd".to_string())), Ok(()));
    assert_eq!(
        policy.check_command(&Some("mv a b".to_string())),
        Err("Command 'mv a b' is explicitly blocked in configuration.".to_string())
    );
    assert_eq!(
        policy.check_command(&Some(String::new())),
        Err("Command '' is not in the allowed list.".to_string())
    );
}

#[test]
fn substring_matching() {
    let patterns = vec!["rm".to_string(), "mv".to_string()];
    assert!(matches_any("format", &patterns));
    assert!(matches_any("xmv", &patterns));
    assert!(!matches_any("r m", &patterns));
    assert!(!matches_any("", &patterns));
    assert!(matches_any("", &vec![String::new()]));
    assert!(!matches_any("anything", &Vec::new()));
}

#[test]
fn provider_for_each_kind() {
    let mut config = Config::default();
    config.insert_model("local".to_string(), model("llama.cpp", "http://localhost:8080", None, None));
    config.insert_model("cloud".to_string(), model("openai", "https://api", None, Some("SECRET-REDACTED")));
    config.insert_model("cloud4".to_string(), model("openai", "https://api", Some("gpt-4"), None));
    assert_eq!(config.create_provider("mock"), Ok(ProviderKind::Mock(MockProvider)));
    assert_eq!(
        config.create_provider("local"),
        Ok(ProviderKind::LlamaCpp(LlamaCppProvider { url: "http://localhost:8080".to_string() }))
    );
    assert_eq!(
        config.create_provider("cloud"),
        Ok(ProviderKind::OpenAi(OpenAiProvider {
            url: "https://api".to_string(),
            api_key: Some("SECRET-REDACTED".to_string()),
            model_id: "gpt-4o".to_string(),
        }))
    );
    assert_eq!(
        config.create_provider("cloud4"),
        Ok(ProviderKind::OpenAi(OpenAiProvider {
            url: "https://api".to_string(),
            api_key: None,
            model_id: "gpt-4".to_string(),
        }))
    );
}

#[test]
fn provider_errors() {
    let mut config = Config::default();
    config.insert_model("odd".to_string(), model("carrier-pigeon", "", None, None));
    let missing = config.create_provider("nowhere").unwrap_err();
    assert_eq!(missing, ConfigError::ModelNotFound("nowhere".to_string()));
    assert_eq!(missing.message(), "Model nowhere not found in config");
    let unknown = config.create_provider("odd").unwrap_err();
    assert_eq!(unknown, ConfigError::UnknownProvider("carrier-pigeon".to_string()));
    assert_eq!(unknown.message(), "Unknown provider type: carrier-pigeon");
}

#[test]
fn insert_model_replaces_by_key() {
    let mut config = Config::default();
    config.insert_model("a".to_string(), model("mock", "1", None, None));
    config.insert_model("b".to_string(), model("mock", "2", None, None));
    config.insert_model("a".to_string(), model("mock", "3", None, None));
    let keys: Vec<&str> = config.models.iter().map(|(k, _)| k.as_str()).collect();
    assert_eq!(keys, vec!["mock", "a", "b"]);
    assert_eq!(config.model("a").unwrap().url, "3");
    assert_eq!(config.model("b").unwrap().url, "2");
    assert!(config.model("c").is_none());
    assert_eq!(config.default_model, "mock");
}

#[test]
fn first_entry_of_a_key_is_the_model() {
    let mut config = Config::default();
    config.models.push(("mock".to_string(), model("openai", "x", None, None)));
    assert_eq!(config.model("mock").unwrap().provider, "mock");
    assert_eq!(config.create_provider("mock"), Ok(ProviderKind::Mock(MockProvider)));
}
