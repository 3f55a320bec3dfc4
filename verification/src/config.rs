//! Configuration: the models an agent can talk to and the policy for tools.

use crate::json::{json_string_member, json_string_member_of};
use crate::message::clone_text;
use crate::providers::{
    LlamaCppProvider, MockProvider, OpenAiProvider, ProviderKind, ProviderKindView,
};
use crate::text::{clone_texts, concat2, concat3, contains_text, is_substring, same_text};
use vstd::prelude::*;
use vstd::string::StringExecFns;

verus! {

/// One model an agent can be pointed at.
#[derive(Debug, PartialEq, Eq)]
pub struct ModelDef {
    pub name: String,
    /// The kind of backend: `"llama.cpp"`, `"openai"` or `"mock"`.
    pub provider: String,
    pub url: String,
    pub api_key: Option<String>,
    pub model_id: Option<String>,
    pub description: Option<String>,
}

/// Model of a [`ModelDef`].
pub struct ModelDefView {
    pub name: Seq<char>,
    pub provider: Seq<char>,
    pub url: Seq<char>,
    pub api_key: Option<Seq<char>>,
    pub model_id: Option<Seq<char>>,
    pub description: Option<Seq<char>>,
}

impl DeepView for ModelDef {
    type V = ModelDefView;

    open spec fn deep_view(&self) -> ModelDefView {
        ModelDefView {
            name: self.name@,
            provider: self.provider@,
            url: self.url@,
            api_key: self.api_key.deep_view(),
            model_id: self.model_id.deep_view(),
            description: self.description.deep_view(),
        }
    }
}

impl View for ModelDef {
    type V = ModelDefView;

    open spec fn view(&self) -> ModelDefView {
        self.deep_view()
    }
}

impl Clone for ModelDef {
    fn clone(&self) -> (res: Self)
        ensures
            res@ == self@,
    {
        ModelDef {
            name: self.name.clone(),
            provider: self.provider.clone(),
            url: self.url.clone(),
            api_key: clone_text(&self.api_key),
            model_id: clone_text(&self.model_id),
            description: clone_text(&self.description),
        }
    }
}

/// The policy for tools: whether a human must approve each call, and which
/// shell commands may run.
///
/// A command is refused when it contains a blocked entry. When the allowed
/// list is not empty, a command is also refused unless it contains an
/// allowed entry. Blocked entries take precedence.
#[derive(Debug, PartialEq, Eq)]
pub struct ToolConfig {
    pub require_approval: bool,
    pub allowed_shell_commands: Vec<String>,
    pub blocked_shell_commands: Vec<String>,
}

/// Model of a [`ToolConfig`].
pub struct ToolConfigView {
    pub require_approval: bool,
    pub allowed_shell_commands: Seq<Seq<char>>,
    pub blocked_shell_commands: Seq<Seq<char>>,
}

impl DeepView for ToolConfig {
    type V = ToolConfigView;

    open spec fn deep_view(&self) -> ToolConfigView {
        ToolConfigView {
            require_approval: self.require_approval,
            allowed_shell_commands: self.allowed_shell_commands.deep_view(),
            blocked_shell_commands: self.blocked_shell_commands.deep_view(),
        }
    }
}

impl View for ToolConfig {
    type V = ToolConfigView;

    open spec fn view(&self) -> ToolConfigView {
        self.deep_view()
    }
}

impl Clone for ToolConfig {
    fn clone(&self) -> (res: Self)
        ensures
            res@ == self@,
    {
        ToolConfig {
            require_approval: self.require_approval,
            allowed_shell_commands: clone_texts(&self.allowed_shell_commands),
            blocked_shell_commands: clone_texts(&self.blocked_shell_commands),
        }
    }
}

/// The policy an agent starts with.
pub open spec fn default_tool_config() -> ToolConfigView {
    ToolConfigView {
        require_approval: true,
        allowed_shell_commands: seq!["ls"@, "cat"@, "grep"@, "pwd"@],
        blocked_shell_commands: seq!["rm"@, "mv"@],
    }
}

impl Default for ToolConfig {
    /// Approval required; `ls`, `cat`, `grep` and `pwd` allowed; `rm` and `mv`
    /// blocked.
    fn default() -> (res: Self)
        ensures
            res@ == default_tool_config(),
    {
        let mut allowed: Vec<String> = Vec::new();
        allowed.push(String::from_str("ls"));
        allowed.push(String::from_str("cat"));
        allowed.push(String::from_str("grep"));
        allowed.push(String::from_str("pwd"));
        let mut blocked: Vec<String> = Vec::new();
        blocked.push(String::from_str("rm"));
        blocked.push(String::from_str("mv"));
        assert(allowed.deep_view() =~= seq!["ls"@, "cat"@, "grep"@, "pwd"@]);
        assert(blocked.deep_view() =~= seq!["rm"@, "mv"@]);
        ToolConfig {
            require_approval: true,
            allowed_shell_commands: allowed,
            blocked_shell_commands: blocked,
        }
    }
}

/// Whether `command` contains one of `patterns`.
pub open spec fn contains_any(command: Seq<char>, patterns: Seq<Seq<char>>) -> bool {
    exists|i: int| 0 <= i < patterns.len() && is_substring(#[trigger] patterns[i], command)
}

/// The refusal for a command that contains a blocked entry.
pub open spec fn blocked_message(command: Seq<char>) -> Seq<char> {
    "Command '"@ + command + "' is explicitly blocked in configuration."@
}

/// The refusal for a command that contains no allowed entry.
pub open spec fn not_allowed_message(command: Seq<char>) -> Seq<char> {
    "Command '"@ + command + "' is not in the allowed list."@
}

/// Why the policy refuses a shell call with the given command, or `None`
/// when it lets the call through. A call without a command is refused, a
/// blocked command is refused whatever the allowed list says, and with an
/// allowed list that is not empty every command outside it is refused.
pub open spec fn shell_denial(policy: ToolConfigView, command: Option<Seq<char>>) -> Option<
    Seq<char>,
> {
    match command {
        None => Some("Missing command"@),
        Some(c) => if contains_any(c, policy.blocked_shell_commands) {
            Some(blocked_message(c))
        } else if policy.allowed_shell_commands.len() > 0 && !contains_any(
            c,
            policy.allowed_shell_commands,
        ) {
            Some(not_allowed_message(c))
        } else {
            None
        },
    }
}

/// The refusal an outcome carries, if any.
pub open spec fn denial_of(outcome: Result<(), String>) -> Option<Seq<char>> {
    match outcome {
        Ok(_) => None,
        Err(message) => Some(message@),
    }
}

/// Whether `command` contains one of `patterns`.
pub fn matches_any(command: &str, patterns: &Vec<String>) -> (res: bool)
    ensures
        res == contains_any(command@, patterns.deep_view()),
{
    let mut i: usize = 0;
    while i < patterns.len()
        invariant
            i <= patterns.len(),
            forall|x: int| 0 <= x < i ==> !is_substring(#[trigger] patterns.deep_view()[x], command@),
        decreases patterns.len() - i,
    {
        assert(patterns.deep_view()[i as int] == patterns[i as int]@);
        if contains_text(command, patterns[i].as_str()) {
            return true;
        }
        i += 1;
    }
    false
}

impl ToolConfig {
    /// Judges a shell call by its command, which is absent when the call's
    /// arguments name none.
    pub fn check_command(&self, command: &Option<String>) -> (res: Result<(), String>)
        ensures
            denial_of(res) == shell_denial(self@, command.deep_view()),
    {
        match command {
            None => Err(String::from_str("Missing command")),
            Some(c) => {
                if matches_any(c.as_str(), &self.blocked_shell_commands) {
                    Err(concat3("Command '", c.as_str(), "' is explicitly blocked in configuration."))
                } else if self.allowed_shell_commands.len() > 0 && !matches_any(
                    c.as_str(),
                    &self.allowed_shell_commands,
                ) {
                    Err(concat3("Command '", c.as_str(), "' is not in the allowed list."))
                } else {
                    Ok(())
                }
            },
        }
    }

    /// Judges a shell call by its arguments, given as JSON text: the command
    /// is the string member `command` of the arguments.
    pub fn check_shell_security(&self, arguments: &str) -> (res: Result<(), String>)
        ensures
            denial_of(res) == shell_denial(self@, json_string_member_of(arguments@, "command"@)),
    {
        let command = json_string_member(arguments, "command");
        self.check_command(&command)
    }
}

/// The configuration of an agent: its models by key, the key of the model
/// it starts with, and the policy for tools.
///
/// A key is looked up from the front: of two entries with one key the first
/// is the model.
#[derive(Debug, PartialEq, Eq)]
pub struct Config {
    pub default_model: String,
    pub models: Vec<(String, ModelDef)>,
    pub tools: ToolConfig,
}

/// Model of a [`Config`].
pub struct ConfigView {
    pub default_model: Seq<char>,
    pub models: Seq<(Seq<char>, ModelDefView)>,
    pub tools: ToolConfigView,
}

impl DeepView for Config {
    type V = ConfigView;

    open spec fn deep_view(&self) -> ConfigView {
        ConfigView {
            default_model: self.default_model@,
            models: self.models.deep_view(),
            tools: self.tools@,
        }
    }
}

impl View for Config {
    type V = ConfigView;

    open spec fn view(&self) -> ConfigView {
        self.deep_view()
    }
}

/// The model that `models` holds under `key`: the first entry with that key.
pub open spec fn model_named(models: Seq<(Seq<char>, ModelDefView)>, key: Seq<char>) -> Option<
    ModelDefView,
>
    decreases models.len(),
{
    if models.len() == 0 {
        None
    } else if models[0].0 == key {
        Some(models[0].1)
    } else {
        model_named(models.drop_first(), key)
    }
}

/// The mock model that a default configuration holds.
pub open spec fn mock_model() -> ModelDefView {
    ModelDefView {
        name: "mock"@,
        provider: "mock"@,
        url: Seq::empty(),
        api_key: None,
        model_id: None,
        description: Some("Mock model for testing"@),
    }
}

/// The configuration an agent starts with when none is given.
pub open spec fn default_config() -> ConfigView {
    ConfigView {
        default_model: "mock"@,
        models: seq![("mock"@, mock_model())],
        tools: default_tool_config(),
    }
}

/// Why no provider could be made for a model key.
#[derive(Debug, PartialEq, Eq)]
pub enum ConfigError {
    /// The configuration holds no model under the key.
    ModelNotFound(String),
    /// The model names a kind of backend that is not known.
    UnknownProvider(String),
}

/// Model of a [`ConfigError`].
pub enum ConfigErrorView {
    ModelNotFound(Seq<char>),
    UnknownProvider(Seq<char>),
}

impl DeepView for ConfigError {
    type V = ConfigErrorView;

    open spec fn deep_view(&self) -> ConfigErrorView {
        match self {
            ConfigError::ModelNotFound(key) => ConfigErrorView::ModelNotFound(key@),
            ConfigError::UnknownProvider(kind) => ConfigErrorView::UnknownProvider(kind@),
        }
    }
}

impl View for ConfigError {
    type V = ConfigErrorView;

    open spec fn view(&self) -> ConfigErrorView {
        self.deep_view()
    }
}

/// The text of a [`ConfigError`].
pub open spec fn config_error_message(error: ConfigErrorView) -> Seq<char> {
    match error {
        ConfigErrorView::ModelNotFound(key) => "Model "@ + key + " not found in config"@,
        ConfigErrorView::UnknownProvider(kind) => "Unknown provider type: "@ + kind,
    }
}

impl ConfigError {
    /// The error as a sentence.
    pub fn message(&self) -> (res: String)
        ensures
            res@ == config_error_message(self@),
    {
        match self {
            ConfigError::ModelNotFound(key) => concat3("Model ", key.as_str(), " not found in config"),
            ConfigError::UnknownProvider(kind) => concat2("Unknown provider type: ", kind.as_str()),
        }
    }
}

/// The provider for a model: by its kind of backend a llama.cpp server, an
/// OpenAI server, whose model id is `gpt-4o` unless the model names one, or
/// the mock backend.
pub open spec fn provider_of(model: ModelDefView) -> Result<ProviderKindView, ConfigErrorView> {
    if model.provider == "llama.cpp"@ {
        Ok(ProviderKindView::LlamaCpp { url: model.url })
    } else if model.provider == "openai"@ {
        Ok(
            ProviderKindView::OpenAi {
                url: model.url,
                api_key: model.api_key,
                model_id: match model.model_id {
                    Some(id) => id,
                    None => "gpt-4o"@,
                },
            },
        )
    } else if model.provider == "mock"@ {
        Ok(ProviderKindView::Mock)
    } else {
        Err(ConfigErrorView::UnknownProvider(model.provider))
    }
}

/// The provider for the model under `key`, or why there is none.
pub open spec fn provider_for(config: ConfigView, key: Seq<char>) -> Result<
    ProviderKindView,
    ConfigErrorView,
> {
    match model_named(config.models, key) {
        Some(model) => provider_of(model),
        None => Err(ConfigErrorView::ModelNotFound(key)),
    }
}

/// Model of the outcome of making a provider.
pub open spec fn provider_result(outcome: Result<ProviderKind, ConfigError>) -> Result<
    ProviderKindView,
    ConfigErrorView,
> {
    match outcome {
        Ok(provider) => Ok(provider@),
        Err(error) => Err(error@),
    }
}

/// The models of a configuration after `model` is stored under `key`: it
/// takes the place of the first entry with that key, or comes last.
pub open spec fn with_model(
    models: Seq<(Seq<char>, ModelDefView)>,
    key: Seq<char>,
    model: ModelDefView,
) -> Seq<(Seq<char>, ModelDefView)>
    decreases models.len(),
{
    if models.len() == 0 {
        seq![(key, model)]
    } else if models[0].0 == key {
        seq![(key, model)] + models.drop_first()
    } else {
        seq![models[0]] + with_model(models.drop_first(), key, model)
    }
}

/// After a model is stored under a key, that key gives the model and every
/// other key gives what it gave before.
pub proof fn lemma_with_model(
    models: Seq<(Seq<char>, ModelDefView)>,
    key: Seq<char>,
    model: ModelDefView,
    other: Seq<char>,
)
    ensures
        model_named(with_model(models, key, model), key) == Some(model),
        other != key ==> model_named(with_model(models, key, model), other) == model_named(
            models,
            other,
        ),
    decreases models.len(),
{
    let after = with_model(models, key, model);
    reveal_with_fuel(model_named, 2);
    assert(after[0] == if models.len() == 0 || models[0].0 == key {
        (key, model)
    } else {
        models[0]
    });
    if models.len() == 0 {
        assert(after.drop_first() =~= Seq::empty());
    } else if models[0].0 == key {
        assert(after.drop_first() =~= models.drop_first());
    } else {
        lemma_with_model(models.drop_first(), key, model, other);
        assert(after.drop_first() =~= with_model(models.drop_first(), key, model));
    }
}

impl Default for Config {
    /// One model, the mock backend under the key `mock`, which is also the
    /// default model; the default policy for tools.
    fn default() -> (res: Self)
        ensures
            res@ == default_config(),
    {
        let mut models: Vec<(String, ModelDef)> = Vec::new();
        models.push(
            (
                String::from_str("mock"),
                ModelDef {
                    name: String::from_str("mock"),
                    provider: String::from_str("mock"),
                    url: String::new(),
                    api_key: None,
                    model_id: None,
                    description: Some(String::from_str("Mock model for testing")),
                },
            ),
        );
        assert(models.deep_view() =~= seq![("mock"@, mock_model())]);
        Config { default_model: String::from_str("mock"), models, tools: ToolConfig::default() }
    }
}

impl Clone for Config {
    fn clone(&self) -> (res: Self)
        ensures
            res@ == self@,
    {
        let mut models: Vec<(String, ModelDef)> = Vec::new();
        let mut i: usize = 0;
        while i < self.models.len()
            invariant
                i <= self.models.len(),
                models.len() == i,
                forall|k: int| 0 <= k < i ==> models[k].deep_view() == self.models[k].deep_view(),
            decreases self.models.len() - i,
        {
            models.push((self.models[i].0.clone(), self.models[i].1.clone()));
            i += 1;
        }
        assert(models.deep_view() =~= self.models.deep_view());
        Config { default_model: self.default_model.clone(), models, tools: self.tools.clone() }
    }
}

/// The model that stands for a server address given on the command line.
pub open spec fn override_model(url: Seq<char>) -> ModelDefView {
    ModelDefView {
        name: "cli-override"@,
        provider: "llama.cpp"@,
        url,
        api_key: None,
        model_id: None,
        description: None,
    }
}

/// A configuration after the command line had its say: a server address
/// becomes the llama.cpp model `cli-override`, which is then the default;
/// without one, asking for the mock backend makes `mock` the default.
pub open spec fn with_overrides(config: ConfigView, url: Option<Seq<char>>, mock: bool) -> ConfigView {
    match url {
        Some(address) => ConfigView {
            default_model: "cli-override"@,
            models: with_model(config.models, "cli-override"@, override_model(address)),
            ..config
        },
        None => if mock {
            ConfigView { default_model: "mock"@, ..config }
        } else {
            config
        },
    }
}

/// The keys of a list of models, in order.
pub open spec fn keys_of(models: Seq<(Seq<char>, ModelDefView)>) -> Seq<Seq<char>> {
    Seq::new(models.len(), |i: int| models[i].0)
}

impl Config {
    /// Lets the command line override the configuration.
    pub fn apply_overrides(&mut self, url: Option<String>, mock: bool)
        ensures
            final(self)@ == with_overrides(old(self)@, url.deep_view(), mock),
    {
        match url {
            Some(address) => {
                self.insert_model(
                    String::from_str("cli-override"),
                    ModelDef {
                        name: String::from_str("cli-override"),
                        provider: String::from_str("llama.cpp"),
                        url: address,
                        api_key: None,
                        model_id: None,
                        description: None,
                    },
                );
                self.default_model = String::from_str("cli-override");
            },
            None => {
                if mock {
                    self.default_model = String::from_str("mock");
                }
            },
        }
    }

    /// The keys of the models, in order.
    pub fn model_keys(&self) -> (res: Vec<String>)
        ensures
            res.deep_view() == keys_of(self@.models),
    {
        let mut out: Vec<String> = Vec::new();
        let mut i: usize = 0;
        while i < self.models.len()
            invariant
                i <= self.models.len(),
                out.len() == i,
                forall|k: int| 0 <= k < i ==> out[k]@ == self.models[k].0@,
            decreases self.models.len() - i,
        {
            out.push(self.models[i].0.clone());
            i += 1;
        }
        assert(out.deep_view() =~= keys_of(self@.models)) by {
            assert forall|k: int| 0 <= k < out.len() implies out.deep_view()[k] == keys_of(
                self@.models,
            )[k] by {
                assert(self@.models[k] == self.models[k].deep_view());
            }
        }
        out
    }

    /// The model stored under `key`.
    pub fn model(&self, key: &str) -> (res: Option<&ModelDef>)
        ensures
            res.deep_view() == model_named(self@.models, key@),
    {
        let ghost all = self@.models;
        let mut i: usize = 0;
        assert(all.skip(0) =~= all);
        while i < self.models.len()
            invariant
                i <= self.models.len(),
                all == self.models.deep_view(),
                model_named(all, key@) == model_named(all.skip(i as int), key@),
            decreases self.models.len() - i,
        {
            assert(all.skip(i as int)[0] == self.models[i as int].deep_view());
            assert(all.skip(i as int).drop_first() =~= all.skip(i as int + 1));
            if same_text(self.models[i].0.as_str(), key) {
                return Some(&self.models[i].1);
            }
            i += 1;
        }
        None
    }

    /// Stores `model` under `key`, in place of the model that was there.
    pub fn insert_model(&mut self, key: String, model: ModelDef)
        ensures
            final(self)@.models == with_model(old(self)@.models, key@, model@),
            final(self)@.default_model == old(self)@.default_model,
            final(self)@.tools == old(self)@.tools,
    {
        let ghost all = self@.models;
        let ghost entry = (key@, model@);
        let mut i: usize = 0;
        assert(all.skip(0) =~= all);
        assert(all.take(0) + with_model(all, key@, model@) =~= with_model(all, key@, model@));
        while i < self.models.len()
            invariant
                i <= self.models.len(),
                all == self.models.deep_view(),
                *self == *old(self),
                entry == (key@, model@),
                with_model(all, key@, model@) == all.take(i as int) + with_model(
                    all.skip(i as int),
                    key@,
                    model@,
                ),
            decreases self.models.len() - i,
        {
            let ghost rest = all.skip(i as int);
            assert(rest[0] == self.models[i as int].deep_view());
            assert(rest.drop_first() =~= all.skip(i as int + 1));
            if same_text(self.models[i].0.as_str(), key.as_str()) {
                self.models.set(i, (key, model));
                assert(self@.models =~= all.take(i as int) + (seq![entry] + rest.drop_first()));
                return ;
            }
            assert(all.take(i as int + 1) =~= all.take(i as int) + seq![rest[0]]);
            assert(all.take(i as int) + (seq![rest[0]] + with_model(
                rest.drop_first(),
                key@,
                model@,
            )) =~= all.take(i as int + 1) + with_model(all.skip(i as int + 1), key@, model@));
            i += 1;
        }
        assert(all.skip(i as int) =~= Seq::empty());
        assert(all.take(i as int) =~= all);
        self.models.push((key, model));
        assert(self@.models =~= all + seq![entry]);
    }

    /// The provider for the model under `key`, or why there is none.
    pub fn create_provider(&self, key: &str) -> (res: Result<ProviderKind, ConfigError>)
        ensures
            provider_result(res) == provider_for(self@, key@),
    {
        match self.model(key) {
            None => Err(ConfigError::ModelNotFound(String::from_str(key))),
            Some(model) => {
                if same_text(model.provider.as_str(), "llama.cpp") {
                    Ok(ProviderKind::LlamaCpp(LlamaCppProvider { url: model.url.clone() }))
                } else if same_text(model.provider.as_str(), "openai") {
                    let model_id = match &model.model_id {
                        Some(id) => id.clone(),
                        None => String::from_str("gpt-4o"),
                    };
                    Ok(
                        ProviderKind::OpenAi(
                            OpenAiProvider {
                                url: model.url.clone(),
                                api_key: clone_text(&model.api_key),
                                model_id,
                            },
                        ),
                    )
                } else if same_text(model.provider.as_str(), "mock") {
                    Ok(ProviderKind::Mock(MockProvider))
                } else {
                    Err(ConfigError::UnknownProvider(model.provider.clone()))
                }
            },
        }
    }
}

} // verus!
