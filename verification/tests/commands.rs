use pecan::commands::{
    classify_cli_line, classify_line, choose_theme, command_list, complete, find_sole_match,
    parse_cli_line, parse_command, status_label, theme_list, unknown_theme_message, CliCommand,
    Command, LineKind,
};
use pecan::config::Config;
use pecan::providers::{number_tokens, MockProvider};
use pecan::tasks::TaskStatus;
use pecan::text::{decimal, rest_after};
use pecan::theme::{Color, Theme, ThemeName};

fn models() -> Vec<String> {
    vec!["mock".to_string(), "llama-local".to_string(), "llama-remote".to_string()]
}

#[test]
fn slash_commands() {
    assert_eq!(parse_command("/pause"), Command::Pause);
    assert_eq!(parse_command("/pause now"), Command::Pause);
    assert_eq!(parse_command("/resume"), Command::Resume);
    assert_eq!(parse_command("/clear"), Command::Clear);
    assert_eq!(parse_command("  /clear  "), Command::Clear);
    assert_eq!(parse_command("/help"), Command::Help);
    assert_eq!(parse_command("/help\n"), Command::Help);
}

#[test]
fn model_and_task_take_trimmed_rest() {
    assert_eq!(parse_command("/model  llama-local  "), Command::SwitchModel("llama-local".to_string()));
    assert_eq!(parse_command("/model "), Command::SwitchModel(String::new()));
    assert_eq!(parse_command("/task  write tests \n"), Command::StartTask("write tests".to_string()));
}

#[test]
fn theme_names_are_case_insensitive() {
    assert_eq!(parse_command("/theme Nord"), Command::SetTheme(ThemeName::Nord));
    assert_eq!(parse_command("/theme  DRACULA "), Command::SetTheme(ThemeName::Dracula));
    assert_eq!(parse_command("/theme default"), Command::SetTheme(ThemeName::Default));
    assert_eq!(parse_command("/theme Solarized"), Command::UnknownTheme("solarized".to_string()));
    assert_eq!(parse_command("/theme light"), Command::UnknownTheme("light".to_string()));
    assert_eq!(choose_theme("nord".to_string()), Command::SetTheme(ThemeName::Nord));
    assert_eq!(
        unknown_theme_message("solarized"),
        "Unknown theme: solarized. Available: dracula, nord, default"
    );
}

#[test]
fn quit_words() {
    for word in ["exit", "quit", "/quit", "/exit", "  quit  "] {
        assert_eq!(parse_command(word), Command::Quit);
    }
    assert_eq!(parse_command("quit now"), Command::Chat("quit now".to_string()));
}

#[test]
fn empty_lines_are_ignored() {
    assert_eq!(parse_command(""), Command::Ignore);
    assert_eq!(parse_command(" \n\t "), Command::Ignore);
}

#[test]
fn everything_else_is_chat() {
    assert_eq!(parse_command("hello there"), Command::Chat("hello there".to_string()));
    assert_eq!(parse_command("  padded  "), Command::Chat("  padded  ".to_string()));
    assert_eq!(parse_command("/model"), Command::Chat("/model".to_string()));
    assert_eq!(parse_command(" /pause"), Command::Chat(" /pause".to_string()));
    assert_eq!(parse_command("/unknown"), Command::Chat("/unknown".to_string()));
}

#[test]
fn classify_line_on_given_values() {
    assert_eq!(classify_line("anything", ""), LineKind::Empty);
    assert_eq!(classify_line("/model x ", "/model x"), LineKind::Model("x ".to_string()));
    assert_eq!(classify_line("/theme  N", "/theme  N"), LineKind::Theme(" N".to_string()));
    assert_eq!(classify_line("/task t", "/task t"), LineKind::Task("t".to_string()));
    assert_eq!(classify_line("x", "/clear"), LineKind::Clear);
    assert_eq!(classify_line("x", "/exit"), LineKind::Quit);
    assert_eq!(classify_line("x", "/help"), LineKind::Help);
    assert_eq!(classify_line("/pausex", "/pausex"), LineKind::Pause);
    assert_eq!(classify_line("x", "x"), LineKind::Chat);
}

#[test]
fn cli_lines() {
    assert_eq!(parse_cli_line("exit\n"), CliCommand::Quit);
    assert_eq!(parse_cli_line(" quit "), CliCommand::Quit);
    assert_eq!(parse_cli_line("\n"), CliCommand::Skip);
    assert_eq!(parse_cli_line("  hi there \n"), CliCommand::Chat("hi there".to_string()));
    assert_eq!(parse_cli_line("/quit"), CliCommand::Chat("/quit".to_string()));
    assert_eq!(classify_cli_line("exit".to_string()), CliCommand::Quit);
    assert_eq!(classify_cli_line(String::new()), CliCommand::Skip);
    assert_eq!(classify_cli_line(" x".to_string()), CliCommand::Chat(" x".to_string()));
}

#[test]
fn completion_of_commands() {
    assert_eq!(complete("/m", &models()), Some("/model ".to_string()));
    assert_eq!(complete("/th", &models()), Some("/theme ".to_string()));
    assert_eq!(complete("/t", &models()), None);
    assert_eq!(complete("/p", &models()), Some("/pause".to_string()));
    assert_eq!(complete("/", &models()), None);
    assert_eq!(complete("/x", &models()), None);
    assert_eq!(complete("hello", &models()), None);
    assert_eq!(complete("", &models()), None);
}

#[test]
fn completion_of_models_and_themes() {
    assert_eq!(complete("/model m", &models()), Some("/model mock".to_string()));
    assert_eq!(complete("/model llama", &models()), None);
    assert_eq!(complete("/model llama-r", &models()), Some("/model llama-remote".to_string()));
    assert_eq!(complete("/model ", &models()), None);
    assert_eq!(complete("/model ", &vec!["only".to_string()]), Some("/model only".to_string()));
    assert_eq!(complete("/theme n", &models()), Some("/theme nord".to_string()));
    assert_eq!(complete("/theme d", &models()), None);
    assert_eq!(complete("/theme dr", &models()), Some("/theme dracula".to_string()));
    assert_eq!(complete("/theme x", &models()), None);
}

#[test]
fn sole_match_and_word_lists() {
    assert_eq!(find_sole_match(&models(), "mo"), Some("mock".to_string()));
    assert_eq!(find_sole_match(&models(), "l"), None);
    assert_eq!(find_sole_match(&Vec::new(), ""), None);
    assert_eq!(
        command_list(),
        vec!["/model ", "/theme ", "/quit", "/help", "/clear", "/task ", "/pause", "/resume"]
    );
    assert_eq!(theme_list(), vec!["dracula", "nord", "default"]);
    assert_eq!(rest_after("/model x", "/model "), "x");
    assert_eq!(rest_after("ab", "abc"), "");
}

#[test]
fn status_bar_text() {
    assert_eq!(status_label(true, true), "Paused");
    assert_eq!(status_label(true, false), "Paused");
    assert_eq!(status_label(false, true), "Thinking...");
    assert_eq!(status_label(false, false), "Ready");
}

#[test]
fn task_status_symbols() {
    assert_eq!(TaskStatus::Pending.symbol(), " [ ] ");
    assert_eq!(TaskStatus::InProgress.symbol(), " [*] ");
    assert_eq!(TaskStatus::Completed.symbol(), " [x] ");
    assert_eq!(TaskStatus::Failed("x".to_string()).symbol(), " [!] ");
}

#[test]
fn theme_palettes() {
    assert_eq!(ThemeName::parse("dracula"), Some(ThemeName::Dracula));
    assert_eq!(ThemeName::parse("Dracula"), None);
    assert_eq!(ThemeName::parse("light"), None);
    let dracula = Theme::of(ThemeName::Dracula);
    assert_eq!(dracula.border, Color::Rgb(98, 114, 164));
    assert_eq!(dracula.agent_text, Color::Rgb(80, 250, 123));
    let nord = Theme::of(ThemeName::Nord);
    assert_eq!(nord.user_bg, Color::Rgb(67, 76, 94));
    let plain = Theme::of(ThemeName::Default);
    assert_eq!(plain.border, Color::DarkGray);
    assert_eq!(plain.input_text, Color::Yellow);
    assert_eq!(plain.status_fg, Color::Blue);
    assert_eq!(plain.text, Color::White);
    let light = Theme::of(ThemeName::Light);
    assert_eq!(light.header_fg, Color::Rgb(0, 0, 0));
}

#[test]
fn command_line_overrides() {
    let mut config = Config::default();
    config.apply_overrides(None, false);
    assert_eq!(config, Config::default());
    config.default_model = "other".to_string();
    config.apply_overrides(None, true);
    assert_eq!(config.default_model, "mock");
    config.apply_overrides(Some("http://h:1".to_string()), true);
    assert_eq!(config.default_model, "cli-override");
    let model = config.model("cli-override").unwrap();
    assert_eq!(model.name, "cli-override");
    assert_eq!(model.provider, "llama.cpp");
    assert_eq!(model.url, "http://h:1");
    assert_eq!(model.api_key, None);
    assert_eq!(config.model_keys(), vec!["mock".to_string(), "cli-override".to_string()]);
    config.apply_overrides(Some("http://h:2".to_string()), false);
    assert_eq!(config.models.len(), 2);
    assert_eq!(config.model("cli-override").unwrap().url, "http://h:2");
}

#[test]
fn decimal_digits() {
    assert_eq!(decimal(0), "0");
    assert_eq!(decimal(7), "7");
    assert_eq!(decimal(10), "10");
    assert_eq!(decimal(1024), "1024");
    assert_eq!(decimal(9876543210), "9876543210");
    assert_eq!(decimal(usize::MAX), usize::MAX.to_string());
}

#[test]
fn mock_tokens() {
    assert_eq!(MockProvider.tokenize("one two  three\n"), vec![0, 1, 2]);
    assert_eq!(MockProvider.tokenize(""), Vec::<u32>::new());
    assert_eq!(MockProvider.detokenize(&vec![5, 6, 7]), "Detokenized 3 tokens");
    assert_eq!(MockProvider.detokenize(&Vec::new()), "Detokenized 0 tokens");
    assert_eq!(number_tokens(4), vec![0, 1, 2, 3]);
}
