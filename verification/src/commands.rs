//! What a line of user input asks for.
//!
//! The front ends read lines; this module decides what each line means. A
//! line that begins with one of the slash commands is that command, `exit`
//! and `quit` end the session, and everything else is a message for the
//! agent.

use crate::text::{
    begins_with, concat2, lowercase, lowercased, rest_after, same_text, starts_with, trim,
    whitespace_trimmed,
};
use crate::theme::{theme_named, ThemeName};
use vstd::prelude::*;
use vstd::string::StringExecFns;

verus! {

/// How a line of the terminal front end begins, before what follows a
/// command is looked at.
#[derive(Debug, PartialEq, Eq)]
pub enum LineKind {
    /// Nothing but whitespace.
    Empty,
    Pause,
    Resume,
    /// `/model ` and what follows it.
    Model(String),
    /// `/theme ` and what follows it.
    Theme(String),
    Clear,
    /// `/task ` and what follows it.
    Task(String),
    Quit,
    Help,
    /// A message for the agent.
    Chat,
}

/// Model of a [`LineKind`].
pub enum LineKindView {
    Empty,
    Pause,
    Resume,
    Model(Seq<char>),
    Theme(Seq<char>),
    Clear,
    Task(Seq<char>),
    Quit,
    Help,
    Chat,
}

impl DeepView for LineKind {
    type V = LineKindView;

    open spec fn deep_view(&self) -> LineKindView {
        match self {
            LineKind::Empty => LineKindView::Empty,
            LineKind::Pause => LineKindView::Pause,
            LineKind::Resume => LineKindView::Resume,
            LineKind::Model(rest) => LineKindView::Model(rest@),
            LineKind::Theme(rest) => LineKindView::Theme(rest@),
            LineKind::Clear => LineKindView::Clear,
            LineKind::Task(rest) => LineKindView::Task(rest@),
            LineKind::Quit => LineKindView::Quit,
            LineKind::Help => LineKindView::Help,
            LineKind::Chat => LineKindView::Chat,
        }
    }
}

impl View for LineKind {
    type V = LineKindView;

    open spec fn view(&self) -> LineKindView {
        self.deep_view()
    }
}

/// Whether a trimmed line asks to end the session.
pub open spec fn asks_to_quit(trimmed: Seq<char>) -> bool {
    trimmed == "exit"@ || trimmed == "quit"@ || trimmed == "/quit"@ || trimmed == "/exit"@
}

/// How a line begins, given the line and the line without the whitespace
/// around it. The commands are tried in this order: pause, resume, model,
/// theme, clear, task, quit, help.
pub open spec fn line_kind(input: Seq<char>, trimmed: Seq<char>) -> LineKindView {
    if trimmed.len() == 0 {
        LineKindView::Empty
    } else if starts_with(input, "/pause"@) {
        LineKindView::Pause
    } else if starts_with(input, "/resume"@) {
        LineKindView::Resume
    } else if starts_with(input, "/model "@) {
        LineKindView::Model(input.skip("/model "@.len() as int))
    } else if starts_with(input, "/theme "@) {
        LineKindView::Theme(input.skip("/theme "@.len() as int))
    } else if trimmed == "/clear"@ {
        LineKindView::Clear
    } else if starts_with(input, "/task "@) {
        LineKindView::Task(input.skip("/task "@.len() as int))
    } else if asks_to_quit(trimmed) {
        LineKindView::Quit
    } else if trimmed == "/help"@ {
        LineKindView::Help
    } else {
        LineKindView::Chat
    }
}

/// How a line begins, given the line and the line without the whitespace
/// around it.
pub fn classify_line(input: &str, trimmed: &str) -> (res: LineKind)
    ensures
        res@ == line_kind(input@, trimmed@),
{
    if trimmed.unicode_len() == 0 {
        LineKind::Empty
    } else if begins_with(input, "/pause") {
        LineKind::Pause
    } else if begins_with(input, "/resume") {
        LineKind::Resume
    } else if begins_with(input, "/model ") {
        LineKind::Model(rest_after(input, "/model "))
    } else if begins_with(input, "/theme ") {
        LineKind::Theme(rest_after(input, "/theme "))
    } else if same_text(trimmed, "/clear") {
        LineKind::Clear
    } else if begins_with(input, "/task ") {
        LineKind::Task(rest_after(input, "/task "))
    } else if same_text(trimmed, "exit") || same_text(trimmed, "quit") || same_text(trimmed, "/quit")
        || same_text(trimmed, "/exit") {
        LineKind::Quit
    } else if same_text(trimmed, "/help") {
        LineKind::Help
    } else {
        LineKind::Chat
    }
}

/// What a line of the terminal front end asks for.
#[derive(Debug, PartialEq, Eq)]
pub enum Command {
    /// Nothing: the line is empty.
    Ignore,
    Pause,
    Resume,
    /// Point the agent at the model with this key.
    SwitchModel(String),
    /// Use this theme.
    SetTheme(ThemeName),
    /// No theme has this name.
    UnknownTheme(String),
    /// Clear the screen.
    Clear,
    /// Queue the task described and start the autonomous loop.
    StartTask(String),
    Quit,
    Help,
    /// Send this message to the agent.
    Chat(String),
}

/// Model of a [`Command`].
pub enum CommandView {
    Ignore,
    Pause,
    Resume,
    SwitchModel(Seq<char>),
    SetTheme(ThemeName),
    UnknownTheme(Seq<char>),
    Clear,
    StartTask(Seq<char>),
    Quit,
    Help,
    Chat(Seq<char>),
}

impl DeepView for Command {
    type V = CommandView;

    open spec fn deep_view(&self) -> CommandView {
        match self {
            Command::Ignore => CommandView::Ignore,
            Command::Pause => CommandView::Pause,
            Command::Resume => CommandView::Resume,
            Command::SwitchModel(key) => CommandView::SwitchModel(key@),
            Command::SetTheme(name) => CommandView::SetTheme(*name),
            Command::UnknownTheme(name) => CommandView::UnknownTheme(name@),
            Command::Clear => CommandView::Clear,
            Command::StartTask(description) => CommandView::StartTask(description@),
            Command::Quit => CommandView::Quit,
            Command::Help => CommandView::Help,
            Command::Chat(text) => CommandView::Chat(text@),
        }
    }
}

impl View for Command {
    type V = CommandView;

    open spec fn view(&self) -> CommandView {
        self.deep_view()
    }
}

/// The command for a theme name as the user wrote it, in lower case.
pub open spec fn theme_command(name: Seq<char>) -> CommandView {
    match theme_named(name) {
        Some(theme) => CommandView::SetTheme(theme),
        None => CommandView::UnknownTheme(name),
    }
}

/// The command for a theme name as the user wrote it, in lower case.
pub fn choose_theme(name: String) -> (res: Command)
    ensures
        res@ == theme_command(name@),
{
    match ThemeName::parse(name.as_str()) {
        Some(theme) => Command::SetTheme(theme),
        None => Command::UnknownTheme(name),
    }
}

/// What a line asks for. What follows `/model ` and `/task ` is taken
/// without the whitespace around it, what follows `/theme ` also in lower
/// case; a message for the agent is the line as it is.
pub open spec fn command_for(input: Seq<char>) -> CommandView {
    match line_kind(input, whitespace_trimmed(input)) {
        LineKindView::Empty => CommandView::Ignore,
        LineKindView::Pause => CommandView::Pause,
        LineKindView::Resume => CommandView::Resume,
        LineKindView::Model(rest) => CommandView::SwitchModel(whitespace_trimmed(rest)),
        LineKindView::Theme(rest) => theme_command(lowercased(whitespace_trimmed(rest))),
        LineKindView::Clear => CommandView::Clear,
        LineKindView::Task(rest) => CommandView::StartTask(whitespace_trimmed(rest)),
        LineKindView::Quit => CommandView::Quit,
        LineKindView::Help => CommandView::Help,
        LineKindView::Chat => CommandView::Chat(input),
    }
}

/// What a line of the terminal front end asks for.
pub fn parse_command(input: &str) -> (res: Command)
    ensures
        res@ == command_for(input@),
{
    let trimmed = trim(input);
    match classify_line(input, trimmed.as_str()) {
        LineKind::Empty => Command::Ignore,
        LineKind::Pause => Command::Pause,
        LineKind::Resume => Command::Resume,
        LineKind::Model(rest) => Command::SwitchModel(trim(rest.as_str())),
        LineKind::Theme(rest) => {
            let name = trim(rest.as_str());
            choose_theme(lowercase(name.as_str()))
        },
        LineKind::Clear => Command::Clear,
        LineKind::Task(rest) => Command::StartTask(trim(rest.as_str())),
        LineKind::Quit => Command::Quit,
        LineKind::Help => Command::Help,
        LineKind::Chat => Command::Chat(String::from_str(input)),
    }
}

/// The message shown for a theme that does not exist.
pub open spec fn unknown_theme_text(name: Seq<char>) -> Seq<char> {
    "Unknown theme: "@ + name + ". Available: dracula, nord, default"@
}

/// The message shown for a theme that does not exist.
pub fn unknown_theme_message(name: &str) -> (res: String)
    ensures
        res@ == unknown_theme_text(name@),
{
    let mut out = String::from_str("Unknown theme: ");
    out.append(name);
    out.append(". Available: dracula, nord, default");
    assert(out@ =~= unknown_theme_text(name@));
    out
}

/// What a line of the plain command line asks for.
#[derive(Debug, PartialEq, Eq)]
pub enum CliCommand {
    Quit,
    /// Nothing: the line is empty.
    Skip,
    /// Send this message to the agent.
    Chat(String),
}

/// Model of a [`CliCommand`].
pub enum CliCommandView {
    Quit,
    Skip,
    Chat(Seq<char>),
}

impl DeepView for CliCommand {
    type V = CliCommandView;

    open spec fn deep_view(&self) -> CliCommandView {
        match self {
            CliCommand::Quit => CliCommandView::Quit,
            CliCommand::Skip => CliCommandView::Skip,
            CliCommand::Chat(text) => CliCommandView::Chat(text@),
        }
    }
}

impl View for CliCommand {
    type V = CliCommandView;

    open spec fn view(&self) -> CliCommandView {
        self.deep_view()
    }
}

/// What a line of the plain command line asks for, given the line without
/// the whitespace around it: `exit` and `quit` end the session, an empty
/// line is skipped, everything else is a message.
pub open spec fn cli_command(trimmed: Seq<char>) -> CliCommandView {
    if trimmed == "exit"@ || trimmed == "quit"@ {
        CliCommandView::Quit
    } else if trimmed.len() == 0 {
        CliCommandView::Skip
    } else {
        CliCommandView::Chat(trimmed)
    }
}

/// What a line of the plain command line asks for, given the line without
/// the whitespace around it.
pub fn classify_cli_line(trimmed: String) -> (res: CliCommand)
    ensures
        res@ == cli_command(trimmed@),
{
    if same_text(trimmed.as_str(), "exit") || same_text(trimmed.as_str(), "quit") {
        CliCommand::Quit
    } else if trimmed.as_str().unicode_len() == 0 {
        CliCommand::Skip
    } else {
        CliCommand::Chat(trimmed)
    }
}

/// What a line of the plain command line asks for.
pub fn parse_cli_line(input: &str) -> (res: CliCommand)
    ensures
        res@ == cli_command(whitespace_trimmed(input@)),
{
    classify_cli_line(trim(input))
}

/// What the status bar says: paused before thinking before ready.
pub open spec fn status_text(paused: bool, thinking: bool) -> Seq<char> {
    if paused {
        "Paused"@
    } else if thinking {
        "Thinking..."@
    } else {
        "Ready"@
    }
}

/// What the status bar says.
pub fn status_label(paused: bool, thinking: bool) -> (res: String)
    ensures
        res@ == status_text(paused, thinking),
{
    if paused {
        String::from_str("Paused")
    } else if thinking {
        String::from_str("Thinking...")
    } else {
        String::from_str("Ready")
    }
}

/// The candidates that begin with `partial`, in their order.
pub open spec fn beginning_with(candidates: Seq<Seq<char>>, partial: Seq<char>) -> Seq<Seq<char>>
    decreases candidates.len(),
{
    if candidates.len() == 0 {
        Seq::empty()
    } else if starts_with(candidates.last(), partial) {
        beginning_with(candidates.drop_last(), partial).push(candidates.last())
    } else {
        beginning_with(candidates.drop_last(), partial)
    }
}

/// The one candidate that begins with `partial`: `None` when none does or
/// more than one.
pub open spec fn sole_match(candidates: Seq<Seq<char>>, partial: Seq<char>) -> Option<Seq<char>> {
    let found = beginning_with(candidates, partial);
    if found.len() == 1 {
        Some(found[0])
    } else {
        None
    }
}

/// The commands that completion offers.
pub open spec fn command_words() -> Seq<Seq<char>> {
    seq![
        "/model "@,
        "/theme "@,
        "/quit"@,
        "/help"@,
        "/clear"@,
        "/task "@,
        "/pause"@,
        "/resume"@,
    ]
}

/// The themes that completion offers.
pub open spec fn theme_words() -> Seq<Seq<char>> {
    seq!["dracula"@, "nord"@, "default"@]
}

/// `prefix` before a match, if there is one.
pub open spec fn prefixed(prefix: Seq<char>, found: Option<Seq<char>>) -> Option<Seq<char>> {
    match found {
        Some(word) => Some(prefix + word),
        None => None,
    }
}

/// The line that the completion key turns `line` into: after `/model ` the
/// one model key that begins with what is written, after `/theme ` the one
/// theme, and for any other line that begins with a slash the one command.
/// `None` leaves the line as it is.
pub open spec fn completion(line: Seq<char>, models: Seq<Seq<char>>) -> Option<Seq<char>> {
    if starts_with(line, "/model "@) {
        prefixed("/model "@, sole_match(models, line.skip("/model "@.len() as int)))
    } else if starts_with(line, "/theme "@) {
        prefixed("/theme "@, sole_match(theme_words(), line.skip("/theme "@.len() as int)))
    } else if starts_with(line, "/"@) {
        sole_match(command_words(), line)
    } else {
        None
    }
}

/// The one candidate that begins with `partial`.
pub fn find_sole_match(candidates: &Vec<String>, partial: &str) -> (res: Option<String>)
    ensures
        res.deep_view() == sole_match(candidates.deep_view(), partial@),
{
    let ghost all = candidates.deep_view();
    let mut found: Vec<String> = Vec::new();
    let mut i: usize = 0;
    assert(all.take(0) =~= Seq::empty());
    assert(found.deep_view() =~= Seq::empty());
    while i < candidates.len()
        invariant
            i <= candidates.len(),
            all == candidates.deep_view(),
            found.deep_view() == beginning_with(all.take(i as int), partial@),
        decreases candidates.len() - i,
    {
        let ghost prefix = all.take(i as int + 1);
        assert(prefix.drop_last() =~= all.take(i as int));
        assert(prefix.last() == candidates[i as int]@);
        if begins_with(candidates[i].as_str(), partial) {
            let ghost before = found.deep_view();
            found.push(candidates[i].clone());
            assert(found.deep_view() =~= before.push(candidates[i as int]@));
        }
        i += 1;
    }
    assert(all.take(i as int) =~= all);
    assert(found.deep_view().len() == found.len());
    if found.len() == 1 {
        assert(found.deep_view()[0] == found[0]@);
        Some(found[0].clone())
    } else {
        None
    }
}

/// The commands that completion offers.
pub fn command_list() -> (res: Vec<String>)
    ensures
        res.deep_view() == command_words(),
{
    let mut out: Vec<String> = Vec::new();
    out.push(String::from_str("/model "));
    out.push(String::from_str("/theme "));
    out.push(String::from_str("/quit"));
    out.push(String::from_str("/help"));
    out.push(String::from_str("/clear"));
    out.push(String::from_str("/task "));
    out.push(String::from_str("/pause"));
    out.push(String::from_str("/resume"));
    assert(out.deep_view() =~= command_words());
    out
}

/// The themes that completion offers.
pub fn theme_list() -> (res: Vec<String>)
    ensures
        res.deep_view() == theme_words(),
{
    let mut out: Vec<String> = Vec::new();
    out.push(String::from_str("dracula"));
    out.push(String::from_str("nord"));
    out.push(String::from_str("default"));
    assert(out.deep_view() =~= theme_words());
    out
}

/// `prefix` before a match, if there is one.
fn with_prefix(prefix: &str, found: Option<String>) -> (res: Option<String>)
    ensures
        res.deep_view() == prefixed(prefix@, found.deep_view()),
{
    match found {
        Some(word) => Some(concat2(prefix, word.as_str())),
        None => None,
    }
}

/// The line that the completion key turns `line` into, given the keys of
/// the models that are configured.
pub fn complete(line: &str, models: &Vec<String>) -> (res: Option<String>)
    ensures
        res.deep_view() == completion(line@, models.deep_view()),
{
    if begins_with(line, "/model ") {
        let partial = rest_after(line, "/model ");
        with_prefix("/model ", find_sole_match(models, partial.as_str()))
    } else if begins_with(line, "/theme ") {
        let partial = rest_after(line, "/theme ");
        with_prefix("/theme ", find_sole_match(&theme_list(), partial.as_str()))
    } else if begins_with(line, "/") {
        find_sole_match(&command_list(), line)
    } else {
        None
    }
}

} // verus!
