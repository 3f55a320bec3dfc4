//! The tools that every agent starts with, and what a tool has to tell.
//!
//! A tool has a name, a description and a JSON schema for its arguments.
//! Running a tool is the caller's work. What a tool reads from its arguments
//! before it runs is decided here.

use crate::json::{
    json_list_member, json_list_member_of, json_string_member, json_string_member_of,
    text_outcome,
};
use crate::registry::{registered, ToolDefinition, ToolDefinitionView, ToolRegistry};
use crate::text::concat2;
use vstd::prelude::*;
use vstd::string::StringExecFns;

verus! {

/// What a tool tells about itself.
pub trait Tool {
    /// What the tool's three methods return.
    spec fn definition_view(&self) -> ToolDefinitionView;

    /// The name under which the tool is registered and called.
    fn name(&self) -> (res: String)
        ensures
            res@ == self.definition_view().name,
    ;

    /// What the tool does, for the model to read.
    fn description(&self) -> (res: String)
        ensures
            res@ == self.definition_view().description,
    ;

    /// The JSON schema of the tool's arguments, as JSON text.
    fn parameters(&self) -> (res: String)
        ensures
            res@ == self.definition_view().parameters,
    ;
}

/// The definition of a tool: its name, description and parameters.
pub fn definition_of<T: Tool>(tool: &T) -> (res: ToolDefinition)
    ensures
        res@ == tool.definition_view(),
{
    ToolDefinition {
        name: tool.name(),
        description: tool.description(),
        parameters: tool.parameters(),
    }
}

impl ToolRegistry {
    /// Registers a tool under its name, in place of an earlier tool of that
    /// name if there is one.
    pub fn register_tool<T: Tool>(&mut self, tool: &T)
        ensures
            final(self)@ == registered(old(self)@, tool.definition_view()),
    {
        self.register(definition_of(tool));
    }
}

/// Reads a file.
#[derive(Clone, Copy, Debug, PartialEq, Eq)]
pub struct ReadFile;

/// Writes a file.
#[derive(Clone, Copy, Debug, PartialEq, Eq)]
pub struct WriteFile;

/// Lists a directory.
#[derive(Clone, Copy, Debug, PartialEq, Eq)]
pub struct ListDir;

/// Hands a subtask to a subagent.
#[derive(Clone, Copy, Debug, PartialEq, Eq)]
pub struct SpawnSubagent;

/// Puts a task on the agent's queue.
#[derive(Clone, Copy, Debug, PartialEq, Eq)]
pub struct PushTask;

/// Runs a command.
#[derive(Clone, Copy, Debug, PartialEq, Eq)]
pub struct Shell;

impl Tool for ReadFile {
    open spec fn definition_view(&self) -> ToolDefinitionView {
        ToolDefinitionView {
            name: "read_file"@,
            description: "Reads the content of a file."@,
            parameters: "{\"properties\":{\"path\":{\"description\":\"Path to the file.\",\"type\":\"string\"}},\"required\":[\"path\"],\"type\":\"object\"}"@,
        }
    }

    fn name(&self) -> (res: String) {
        String::from_str("read_file")
    }

    fn description(&self) -> (res: String) {
        String::from_str("Reads the content of a file.")
    }

    fn parameters(&self) -> (res: String) {
        String::from_str(
            "{\"properties\":{\"path\":{\"description\":\"Path to the file.\",\"type\":\"string\"}},\"required\":[\"path\"],\"type\":\"object\"}",
        )
    }
}

impl Tool for WriteFile {
    open spec fn definition_view(&self) -> ToolDefinitionView {
        ToolDefinitionView {
            name: "write_file"@,
            description: "Writes content to a file."@,
            parameters: "{\"properties\":{\"content\":{\"description\":\"Content to write.\",\"type\":\"string\"},\"path\":{\"description\":\"Path to the file.\",\"type\":\"string\"}},\"required\":[\"path\",\"content\"],\"type\":\"object\"}"@,
        }
    }

    fn name(&self) -> (res: String) {
        String::from_str("write_file")
    }

    fn description(&self) -> (res: String) {
        String::from_str("Writes content to a file.")
    }

    fn parameters(&self) -> (res: String) {
        String::from_str(
            "{\"properties\":{\"content\":{\"description\":\"Content to write.\",\"type\":\"string\"},\"path\":{\"description\":\"Path to the file.\",\"type\":\"string\"}},\"required\":[\"path\",\"content\"],\"type\":\"object\"}",
        )
    }
}

impl Tool for ListDir {
    open spec fn definition_view(&self) -> ToolDefinitionView {
        ToolDefinitionView {
            name: "list_dir"@,
            description: "Lists files in a directory."@,
            parameters: "{\"properties\":{\"path\":{\"description\":\"Path to the directory.\",\"type\":\"string\"}},\"required\":[\"path\"],\"type\":\"object\"}"@,
        }
    }

    fn name(&self) -> (res: String) {
        String::from_str("list_dir")
    }

    fn description(&self) -> (res: String) {
        String::from_str("Lists files in a directory.")
    }

    fn parameters(&self) -> (res: String) {
        String::from_str(
            "{\"properties\":{\"path\":{\"description\":\"Path to the directory.\",\"type\":\"string\"}},\"required\":[\"path\"],\"type\":\"object\"}",
        )
    }
}

impl Tool for SpawnSubagent {
    open spec fn definition_view(&self) -> ToolDefinitionView {
        ToolDefinitionView {
            name: "spawn_subagent"@,
            description: "Spawns a new subagent to handle a subtask."@,
            parameters: "{\"properties\":{\"task\":{\"description\":\"The task for the subagent to perform.\",\"type\":\"string\"}},\"required\":[\"task\"],\"type\":\"object\"}"@,
        }
    }

    fn name(&self) -> (res: String) {
        String::from_str("spawn_subagent")
    }

    fn description(&self) -> (res: String) {
        String::from_str("Spawns a new subagent to handle a subtask.")
    }

    fn parameters(&self) -> (res: String) {
        String::from_str(
            "{\"properties\":{\"task\":{\"description\":\"The task for the subagent to perform.\",\"type\":\"string\"}},\"required\":[\"task\"],\"type\":\"object\"}",
        )
    }
}

impl Tool for PushTask {
    open spec fn definition_view(&self) -> ToolDefinitionView {
        ToolDefinitionView {
            name: "push_task"@,
            description: "Pushes a new task or subtask onto the task stack."@,
            parameters: "{\"properties\":{\"description\":{\"description\":\"Description of the task.\",\"type\":\"string\"}},\"required\":[\"description\"],\"type\":\"object\"}"@,
        }
    }

    fn name(&self) -> (res: String) {
        String::from_str("push_task")
    }

    fn description(&self) -> (res: String) {
        String::from_str("Pushes a new task or subtask onto the task stack.")
    }

    fn parameters(&self) -> (res: String) {
        String::from_str(
            "{\"properties\":{\"description\":{\"description\":\"Description of the task.\",\"type\":\"string\"}},\"required\":[\"description\"],\"type\":\"object\"}",
        )
    }
}

impl Tool for Shell {
    open spec fn definition_view(&self) -> ToolDefinitionView {
        ToolDefinitionView {
            name: "shell"@,
            description: "Executes a shell command."@,
            parameters: "{\"properties\":{\"args\":{\"description\":\"Arguments for the command.\",\"items\":{\"type\":\"string\"},\"type\":\"array\"},\"command\":{\"description\":\"The command to execute.\",\"type\":\"string\"}},\"required\":[\"command\"],\"type\":\"object\"}"@,
        }
    }

    fn name(&self) -> (res: String) {
        String::from_str("shell")
    }

    fn description(&self) -> (res: String) {
        String::from_str("Executes a shell command.")
    }

    fn parameters(&self) -> (res: String) {
        String::from_str(
            "{\"properties\":{\"args\":{\"description\":\"Arguments for the command.\",\"items\":{\"type\":\"string\"},\"type\":\"array\"},\"command\":{\"description\":\"The command to execute.\",\"type\":\"string\"}},\"required\":[\"command\"],\"type\":\"object\"}",
        )
    }
}

/// The registry after the six tools of a fresh agent are registered, in the
/// order read_file, write_file, list_dir, spawn_subagent, push_task, shell.
pub open spec fn with_builtin_tools(tools: Seq<ToolDefinitionView>) -> Seq<ToolDefinitionView> {
    registered(
        registered(
            registered(
                registered(
                    registered(registered(tools, ReadFile.definition_view()), WriteFile.definition_view()),
                    ListDir.definition_view(),
                ),
                SpawnSubagent.definition_view(),
            ),
            PushTask.definition_view(),
        ),
        Shell.definition_view(),
    )
}

impl ToolRegistry {
    /// Registers the six tools of a fresh agent.
    pub fn register_builtin_tools(&mut self)
        ensures
            final(self)@ == with_builtin_tools(old(self)@),
    {
        self.register_tool(&ReadFile);
        self.register_tool(&WriteFile);
        self.register_tool(&ListDir);
        self.register_tool(&SpawnSubagent);
        self.register_tool(&PushTask);
        self.register_tool(&Shell);
    }
}

/// The string argument `key`, or the failure that names it as missing.
pub open spec fn required_argument(member: Option<Seq<char>>, key: Seq<char>) -> Result<
    Seq<char>,
    Seq<char>,
> {
    match member {
        Some(value) => Ok(value),
        None => Err("Missing "@ + key),
    }
}

/// The argument `key` as it was read from the arguments of a call, or the
/// failure `Missing` with the key when it was not there as a string.
pub fn require(member: Option<String>, key: &str) -> (res: Result<String, String>)
    ensures
        text_outcome(res) == required_argument(member.deep_view(), key@),
{
    match member {
        Some(value) => Ok(value),
        None => Err(concat2("Missing ", key)),
    }
}

/// The string argument `key` of a call's arguments, given as JSON text.
pub fn required_text(arguments: &str, key: &str) -> (res: Result<String, String>)
    ensures
        text_outcome(res) == required_argument(json_string_member_of(arguments@, key@), key@),
{
    require(json_string_member(arguments, key), key)
}

/// The strings among the elements of a list, in order.
pub open spec fn strings_among(items: Seq<Option<Seq<char>>>) -> Seq<Seq<char>>
    decreases items.len(),
{
    if items.len() == 0 {
        Seq::empty()
    } else {
        match items.last() {
            Some(text) => strings_among(items.drop_last()).push(text),
            None => strings_among(items.drop_last()),
        }
    }
}

/// The strings among the elements of a list, in order.
pub fn keep_strings(items: Vec<Option<String>>) -> (res: Vec<String>)
    ensures
        res.deep_view() == strings_among(items.deep_view()),
{
    let ghost all = items.deep_view();
    let mut out: Vec<String> = Vec::new();
    let mut i: usize = 0;
    assert(all.take(0) =~= Seq::empty());
    assert(out.deep_view() =~= Seq::empty());
    while i < items.len()
        invariant
            i <= items.len(),
            all == items.deep_view(),
            out.deep_view() == strings_among(all.take(i as int)),
        decreases items.len() - i,
    {
        let ghost prefix = all.take(i as int + 1);
        assert(prefix.drop_last() =~= all.take(i as int));
        assert(prefix.last() == items[i as int].deep_view());
        match &items[i] {
            Some(text) => {
                let ghost before = out.deep_view();
                out.push(text.clone());
                assert(out.deep_view() =~= before.push(text@));
            },
            None => {},
        }
        i += 1;
    }
    assert(all.take(i as int) =~= all);
    out
}

impl ReadFile {
    /// The path of the file to read.
    pub fn path_of(arguments: &str) -> (res: Result<String, String>)
        ensures
            text_outcome(res) == required_argument(
                json_string_member_of(arguments@, "path"@),
                "path"@,
            ),
    {
        required_text(arguments, "path")
    }
}

impl ListDir {
    /// The path of the directory to list.
    pub fn path_of(arguments: &str) -> (res: Result<String, String>)
        ensures
            text_outcome(res) == required_argument(
                json_string_member_of(arguments@, "path"@),
                "path"@,
            ),
    {
        required_text(arguments, "path")
    }
}

/// What a call of `write_file` asks for.
#[derive(Debug, PartialEq, Eq)]
pub struct WriteRequest {
    pub path: String,
    pub content: String,
}

/// What a call of `write_file` asks for, from its two arguments as they
/// were read: the path is looked at first.
pub open spec fn write_request(path: Option<Seq<char>>, content: Option<Seq<char>>) -> Result<
    (Seq<char>, Seq<char>),
    Seq<char>,
> {
    match path {
        None => Err("Missing path"@),
        Some(p) => match content {
            None => Err("Missing content"@),
            Some(c) => Ok((p, c)),
        },
    }
}

/// Model of a write request or a failure.
pub open spec fn write_result(outcome: Result<WriteRequest, String>) -> Result<
    (Seq<char>, Seq<char>),
    Seq<char>,
> {
    match outcome {
        Ok(request) => Ok((request.path@, request.content@)),
        Err(message) => Err(message@),
    }
}

impl WriteFile {
    /// What to write and where, from the two arguments as they were read.
    pub fn plan(path: Option<String>, content: Option<String>) -> (res: Result<WriteRequest, String>)
        ensures
            write_result(res) == write_request(path.deep_view(), content.deep_view()),
    {
        match path {
            None => Err(String::from_str("Missing path")),
            Some(path) => match content {
                None => Err(String::from_str("Missing content")),
                Some(content) => Ok(WriteRequest { path, content }),
            },
        }
    }

    /// What to write and where.
    pub fn request_of(arguments: &str) -> (res: Result<WriteRequest, String>)
        ensures
            write_result(res) == write_request(
                json_string_member_of(arguments@, "path"@),
                json_string_member_of(arguments@, "content"@),
            ),
    {
        Self::plan(
            json_string_member(arguments, "path"),
            json_string_member(arguments, "content"),
        )
    }
}

/// What the subagent tool answers once its task is read.
pub open spec fn subagent_result(task: Option<Seq<char>>) -> Result<Seq<char>, Seq<char>> {
    match task {
        Some(_) => Ok(
            "{\"note\":\"Placeholder for real subagent spawning.\",\"status\":\"subagent_spawned\"}"@,
        ),
        None => Err("Missing task"@),
    }
}

impl SpawnSubagent {
    /// The result of the tool for a task as it was read from the arguments:
    /// a fixed note, whatever the task.
    pub fn answer(task: Option<String>) -> (res: Result<String, String>)
        ensures
            text_outcome(res) == subagent_result(task.deep_view()),
    {
        match task {
            Some(_) => Ok(
                String::from_str(
                    "{\"note\":\"Placeholder for real subagent spawning.\",\"status\":\"subagent_spawned\"}",
                ),
            ),
            None => Err(String::from_str("Missing task")),
        }
    }

    /// Runs the tool: no subagent is spawned yet.
    pub fn call(arguments: &str) -> (res: Result<String, String>)
        ensures
            text_outcome(res) == subagent_result(json_string_member_of(arguments@, "task"@)),
    {
        Self::answer(json_string_member(arguments, "task"))
    }
}

impl PushTask {
    /// The description of the task to push.
    pub fn description_of(arguments: &str) -> (res: Result<String, String>)
        ensures
            text_outcome(res) == required_argument(
                json_string_member_of(arguments@, "description"@),
                "description"@,
            ),
    {
        required_text(arguments, "description")
    }
}

/// A command and its arguments.
#[derive(Debug, PartialEq, Eq)]
pub struct Invocation {
    pub command: String,
    pub args: Vec<String>,
}

/// What a call of `shell` runs, from its two arguments as they were read:
/// the command, and the strings among the elements of `args`.
pub open spec fn invocation(command: Option<Seq<char>>, args: Seq<Option<Seq<char>>>) -> Result<
    (Seq<char>, Seq<Seq<char>>),
    Seq<char>,
> {
    match command {
        None => Err("Missing command"@),
        Some(c) => Ok((c, strings_among(args))),
    }
}

/// Model of an invocation or a failure.
pub open spec fn invocation_result(outcome: Result<Invocation, String>) -> Result<
    (Seq<char>, Seq<Seq<char>>),
    Seq<char>,
> {
    match outcome {
        Ok(run) => Ok((run.command@, run.args.deep_view())),
        Err(message) => Err(message@),
    }
}

impl Shell {
    /// What to run, from the two arguments as they were read.
    pub fn plan(command: Option<String>, args: Vec<Option<String>>) -> (res: Result<
        Invocation,
        String,
    >)
        ensures
            invocation_result(res) == invocation(command.deep_view(), args.deep_view()),
    {
        match command {
            None => Err(String::from_str("Missing command")),
            Some(command) => Ok(Invocation { command, args: keep_strings(args) }),
        }
    }

    /// What to run.
    pub fn invocation_of(arguments: &str) -> (res: Result<Invocation, String>)
        ensures
            invocation_result(res) == invocation(
                json_string_member_of(arguments@, "command"@),
                json_list_member_of(arguments@, "args"@),
            ),
    {
        Self::plan(json_string_member(arguments, "command"), json_list_member(arguments, "args"))
    }
}

} // verus!
