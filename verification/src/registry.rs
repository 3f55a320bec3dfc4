//! The tools an agent may call, keyed by name.

use crate::json::{json_quote, json_string_literal};
use crate::text::same_text;
use vstd::prelude::*;
use vstd::string::StringExecFns;

verus! {

/// What a backend is told about one tool: its name, what it does, and the
/// JSON schema of its arguments as JSON text.
#[derive(Debug, PartialEq, Eq)]
pub struct ToolDefinition {
    pub name: String,
    pub description: String,
    pub parameters: String,
}

/// Model of a [`ToolDefinition`].
pub struct ToolDefinitionView {
    pub name: Seq<char>,
    pub description: Seq<char>,
    pub parameters: Seq<char>,
}

impl DeepView for ToolDefinition {
    type V = ToolDefinitionView;

    open spec fn deep_view(&self) -> ToolDefinitionView {
        ToolDefinitionView {
            name: self.name@,
            description: self.description@,
            parameters: self.parameters@,
        }
    }
}

impl View for ToolDefinition {
    type V = ToolDefinitionView;

    open spec fn view(&self) -> ToolDefinitionView {
        self.deep_view()
    }
}

impl Clone for ToolDefinition {
    fn clone(&self) -> (res: Self)
        ensures
            res@ == self@,
    {
        ToolDefinition {
            name: self.name.clone(),
            description: self.description.clone(),
            parameters: self.parameters.clone(),
        }
    }
}

/// Whether position `i` holds the first definition of `tools` named `name`.
pub open spec fn first_named_at(tools: Seq<ToolDefinitionView>, name: Seq<char>, i: int) -> bool {
    &&& 0 <= i < tools.len()
    &&& tools[i].name == name
    &&& forall|j: int| 0 <= j < i ==> (#[trigger] tools[j]).name != name
}

/// Whether `tools` holds a definition named `name`.
pub open spec fn has_tool(tools: Seq<ToolDefinitionView>, name: Seq<char>) -> bool {
    exists|i: int| 0 <= i < tools.len() && (#[trigger] tools[i]).name == name
}

/// Whether no two definitions of `tools` share a name.
pub open spec fn distinct_names(tools: Seq<ToolDefinitionView>) -> bool {
    forall|i: int, j: int|
        0 <= i < j < tools.len() ==> (#[trigger] tools[i]).name != (#[trigger] tools[j]).name
}

/// `tools` after `tool` is registered: it takes the place of the definition
/// with its name, or comes last when there was none.
pub open spec fn registered(tools: Seq<ToolDefinitionView>, tool: ToolDefinitionView) -> Seq<
    ToolDefinitionView,
> {
    if has_tool(tools, tool.name) {
        Seq::new(
            tools.len(),
            |i: int|
                if first_named_at(tools, tool.name, i) {
                    tool
                } else {
                    tools[i]
                },
        )
    } else {
        tools.push(tool)
    }
}

/// The function definition sent to a backend for one tool, as compact JSON
/// with the members of each object in alphabetical order.
pub open spec fn definition_json(tool: ToolDefinitionView) -> Seq<char> {
    "{\"function\":{\"description\":"@ + json_string_literal(tool.description) + ",\"name\":"@
        + json_string_literal(tool.name) + ",\"parameters\":"@ + tool.parameters
        + "},\"type\":\"function\"}"@
}

/// The function definitions of `tools`, in order.
pub open spec fn definitions_json(tools: Seq<ToolDefinitionView>) -> Seq<Seq<char>> {
    Seq::new(tools.len(), |i: int| definition_json(tools[i]))
}

impl ToolDefinition {
    /// The function definition sent to a backend for this tool.
    pub fn to_json(&self) -> (res: String)
        ensures
            res@ == definition_json(self@),
    {
        let description = json_quote(self.description.as_str());
        let name = json_quote(self.name.as_str());
        let mut out = String::new();
        out.append("{\"function\":{\"description\":");
        out.append(description.as_str());
        out.append(",\"name\":");
        out.append(name.as_str());
        out.append(",\"parameters\":");
        out.append(self.parameters.as_str());
        out.append("},\"type\":\"function\"}");
        assert(out@ =~= definition_json(self@));
        out
    }
}

/// The tools of one agent. Registering a tool under a name that is taken
/// replaces the earlier tool, so a registry built by `register` alone never
/// holds two tools of one name.
#[derive(Debug, PartialEq, Eq)]
pub struct ToolRegistry {
    pub tools: Vec<ToolDefinition>,
}

impl DeepView for ToolRegistry {
    type V = Seq<ToolDefinitionView>;

    open spec fn deep_view(&self) -> Seq<ToolDefinitionView> {
        self.tools.deep_view()
    }
}

impl View for ToolRegistry {
    type V = Seq<ToolDefinitionView>;

    open spec fn view(&self) -> Seq<ToolDefinitionView> {
        self.tools.deep_view()
    }
}

/// Registering a tool keeps the names distinct, makes its name known and
/// leaves every other name as it was.
pub proof fn lemma_registered(tools: Seq<ToolDefinitionView>, tool: ToolDefinitionView)
    ensures
        has_tool(registered(tools, tool), tool.name),
        forall|name: Seq<char>|
            name != tool.name ==> (has_tool(registered(tools, tool), name) <==> has_tool(
                tools,
                name,
            )),
        distinct_names(tools) ==> distinct_names(registered(tools, tool)),
{
    let after = registered(tools, tool);
    if has_tool(tools, tool.name) {
        let w = choose|i: int| 0 <= i < tools.len() && (#[trigger] tools[i]).name == tool.name;
        assert(after[w].name == tool.name);
        assert forall|name: Seq<char>| name != tool.name implies (has_tool(after, name)
            <==> has_tool(tools, name)) by {
            if has_tool(after, name) {
                let i = choose|i: int| 0 <= i < after.len() && (#[trigger] after[i]).name == name;
                assert(tools[i].name == name);
            }
            if has_tool(tools, name) {
                let i = choose|i: int| 0 <= i < tools.len() && (#[trigger] tools[i]).name == name;
                assert(after[i].name == name);
            }
        }
        if distinct_names(tools) {
            assert forall|i: int, j: int| 0 <= i < j < after.len() implies (#[trigger] after[i]).name
                != (#[trigger] after[j]).name by {
                assert(after[i].name == tools[i].name);
                assert(after[j].name == tools[j].name);
            }
        }
    } else {
        assert(after[tools.len() as int].name == tool.name);
        assert forall|name: Seq<char>| name != tool.name implies (has_tool(after, name)
            <==> has_tool(tools, name)) by {
            if has_tool(after, name) {
                let i = choose|i: int| 0 <= i < after.len() && (#[trigger] after[i]).name == name;
                assert(tools[i].name == name);
            }
            if has_tool(tools, name) {
                let i = choose|i: int| 0 <= i < tools.len() && (#[trigger] tools[i]).name == name;
                assert(after[i].name == name);
            }
        }
        if distinct_names(tools) {
            assert forall|i: int, j: int| 0 <= i < j < after.len() implies (#[trigger] after[i]).name
                != (#[trigger] after[j]).name by {
                if j < tools.len() {
                    assert(after[i] == tools[i]);
                    assert(after[j] == tools[j]);
                } else {
                    assert(after[i] == tools[i]);
                }
            }
        }
    }
}

impl ToolRegistry {
    /// A registry without tools.
    pub fn new() -> (res: Self)
        ensures
            res@ == Seq::<ToolDefinitionView>::empty(),
    {
        let res = ToolRegistry { tools: Vec::new() };
        assert(res@ =~= Seq::<ToolDefinitionView>::empty());
        res
    }

    /// Position of the first tool named `name`.
    fn find(&self, name: &str) -> (res: Option<usize>)
        ensures
            match res {
                Some(i) => first_named_at(self@, name@, i as int),
                None => !has_tool(self@, name@),
            },
    {
        let mut i: usize = 0;
        while i < self.tools.len()
            invariant
                i <= self.tools.len(),
                forall|j: int| 0 <= j < i ==> (#[trigger] self@[j]).name != name@,
            decreases self.tools.len() - i,
        {
            assert(self@[i as int] == self.tools[i as int]@);
            if same_text(self.tools[i].name.as_str(), name) {
                return Some(i);
            }
            i += 1;
        }
        None
    }

    /// Registers a tool under its name, in place of an earlier tool of that
    /// name if there is one.
    pub fn register(&mut self, tool: ToolDefinition)
        ensures
            final(self)@ == registered(old(self)@, tool@),
    {
        let ghost before = self@;
        match self.find(tool.name.as_str()) {
            Some(i) => {
                assert(before[i as int].name == tool.name@);
                self.tools.set(i, tool);
                assert(self@ =~= registered(before, tool@)) by {
                    assert forall|j: int| 0 <= j < before.len() implies #[trigger] self@[j]
                        == registered(before, tool@)[j] by {
                        if j != i {
                            assert(self.tools@[j] == old(self).tools@[j]);
                        }
                    }
                }
            },
            None => {
                self.tools.push(tool);
                assert(self@ =~= registered(before, tool@));
            },
        }
    }

    /// Whether a tool named `name` is registered.
    pub fn contains(&self, name: &str) -> (res: bool)
        ensures
            res == has_tool(self@, name@),
    {
        self.find(name).is_some()
    }

    /// The first tool named `name`.
    pub fn get(&self, name: &str) -> (res: Option<&ToolDefinition>)
        ensures
            match res {
                Some(tool) => exists|i: int| first_named_at(self@, name@, i) && tool@ == self@[i],
                None => !has_tool(self@, name@),
            },
    {
        match self.find(name) {
            Some(i) => {
                assert(self@[i as int] == self.tools[i as int]@);
                Some(&self.tools[i])
            },
            None => None,
        }
    }

    /// The function definitions to send to a backend, one per tool, in the
    /// order of registration.
    pub fn get_definitions(&self) -> (res: Vec<String>)
        ensures
            res.deep_view() == definitions_json(self@),
    {
        let mut out: Vec<String> = Vec::new();
        let mut i: usize = 0;
        while i < self.tools.len()
            invariant
                i <= self.tools.len(),
                out.len() == i,
                forall|k: int| 0 <= k < i ==> out[k]@ == definition_json(self@[k]),
            decreases self.tools.len() - i,
        {
            assert(self@[i as int] == self.tools[i as int]@);
            out.push(self.tools[i].to_json());
            i += 1;
        }
        assert(out.deep_view() =~= definitions_json(self@));
        out
    }
}

impl Clone for ToolRegistry {
    fn clone(&self) -> (res: Self)
        ensures
            res@ == self@,
    {
        let mut out: Vec<ToolDefinition> = Vec::new();
        let mut i: usize = 0;
        while i < self.tools.len()
            invariant
                i <= self.tools.len(),
                out.len() == i,
                forall|k: int| 0 <= k < i ==> out[k]@ == self.tools[k]@,
            decreases self.tools.len() - i,
        {
            out.push(self.tools[i].clone());
            i += 1;
        }
        let res = ToolRegistry { tools: out };
        assert(res@ =~= self@);
        res
    }
}

} // verus!
