//! Tool allowlist: only listed tools may be called.

use vstd::prelude::*;
use vstd::string::*;
use crate::table::Table;
use crate::support::{JsonView, entries_view, join3, json_array, json_object, json_string, json_view};
use crate::comms::hierarchy::texts;
use crate::guardrails::violation::{InputContext, OutputContext, ToolCallContext, Violation, ViolationAction, ViolationSeverity};

verus! {

/// The context of a refused tool call: `{"tool": .., "allowed_tools": [..]}`.
pub open spec fn tool_context_view(tool: Seq<char>, allowed: Seq<Seq<char>>) -> JsonView {
    JsonView::Object(Map::empty()
        .insert("tool"@, JsonView::Str(tool))
        .insert("allowed_tools"@, JsonView::Array(allowed.map_values(|n: Seq<char>| JsonView::Str(n)))))
}

/// Builds the context of a refused tool call.
fn tool_context_json(tool: &str, allowed: &Vec<String>) -> (r: serde_json::Value)
    ensures
        json_view(r) == tool_context_view(tool@, texts(allowed@)),
{
    let mut list: Vec<serde_json::Value> = Vec::new();
    let mut i: usize = 0;
    while i < allowed.len()
        invariant
            i <= allowed@.len(),
            list@.len() == i,
            forall|j: int| 0 <= j < i ==> json_view(#[trigger] list@[j]) == JsonView::Str(allowed@[j]@),
        decreases allowed@.len() - i,
    {
        list.push(json_string(allowed[i].as_str()));
        i = i + 1;
    }
    assert(list@.map_values(|x: serde_json::Value| json_view(x))
        =~= texts(allowed@).map_values(|n: Seq<char>| JsonView::Str(n)));
    let tool_value = json_string(tool);
    let list_value = json_array(list);
    let mut entries: Vec<(String, serde_json::Value)> = Vec::new();
    entries.push((String::from_str("tool"), tool_value));
    entries.push((String::from_str("allowed_tools"), list_value));
    proof {
        reveal_strlit("tool");
        reveal_strlit("allowed_tools");
        let e = entries@;
        assert(e.drop_last().drop_last() =~= Seq::<(String, serde_json::Value)>::empty());
        assert(entries_view(e.drop_last().drop_last()) == Map::<Seq<char>, JsonView>::empty());
        assert(e.drop_last().last() == e[0]);
        assert(entries_view(e.drop_last()) == Map::<Seq<char>, JsonView>::empty().insert("tool"@, JsonView::Str(tool@)));
        assert(entries_view(e) == entries_view(e.drop_last()).insert("allowed_tools"@, json_view(list_value)));
    }
    json_object(entries)
}

/// The message for a tool that is not allowed.
pub open spec fn not_allowed_message(tool: Seq<char>) -> Seq<char> {
    "Tool '"@ + tool + "' is not in allowlist"@
}

/// Only allows the listed tools.
pub struct ToolAllowlist {
    pub allowed_tools: Table<()>,
}

impl ToolAllowlist {
    /// The name it is known by, `tool_allowlist`.
    pub fn name(&self) -> (n: &str)
        ensures
            n@ == "tool_allowlist"@,
    {
        "tool_allowlist"
    }
    /// The allowed tool names.
    pub open spec fn allowed(&self) -> Set<Seq<char>> {
        self.allowed_tools.view().dom()
    }

    pub open spec fn wf(&self) -> bool {
        self.allowed_tools.wf()
    }

    /// An allowlist of the given names.
    pub fn new(allowed: Vec<String>) -> (a: ToolAllowlist)
        ensures
            a.wf(),
            a.allowed() == allowed@.map_values(|s: String| s@).to_set(),
    {
        let mut t: Table<()> = Table::new();
        let mut rest = allowed;
        let ghost all = rest@;
        let mut k: usize = 0;
        let n = rest.len();
        while rest.len() > 0
            invariant
                t.wf(),
                n == all.len(),
                k + rest@.len() == all.len(),
                rest@ == all.skip(k as int),
                t.view().dom() == all.take(k as int).map_values(|s: String| s@).to_set(),
            decreases rest@.len(),
        {
            let name = rest.remove(0);
            proof {
                assert(all.take(k + 1) =~= all.take(k as int).push(name));
                assert(all.take(k + 1).map_values(|s: String| s@) =~= all.take(k as int).map_values(|s: String| s@).push(name@));
                assert(all.skip(k as int).drop_first() =~= all.skip(k + 1));
            }
            proof {
                all.take(k as int).map_values(|s: String| s@).lemma_push_to_set_commute(name@);
            }
            t.insert(name, ());
            assert(t.view().dom() =~= all.take(k + 1).map_values(|s: String| s@).to_set());
            k = k + 1;
        }
        assert(all.take(k as int) =~= all);
        ToolAllowlist { allowed_tools: t }
    }

    /// The allowlist with one more tool.
    pub fn allow(self, tool_name: &str) -> (a: ToolAllowlist)
        requires
            self.wf(),
        ensures
            a.wf(),
            a.allowed() == self.allowed().insert(tool_name@),
    {
        let mut a = self;
        a.allowed_tools.insert(String::from_str(tool_name), ());
        assert(a.allowed() =~= self.allowed().insert(tool_name@));
        a
    }

    pub fn is_allowed(&self, tool_name: &str) -> (b: bool)
        requires
            self.wf(),
        ensures
            b == self.allowed().contains(tool_name@),
    {
        self.allowed_tools.contains_key(tool_name)
    }

    /// The allowed tool names, each once.
    pub fn allowed_tools(&self) -> (v: Vec<String>)
        requires
            self.wf(),
        ensures
            v@.map_values(|s: String| s@).to_set() == self.allowed(),
            v@.map_values(|s: String| s@).no_duplicates(),
            v@.len() == self.allowed().len(),
    {
        proof { self.allowed_tools.lemma_dom_is_keys(); }
        self.allowed_tools.keys()
    }

    /// Inputs are not checked.
    pub fn check_input(&self, context: &InputContext) -> (r: Option<Violation>)
        ensures
            r is None,
    {
        None
    }

    /// Outputs are not checked.
    pub fn check_output(&self, context: &OutputContext) -> (r: Option<Violation>)
        ensures
            r is None,
    {
        None
    }

    /// A call of a tool that is not allowed gets a blocking, high-severity
    /// violation whose context names the tool and the allowed tools.
    pub fn check_tool_call(&self, context: &ToolCallContext) -> (r: Option<Violation>)
        requires
            self.wf(),
        ensures
            r is Some <==> !self.allowed().contains(context.tool_name@),
            r matches Some(v) ==> v.guardrail@ == "tool_allowlist"@ && v.severity == ViolationSeverity::High
                && v.action == ViolationAction::Block && v.message@ == not_allowed_message(context.tool_name@)
                && (v.context matches Some(c) && exists|names: Seq<Seq<char>>|
                    names.to_set() == self.allowed() && names.no_duplicates()
                    && json_view(c) == tool_context_view(context.tool_name@, names)),
    {
        if !self.is_allowed(context.tool_name.as_str()) {
            proof {
                reveal_strlit("Tool '");
                reveal_strlit("' is not in allowlist");
                reveal_strlit("tool_allowlist");
            }
            let msg = join3("Tool '", context.tool_name.as_str(), "' is not in allowlist");
            let names = self.allowed_tools();
            let ctx = tool_context_json(context.tool_name.as_str(), &names);
            assert(texts(names@) == names@.map_values(|s: String| s@));
            Some(Violation::new("tool_allowlist", ViolationSeverity::High, msg.as_str(), ViolationAction::Block).with_context(ctx))
        } else {
            None
        }
    }
}

/// A tool is allowed after it is added; adding it changes no other tool's standing.
pub proof fn lemma_allowed_after_allow(allowed: Set<Seq<char>>, tool: Seq<char>, other: Seq<char>)
    requires
        other != tool,
    ensures
        allowed.insert(tool).contains(tool),
        allowed.insert(tool).contains(other) == allowed.contains(other),
{
}

} // verus!
