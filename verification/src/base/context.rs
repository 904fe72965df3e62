//! Identity shared between the agent runtime's parts.

use vstd::prelude::*;
use vstd::string::*;

verus! {

/// Agent identifier.
#[derive(Debug, Clone, PartialEq, Eq, Hash)]
pub struct AgentId(pub String);

impl AgentId {
    /// An identifier holding `id`.
    pub fn new(id: &str) -> (a: AgentId)
        ensures
            a.0@ == id@,
    {
        AgentId(String::from_str(id))
    }

    /// The identifier's text.
    pub fn as_str(&self) -> (s: &str)
        ensures
            s@ == self.0@,
    {
        self.0.as_str()
    }
}

impl From<String> for AgentId {
    fn from(s: String) -> (a: AgentId) {
        AgentId(s)
    }
}

impl vstd::std_specs::convert::FromSpecImpl<String> for AgentId {
    open spec fn obeys_from_spec() -> bool {
        true
    }

    open spec fn from_spec(s: String) -> AgentId {
        AgentId(s)
    }
}

impl<'a> From<&'a str> for AgentId {
    fn from(s: &'a str) -> (a: AgentId)
        ensures
            a.0@ == s@,
    {
        AgentId(String::from_str(s))
    }
}

impl<'a> vstd::std_specs::convert::FromSpecImpl<&'a str> for AgentId {
    /// Two `String`s with the same text are not known to be one value here,
    /// so `from_spec` does not pin the result; `from` states its text instead.
    open spec fn obeys_from_spec() -> bool {
        false
    }

    open spec fn from_spec(s: &'a str) -> AgentId {
        AgentId(choose|x: String| x@ == s@)
    }
}

} // verus!
