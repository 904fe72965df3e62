//! An agent's view of its organisation: who it is, who supervises it, whom
//! it supervises, its peers, and how it reaches them.

use vstd::prelude::*;
use vstd::string::*;
use crate::comms::address::{AddressView, AgentAddress};
use crate::comms::message::opt_text;

verus! {

/// An agent's organisational context, with the transport `T` it talks through.
pub struct AgentContext<T> {
    pub my_address: AgentAddress,
    pub supervisor: Option<AgentAddress>,
    pub subordinates: Vec<AgentAddress>,
    pub peers: Vec<AgentAddress>,
    pub transport: T,
    pub role: Option<String>,
}

impl<T> AgentContext<T> {
    /// A context with no supervisor, subordinates, peers or role.
    pub fn new(my_address: AgentAddress, transport: T) -> (c: AgentContext<T>)
        ensures
            c.my_address == my_address,
            c.supervisor is None,
            c.subordinates@.len() == 0,
            c.peers@.len() == 0,
            c.transport == transport,
            c.role is None,
    {
        AgentContext { my_address, supervisor: None, subordinates: Vec::new(), peers: Vec::new(), transport, role: None }
    }

    /// The same context with a supervisor.
    pub fn with_supervisor(self, supervisor: AgentAddress) -> (c: AgentContext<T>)
        ensures
            c == (AgentContext { supervisor: Some(supervisor), ..self }),
    {
        AgentContext { supervisor: Some(supervisor), ..self }
    }

    /// The same context with these subordinates.
    pub fn with_subordinates(self, subordinates: Vec<AgentAddress>) -> (c: AgentContext<T>)
        ensures
            c == (AgentContext { subordinates, ..self }),
    {
        AgentContext { subordinates, ..self }
    }

    /// The same context with a role.
    pub fn with_role(self, role: &str) -> (c: AgentContext<T>)
        ensures
            c.my_address == self.my_address,
            c.supervisor == self.supervisor,
            c.subordinates == self.subordinates,
            c.peers == self.peers,
            c.transport == self.transport,
            opt_text(c.role) == Some(role@),
    {
        AgentContext { role: Some(String::from_str(role)), ..self }
    }
}

} // verus!
