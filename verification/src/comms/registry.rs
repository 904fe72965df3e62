//! Agent registry for discovery by id and by role.

use vstd::prelude::*;
use vstd::string::*;
use crate::table::Table;
use crate::comms::address::{AddressView, AgentAddress};
use crate::comms::hierarchy::texts;

verus! {

/// The addresses registered under the given ids, in order, skipping ids not registered.
pub open spec fn addresses_of(ids: Seq<Seq<char>>, agents: Map<Seq<char>, AgentAddress>) -> Seq<AddressView>
    decreases ids.len(),
{
    if ids.len() == 0 {
        Seq::empty()
    } else {
        let prev = addresses_of(ids.drop_last(), agents);
        if agents.contains_key(ids.last()) { prev.push(agents[ids.last()]@) } else { prev }
    }
}

/// Finds agents by id and by role.
pub struct AgentRegistry {
    /// Agent id to address.
    pub agents: Table<AgentAddress>,
    /// Role name to agent ids, in registration order.
    pub roles: Table<Vec<String>>,
}

impl AgentRegistry {
    pub open spec fn wf(&self) -> bool {
        self.agents.wf() && self.roles.wf()
    }

    /// The address registered for an id.
    pub open spec fn address_of(&self, id: Seq<char>) -> Option<AddressView> {
        if self.agents.view().contains_key(id) { Some(self.agents.view()[id]@) } else { None }
    }

    /// The ids registered under a role, in registration order.
    pub open spec fn ids_with_role(&self, role: Seq<char>) -> Seq<Seq<char>> {
        if self.roles.view().contains_key(role) { texts(self.roles.view()[role]@) } else { Seq::empty() }
    }

    pub fn new() -> (r: AgentRegistry)
        ensures
            r.wf(),
            r.agents.view() == Map::<Seq<char>, AgentAddress>::empty(),
            forall|role: Seq<char>| r.ids_with_role(role) == Seq::<Seq<char>>::empty(),
    {
        AgentRegistry { agents: Table::new(), roles: Table::new() }
    }

    /// Registers an address, replacing any earlier one for its id, and lists
    /// the id under the role when one is given.
    pub fn register(&mut self, address: AgentAddress, role: Option<String>)
        requires
            old(self).wf(),
        ensures
            final(self).wf(),
            final(self).agents.view() == old(self).agents.view().insert(address.id@, address),
            forall|r: Seq<char>| final(self).ids_with_role(r) == if role matches Some(x) && x@ == r {
                old(self).ids_with_role(r).push(address.id@)
            } else {
                old(self).ids_with_role(r)
            },
    {
        let id = address.id.clone();
        match role {
            Some(r) => {
                let mut ids = match self.roles.remove(r.as_str()) {
                    Some(v) => v,
                    None => Vec::new(),
                };
                let ghost before = ids@;
                ids.push(id.clone());
                assert(texts(ids@) =~= texts(before).push(id@));
                self.roles.insert(r, ids);
            },
            None => {},
        }
        self.agents.insert(id, address);
    }

    /// The address registered for an id.
    pub fn lookup(&self, id: &str) -> (a: Option<AgentAddress>)
        requires
            self.wf(),
        ensures
            a matches Some(x) ==> self.address_of(id@) == Some(x@),
            a is None ==> self.address_of(id@) is None,
    {
        match self.agents.get(id) {
            Some(a) => Some(a.duplicate()),
            None => None,
        }
    }

    /// The addresses of the agents registered under a role, in registration order.
    pub fn find_by_role(&self, role: &str) -> (v: Vec<AgentAddress>)
        requires
            self.wf(),
        ensures
            v@.map_values(|a: AgentAddress| a@) == addresses_of(self.ids_with_role(role@), self.agents.view()),
    {
        let mut out: Vec<AgentAddress> = Vec::new();
        match self.roles.get(role) {
            Some(ids) => {
                let ghost all = texts(ids@);
                let mut i: usize = 0;
                while i < ids.len()
                    invariant
                        self.wf(),
                        all == texts(ids@),
                        all == self.ids_with_role(role@),
                        i <= ids@.len(),
                        out@.map_values(|a: AgentAddress| a@) == addresses_of(all.take(i as int), self.agents.view()),
                    decreases ids@.len() - i,
                {
                    assert(all.take(i + 1).drop_last() =~= all.take(i as int));
                    match self.lookup(ids[i].as_str()) {
                        Some(a) => {
                            let ghost before = out@;
                            out.push(a);
                            assert(out@.map_values(|a: AgentAddress| a@) =~= before.map_values(|a: AgentAddress| a@).push(
                                a@,
                            ));
                        },
                        None => {},
                    }
                    i = i + 1;
                }
                assert(all.take(i as int) =~= all);
            },
            None => {
                assert(out@.map_values(|a: AgentAddress| a@) =~= Seq::<AddressView>::empty());
            },
        }
        out
    }

    /// The number of registered agents.
    pub fn count(&self) -> (n: usize)
        requires
            self.wf(),
        ensures
            n == self.agents.view().len(),
    {
        self.agents.len()
    }

    /// The ids of all registered agents, each once.
    pub fn list_all(&self) -> (v: Vec<String>)
        requires
            self.wf(),
        ensures
            texts(v@).to_set() == self.agents.view().dom(),
            texts(v@).no_duplicates(),
    {
        proof { self.agents.lemma_dom_is_keys(); }
        self.agents.keys()
    }
}

impl Default for AgentRegistry {
    fn default() -> (r: Self)
        ensures
            r.wf(),
            r.agents.view() == Map::<Seq<char>, AgentAddress>::empty(),
            forall|role: Seq<char>| r.ids_with_role(role) == Seq::<Seq<char>>::empty(),
    {
        AgentRegistry::new()
    }
}

/// Looking an agent up after registering its address gives that address;
/// every other agent's address stays as it was.
pub proof fn lemma_lookup_after_register(before: AgentRegistry, after: AgentRegistry, address: AgentAddress, other: Seq<char>)
    requires
        after.agents.view() == before.agents.view().insert(address.id@, address),
        other != address.id@,
    ensures
        after.address_of(address.id@) == Some(address@),
        after.address_of(other) == before.address_of(other),
{
}

} // verus!
