//! The coordinator's bookkeeping and rules: who runs, who may delegate to
//! whom, who escalates to whom. Sending the resulting messages is left to
//! whoever holds the transport.

use vstd::prelude::*;
use vstd::string::*;
use crate::table::Table;
use crate::support::{join2, join3, utc_now_millis};
use crate::comms::address::{AddressView, AgentAddress};
use crate::comms::hierarchy::{AgentHierarchy, AgentRole, RoleView, texts, with_subordinate};
use crate::comms::registry::AgentRegistry;
use crate::comms::delegation::DelegationRequest;
use crate::comms::error::CommsError;

verus! {

/// A running agent.
#[derive(Debug)]
pub struct AgentHandle {
    pub agent_id: String,
    pub role: AgentRole,
    /// Start time, milliseconds since the Unix epoch.
    pub started_at: i64,
}

/// The registry role name of a hierarchy role.
pub open spec fn role_name(r: RoleView) -> Seq<char> {
    match r {
        RoleView::Coordinator { .. } => "coordinator"@,
        RoleView::Worker { .. } => "worker"@,
        RoleView::Peer { .. } => "peer"@,
        RoleView::Standalone => "standalone"@,
    }
}

/// Each kind of hierarchy role is listed in the registry under its own name,
/// and different kinds under different names: an agent is found by the name
/// `coordinator`, `worker`, `peer` or `standalone` exactly when its role is
/// of that kind.
pub proof fn lemma_role_names(r: RoleView)
    ensures
        r is Coordinator <==> role_name(r) == "coordinator"@,
        r is Worker <==> role_name(r) == "worker"@,
        r is Peer <==> role_name(r) == "peer"@,
        r is Standalone <==> role_name(r) == "standalone"@,
{
    reveal_strlit("coordinator");
    reveal_strlit("worker");
    reveal_strlit("peer");
    reveal_strlit("standalone");
    assert("coordinator"@[0] != "worker"@[0]);
    assert("coordinator"@[0] != "peer"@[0]);
    assert("coordinator"@[0] != "standalone"@[0]);
    assert("worker"@[0] != "peer"@[0]);
    assert("worker"@[0] != "standalone"@[0]);
    assert("peer"@[0] != "standalone"@[0]);
}

/// The worker a delegation goes to: the one named, if it is the coordinator's
/// subordinate; else the coordinator's first subordinate.
pub open spec fn delegation_target(h: AgentHierarchy, coordinator: Seq<char>, worker: Option<Seq<char>>) -> Result<Seq<char>, ()> {
    match h.role_of(coordinator) {
        None => Err(()),
        Some(r) => if !(r is Coordinator) {
            Err(())
        } else {
            match worker {
                Some(w) => if h.role_of(w) matches Some(RoleView::Worker { supervisor, .. }) && supervisor == coordinator {
                    Ok(w)
                } else {
                    Err(())
                },
                None => if r.subordinates().len() > 0 { Ok(r.subordinates()[0]) } else { Err(()) },
            }
        },
    }
}

/// The text of an optional string slice.
pub open spec fn opt_str(o: Option<&str>) -> Option<Seq<char>> {
    match o {
        Some(s) => Some(s@),
        None => None,
    }
}

/// Manages running agents, their hierarchy and pending delegations.
pub struct AgentCoordinator {
    pub registry: AgentRegistry,
    pub hierarchy: AgentHierarchy,
    /// Agent id to handle.
    pub running_agents: Table<AgentHandle>,
    /// Task id to delegation awaiting its result.
    pub pending_delegations: Table<DelegationRequest>,
}

impl AgentCoordinator {
    pub open spec fn wf(&self) -> bool {
        &&& self.registry.wf()
        &&& self.hierarchy.wf()
        &&& self.running_agents.wf()
        &&& self.pending_delegations.wf()
    }

    /// The ids of running agents.
    pub open spec fn running(&self) -> Set<Seq<char>> {
        self.running_agents.view().dom()
    }

    pub fn new() -> (c: AgentCoordinator)
        ensures
            c.wf(),
            c.running() == Set::<Seq<char>>::empty(),
            forall|id: Seq<char>| c.hierarchy.role_of(id) is None,
            forall|t: Seq<char>| c.hierarchy.members_of(t) == Seq::<Seq<char>>::empty(),
            c.registry.agents.view() == Map::<Seq<char>, AgentAddress>::empty(),
            forall|r: Seq<char>| c.registry.ids_with_role(r) == Seq::<Seq<char>>::empty(),
            c.pending_delegations.view() == Map::<Seq<char>, DelegationRequest>::empty(),
    {
        let c = AgentCoordinator {
            registry: AgentRegistry::new(),
            hierarchy: AgentHierarchy::new(),
            running_agents: Table::new(),
            pending_delegations: Table::new(),
        };
        assert(c.running() =~= Set::<Seq<char>>::empty());
        c
    }

    pub fn registry(&self) -> (r: &AgentRegistry)
        ensures
            r == &self.registry,
    {
        &self.registry
    }

    pub fn hierarchy(&self) -> (h: &AgentHierarchy)
        ensures
            h == &self.hierarchy,
    {
        &self.hierarchy
    }

    /// Registers an agent with its role: listed in the registry under the
    /// role's name, placed in the hierarchy, and marked running.
    pub fn register_agent(&mut self, address: AgentAddress, role: AgentRole)
        requires
            old(self).wf(),
        ensures
            final(self).wf(),
            final(self).registry.address_of(address.id@) == Some(address@),
            forall|r: Seq<char>| final(self).registry.ids_with_role(r) == if r == role_name(role@) {
                old(self).registry.ids_with_role(r).push(address.id@)
            } else {
                old(self).registry.ids_with_role(r)
            },
            forall|id: Seq<char>| id != address.id@ ==> final(self).registry.address_of(id) == old(self).registry.address_of(id),
            final(self).hierarchy.role_of(address.id@) == Some(role@),
            forall|id: Seq<char>| id != address.id@ ==> final(self).hierarchy.role_of(id) == old(self).hierarchy.role_of(id),
            forall|t: Seq<char>| final(self).hierarchy.members_of(t) == if role@.team() == Some(t) {
                old(self).hierarchy.members_of(t).push(address.id@)
            } else {
                old(self).hierarchy.members_of(t)
            },
            final(self).running() == old(self).running().insert(address.id@),
            final(self).running().finite(),
            final(self).running_agents.view()[address.id@].agent_id@ == address.id@,
            final(self).running_agents.view()[address.id@].role@ == role@,
            final(self).pending_delegations.view() == old(self).pending_delegations.view(),
    {
        proof {
            reveal_strlit("coordinator");
            reveal_strlit("worker");
            reveal_strlit("peer");
            reveal_strlit("standalone");
        }
        let name = match &role {
            AgentRole::Coordinator { .. } => String::from_str("coordinator"),
            AgentRole::Worker { .. } => String::from_str("worker"),
            AgentRole::Peer { .. } => String::from_str("peer"),
            AgentRole::Standalone => String::from_str("standalone"),
        };
        let id = address.id.clone();
        let ghost addr = address@;
        self.registry.register(address, Some(name));
        self.hierarchy.register(id.clone(), role.duplicate());
        let handle = AgentHandle { agent_id: id.clone(), role, started_at: utc_now_millis() };
        self.running_agents.insert(id, handle);
        assert(self.running() =~= old(self).running().insert(addr.id));
        proof { self.running_agents.lemma_dom_is_keys(); }
    }

    /// Stops tracking an agent; true when it was running.
    pub fn unregister_agent(&mut self, agent_id: &str) -> (was_running: bool)
        requires
            old(self).wf(),
        ensures
            final(self).wf(),
            was_running == old(self).running().contains(agent_id@),
            final(self).running() == old(self).running().remove(agent_id@),
            final(self).hierarchy == old(self).hierarchy,
            final(self).registry == old(self).registry,
    {
        let r = self.running_agents.remove(agent_id);
        assert(self.running() =~= old(self).running().remove(agent_id@));
        r.is_some()
    }

    pub fn agent_count(&self) -> (n: usize)
        requires
            self.wf(),
        ensures
            n == self.running().len(),
    {
        self.running_agents.len()
    }

    /// The ids of running agents, each once.
    pub fn list_agents(&self) -> (v: Vec<String>)
        requires
            self.wf(),
        ensures
            texts(v@).to_set() == self.running(),
            texts(v@).no_duplicates(),
    {
        proof { self.running_agents.lemma_dom_is_keys(); }
        self.running_agents.keys()
    }

    /// The handle of a running agent.
    pub fn get_agent(&self, agent_id: &str) -> (h: Option<AgentHandle>)
        requires
            self.wf(),
        ensures
            h is Some <==> self.running().contains(agent_id@),
            h matches Some(x) ==> x.agent_id@ == self.running_agents.view()[agent_id@].agent_id@
                && x.role@ == self.running_agents.view()[agent_id@].role@
                && x.started_at == self.running_agents.view()[agent_id@].started_at,
    {
        match self.running_agents.get(agent_id) {
            Some(h) => Some(AgentHandle { agent_id: h.agent_id.clone(), role: h.role.duplicate(), started_at: h.started_at }),
            None => None,
        }
    }

    /// Checks and records a delegation from a coordinator to a worker (the
    /// named one, or else its first subordinate). The delegation is kept
    /// pending under its task id; sending it is up to the caller.
    pub fn prepare_delegation(&mut self, coordinator_id: &str, worker_id: Option<&str>, description: &str) -> (r: Result<DelegationRequest, CommsError>)
        requires
            old(self).wf(),
        ensures
            final(self).wf(),
            final(self).hierarchy == old(self).hierarchy,
            final(self).registry == old(self).registry,
            final(self).running_agents == old(self).running_agents,
            r is Ok <==> delegation_target(old(self).hierarchy, coordinator_id@, opt_str(worker_id)) is Ok,
            r matches Ok(d) ==> {
                &&& delegation_target(old(self).hierarchy, coordinator_id@, opt_str(worker_id)) matches Ok(t) && t == d.to_worker@
                &&& d.from_coordinator@ == coordinator_id@
                &&& d.description@ == description@
                &&& d.priority == 5
                &&& d.task_id@.len() == 36
                &&& final(self).pending_delegations.view() == old(self).pending_delegations.view().insert(
                    d.task_id@, final(self).pending_delegations.view()[d.task_id@])
                &&& final(self).pending_delegations.view()[d.task_id@].same_as(&d)
            },
            r matches Err(e) ==> final(self).pending_delegations == old(self).pending_delegations && match old(self).hierarchy.role_of(coordinator_id@) {
                None => e matches CommsError::AgentNotFound(m) && m@ == coordinator_id@,
                Some(role) => if !(role is Coordinator) {
                    e matches CommsError::Permission(m) && m@ == "Only coordinators can delegate tasks"@
                } else {
                    match worker_id {
                        Some(w) => e matches CommsError::Permission(m) && m@ == w@ + " is not a subordinate of "@ + coordinator_id@,
                        None => e matches CommsError::Other(m) && m@ == "No subordinates available"@,
                    }
                },
            },
    {
        proof {
            reveal_strlit("Only coordinators can delegate tasks");
            reveal_strlit(" is not a subordinate of ");
            reveal_strlit("No subordinates available");
        }
        let role = match self.hierarchy.get_role(coordinator_id) {
            Some(r) => r,
            None => return Err(CommsError::AgentNotFound(String::from_str(coordinator_id))),
        };
        if !role.is_coordinator() {
            return Err(CommsError::Permission(String::from_str("Only coordinators can delegate tasks")));
        }
        let target: String = match worker_id {
            Some(w) => {
                if !self.hierarchy.is_subordinate(w, coordinator_id) {
                    return Err(CommsError::Permission(join3(w, " is not a subordinate of ", coordinator_id)));
                }
                String::from_str(w)
            },
            None => {
                let subs = self.hierarchy.get_subordinates(coordinator_id);
                if subs.len() == 0 {
                    return Err(CommsError::Other(String::from_str("No subordinates available")));
                }
                subs[0].clone()
            },
        };
        let delegation = DelegationRequest::new(coordinator_id, target.as_str(), description);
        self.pending_delegations.insert(delegation.task_id.clone(), delegation.duplicate());
        Ok(delegation)
    }

    /// Takes the pending delegation of a task whose result has come in.
    pub fn take_pending(&mut self, task_id: &str) -> (r: Result<DelegationRequest, CommsError>)
        requires
            old(self).wf(),
        ensures
            final(self).wf(),
            final(self).hierarchy == old(self).hierarchy,
            final(self).registry == old(self).registry,
            final(self).running_agents == old(self).running_agents,
            final(self).pending_delegations.view() == old(self).pending_delegations.view().remove(task_id@),
            r is Ok <==> old(self).pending_delegations.view().contains_key(task_id@),
            r matches Ok(d) ==> d == old(self).pending_delegations.view()[task_id@],
            r matches Err(e) ==> e matches CommsError::Other(m) && m@ == "Task "@ + task_id@ + " not found"@,
    {
        match self.pending_delegations.remove(task_id) {
            Some(d) => Ok(d),
            None => {
                proof {
                    reveal_strlit("Task ");
                    reveal_strlit(" not found");
                }
                Err(CommsError::Other(join3("Task ", task_id, " not found")))
            },
        }
    }

    /// The supervisor a worker escalates to.
    pub fn escalation_target(&self, worker_id: &str) -> (r: Result<String, CommsError>)
        requires
            self.wf(),
        ensures
            r matches Ok(s) ==> self.hierarchy.role_of(worker_id@) matches Some(RoleView::Worker { supervisor, .. }) && supervisor == s@,
            r is Err ==> !(self.hierarchy.role_of(worker_id@) matches Some(RoleView::Worker { .. })),
            r matches Err(e) ==> e matches CommsError::Other(m) && m@ == "Worker "@ + worker_id@ + " has no supervisor"@,
    {
        match self.hierarchy.get_supervisor(worker_id) {
            Some(s) => Ok(s),
            None => {
                proof {
                    reveal_strlit("Worker ");
                    reveal_strlit(" has no supervisor");
                }
                Err(CommsError::Other(join3("Worker ", worker_id, " has no supervisor")))
            },
        }
    }

    /// The number of members a team broadcast reaches; an error for an empty or unknown team.
    pub fn broadcast_reach(&self, team: &str) -> (r: Result<usize, CommsError>)
        requires
            self.wf(),
        ensures
            r is Ok <==> self.hierarchy.members_of(team@).len() > 0,
            r matches Ok(n) ==> n == self.hierarchy.members_of(team@).len(),
            r matches Err(e) ==> e matches CommsError::Other(m) && m@ == "Team "@ + team@ + " not found or empty"@,
    {
        let members = self.hierarchy.get_team_members(team);
        if members.len() == 0 {
            proof {
                reveal_strlit("Team ");
                reveal_strlit(" not found or empty");
            }
            Err(CommsError::Other(join3("Team ", team, " not found or empty")))
        } else {
            Ok(members.len())
        }
    }

    /// The address of the recipient of a request, when both agents are registered.
    pub fn request_target(&self, from_agent: &str, to_agent: &str) -> (r: Result<AgentAddress, CommsError>)
        requires
            self.wf(),
        ensures
            r is Ok <==> self.registry.address_of(from_agent@) is Some && self.registry.address_of(to_agent@) is Some,
            r matches Ok(a) ==> self.registry.address_of(to_agent@) == Some(a@),
            r matches Err(e) ==> e matches CommsError::AgentNotFound(m) && m@ == if self.registry.address_of(from_agent@) is None {
                from_agent@
            } else {
                to_agent@
            },
    {
        if self.registry.lookup(from_agent).is_none() {
            return Err(CommsError::AgentNotFound(String::from_str(from_agent)));
        }
        match self.registry.lookup(to_agent) {
            Some(a) => Ok(a),
            None => Err(CommsError::AgentNotFound(String::from_str(to_agent))),
        }
    }

    /// Makes a running agent the coordinator of a new team.
    pub fn create_team(&mut self, coordinator_id: String, team_name: String) -> (r: Result<(), CommsError>)
        requires
            old(self).wf(),
        ensures
            final(self).wf(),
            r is Ok <==> old(self).running().contains(coordinator_id@),
            r matches Err(e) ==> e matches CommsError::AgentNotFound(m) && m@ == coordinator_id@,
            r is Err ==> final(self).hierarchy == old(self).hierarchy,
            r is Ok ==> final(self).hierarchy.role_of(coordinator_id@)
                == Some(RoleView::Coordinator { subordinates: Seq::empty(), team: team_name@ }),
            forall|id: Seq<char>| id != coordinator_id@ ==> final(self).hierarchy.role_of(id) == old(self).hierarchy.role_of(id),
            final(self).running() == old(self).running(),
    {
        if !self.running_agents.contains_key(coordinator_id.as_str()) {
            return Err(CommsError::AgentNotFound(coordinator_id));
        }
        let role = AgentRole::Coordinator { subordinates: Vec::new(), team: team_name };
        assert(role@ == RoleView::Coordinator { subordinates: Seq::empty(), team: team_name@ }) by {
            assert(texts(Seq::<String>::empty()) =~= Seq::<Seq<char>>::empty());
        }
        self.hierarchy.register(coordinator_id, role);
        Ok(())
    }

    /// Puts a worker under a coordinator in a team.
    pub fn add_worker_to_team(&mut self, worker_id: String, coordinator_id: &str, team_name: String) -> (r: Result<(), CommsError>)
        requires
            old(self).wf(),
        ensures
            final(self).wf(),
            r is Ok <==> (old(self).hierarchy.role_of(coordinator_id@) matches Some(role) && role is Coordinator),
            r matches Err(e) ==> match old(self).hierarchy.role_of(coordinator_id@) {
                None => e matches CommsError::AgentNotFound(m) && m@ == coordinator_id@,
                Some(_) => e matches CommsError::Permission(m) && m@ == coordinator_id@ + " is not a coordinator"@,
            },
            r is Err ==> final(self).hierarchy == old(self).hierarchy,
            r is Ok ==> final(self).hierarchy.role_of(worker_id@)
                == Some(RoleView::Worker { supervisor: coordinator_id@, team: team_name@ }),
            r is Ok && worker_id@ != coordinator_id@ ==> final(self).hierarchy.role_of(coordinator_id@) == Some(
                if old(self).hierarchy.role_of(coordinator_id@)->0.subordinates().contains(worker_id@) {
                    old(self).hierarchy.role_of(coordinator_id@)->0
                } else {
                    with_subordinate(old(self).hierarchy.role_of(coordinator_id@)->0, worker_id@)
                }),
            r is Ok ==> forall|id: Seq<char>| id != worker_id@ && id != coordinator_id@
                ==> final(self).hierarchy.role_of(id) == old(self).hierarchy.role_of(id),
            r is Ok ==> forall|t: Seq<char>| final(self).hierarchy.members_of(t) == if t == team_name@ {
                old(self).hierarchy.members_of(t).push(worker_id@)
            } else {
                old(self).hierarchy.members_of(t)
            },
            final(self).running() == old(self).running(),
    {
        let coord_role = match self.hierarchy.get_role(coordinator_id) {
            Some(r) => r,
            None => return Err(CommsError::AgentNotFound(String::from_str(coordinator_id))),
        };
        if !coord_role.is_coordinator() {
            proof { reveal_strlit(" is not a coordinator"); }
            return Err(CommsError::Permission(join2(coordinator_id, " is not a coordinator")));
        }
        let worker_role = AgentRole::Worker { supervisor: String::from_str(coordinator_id), team: team_name };
        self.hierarchy.register(worker_id.clone(), worker_role);
        self.hierarchy.add_subordinate(coordinator_id, worker_id);
        Ok(())
    }

    pub fn get_coordinators(&self) -> (v: Vec<String>)
        requires
            self.wf(),
        ensures
            forall|id: Seq<char>| texts(v@).contains(id) <==> (self.hierarchy.role_of(id) matches Some(r) && r is Coordinator),
    {
        self.hierarchy.get_coordinators()
    }

    pub fn get_workers(&self) -> (v: Vec<String>)
        requires
            self.wf(),
        ensures
            forall|id: Seq<char>| texts(v@).contains(id) <==> (self.hierarchy.role_of(id) matches Some(r) && r is Worker),
    {
        self.hierarchy.get_workers()
    }

    pub fn get_subordinates(&self, coordinator_id: &str) -> (v: Vec<String>)
        requires
            self.wf(),
        ensures
            texts(v@) == match self.hierarchy.role_of(coordinator_id@) {
                Some(r) => r.subordinates(),
                None => Seq::<Seq<char>>::empty(),
            },
    {
        self.hierarchy.get_subordinates(coordinator_id)
    }

    pub fn get_team_members(&self, team: &str) -> (v: Vec<String>)
        requires
            self.wf(),
        ensures
            texts(v@) == self.hierarchy.members_of(team@),
    {
        self.hierarchy.get_team_members(team)
    }
}

/// Registering an agent that was not running and then unregistering it
/// leaves the set of running agents as it was.
pub proof fn lemma_register_then_unregister(running: Set<Seq<char>>, id: Seq<char>)
    requires
        !running.contains(id),
    ensures
        running.insert(id).remove(id) == running,
{
    assert(running.insert(id).remove(id) =~= running);
}

/// Only a coordinator delegates, and only to one of its own: the named
/// worker when that worker's supervisor is the coordinator, else the
/// coordinator's first subordinate.
pub proof fn lemma_delegation_targets_a_subordinate(h: AgentHierarchy, coordinator: Seq<char>, worker: Option<Seq<char>>)
    ensures
        delegation_target(h, coordinator, worker) matches Ok(t) ==> {
            &&& (h.role_of(coordinator) matches Some(r) && r is Coordinator)
            &&& (worker matches Some(w) ==> (t == w && (h.role_of(t) matches Some(RoleView::Worker { supervisor, .. }) && supervisor == coordinator)))
            &&& (worker is None ==> (h.role_of(coordinator)->0.subordinates().len() > 0 && t == h.role_of(coordinator)->0.subordinates()[0]))
        },
{
}

} // verus!
