//! Agent roles and the hierarchy of coordinators, workers and teams.

use vstd::prelude::*;
use vstd::string::*;
use crate::table::Table;
use crate::guardrails::config::clone_strings;

verus! {

/// The texts of a list of strings.
pub open spec fn texts(v: Seq<String>) -> Seq<Seq<char>> {
    v.map_values(|s: String| s@)
}

/// An agent's role within a hierarchy.
#[derive(Debug, Clone, PartialEq)]
pub enum AgentRole {
    /// Manages subordinates.
    Coordinator { subordinates: Vec<String>, team: String },
    /// Works for a supervisor.
    Worker { supervisor: String, team: String },
    /// Collaborates with equals.
    Peer { team: String, peers: Vec<String> },
    /// Has no relationships.
    Standalone,
}

/// What a role denotes.
pub enum RoleView {
    Coordinator { subordinates: Seq<Seq<char>>, team: Seq<char> },
    Worker { supervisor: Seq<char>, team: Seq<char> },
    Peer { team: Seq<char>, peers: Seq<Seq<char>> },
    Standalone,
}

impl View for AgentRole {
    type V = RoleView;

    open spec fn view(&self) -> RoleView {
        match self {
            AgentRole::Coordinator { subordinates, team } => RoleView::Coordinator { subordinates: texts(subordinates@), team: team@ },
            AgentRole::Worker { supervisor, team } => RoleView::Worker { supervisor: supervisor@, team: team@ },
            AgentRole::Peer { team, peers } => RoleView::Peer { team: team@, peers: texts(peers@) },
            AgentRole::Standalone => RoleView::Standalone,
        }
    }
}

impl RoleView {
    /// The role's team, if it belongs to one.
    pub open spec fn team(self) -> Option<Seq<char>> {
        match self {
            RoleView::Coordinator { team, .. } => Some(team),
            RoleView::Worker { team, .. } => Some(team),
            RoleView::Peer { team, .. } => Some(team),
            RoleView::Standalone => None,
        }
    }

    /// A coordinator's subordinates; none for other roles.
    pub open spec fn subordinates(self) -> Seq<Seq<char>> {
        match self {
            RoleView::Coordinator { subordinates, .. } => subordinates,
            _ => Seq::empty(),
        }
    }
}

impl AgentRole {
    pub fn is_coordinator(&self) -> (b: bool)
        ensures
            b == (self@ is Coordinator),
    {
        match self {
            AgentRole::Coordinator { .. } => true,
            _ => false,
        }
    }

    pub fn is_worker(&self) -> (b: bool)
        ensures
            b == (self@ is Worker),
    {
        match self {
            AgentRole::Worker { .. } => true,
            _ => false,
        }
    }

    pub fn team(&self) -> (t: Option<&str>)
        ensures
            t matches Some(s) ==> self@.team() == Some(s@),
            t is None ==> self@.team() is None,
    {
        match self {
            AgentRole::Coordinator { team, .. } => Some(team.as_str()),
            AgentRole::Worker { team, .. } => Some(team.as_str()),
            AgentRole::Peer { team, .. } => Some(team.as_str()),
            AgentRole::Standalone => None,
        }
    }

    pub fn subordinates(&self) -> (s: &[String])
        ensures
            texts(s@) == self@.subordinates(),
    {
        match self {
            AgentRole::Coordinator { subordinates, .. } => subordinates.as_slice(),
            _ => {
                let empty: &[String] = &[];
                assert(texts(empty@) =~= Seq::<Seq<char>>::empty());
                empty
            },
        }
    }

    pub fn duplicate(&self) -> (r: AgentRole)
        ensures
            r@ == self@,
    {
        match self {
            AgentRole::Coordinator { subordinates, team } => AgentRole::Coordinator {
                subordinates: clone_strings(subordinates),
                team: team.clone(),
            },
            AgentRole::Worker { supervisor, team } => AgentRole::Worker { supervisor: supervisor.clone(), team: team.clone() },
            AgentRole::Peer { team, peers } => AgentRole::Peer { team: team.clone(), peers: clone_strings(peers) },
            AgentRole::Standalone => AgentRole::Standalone,
        }
    }
}

/// A coordinator's role with one more subordinate.
pub open spec fn with_subordinate(r: RoleView, sub: Seq<char>) -> RoleView {
    match r {
        RoleView::Coordinator { subordinates, team } => RoleView::Coordinator { subordinates: subordinates.push(sub), team },
        _ => r,
    }
}

/// A coordinator's role without the first occurrence of a subordinate.
pub open spec fn without_subordinate(r: RoleView, sub: Seq<char>) -> RoleView {
    match r {
        RoleView::Coordinator { subordinates, team } => RoleView::Coordinator {
            subordinates: subordinates.remove(first_position(subordinates, sub)),
            team,
        },
        _ => r,
    }
}

/// The position of the first occurrence of `x` in `s`; the length when there is none.
pub open spec fn first_position(s: Seq<Seq<char>>, x: Seq<char>) -> int
    decreases s.len(),
{
    if s.len() == 0 {
        0
    } else if s[0] == x {
        0
    } else {
        1 + first_position(s.drop_first(), x)
    }
}

proof fn lemma_first_position(s: Seq<Seq<char>>, x: Seq<char>, i: int)
    requires
        0 <= i < s.len(),
        s[i] == x,
        forall|j: int| 0 <= j < i ==> s[j] != x,
    ensures
        first_position(s, x) == i,
    decreases i,
{
    if i > 0 {
        lemma_first_position(s.drop_first(), x, i - 1);
    }
}

/// Tracks roles and teams.
pub struct AgentHierarchy {
    /// Agent id to role.
    pub roles: Table<AgentRole>,
    /// Team name to its members, in registration order.
    pub teams: Table<Vec<String>>,
}

impl AgentHierarchy {
    pub open spec fn wf(&self) -> bool {
        self.roles.wf() && self.teams.wf()
    }

    /// The role of an agent, if registered.
    pub open spec fn role_of(&self, id: Seq<char>) -> Option<RoleView> {
        if self.roles.view().contains_key(id) { Some(self.roles.view()[id]@) } else { None }
    }

    /// The members of a team, in registration order.
    pub open spec fn members_of(&self, team: Seq<char>) -> Seq<Seq<char>> {
        if self.teams.view().contains_key(team) { texts(self.teams.view()[team]@) } else { Seq::empty() }
    }

    pub fn new() -> (h: AgentHierarchy)
        ensures
            h.wf(),
            forall|id: Seq<char>| h.role_of(id) is None,
            forall|t: Seq<char>| h.members_of(t) == Seq::<Seq<char>>::empty(),
    {
        AgentHierarchy { roles: Table::new(), teams: Table::new() }
    }

    /// Registers an agent with a role, replacing any earlier role, and adds it
    /// to the members of the role's team.
    pub fn register(&mut self, agent_id: String, role: AgentRole)
        requires
            old(self).wf(),
        ensures
            final(self).wf(),
            final(self).role_of(agent_id@) == Some(role@),
            forall|id: Seq<char>| id != agent_id@ ==> final(self).role_of(id) == old(self).role_of(id),
            forall|t: Seq<char>| final(self).members_of(t) == if role@.team() == Some(t) {
                old(self).members_of(t).push(agent_id@)
            } else {
                old(self).members_of(t)
            },
    {
        match role.team() {
            Some(team) => {
                let mut members = match self.teams.remove(team) {
                    Some(v) => v,
                    None => Vec::new(),
                };
                let ghost before = members@;
                members.push(agent_id.clone());
                assert(texts(members@) =~= texts(before).push(agent_id@));
                self.teams.insert(String::from_str(team), members);
            },
            None => {},
        }
        self.roles.insert(agent_id, role);
        proof {
            assert forall|t: Seq<char>| final(self).members_of(t) == (if role@.team() == Some(t) {
                old(self).members_of(t).push(agent_id@)
            } else {
                old(self).members_of(t)
            }) by {}
        }
    }

    /// The role of an agent, if registered.
    pub fn get_role(&self, agent_id: &str) -> (r: Option<AgentRole>)
        requires
            self.wf(),
        ensures
            r matches Some(role) ==> self.role_of(agent_id@) == Some(role@),
            r is None ==> self.role_of(agent_id@) is None,
    {
        match self.roles.get(agent_id) {
            Some(role) => Some(role.duplicate()),
            None => None,
        }
    }

    /// Whether `agent_id` is a worker whose supervisor is `supervisor_id`.
    pub fn is_subordinate(&self, agent_id: &str, supervisor_id: &str) -> (b: bool)
        requires
            self.wf(),
        ensures
            b == (self.role_of(agent_id@) matches Some(RoleView::Worker { supervisor, .. }) && supervisor == supervisor_id@),
    {
        match self.roles.get(agent_id) {
            Some(AgentRole::Worker { supervisor, .. }) => {
                let s = String::from_str(supervisor_id);
                *supervisor == s
            },
            _ => false,
        }
    }

    /// A coordinator's subordinates; none for anyone else.
    pub fn get_subordinates(&self, coordinator_id: &str) -> (v: Vec<String>)
        requires
            self.wf(),
        ensures
            texts(v@) == match self.role_of(coordinator_id@) {
                Some(r) => r.subordinates(),
                None => Seq::<Seq<char>>::empty(),
            },
    {
        match self.roles.get(coordinator_id) {
            Some(AgentRole::Coordinator { subordinates, .. }) => clone_strings(subordinates),
            _ => {
                let v: Vec<String> = Vec::new();
                assert(texts(v@) =~= Seq::<Seq<char>>::empty());
                v
            },
        }
    }

    /// A worker's supervisor.
    pub fn get_supervisor(&self, worker_id: &str) -> (s: Option<String>)
        requires
            self.wf(),
        ensures
            s matches Some(x) ==> self.role_of(worker_id@) matches Some(RoleView::Worker { supervisor, .. }) && supervisor == x@,
            s is None ==> !(self.role_of(worker_id@) matches Some(RoleView::Worker { .. })),
    {
        match self.roles.get(worker_id) {
            Some(AgentRole::Worker { supervisor, .. }) => Some(supervisor.clone()),
            _ => None,
        }
    }

    /// The members of a team, in registration order.
    pub fn get_team_members(&self, team: &str) -> (v: Vec<String>)
        requires
            self.wf(),
        ensures
            texts(v@) == self.members_of(team@),
    {
        match self.teams.get(team) {
            Some(members) => clone_strings(members),
            None => {
                let v: Vec<String> = Vec::new();
                assert(texts(v@) =~= Seq::<Seq<char>>::empty());
                v
            },
        }
    }

    /// Adds a subordinate to a coordinator; true exactly when the agent is a
    /// coordinator that did not have it yet.
    pub fn add_subordinate(&mut self, coordinator_id: &str, subordinate_id: String) -> (added: bool)
        requires
            old(self).wf(),
        ensures
            final(self).wf(),
            added == (old(self).role_of(coordinator_id@) matches Some(RoleView::Coordinator { subordinates, .. })
                && !subordinates.contains(subordinate_id@)),
            added ==> final(self).role_of(coordinator_id@) == Some(with_subordinate(old(self).role_of(coordinator_id@)->0, subordinate_id@)),
            !added ==> final(self).role_of(coordinator_id@) == old(self).role_of(coordinator_id@),
            forall|id: Seq<char>| id != coordinator_id@ ==> final(self).role_of(id) == old(self).role_of(id),
            forall|t: Seq<char>| final(self).members_of(t) == old(self).members_of(t),
    {
        let current = self.roles.get(coordinator_id);
        let (subs, team) = match current {
            Some(AgentRole::Coordinator { subordinates, team }) => (subordinates, team),
            _ => return false,
        };
        if contains_string(subs, subordinate_id.as_str()) {
            return false;
        }
        let mut new_subs = clone_strings(subs);
        let ghost before = new_subs@;
        new_subs.push(subordinate_id);
        assert(texts(new_subs@) =~= texts(before).push(subordinate_id@));
        let new_role = AgentRole::Coordinator { subordinates: new_subs, team: team.clone() };
        self.roles.replace(coordinator_id, new_role);
        true
    }

    /// Removes a subordinate from a coordinator; true exactly when the agent
    /// is a coordinator that had it.
    pub fn remove_subordinate(&mut self, coordinator_id: &str, subordinate_id: &str) -> (removed: bool)
        requires
            old(self).wf(),
        ensures
            final(self).wf(),
            removed == (old(self).role_of(coordinator_id@) matches Some(RoleView::Coordinator { subordinates, .. })
                && subordinates.contains(subordinate_id@)),
            removed ==> final(self).role_of(coordinator_id@) == Some(without_subordinate(old(self).role_of(coordinator_id@)->0, subordinate_id@)),
            !removed ==> final(self).role_of(coordinator_id@) == old(self).role_of(coordinator_id@),
            forall|id: Seq<char>| id != coordinator_id@ ==> final(self).role_of(id) == old(self).role_of(id),
            forall|t: Seq<char>| final(self).members_of(t) == old(self).members_of(t),
    {
        let current = self.roles.get(coordinator_id);
        let (subs, team) = match current {
            Some(AgentRole::Coordinator { subordinates, team }) => (subordinates, team),
            _ => return false,
        };
        let pos = position_of(subs, subordinate_id);
        match pos {
            None => false,
            Some(p) => {
                let mut new_subs = clone_strings(subs);
                let ghost before = new_subs@;
                new_subs.remove(p);
                assert(texts(new_subs@) =~= texts(before).remove(p as int));
                let new_role = AgentRole::Coordinator { subordinates: new_subs, team: team.clone() };
                self.roles.replace(coordinator_id, new_role);
                true
            },
        }
    }

    /// The agents whose role satisfies `coordinators ? is_coordinator : is_worker`.
    fn ids_where(&self, coordinators: bool) -> (v: Vec<String>)
        requires
            self.wf(),
        ensures
            forall|id: Seq<char>| texts(v@).contains(id) <==> (self.role_of(id) matches Some(r)
                && if coordinators { r is Coordinator } else { r is Worker }),
            texts(v@).no_duplicates(),
    {
        let mut v: Vec<String> = Vec::new();
        let n = self.roles.len();
        let mut i: usize = 0;
        let ghost keys = self.roles.key_seq();
        proof { self.roles.lemma_dom_is_keys(); }
        while i < n
            invariant
                self.wf(),
                keys == self.roles.key_seq(),
                n == self.roles.entry_seq().len(),
                n == keys.len(),
                i <= n,
                keys.no_duplicates(),
                forall|a: int| 0 <= a < v@.len() ==> keys.take(i as int).contains(#[trigger] texts(v@)[a])
                    && (self.role_of(texts(v@)[a]) matches Some(r) && if coordinators { r is Coordinator } else { r is Worker }),
                forall|j: int| 0 <= j < i && (self.role_of(#[trigger] keys[j]) matches Some(r)
                    && if coordinators { r is Coordinator } else { r is Worker }) ==> texts(v@).contains(keys[j]),
                texts(v@).no_duplicates(),
            decreases n - i,
        {
            let (k, role) = self.roles.entry_at(i);
            proof { self.roles.lemma_entries_agree(i as int); }
            let keep = if coordinators { role.is_coordinator() } else { role.is_worker() };
            let ghost before = v@;
            if keep {
                proof {
                    assert(!texts(before).contains(k@)) by {
                        if texts(before).contains(k@) {
                            let a = choose|a: int| 0 <= a < texts(before).len() && texts(before)[a] == k@;
                            assert(keys.take(i as int).contains(texts(before)[a]));
                            let j = choose|j: int| 0 <= j < i && keys.take(i as int)[j] == k@;
                            assert(keys[j] == keys[i as int]);
                        }
                    }
                }
                v.push(k.clone());
                assert(texts(v@) =~= texts(before).push(k@));
            }
            proof {
                assert forall|a: int| 0 <= a < v@.len() implies keys.take(i + 1).contains(#[trigger] texts(v@)[a]) by {
                    if a < before.len() {
                        assert(texts(v@)[a] == texts(before)[a]);
                        let j = choose|j: int| 0 <= j < i && keys.take(i as int)[j] == texts(before)[a];
                        assert(keys.take(i + 1)[j] == texts(before)[a]);
                    } else {
                        assert(keys.take(i + 1)[i as int] == k@);
                    }
                }
                assert forall|j: int| 0 <= j < i + 1 && (self.role_of(#[trigger] keys[j]) matches Some(r)
                    && if coordinators { r is Coordinator } else { r is Worker }) implies texts(v@).contains(keys[j]) by {
                    if j < i {
                        let a = choose|a: int| 0 <= a < texts(before).len() && texts(before)[a] == keys[j];
                        assert(texts(v@)[a] == keys[j]);
                    } else {
                        assert(texts(v@)[texts(v@).len() - 1] == k@);
                    }
                }
            }
            i = i + 1;
        }
        proof {
            assert(keys.take(n as int) =~= keys);
            assert forall|id: Seq<char>| texts(v@).contains(id) <==> (self.role_of(id) matches Some(r)
                && if coordinators { r is Coordinator } else { r is Worker }) by {
                if texts(v@).contains(id) {
                    let a = choose|a: int| 0 <= a < texts(v@).len() && texts(v@)[a] == id;
                }
                if self.role_of(id) matches Some(r) && if coordinators { r is Coordinator } else { r is Worker } {
                    assert(self.roles.view().dom().contains(id));
                    assert(keys.to_set().contains(id));
                    let j = choose|j: int| 0 <= j < keys.len() && keys[j] == id;
                }
            }
        }
        v
    }

    /// All coordinators.
    pub fn get_coordinators(&self) -> (v: Vec<String>)
        requires
            self.wf(),
        ensures
            forall|id: Seq<char>| texts(v@).contains(id) <==> (self.role_of(id) matches Some(r) && r is Coordinator),
            texts(v@).no_duplicates(),
    {
        self.ids_where(true)
    }

    /// All workers.
    pub fn get_workers(&self) -> (v: Vec<String>)
        requires
            self.wf(),
        ensures
            forall|id: Seq<char>| texts(v@).contains(id) <==> (self.role_of(id) matches Some(r) && r is Worker),
            texts(v@).no_duplicates(),
    {
        self.ids_where(false)
    }
}

/// Whether a list holds a string.
pub fn contains_string(v: &Vec<String>, s: &str) -> (b: bool)
    ensures
        b == texts(v@).contains(s@),
{
    match position_of(v, s) {
        Some(p) => true,
        None => false,
    }
}

/// The first position of a string in a list.
pub fn position_of(v: &Vec<String>, s: &str) -> (p: Option<usize>)
    ensures
        p matches Some(i) ==> i < v@.len() && texts(v@)[i as int] == s@ && first_position(texts(v@), s@) == i
            && texts(v@).contains(s@),
        p is None ==> !texts(v@).contains(s@),
{
    let target = String::from_str(s);
    let mut i: usize = 0;
    while i < v.len()
        invariant
            target@ == s@,
            i <= v@.len(),
            forall|j: int| 0 <= j < i ==> texts(v@)[j] != s@,
        decreases v@.len() - i,
    {
        if v[i] == target {
            proof {
                let t = texts(v@);
                assert(t[i as int] == s@);
                assert(t.contains(s@));
                lemma_first_position(t, s@, i as int);
            }
            return Some(i);
        }
        i = i + 1;
    }
    None
}

/// Adding a subordinate the coordinator did not have and then removing it
/// gives back the coordinator's role as it was.
pub proof fn lemma_add_then_remove_subordinate(r: RoleView, sub: Seq<char>)
    requires
        r matches RoleView::Coordinator { subordinates, .. } && !subordinates.contains(sub),
    ensures
        without_subordinate(with_subordinate(r, sub), sub) == r,
{
    let subs = r->Coordinator_subordinates;
    let pushed = subs.push(sub);
    assert forall|j: int| 0 <= j < subs.len() implies pushed[j] != sub by {
        assert(pushed[j] == subs[j]);
    }
    lemma_first_position(pushed, sub, subs.len() as int);
    assert(pushed.remove(subs.len() as int) =~= subs);
}

impl Default for AgentHierarchy {
    fn default() -> (h: Self)
        ensures
            h.wf(),
            forall|id: Seq<char>| h.role_of(id) is None,
            forall|t: Seq<char>| h.members_of(t) == Seq::<Seq<char>>::empty(),
    {
        AgentHierarchy::new()
    }
}

} // verus!
