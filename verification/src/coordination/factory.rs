//! Role templates and the decisions of spawning an agent from one.
//!
//! Building the agent itself and starting its message loop happen outside
//! the library, between [`AgentFactory::prepare_spawn`] and
//! [`AgentFactory::register_spawned`].

use vstd::prelude::*;
use vstd::string::*;
use crate::table::Table;
use crate::comms::address::{AddressView, AgentAddress, LocationView};
use crate::comms::coordinator::{AgentCoordinator, role_name};
use crate::comms::hierarchy::{AgentRole, RoleView, texts};
use crate::comms::message::opt_text;
use crate::coordination::error::CoordinationError;
use crate::llm::Provider;
use crate::llm::anthropic::AnthropicProvider;
use crate::llm::error::{LLMError, http_error_text};
use crate::llm::openai::OpenAIProvider;
use crate::support::{nanos_of, new_uuid_string, text_eq};

verus! {

/// Configuration of a role that agents can be spawned with.
#[derive(Debug, Clone)]
pub struct RoleConfig {
    /// Role name.
    pub role: String,
    /// System message.
    pub system_message: String,
    /// Model to use.
    pub model: String,
    /// Provider (`openai`, `anthropic`).
    pub provider: String,
    /// Tools available to the role.
    pub tools: Vec<String>,
    /// Whether agents of this role can spawn other agents.
    pub can_spawn_agents: bool,
    /// Bound on the agent loop's iterations.
    pub max_iterations: usize,
    /// Place in the hierarchy: `coordinator`, `worker`, `peer` or `standalone`.
    pub hierarchy_role: String,
    /// Team, for roles that belong to one.
    pub team: Option<String>,
    /// Supervisor's id, for a worker.
    pub supervisor: Option<String>,
}

/// The default bound on agent loop iterations, 10.
pub fn default_max_iterations() -> (n: usize)
    ensures
        n == 10,
{
    10
}

/// The default place in the hierarchy, `standalone`.
pub fn default_hierarchy_role() -> (s: String)
    ensures
        s@ == "standalone"@,
{
    String::from_str("standalone")
}

/// The team a role names, or `default`.
pub open spec fn team_or_default(t: Option<String>) -> Seq<char> {
    match t {
        Some(s) => s@,
        None => "default"@,
    }
}

/// The hierarchy role that a configuration gives, or the message of the
/// configuration error it gives: a worker needs a supervisor; an unknown
/// name stands alone.
pub open spec fn hierarchy_role_of(c: RoleConfig) -> Result<RoleView, Seq<char>> {
    if c.hierarchy_role@ == "coordinator"@ {
        Ok(RoleView::Coordinator { subordinates: Seq::empty(), team: team_or_default(c.team) })
    } else if c.hierarchy_role@ == "worker"@ {
        match c.supervisor {
            Some(s) => Ok(RoleView::Worker { supervisor: s@, team: team_or_default(c.team) }),
            None => Err("Worker role requires supervisor"@),
        }
    } else if c.hierarchy_role@ == "peer"@ {
        Ok(RoleView::Peer { team: team_or_default(c.team), peers: Seq::empty() })
    } else {
        Ok(RoleView::Standalone)
    }
}

/// Whether a result of [`AgentFactory::create_hierarchy_role`] agrees with
/// [`hierarchy_role_of`].
pub open spec fn hierarchy_result_ok(r: Result<AgentRole, CoordinationError>, c: RoleConfig) -> bool {
    match hierarchy_role_of(c) {
        Ok(v) => r matches Ok(role) && role@ == v,
        Err(msg) => r matches Err(CoordinationError::Config(m)) && m@ == msg,
    }
}

fn team_copy(t: &Option<String>) -> (s: String)
    ensures
        s@ == team_or_default(*t),
{
    match t {
        Some(x) => x.clone(),
        None => String::from_str("default"),
    }
}

/// What spawning an agent of a role decided before the agent is built: its
/// id, its provider and settings, and its place in the hierarchy (or the
/// error that placing it gives, which comes after building the agent).
pub struct SpawnPlan {
    pub agent_id: String,
    pub provider: Provider,
    pub system_message: String,
    pub max_iterations: usize,
    pub hierarchy: Result<AgentRole, CoordinationError>,
}

/// The text that an error of making a provider gives in a spawn error.
pub open spec fn provider_error_message(msg: Seq<char>) -> Seq<char> {
    "Provider error: Invalid configuration: "@ + msg
}

/// Whether a spawn failed because no HTTP client could be built: a
/// configuration error whose message starts `Provider error: HTTP request failed: `.
pub open spec fn client_failure(r: Result<SpawnPlan, CoordinationError>) -> bool {
    r matches Err(CoordinationError::Config(m)) && "Provider error: HTTP request failed: "@.is_prefix_of(m@)
}

/// Creates agents from role templates and registers them with a coordinator.
pub struct AgentFactory {
    /// Role name to template.
    pub role_configs: Table<RoleConfig>,
    pub coordinator: AgentCoordinator,
    pub openai_key: Option<String>,
    pub anthropic_key: Option<String>,
}

impl AgentFactory {
    pub open spec fn wf(&self) -> bool {
        self.role_configs.wf() && self.coordinator.wf()
    }

    /// A factory with no role templates.
    pub fn new(coordinator: AgentCoordinator, openai_key: Option<String>, anthropic_key: Option<String>) -> (f: AgentFactory)
        requires
            coordinator.wf(),
        ensures
            f.wf(),
            f.role_configs.view() == Map::<Seq<char>, RoleConfig>::empty(),
            f.coordinator == coordinator,
            opt_text(f.openai_key) == opt_text(openai_key),
            opt_text(f.anthropic_key) == opt_text(anthropic_key),
    {
        AgentFactory { role_configs: Table::new(), coordinator, openai_key, anthropic_key }
    }

    /// Registers a role template under its name, replacing any earlier one.
    pub fn register_role(&mut self, config: RoleConfig)
        requires
            old(self).wf(),
        ensures
            final(self).wf(),
            final(self).role_configs.view() == old(self).role_configs.view().insert(config.role@, config),
            final(self).coordinator == old(self).coordinator,
            final(self).openai_key == old(self).openai_key,
            final(self).anthropic_key == old(self).anthropic_key,
    {
        let name = config.role.clone();
        self.role_configs.insert(name, config);
    }

    /// Whether a role template of that name is registered.
    pub fn has_role(&self, role: &str) -> (b: bool)
        requires
            self.wf(),
        ensures
            b == self.role_configs.view().contains_key(role@),
    {
        self.role_configs.contains_key(role)
    }

    /// The hierarchy role that a configuration gives (see [`hierarchy_role_of`]).
    pub fn create_hierarchy_role(&self, config: &RoleConfig) -> (r: Result<AgentRole, CoordinationError>)
        ensures
            hierarchy_result_ok(r, *config),
    {
        proof {
            reveal_strlit("coordinator");
            reveal_strlit("worker");
            reveal_strlit("peer");
        }
        if text_eq(config.hierarchy_role.as_str(), "coordinator") {
            let role = AgentRole::Coordinator { subordinates: Vec::new(), team: team_copy(&config.team) };
            assert(texts(Seq::<String>::empty()) =~= Seq::<Seq<char>>::empty());
            Ok(role)
        } else if text_eq(config.hierarchy_role.as_str(), "worker") {
            match &config.supervisor {
                Some(s) => Ok(AgentRole::Worker { supervisor: s.clone(), team: team_copy(&config.team) }),
                None => Err(CoordinationError::config("Worker role requires supervisor")),
            }
        } else if text_eq(config.hierarchy_role.as_str(), "peer") {
            let role = AgentRole::Peer { team: team_copy(&config.team), peers: Vec::new() };
            assert(texts(Seq::<String>::empty()) =~= Seq::<Seq<char>>::empty());
            Ok(role)
        } else {
            Ok(AgentRole::Standalone)
        }
    }

    /// Decides what spawning an agent of `role` needs: the role's template
    /// must be registered (else `Unknown role: ...`); the id is the one given,
    /// or the role's name, a hyphen and eight characters of a fresh random
    /// identifier; the template's provider must be `openai` or `anthropic`
    /// (else `Unknown provider`), its key must be set (else `OpenAI key not
    /// set` or `Anthropic key not set`) and accepted by the provider (else
    /// `Provider error: ...`). All of these are configuration errors. The
    /// hierarchy role is decided too, and kept with its error, if any, for
    /// [`AgentFactory::register_spawned`].
    pub fn prepare_spawn(&self, role: &str, agent_id: Option<String>) -> (r: Result<SpawnPlan, CoordinationError>)
        requires
            self.wf(),
        ensures
            !self.role_configs.view().contains_key(role@) ==> (r matches Err(CoordinationError::Config(m)) && m@ == "Unknown role: "@ + role@),
            self.role_configs.view().contains_key(role@) ==> ({
                let c = self.role_configs.view()[role@];
                let key = opt_text(if c.provider@ == "openai"@ { self.openai_key } else { self.anthropic_key });
                &&& (c.provider@ != "openai"@ && c.provider@ != "anthropic"@) ==> (r matches Err(CoordinationError::Config(m)) && m@ == "Unknown provider"@)
                &&& (c.provider@ == "openai"@ && key is None) ==> (r matches Err(CoordinationError::Config(m)) && m@ == "OpenAI key not set"@)
                &&& (c.provider@ == "anthropic"@ && key is None) ==> (r matches Err(CoordinationError::Config(m)) && m@ == "Anthropic key not set"@)
                &&& (c.provider@ == "openai"@ && key is Some && key->0.len() == 0) ==> (r matches Err(CoordinationError::Config(m))
                        && m@ == provider_error_message("OpenAI API key cannot be empty"@))
                &&& (c.provider@ == "anthropic"@ && key is Some && key->0.len() == 0) ==> (r matches Err(CoordinationError::Config(m))
                        && m@ == provider_error_message("Anthropic API key cannot be empty"@))
                &&& (c.provider@ == "openai"@ && key is Some && key->0.len() > 0) ==> ((r matches Ok(p)
                        && (p.provider matches Provider::OpenAI(op) && op.key() == key->0 && op.model_name() == c.model@
                            && nanos_of(op.timeout_value()) == 60_000_000_000))
                        || client_failure(r))
                &&& (c.provider@ == "anthropic"@ && key is Some && key->0.len() > 0) ==> ((r matches Ok(p)
                        && (p.provider matches Provider::Anthropic(ap) && ap.key() == key->0 && ap.model_name() == c.model@
                            && nanos_of(ap.timeout_value()) == 60_000_000_000))
                        || client_failure(r))
                &&& r matches Ok(p) ==> {
                    &&& p.system_message@ == c.system_message@
                    &&& p.max_iterations == c.max_iterations
                    &&& hierarchy_result_ok(p.hierarchy, c)
                    &&& (agent_id matches Some(id) ==> p.agent_id@ == id@)
                    &&& (agent_id is None ==> p.agent_id@.len() == role@.len() + 9
                        && p.agent_id@.subrange(0, role@.len() as int) == role@
                        && p.agent_id@[role@.len() as int] == '-')
                }
            }),
    {
        proof {
            reveal_strlit("openai");
            reveal_strlit("anthropic");
            assert("openai"@[0] != "anthropic"@[0]);
            reveal_strlit("-");
            reveal_strlit("Provider error: HTTP request failed: ");
        }
        let config = match self.role_configs.get(role) {
            Some(c) => c,
            None => {
                let msg = String::from_str("Unknown role: ").concat(role);
                return Err(CoordinationError::Config(msg));
            },
        };
        let id = match agent_id {
            Some(id) => id,
            None => {
                let fresh = new_uuid_string();
                let fs = fresh.as_str();
                let mut id = String::from_str(role);
                id.append("-");
                id.append(fs.substring_ascii(0, 8));
                id
            },
        };
        let provider = if text_eq(config.provider.as_str(), "openai") {
            match &self.openai_key {
                None => return Err(CoordinationError::config("OpenAI key not set")),
                Some(k) => match OpenAIProvider::new(k.as_str(), config.model.as_str()) {
                    Ok(p) => Provider::OpenAI(p),
                    Err(LLMError::ConfigError(m)) => {
                        let msg = String::from_str("Provider error: Invalid configuration: ").concat(m.as_str());
                        return Err(CoordinationError::Config(msg));
                    },
                    Err(LLMError::HttpError(e)) => {
                        let msg = String::from_str("Provider error: HTTP request failed: ").concat(http_error_text(&e).as_str());
                        return Err(CoordinationError::Config(msg));
                    },
                    Err(_) => return Err(CoordinationError::config("Provider error")),
                },
            }
        } else if text_eq(config.provider.as_str(), "anthropic") {
            match &self.anthropic_key {
                None => return Err(CoordinationError::config("Anthropic key not set")),
                Some(k) => match AnthropicProvider::new(k.as_str(), config.model.as_str()) {
                    Ok(p) => Provider::Anthropic(p),
                    Err(LLMError::ConfigError(m)) => {
                        let msg = String::from_str("Provider error: Invalid configuration: ").concat(m.as_str());
                        return Err(CoordinationError::Config(msg));
                    },
                    Err(LLMError::HttpError(e)) => {
                        let msg = String::from_str("Provider error: HTTP request failed: ").concat(http_error_text(&e).as_str());
                        return Err(CoordinationError::Config(msg));
                    },
                    Err(_) => return Err(CoordinationError::config("Provider error")),
                },
            }
        } else {
            return Err(CoordinationError::config("Unknown provider"));
        };
        let hierarchy = self.create_hierarchy_role(config);
        Ok(SpawnPlan {
            agent_id: id,
            provider,
            system_message: config.system_message.clone(),
            max_iterations: config.max_iterations,
            hierarchy,
        })
    }

    /// Finishes a spawn once its agent is built: an error of placing it in
    /// the hierarchy is returned as it is; else the agent is registered with
    /// the coordinator at a local address under its hierarchy role, and its
    /// id is returned.
    pub fn register_spawned(&mut self, agent_id: String, hierarchy: Result<AgentRole, CoordinationError>) -> (r: Result<String, CoordinationError>)
        requires
            old(self).wf(),
        ensures
            final(self).wf(),
            final(self).role_configs == old(self).role_configs,
            hierarchy is Err ==> r is Err && final(self).coordinator == old(self).coordinator,
            hierarchy matches Ok(role) ==> (r matches Ok(id) && id@ == agent_id@
                && final(self).coordinator.running() == old(self).coordinator.running().insert(agent_id@)
                && final(self).coordinator.hierarchy.role_of(agent_id@) == Some(role@)
                && final(self).coordinator.registry.address_of(agent_id@) == Some(AddressView { id: agent_id@, location: LocationView::Local })
                && (forall|n: Seq<char>| #[trigger] final(self).coordinator.registry.ids_with_role(n) == if n == role_name(role@) {
                    old(self).coordinator.registry.ids_with_role(n).push(agent_id@)
                } else {
                    old(self).coordinator.registry.ids_with_role(n)
                })),
            final(self).openai_key == old(self).openai_key,
            final(self).anthropic_key == old(self).anthropic_key,
    {
        match hierarchy {
            Err(e) => Err(e),
            Ok(role) => {
                let address = AgentAddress::local(agent_id.as_str());
                self.coordinator.register_agent(address, role);
                Ok(agent_id)
            },
        }
    }

    /// The number of running agents.
    pub fn agent_count(&self) -> (n: usize)
        requires
            self.wf(),
        ensures
            n == self.coordinator.running().len(),
    {
        self.coordinator.agent_count()
    }

    /// The ids of running agents, each once.
    pub fn list_agents(&self) -> (v: Vec<String>)
        requires
            self.wf(),
        ensures
            texts(v@).to_set() == self.coordinator.running(),
            texts(v@).no_duplicates(),
    {
        self.coordinator.list_agents()
    }

    /// The addresses of the agents registered under a role name.
    pub fn get_agents_by_role(&self, role: &str) -> (v: Vec<AgentAddress>)
        requires
            self.wf(),
        ensures
            v@.map_values(|a: AgentAddress| a@) == crate::comms::registry::addresses_of(
                self.coordinator.registry.ids_with_role(role@), self.coordinator.registry.agents.view()),
    {
        self.coordinator.registry().find_by_role(role)
    }

    /// The coordinator.
    pub fn coordinator(&self) -> (c: &AgentCoordinator)
        ensures
            c == &self.coordinator,
    {
        &self.coordinator
    }
}

} // verus!
