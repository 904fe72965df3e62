//! Agent addresses.

use vstd::prelude::*;
use vstd::string::*;

verus! {

/// Where an agent runs.
#[derive(Debug, Clone, PartialEq, Eq)]
pub enum AgentLocation {
    /// In the same process.
    Local,
    /// In another process on the same machine.
    Process { pid: u32 },
    /// On another machine.
    Network { host: String, port: u16 },
    /// In a cluster, found by service discovery.
    Cluster { cluster_id: String },
}

/// What a location denotes.
pub enum LocationView {
    Local,
    Process { pid: u32 },
    Network { host: Seq<char>, port: u16 },
    Cluster { cluster_id: Seq<char> },
}

impl View for AgentLocation {
    type V = LocationView;

    open spec fn view(&self) -> LocationView {
        match self {
            AgentLocation::Local => LocationView::Local,
            AgentLocation::Process { pid } => LocationView::Process { pid: *pid },
            AgentLocation::Network { host, port } => LocationView::Network { host: host@, port: *port },
            AgentLocation::Cluster { cluster_id } => LocationView::Cluster { cluster_id: cluster_id@ },
        }
    }
}

impl AgentLocation {
    pub fn duplicate(&self) -> (l: AgentLocation)
        ensures
            l@ == self@,
    {
        match self {
            AgentLocation::Local => AgentLocation::Local,
            AgentLocation::Process { pid } => AgentLocation::Process { pid: *pid },
            AgentLocation::Network { host, port } => AgentLocation::Network { host: host.clone(), port: *port },
            AgentLocation::Cluster { cluster_id } => AgentLocation::Cluster { cluster_id: cluster_id.clone() },
        }
    }
}

/// An agent's address: its identifier and where it runs.
#[derive(Debug, Clone, PartialEq, Eq)]
pub struct AgentAddress {
    pub id: String,
    pub location: AgentLocation,
}

/// What an address denotes.
pub struct AddressView {
    pub id: Seq<char>,
    pub location: LocationView,
}

impl View for AgentAddress {
    type V = AddressView;

    open spec fn view(&self) -> AddressView {
        AddressView { id: self.id@, location: self.location@ }
    }
}

impl AgentAddress {
    /// An agent in this process.
    pub fn local(id: &str) -> (a: AgentAddress)
        ensures
            a@ == (AddressView { id: id@, location: LocationView::Local }),
    {
        AgentAddress { id: String::from_str(id), location: AgentLocation::Local }
    }

    /// An agent on another machine.
    pub fn network(id: &str, host: &str, port: u16) -> (a: AgentAddress)
        ensures
            a@ == (AddressView { id: id@, location: LocationView::Network { host: host@, port } }),
    {
        AgentAddress { id: String::from_str(id), location: AgentLocation::Network { host: String::from_str(host), port } }
    }

    /// An agent in a cluster.
    pub fn cluster(id: &str, cluster_id: &str) -> (a: AgentAddress)
        ensures
            a@ == (AddressView { id: id@, location: LocationView::Cluster { cluster_id: cluster_id@ } }),
    {
        AgentAddress { id: String::from_str(id), location: AgentLocation::Cluster { cluster_id: String::from_str(cluster_id) } }
    }

    /// Whether the agent runs in this process.
    pub fn is_local(&self) -> (b: bool)
        ensures
            b == (self@.location matches LocationView::Local),
    {
        match self.location {
            AgentLocation::Local => true,
            _ => false,
        }
    }

    pub fn duplicate(&self) -> (a: AgentAddress)
        ensures
            a@ == self@,
    {
        AgentAddress { id: self.id.clone(), location: self.location.duplicate() }
    }
}

} // verus!
