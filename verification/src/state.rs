//! The node state that the pipeline observes and the outcome table it fills.
use std::collections::HashMap;
use vstd::prelude::*;
use crate::types::{outcome_view, Outcome, OutcomeView};

verus! {

broadcast use vstd::std_specs::hash::group_hash_axioms;

/// Which of the three things a publish needs the node has right now.
#[derive(Clone, Copy, Debug, PartialEq, Eq, Structural)]
pub struct DispatchReadiness {
    pub has_transport_session: bool,
    pub has_group_identity: bool,
    pub has_agent_identity: bool,
}

impl DispatchReadiness {
    /// Ready means that nothing is missing.
    pub open spec fn ready(self) -> bool {
        self.has_transport_session && self.has_group_identity && self.has_agent_identity
    }

    /// Whether a publish may proceed.
    pub fn is_ready(&self) -> (proceed: bool)
        ensures
            proceed == self.ready(),
    {
        self.has_transport_session && self.has_group_identity && self.has_agent_identity
    }
}

/// The identities that a message carries, as the dispatch gate found them.
#[derive(Clone, Debug, PartialEq, Eq)]
pub struct NodeIdentity {
    pub group: String,
    pub agent: String,
}

/// What a [`NodeIdentity`] is to a contract.
pub struct NodeIdentityView {
    pub group: Seq<char>,
    pub agent: Seq<char>,
}

impl View for NodeIdentity {
    type V = NodeIdentityView;

    open spec fn view(&self) -> NodeIdentityView {
        NodeIdentityView { group: self.group@, agent: self.agent@ }
    }
}

/// Outcomes by request identity. A requester reads its own entry later;
/// eviction is the requester's business.
#[derive(Clone, Debug)]
pub struct OutcomeTable {
    entries: HashMap<u64, Outcome>,
}

impl View for OutcomeTable {
    type V = Map<u64, OutcomeView>;

    closed spec fn view(&self) -> Map<u64, OutcomeView> {
        self.entries@.map_values(|outcome: Outcome| outcome_view(outcome))
    }
}

impl OutcomeTable {
    /// A table without entries.
    pub fn new() -> (table: Self)
        ensures
            table@ == Map::<u64, OutcomeView>::empty(),
    {
        let table = OutcomeTable { entries: HashMap::new() };
        assert(table@ =~= Map::<u64, OutcomeView>::empty());
        table
    }

    /// Files `outcome` under `request_identity`. Entries under other
    /// identities stay as they are.
    pub fn insert(&mut self, request_identity: u64, outcome: Outcome)
        ensures
            final(self)@ == old(self)@.insert(request_identity, outcome_view(outcome)),
    {
        self.entries.insert(request_identity, outcome);
        assert(self@ =~= old(self)@.insert(request_identity, outcome_view(outcome)));
    }

    /// The outcome filed under `request_identity`, if there is one.
    pub fn get(&self, request_identity: u64) -> (found: Option<&Outcome>)
        ensures
            match found {
                Some(outcome) => self@.contains_key(request_identity) && self@[request_identity]
                    == outcome_view(*outcome),
                None => !self@.contains_key(request_identity),
            },
    {
        self.entries.get(&request_identity)
    }

    /// How many requests have an outcome.
    pub fn len(&self) -> (count: usize)
        ensures
            self@.dom().finite(),
            count == self@.len(),
    {
        assert(self@.dom() =~= self.entries@.dom());
        self.entries.len()
    }
}

/// The shared node state as the pipeline sees it. `N` is the transport
/// session, which the pipeline never touches: it only asks whether one is held.
pub struct NetworkState<N> {
    pub network: Option<N>,
    pub group_identity: Option<String>,
    pub agent_identity: Option<String>,
    pub outcomes: OutcomeTable,
}

/// What a [`NetworkState`] is to a contract.
pub struct NetworkStateView {
    pub has_transport_session: bool,
    pub group_identity: Option<Seq<char>>,
    pub agent_identity: Option<Seq<char>>,
    pub outcomes: Map<u64, OutcomeView>,
}

impl NetworkStateView {
    /// What the dispatch gate reads off the state.
    pub open spec fn readiness(self) -> DispatchReadiness {
        DispatchReadiness {
            has_transport_session: self.has_transport_session,
            has_group_identity: self.group_identity is Some,
            has_agent_identity: self.agent_identity is Some,
        }
    }

    /// The identities that the dispatch gate hands on: both, where the node
    /// is ready.
    pub open spec fn identity_at_gate(self) -> Option<NodeIdentityView> {
        if self.readiness().ready() {
            Some(
                NodeIdentityView {
                    group: self.group_identity->Some_0,
                    agent: self.agent_identity->Some_0,
                },
            )
        } else {
            None
        }
    }
}

impl<N> View for NetworkState<N> {
    type V = NetworkStateView;

    open spec fn view(&self) -> NetworkStateView {
        NetworkStateView {
            has_transport_session: self.network is Some,
            group_identity: match self.group_identity {
                Some(group) => Some(group@),
                None => None,
            },
            agent_identity: match self.agent_identity {
                Some(agent) => Some(agent@),
                None => None,
            },
            outcomes: self.outcomes@,
        }
    }
}

impl<N> NetworkState<N> {
    /// The state of a node that has not joined a network yet.
    pub fn new() -> (state: Self)
        ensures
            !state@.has_transport_session,
            state@.group_identity is None,
            state@.agent_identity is None,
            state@.outcomes == Map::<u64, OutcomeView>::empty(),
    {
        NetworkState {
            network: None,
            group_identity: None,
            agent_identity: None,
            outcomes: OutcomeTable::new(),
        }
    }

    /// What the node has of the three things a publish needs.
    pub fn readiness(&self) -> (readiness: DispatchReadiness)
        ensures
            readiness == self@.readiness(),
    {
        DispatchReadiness {
            has_transport_session: self.network.is_some(),
            has_group_identity: self.group_identity.is_some(),
            has_agent_identity: self.agent_identity.is_some(),
        }
    }

    /// The dispatch gate. It hands on the node's identities where the node
    /// holds a transport session and knows both, and nothing otherwise. It
    /// changes nothing.
    pub fn dispatch_gate(&self) -> (passed: Option<NodeIdentity>)
        ensures
            match passed {
                Some(identity) => self@.identity_at_gate() == Some(identity@),
                None => self@.identity_at_gate() is None,
            },
    {
        if !self.readiness().is_ready() {
            return None;
        }
        match (&self.group_identity, &self.agent_identity) {
            (Some(group), Some(agent)) => Some(
                NodeIdentity { group: group.clone(), agent: agent.clone() },
            ),
            _ => None,
        }
    }
}

} // verus!
