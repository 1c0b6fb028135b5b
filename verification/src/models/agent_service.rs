//! The agent service as it registers with the backend.

use vstd::prelude::*;

verus! {

/// An agent service known to the backend.
#[derive(Clone, Debug, PartialEq, Eq)]
pub struct AgentService {
    pub uuid: String,
    pub token: String,
    pub name: String,
    pub state: AgentServiceState,
}

/// Whether an agent service is connected and registered.
#[derive(Clone, Copy, Debug, PartialEq, Eq, Structural)]
pub struct AgentServiceState {
    pub connected: bool,
    pub registered: bool,
}

/// What an agent service sends to register.
#[derive(Clone, Debug, PartialEq, Eq)]
pub struct AgentServiceRegistrationRequest {
    pub token: String,
}

/// What a registered agent service needs to reach the message broker.
#[derive(Clone, Debug, PartialEq, Eq)]
pub struct AgentServiceRegistrationResponse {
    pub broker_user: String,
    pub broker_password: String,
}

} // verus!
