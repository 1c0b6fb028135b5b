//! Agents: the stored record, its view, and the request that creates one.

use vstd::prelude::*;
use crate::models::view_model::ViewModel;

verus! {

/// An agent as stored.
#[derive(Clone, Debug, PartialEq, Eq)]
pub struct AgentDbModel {
    pub uuid: String,
    pub user_uuid: String,
    pub name: String,
    pub description: String,
    pub token: String,
    pub created_at: String,
}

/// A request to create an agent.
#[derive(Clone, Debug, PartialEq, Eq)]
pub struct AgentCreateRequest {
    pub name: String,
    pub description: String,
}

/// An agent as shown.
#[derive(Clone, Debug, PartialEq, Eq)]
pub struct AgentViewModel {
    pub uuid: String,
    pub user_uuid: String,
    pub name: String,
    pub description: String,
    pub token: String,
    pub created_at: String,
}

impl ViewModel for AgentDbModel {
    type Model = AgentViewModel;

    open spec fn shown_as(&self, model: &AgentViewModel) -> bool {
        &&& model.uuid@ == self.uuid@
        &&& model.user_uuid@ == self.user_uuid@
        &&& model.name@ == self.name@
        &&& model.description@ == self.description@
        &&& model.token@ == self.token@
        &&& model.created_at@ == self.created_at@
    }

    fn to_viewmodel(&self) -> (model: AgentViewModel) {
        AgentViewModel {
            uuid: self.uuid.clone(),
            user_uuid: self.user_uuid.clone(),
            name: self.name.clone(),
            description: self.description.clone(),
            token: self.token.clone(),
            created_at: self.created_at.clone(),
        }
    }
}

} // verus!
