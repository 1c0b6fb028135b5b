//! Agents: the record that a request creates, and what the lookups and
//! writes amount to for the caller.

use vstd::prelude::*;
use crate::common::app_error::{AppError, HttpStatus};
use crate::common::clock;
use crate::common::ident::random_uuid;
use crate::common::text::{decimal, decimal_text};
use crate::models::agent_model::{AgentCreateRequest, AgentDbModel};

verus! {

/// The agent that a request creates for a user, given its identifier, its
/// token and the time.
pub fn new_agent_with(
    user_uuid: &str,
    agent: AgentCreateRequest,
    uuid: String,
    token: String,
    now: u64,
) -> (model: AgentDbModel)
    ensures
        model.uuid@ == uuid@,
        model.user_uuid@ == user_uuid@,
        model.name@ == agent.name@,
        model.description@ == agent.description@,
        model.token@ == token@,
        model.created_at@ == decimal_text(now as nat),
{
    AgentDbModel {
        uuid,
        user_uuid: user_uuid.to_string(),
        name: agent.name,
        description: agent.description,
        token,
        created_at: decimal(now),
    }
}

/// The agent that a request creates for a user: a fresh identifier, a fresh
/// token, and the time the clock shows.
pub fn new_agent(user_uuid: &str, agent: AgentCreateRequest) -> (model: AgentDbModel)
    ensures
        model.user_uuid@ == user_uuid@,
        model.name@ == agent.name@,
        model.description@ == agent.description@,
        exists|now: u64| now <= i64::MAX && model.created_at@ == #[trigger] decimal_text(now as nat),
{
    let uuid = random_uuid();
    let token = random_uuid();
    let now: u64 = clock::now();
    new_agent_with(user_uuid, agent, uuid, token, now)
}

/// The outcome of storing an agent: the agent, or an internal error.
pub fn add(model: AgentDbModel, executed: bool) -> (outcome: Result<AgentDbModel, AppError>)
    ensures
        outcome == if executed {
            Ok::<AgentDbModel, AppError>(model)
        } else {
            Err::<AgentDbModel, AppError>(AppError::InternalServer)
        },
{
    if executed {
        Ok(model)
    } else {
        Err(AppError::InternalServer)
    }
}

/// The outcome of deleting an agent: success, or an internal error.
pub fn delete(executed: bool) -> (outcome: Result<bool, AppError>)
    ensures
        outcome == if executed {
            Ok::<bool, AppError>(true)
        } else {
            Err::<bool, AppError>(AppError::InternalServer)
        },
{
    if executed {
        Ok(true)
    } else {
        Err(AppError::InternalServer)
    }
}

/// The agents of a user, or the error that says there are none.
pub fn get_all(rows: Vec<AgentDbModel>) -> (outcome: Result<Vec<AgentDbModel>, AppError>)
    ensures
        if rows@.len() == 0 {
            outcome matches Err(error) && error is Agent && error.says("No Agents found"@, 404)
        } else {
            outcome == Ok::<Vec<AgentDbModel>, AppError>(rows)
        },
{
    if rows.len() == 0 {
        Err(
            AppError::Agent {
                message: "No Agents found".to_string(),
                status: HttpStatus::not_found(),
            },
        )
    } else {
        Ok(rows)
    }
}

} // verus!
