//! What the lookups and writes of accounts amount to for the caller.

use vstd::prelude::*;
use crate::common::app_error::{AppError, HttpStatus};
use crate::models::account_model::AccountDbModel;

verus! {

fn not_found(message: &str) -> (error: AppError)
    ensures
        error is User,
        error.says(message@, 404),
{
    AppError::User { message: message.to_string(), status: HttpStatus::not_found() }
}

/// The account with an identifier, or the error that says there is none.
pub fn get_by_uuid(found: Option<AccountDbModel>) -> (outcome: Result<AccountDbModel, AppError>)
    ensures
        match found {
            Some(account) => outcome == Ok::<AccountDbModel, AppError>(account),
            None => outcome matches Err(error) && error is User && error.says(
                "No user found"@,
                404,
            ),
        },
{
    match found {
        Some(account) => Ok(account),
        None => Err(not_found("No user found")),
    }
}

/// The account under a user name, or the error that says there is none.
pub fn get_by_username(found: Option<AccountDbModel>) -> (outcome: Result<AccountDbModel, AppError>)
    ensures
        match found {
            Some(account) => outcome == Ok::<AccountDbModel, AppError>(account),
            None => outcome matches Err(error) && error is User && error.says(
                "User not found"@,
                404,
            ),
        },
{
    match found {
        Some(account) => Ok(account),
        None => Err(not_found("User not found")),
    }
}

/// Whether a user name is still free, given what the lookup gave: a lookup
/// that failed is an internal error; a name is free when no row has it.
pub fn is_username_unique(looked_up: Option<bool>) -> (outcome: Result<bool, AppError>)
    ensures
        match looked_up {
            Some(row_found) => outcome == Ok::<bool, AppError>(!row_found),
            None => outcome == Err::<bool, AppError>(AppError::InternalServer),
        },
{
    match looked_up {
        Some(row_found) => Ok(!row_found),
        None => Err(AppError::InternalServer),
    }
}

/// Whether an account may be stored, given whether its user name is free:
/// a name that is taken is refused.
pub fn check_insert(unique: bool) -> (outcome: Result<(), AppError>)
    ensures
        match outcome {
            Ok(_) => unique,
            Err(error) => !unique && error is User && error.says(
                "Username is already taken"@,
                400,
            ),
        },
{
    if unique {
        Ok(())
    } else {
        Err(
            AppError::User {
                message: "Username is already taken".to_string(),
                status: HttpStatus::bad_request(),
            },
        )
    }
}

/// The outcome of storing an account: success, or an internal error.
pub fn insert(executed: bool) -> (outcome: Result<bool, AppError>)
    ensures
        outcome == if executed {
            Ok::<bool, AppError>(true)
        } else {
            Err::<bool, AppError>(AppError::InternalServer)
        },
{
    if executed {
        Ok(true)
    } else {
        Err(AppError::InternalServer)
    }
}

} // verus!
