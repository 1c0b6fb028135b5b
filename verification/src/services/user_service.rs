//! What the lookups and writes of users amount to for the caller.

use vstd::prelude::*;
use crate::common::app_error::{AppError, HttpStatus};
use crate::models::account_model::AccountDbModel;

verus! {

/// The account behind the subject of a credential. A credential that holds
/// but names nobody is reported as such, apart from a credential that does
/// not hold.
pub fn get_user_by_uuid(found: Option<AccountDbModel>) -> (outcome: Result<AccountDbModel, AppError>)
    ensures
        match found {
            Some(account) => outcome == Ok::<AccountDbModel, AppError>(account),
            None => outcome matches Err(error) && error is Token && error.says(
                "Invalid token, token has no associated user"@,
                401,
            ),
        },
{
    match found {
        Some(account) => Ok(account),
        None => Err(
            AppError::Token {
                message: "Invalid token, token has no associated user".to_string(),
                status: HttpStatus::unauthorized(),
            },
        ),
    }
}

/// The outcome of storing a user: success, or an internal error.
pub fn insert_user(executed: bool) -> (outcome: Result<bool, AppError>)
    ensures
        outcome == if executed {
            Ok::<bool, AppError>(true)
        } else {
            Err::<bool, AppError>(AppError::InternalServer)
        },
{
    if executed {
        Ok(true)
    } else {
        Err(AppError::InternalServer)
    }
}

/// The account under a user name at login. An unknown name is answered
/// with the words that a wrong password is answered with.
pub fn get_user_by_username(found: Option<AccountDbModel>) -> (outcome: Result<
    AccountDbModel,
    AppError,
>)
    ensures
        match found {
            Some(account) => outcome == Ok::<AccountDbModel, AppError>(account),
            None => outcome matches Err(error) && error is Auth && error.says(
                "Invalid username or password"@,
                400,
            ),
        },
{
    match found {
        Some(account) => Ok(account),
        None => Err(
            AppError::Auth {
                message: "Invalid username or password".to_string(),
                status: HttpStatus::bad_request(),
            },
        ),
    }
}

/// Whether a registration may go on, given whether its user name was found
/// in the store: a name that exists ends it.
pub fn check_if_username_exists(found: bool) -> (outcome: Result<bool, AppError>)
    ensures
        match outcome {
            Ok(free) => free && !found,
            Err(error) => found && error is Auth && error.says("Username already exists"@, 400),
        },
{
    if found {
        Err(
            AppError::Auth {
                message: "Username already exists".to_string(),
                status: HttpStatus::bad_request(),
            },
        )
    } else {
        Ok(true)
    }
}

} // verus!
