//! The check that every protected HTTP request passes.
//!
//! A request must carry a bearer credential. Without one it is turned away
//! before the credential check is reached; with one that does not hold it
//! is turned away as well. A request that passes goes on with the subject
//! of its credential attached, so that handlers know the caller without
//! reading the credential again.

use vstd::prelude::*;
use crate::common::app_error::{AppError, AuthError};
use crate::common::clock;
use crate::common::jwt_token::{outcome_view, verification, ClaimCodec, Claims, ClaimsView};

verus! {

/// What is decided for a request whose credential, if it has one,
/// was judged by `verdict`: the subject to attach, or why the request is
/// turned away.
pub open spec fn decision(credential_present: bool, verdict: Result<ClaimsView, AuthError>) -> Result<
    Seq<char>,
    AuthError,
> {
    if !credential_present {
        Err(AuthError::Unauthenticated)
    } else {
        match verdict {
            Ok(claims) => Ok(claims.sub),
            Err(_) => Err(AuthError::InvalidToken),
        }
    }
}

/// Whether `outcome` carries out the decision `decided`: the same subject,
/// or the error that reports the same failure, which is answered with 401.
pub open spec fn carries_out(
    outcome: Result<String, AppError>,
    decided: Result<Seq<char>, AuthError>,
) -> bool {
    match decided {
        Ok(subject) => outcome matches Ok(attached) && attached@ == subject,
        Err(failure) => outcome matches Err(error) && failure.reported_as(error),
    }
}

/// Lets a request pass whose credential was found to hold, and turns away
/// one whose credential was not.
pub fn pass_on(verdict: Result<Claims, AuthError>) -> (outcome: Result<String, AppError>)
    ensures
        carries_out(outcome, decision(true, outcome_view(verdict))),
{
    match verdict {
        Ok(claims) => Ok(claims.sub),
        Err(_) => Err(AuthError::InvalidToken.to_app_error()),
    }
}

/// Decides at time `now` whether a request with the given bearer
/// credential may pass, and as whom.
pub fn handle_at(credential: Option<&str>, codec: &ClaimCodec, now: u64) -> (outcome: Result<
    String,
    AppError,
>)
    ensures
        match credential {
            Some(token) => carries_out(
                outcome,
                decision(true, verification(token@, codec.secret(), now)),
            ),
            None => carries_out(outcome, Err(AuthError::Unauthenticated)),
        },
{
    match credential {
        Some(token) => pass_on(codec.verify_at(token, now)),
        None => Err(AuthError::Unauthenticated.to_app_error()),
    }
}

/// Decides at the time the clock shows whether a request with the given
/// bearer credential may pass, and as whom. The clock never shows more than
/// `i64::MAX`, so that a credential which expires after that passes.
pub fn handle(credential: Option<&str>, codec: &ClaimCodec) -> (outcome: Result<String, AppError>)
    ensures
        match credential {
            Some(token) => exists|now: u64|
                now <= i64::MAX && carries_out(
                    outcome,
                    decision(true, #[trigger] verification(token@, codec.secret(), now)),
                ),
            None => carries_out(outcome, Err(AuthError::Unauthenticated)),
        },
{
    let now: u64 = clock::now();
    handle_at(credential, codec, now)
}

/// Whatever the credential, a request that is turned away is answered with
/// status 401.
pub proof fn lemma_rejection_is_unauthorized(
    outcome: Result<String, AppError>,
    credential_present: bool,
    verdict: Result<ClaimsView, AuthError>,
)
    requires
        carries_out(outcome, decision(credential_present, verdict)),
        outcome is Err,
    ensures
        outcome->Err_0.status_code() == 401,
        credential_present ==> outcome->Err_0.message_text() == "Invalid token"@,
{
}

} // verus!
