//! Registration and login: the rules a request must meet, the account that
//! a registration creates, and the credential that both end in.

use vstd::prelude::*;
use crate::common::app_error::{AppError, HttpStatus};
use crate::common::clock;
use crate::common::ident::random_uuid;
use crate::common::jwt_token::{
    generate_token,
    issued_claims,
    payload_of,
    signed_payload,
    ClaimCodec,
    Claims,
    JwtToken,
    ISSUER,
};
use crate::common::text::{byte_count, byte_length, decimal, decimal_text, has_char};
use crate::models::account_model::{AccountDbModel, AccountLoginModel, AccountRegisterModel};

verus! {

#[verifier::external_type_specification]
#[verifier::external_body]
pub struct ExVerifyError(password_auth::VerifyError);

/// How long a credential lives: one year, in seconds.
pub const TOKEN_LIFETIME: u64 = 31536000;

/// The longest password that can be hashed, in bytes.
pub const MAX_PASSWORD_BYTES: usize = 0xFFFF_FFFF;

/// Whether `password_auth::verify_password` accepts a password for a
/// password hash.
pub uninterp spec fn password_verifies(password: Seq<char>, hash: Seq<char>) -> bool;

/// Wraps `password_auth::generate_hash`, which salts the password at random
/// and hashes it with Argon2 under the default parameters. It panics on a
/// password of more than 4294967295 bytes, which the precondition leaves
/// out, and where the operating system gives no random bytes for the salt.
/// The contract claims that `verify_password` accepts the password for the
/// hash.
#[verifier::external_body]
fn hash_password(password: &str) -> (hash: String)
    requires
        byte_length(password@) <= MAX_PASSWORD_BYTES,
    ensures
        password_verifies(password@, hash@),
{
    password_auth::generate_hash(password)
}

/// Wraps `password_auth::verify_password`, which parses the hash and hashes
/// the password again under the parameters that the hash names. The result
/// is the one that `password_verifies` names.
#[verifier::external_body]
fn check_password(password: &str, hash: &str) -> (outcome: Result<(), password_auth::VerifyError>)
    ensures
        outcome is Ok <==> password_verifies(password@, hash@),
{
    password_auth::verify_password(password, hash)
}

/// The claims for the account with the given identifier, issued at `now`:
/// they name this backend as the issuer and expire after a year.
pub fn create_claims_at(uuid: &str, now: u64) -> (claims: Claims)
    requires
        now + TOKEN_LIFETIME <= u64::MAX,
    ensures
        claims@ == issued_claims(uuid@, TOKEN_LIFETIME, now),
{
    Claims { exp: now + TOKEN_LIFETIME, iss: ISSUER.to_string(), sub: uuid.to_string() }
}

/// The claims for the account with the given identifier, issued at the
/// time the clock shows.
pub fn create_claims(uuid: &str) -> (claims: Claims)
    ensures
        exists|now: u64|
            now <= i64::MAX && claims@ == #[trigger] issued_claims(
                uuid@,
                TOKEN_LIFETIME,
                now,
            ),
{
    let now: u64 = clock::now();
    create_claims_at(uuid, now)
}

/// What is wrong with a registration request, if anything. The rules are
/// tried in this order: the two passwords are the same; the user name takes
/// at least 3 bytes; the email holds an `@`; the password takes at least 6
/// bytes.
pub open spec fn registration_fault(register: &AccountRegisterModel) -> Option<Seq<char>> {
    if register.password@ != register.password_confirmation@ {
        Some("Password and password confirmation do not match"@)
    } else if byte_length(register.username@) < 3 {
        Some("Username must be at least 3 characters long"@)
    } else if !register.email@.contains('@') {
        Some("Email is not valid"@)
    } else if byte_length(register.password@) < 6 {
        Some("Password must be at least 6 characters long"@)
    } else {
        None
    }
}

/// Whether `error` is the refusal of a request with the given message.
pub open spec fn refuses(error: AppError, message: Seq<char>) -> bool {
    error is Auth && error.says(message, 400)
}

fn refusal(message: &str) -> (error: AppError)
    ensures
        refuses(error, message@),
{
    AppError::Auth { message: message.to_string(), status: HttpStatus::bad_request() }
}

/// Holds a registration request against the rules. The first rule that is
/// broken gives the error; a request that breaks none passes.
pub fn validate_registration(register: &AccountRegisterModel) -> (outcome: Result<(), AppError>)
    ensures
        match registration_fault(register) {
            Some(message) => outcome matches Err(error) && refuses(error, message),
            None => outcome is Ok,
        },
{
    if !(register.password == register.password_confirmation) {
        return Err(refusal("Password and password confirmation do not match"));
    }
    if byte_count(register.username.as_str()) < 3 {
        return Err(refusal("Username must be at least 3 characters long"));
    }
    if !has_char(register.email.as_str(), '@') {
        return Err(refusal("Email is not valid"));
    }
    if byte_count(register.password.as_str()) < 6 {
        return Err(refusal("Password must be at least 6 characters long"));
    }
    Ok(())
}

/// The account that a registration creates, given its identifier, the hash
/// of its password and the time: user name and email are those of the
/// request, and it was created and last updated at `now`.
pub fn new_account_with(
    register: AccountRegisterModel,
    uuid: String,
    password_hash: String,
    now: u64,
) -> (account: AccountDbModel)
    ensures
        account.uuid@ == uuid@,
        account.username@ == register.username@,
        account.email@ == register.email@,
        account.password@ == password_hash@,
        account.created_at@ == decimal_text(now as nat),
        account.updated_at@ == decimal_text(now as nat),
{
    AccountDbModel {
        uuid,
        username: register.username,
        email: register.email,
        password: password_hash,
        created_at: decimal(now),
        updated_at: decimal(now),
    }
}

/// The account that a registration creates: a fresh identifier, the hash
/// of the password, and the time the clock shows. The stored hash is one
/// that the password verifies against.
pub fn new_account(register: AccountRegisterModel) -> (account: AccountDbModel)
    requires
        byte_length(register.password@) <= MAX_PASSWORD_BYTES,
    ensures
        account.username@ == register.username@,
        account.email@ == register.email@,
        password_verifies(register.password@, account.password@),
        account.updated_at@ == account.created_at@,
        exists|now: u64| now <= i64::MAX && account.created_at@ == #[trigger] decimal_text(now as nat),
{
    let uuid = random_uuid();
    let password_hash = hash_password(register.password.as_str());
    let now: u64 = clock::now();
    new_account_with(register, uuid, password_hash, now)
}

/// The credential for an account, issued at `now`.
pub fn account_token_at(account: &AccountDbModel, codec: &ClaimCodec, now: u64) -> (token: JwtToken)
    requires
        now + TOKEN_LIFETIME <= u64::MAX,
    ensures
        token.token@.len() > 0,
        signed_payload(token.token@, codec.secret()) == Some(
            payload_of(issued_claims(account.uuid@, TOKEN_LIFETIME, now)),
        ),
{
    JwtToken { token: codec.issue_at(account.uuid.as_str(), TOKEN_LIFETIME, now) }
}

/// Ends a registration once the account was handed to the store: an
/// account that was stored gets its credential, issued at `now`; one that
/// was not is reported with status 500.
pub fn finish_registration_at(
    account: &AccountDbModel,
    stored: bool,
    codec: &ClaimCodec,
    now: u64,
) -> (outcome: Result<JwtToken, AppError>)
    requires
        now + TOKEN_LIFETIME <= u64::MAX,
    ensures
        match outcome {
            Ok(token) => stored && token.token@.len() > 0 && signed_payload(token.token@, codec.secret()) == Some(
                payload_of(issued_claims(account.uuid@, TOKEN_LIFETIME, now)),
            ),
            Err(error) => !stored && error is Auth && error.says(
                "Failed to create account, please try again"@,
                500,
            ),
        },
{
    if stored {
        Ok(account_token_at(account, codec, now))
    } else {
        Err(
            AppError::Auth {
                message: "Failed to create account, please try again".to_string(),
                status: HttpStatus::internal_server_error(),
            },
        )
    }
}

/// Ends a registration at the time the clock shows.
pub fn finish_registration(account: &AccountDbModel, stored: bool, codec: &ClaimCodec) -> (outcome:
    Result<JwtToken, AppError>)
    ensures
        match outcome {
            Ok(token) => stored && token.token@.len() > 0 && exists|now: u64|
                now <= i64::MAX && signed_payload(token.token@, codec.secret())
                    == Some(payload_of(#[trigger] issued_claims(account.uuid@, TOKEN_LIFETIME, now))),
            Err(error) => !stored && error is Auth && error.says(
                "Failed to create account, please try again"@,
                500,
            ),
        },
{
    let now: u64 = clock::now();
    finish_registration_at(account, stored, codec, now)
}

/// Whether a login is let in: the account must exist, and the password must
/// verify against the hash the account stores.
pub open spec fn login_succeeds(found: Option<&AccountDbModel>, request: &AccountLoginModel) -> bool {
    match found {
        Some(account) => password_verifies(request.password@, account.password@),
        None => false,
    }
}

/// Decides a login at time `now`, given the account found under the user
/// name. An unknown user name and a wrong password are refused with the
/// same words, so that the answer does not tell which it was.
pub fn login_at(
    found: Option<&AccountDbModel>,
    request: &AccountLoginModel,
    codec: &ClaimCodec,
    now: u64,
) -> (outcome: Result<JwtToken, AppError>)
    requires
        now + TOKEN_LIFETIME <= u64::MAX,
    ensures
        match outcome {
            Ok(token) => login_succeeds(found, request) && token.token@.len() > 0 && signed_payload(
                token.token@,
                codec.secret(),
            ) == Some(payload_of(issued_claims(found->0.uuid@, TOKEN_LIFETIME, now))),
            Err(error) => !login_succeeds(found, request) && refuses(
                error,
                "Invalid username or password"@,
            ),
        },
{
    match found {
        Some(account) => match check_password(request.password.as_str(), account.password.as_str()) {
            Ok(_) => Ok(account_token_at(account, codec, now)),
            Err(_) => Err(refusal("Invalid username or password")),
        },
        None => Err(refusal("Invalid username or password")),
    }
}

/// Decides a login at the time the clock shows.
pub fn login(found: Option<&AccountDbModel>, request: &AccountLoginModel, codec: &ClaimCodec) -> (outcome:
    Result<JwtToken, AppError>)
    ensures
        match outcome {
            Ok(token) => login_succeeds(found, request) && token.token@.len() > 0 && exists|now: u64|
                now <= i64::MAX && signed_payload(token.token@, codec.secret())
                    == Some(
                    payload_of(#[trigger] issued_claims(found->0.uuid@, TOKEN_LIFETIME, now)),
                ),
            Err(error) => !login_succeeds(found, request) && refuses(
                error,
                "Invalid username or password"@,
            ),
        },
{
    let now: u64 = clock::now();
    login_at(found, request, codec, now)
}

/// Whoever registered can log in: the account that a registration creates
/// lets a login with the same password in.
pub proof fn lemma_registered_password_logs_in(
    register: AccountRegisterModel,
    account: AccountDbModel,
    login: AccountLoginModel,
)
    requires
        password_verifies(register.password@, account.password@),
        login.password@ == register.password@,
    ensures
        login_succeeds(Some(&account), &login),
{
}

} // verus!
