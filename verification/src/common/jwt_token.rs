//! Signed identity claims: issuing bearer credentials and checking them.
//!
//! A credential is a JSON Web Token signed with HMAC-SHA256 under a secret
//! that the process shares with nobody. Signature and structure are checked
//! by `jsonwebtoken`; whether a claim has expired is decided here, against a
//! time that the caller can name.

use vstd::prelude::*;
use crate::common::app_error::AuthError;
use crate::common::clock;

verus! {

#[verifier::external_type_specification]
#[verifier::external_body]
pub struct ExJwtError(jsonwebtoken::errors::Error);

/// The issuer written into every claim.
pub const ISSUER: &'static str = "Printerlynx";

/// The name of the claim that holds the expiry.
pub const EXPIRY_CLAIM: &'static str = "exp";

/// The name of the claim that holds the issuer.
pub const ISSUER_CLAIM: &'static str = "iss";

/// The name of the claim that holds the subject.
pub const SUBJECT_CLAIM: &'static str = "sub";

/// What `jsonwebtoken::decode` finds in a token under a secret when it checks
/// the structure and the HMAC-SHA256 signature and does not look at the
/// clock: `None` where it refuses the token, else the claim under the first
/// name if it is a non-negative integer, and the claims under the second
/// and the third name if they are strings.
pub uninterp spec fn signed_members(
    token: Seq<char>,
    secret: Seq<char>,
    number: Seq<char>,
    first: Seq<char>,
    second: Seq<char>,
) -> Option<(Option<u64>, Option<Seq<char>>, Option<Seq<char>>)>;

/// The expiry, the issuer and the subject that a token holds under a
/// secret, as far as they can be read; `None` where the token's structure
/// or signature does not hold.
pub open spec fn signed_payload(token: Seq<char>, secret: Seq<char>) -> Option<
    (Option<u64>, Option<Seq<char>>, Option<Seq<char>>),
> {
    signed_members(token, secret, EXPIRY_CLAIM@, ISSUER_CLAIM@, SUBJECT_CLAIM@)
}

/// A bearer credential as handed to a client.
#[derive(Clone, Debug, PartialEq, Eq)]
pub struct JwtToken {
    pub token: String,
}

/// An identity claim: who (`sub`), said by whom (`iss`), until when (`exp`,
/// in seconds since the Unix epoch).
#[derive(Clone, Debug, PartialEq, Eq)]
pub struct Claims {
    pub exp: u64,
    pub iss: String,
    pub sub: String,
}

/// The mathematical content of a claim.
pub struct ClaimsView {
    pub exp: u64,
    pub iss: Seq<char>,
    pub sub: Seq<char>,
}

impl View for Claims {
    type V = ClaimsView;

    open spec fn view(&self) -> ClaimsView {
        ClaimsView { exp: self.exp, iss: self.iss@, sub: self.sub@ }
    }
}

/// The claims of a token whose signature held, as far as they could be read.
#[derive(Clone, Debug, PartialEq, Eq)]
pub struct TokenPayload {
    pub exp: Option<u64>,
    pub iss: Option<String>,
    pub sub: Option<String>,
}

impl View for TokenPayload {
    type V = (Option<u64>, Option<Seq<char>>, Option<Seq<char>>);

    open spec fn view(&self) -> Self::V {
        (
            self.exp,
            match self.iss {
                Some(iss) => Some(iss@),
                None => None,
            },
            match self.sub {
                Some(sub) => Some(sub@),
                None => None,
            },
        )
    }
}

/// The payload in which all of a claim can be read.
pub open spec fn payload_of(claims: ClaimsView) -> (Option<u64>, Option<Seq<char>>, Option<
    Seq<char>,
>) {
    (Some(claims.exp), Some(claims.iss), Some(claims.sub))
}

/// The claim that a payload amounts to at time `now`: all three fields must
/// be there, and the expiry must lie in the future.
pub open spec fn accepted_claims(
    payload: (Option<u64>, Option<Seq<char>>, Option<Seq<char>>),
    now: u64,
) -> Option<ClaimsView> {
    match payload {
        (Some(exp), Some(iss), Some(sub)) => if exp > now {
            Some(ClaimsView { exp, iss, sub })
        } else {
            None
        },
        _ => None,
    }
}

/// What checking `token` under `secret` at time `now` yields. Every failure
/// is the same `InvalidToken`.
pub open spec fn verification(token: Seq<char>, secret: Seq<char>, now: u64) -> Result<
    ClaimsView,
    AuthError,
> {
    match signed_payload(token, secret) {
        Some(payload) => match accepted_claims(payload, now) {
            Some(claims) => Ok(claims),
            None => Err(AuthError::InvalidToken),
        },
        None => Err(AuthError::InvalidToken),
    }
}

/// The result of a check, with the claim replaced by its content.
pub open spec fn outcome_view(outcome: Result<Claims, AuthError>) -> Result<ClaimsView, AuthError> {
    match outcome {
        Ok(claims) => Ok(claims@),
        Err(error) => Err(error),
    }
}

/// The claim issued for `subject` at time `now` with `ttl` seconds to live.
pub open spec fn issued_claims(subject: Seq<char>, ttl: u64, now: u64) -> ClaimsView
    recommends
        now + ttl <= u64::MAX,
{
    ClaimsView { exp: (now + ttl) as u64, iss: ISSUER@, sub: subject }
}

/// Wraps `jsonwebtoken::encode` with the default header (HS256) and a key
/// made by `EncodingKey::from_secret`. The three claims are written as JSON
/// members under the names given, which must be the registered names of
/// expiry, issuer and subject. `encode` fails only where the key does not
/// suit the algorithm or a claim cannot be written as JSON; neither arises
/// here, so the error arm is never taken. The contract claims that the
/// token, which `encode` joins from three parts with dots, is not empty,
/// and that `decode`, given the token and the same secret, accepts it and
/// reads the same three claims back.
#[verifier::external_body]
fn sign(names: (&str, &str, &str), exp: u64, iss: &str, sub: &str, secret: &str) -> (token: String)
    requires
        names.0@ == EXPIRY_CLAIM@,
        names.1@ == ISSUER_CLAIM@,
        names.2@ == SUBJECT_CLAIM@,
    ensures
        token@.len() > 0,
        signed_members(token@, secret@, names.0@, names.1@, names.2@) == Some(
            (Some(exp), Some(iss@), Some(sub@)),
        ),
{
    let mut claims = serde_json::Map::new();
    claims.insert(names.0.to_string(), serde_json::Value::from(exp));
    claims.insert(names.1.to_string(), serde_json::Value::from(iss));
    claims.insert(names.2.to_string(), serde_json::Value::from(sub));
    let key = jsonwebtoken::EncodingKey::from_secret(secret.as_bytes());
    match jsonwebtoken::encode(&jsonwebtoken::Header::default(), &claims, &key) {
        Ok(token) => token,
        Err(_) => String::new(),
    }
}

/// Wraps `jsonwebtoken::decode` with `Validation::new(Algorithm::HS256)`,
/// the expiry check switched off, and a key made by
/// `DecodingKey::from_secret`. With that validation `decode` checks the
/// token's three-part structure, its header, its signature and that an `exp`
/// claim is present, and reads no clock. The claims under the three names
/// are then picked with `Value::get`, `Value::as_u64` and `Value::as_str`.
/// The result is the one that `signed_members` names.
#[verifier::external_body]
fn read_signed(token: &str, secret: &str, names: (&str, &str, &str)) -> (outcome: Result<
    TokenPayload,
    jsonwebtoken::errors::Error,
>)
    ensures
        match outcome {
            Ok(payload) => signed_members(token@, secret@, names.0@, names.1@, names.2@) == Some(
                payload@,
            ),
            Err(_) => signed_members(token@, secret@, names.0@, names.1@, names.2@) is None,
        },
{
    let mut validation = jsonwebtoken::Validation::new(jsonwebtoken::Algorithm::HS256);
    validation.validate_exp = false;
    let key = jsonwebtoken::DecodingKey::from_secret(secret.as_bytes());
    let claims = jsonwebtoken::decode::<serde_json::Value>(token, &key, &validation)?.claims;
    Ok(TokenPayload {
        exp: claims.get(names.0).and_then(serde_json::Value::as_u64),
        iss: claims.get(names.1).and_then(serde_json::Value::as_str).map(str::to_owned),
        sub: claims.get(names.2).and_then(serde_json::Value::as_str).map(str::to_owned),
    })
}

/// Signs the claims under `secret` and returns the credential, which is
/// never empty. Checking the credential under the same secret reads the
/// same claims back.
pub fn generate_token(claims: Claims, secret: &str) -> (token: String)
    ensures
        token@.len() > 0,
        signed_payload(token@, secret@) == Some(payload_of(claims@)),
{
    sign(
        (EXPIRY_CLAIM, ISSUER_CLAIM, SUBJECT_CLAIM),
        claims.exp,
        claims.iss.as_str(),
        claims.sub.as_str(),
        secret,
    )
}

/// Decides what a payload whose signature held amounts to at time `now`:
/// the claim, if all of it is there and it has not expired, else
/// `InvalidToken`.
pub fn claims_from_payload(payload: TokenPayload, now: u64) -> (outcome: Result<Claims, AuthError>)
    ensures
        outcome_view(outcome) == match accepted_claims(payload@, now) {
            Some(claims) => Ok::<ClaimsView, AuthError>(claims),
            None => Err(AuthError::InvalidToken),
        },
{
    match (payload.exp, payload.iss, payload.sub) {
        (Some(exp), Some(iss), Some(sub)) => {
            if exp > now {
                Ok(Claims { exp, iss, sub })
            } else {
                Err(AuthError::InvalidToken)
            }
        },
        _ => Err(AuthError::InvalidToken),
    }
}

/// Checks a credential under `secret` at time `now`. A token that is
/// malformed, carries a wrong signature, lacks a claim or has expired is
/// refused, in each case with `InvalidToken`.
pub fn decode_token_at(token: &str, secret: &str, now: u64) -> (outcome: Result<Claims, AuthError>)
    ensures
        outcome_view(outcome) == verification(token@, secret@, now),
{
    match read_signed(token, secret, (EXPIRY_CLAIM, ISSUER_CLAIM, SUBJECT_CLAIM)) {
        Ok(payload) => claims_from_payload(payload, now),
        Err(_) => Err(AuthError::InvalidToken),
    }
}

/// Checks a credential under `secret` at the time the clock shows, which is
/// never more than `i64::MAX`.
pub fn decode_token(token: &str, secret: &str) -> (outcome: Result<Claims, AuthError>)
    ensures
        exists|now: u64|
            now <= i64::MAX && outcome_view(outcome) == #[trigger] verification(
                token@,
                secret@,
                now,
            ),
{
    let now: u64 = clock::now();
    decode_token_at(token, secret, now)
}

/// Issues and checks credentials under one secret, fixed at construction.
pub struct ClaimCodec {
    secret: String,
}

impl ClaimCodec {
    /// The secret the codec signs and checks with.
    pub closed spec fn secret(&self) -> Seq<char> {
        self.secret@
    }

    /// A codec for the given secret.
    pub fn new(secret: String) -> (codec: ClaimCodec)
        ensures
            codec.secret() == secret@,
    {
        ClaimCodec { secret }
    }

    /// Issues a credential for `subject` that expires `ttl` seconds after
    /// `now`.
    pub fn issue_at(&self, subject: &str, ttl: u64, now: u64) -> (credential: String)
        requires
            now + ttl <= u64::MAX,
        ensures
            credential@.len() > 0,
            signed_payload(credential@, self.secret()) == Some(
                payload_of(issued_claims(subject@, ttl, now)),
            ),
    {
        let claims = Claims { exp: now + ttl, iss: ISSUER.to_string(), sub: subject.to_string() };
        generate_token(claims, self.secret.as_str())
    }

    /// Issues a credential for `subject` that expires `ttl` seconds after
    /// the time the clock shows, or nothing if that moment cannot be
    /// written in 64 bits.
    pub fn issue(&self, subject: &str, ttl: u64) -> (credential: Option<String>)
        ensures
            credential matches Some(c) ==> c@.len() > 0,
            credential matches Some(c) ==> exists|now: u64|
                now <= i64::MAX && now + ttl <= u64::MAX && signed_payload(c@, self.secret())
                    == Some(
                    payload_of(#[trigger] issued_claims(subject@, ttl, now)),
                ),
            credential is None ==> ttl > u64::MAX - i64::MAX,
    {
        let now: u64 = clock::now();
        if ttl <= u64::MAX - now {
            Some(self.issue_at(subject, ttl, now))
        } else {
            None
        }
    }

    /// Checks a credential at time `now`.
    pub fn verify_at(&self, credential: &str, now: u64) -> (outcome: Result<Claims, AuthError>)
        ensures
            outcome_view(outcome) == verification(credential@, self.secret(), now),
    {
        decode_token_at(credential, self.secret.as_str(), now)
    }

    /// Checks a credential at the time the clock shows, which is never more
    /// than `i64::MAX`.
    pub fn verify(&self, credential: &str) -> (outcome: Result<Claims, AuthError>)
        ensures
            exists|now: u64|
                now <= i64::MAX && outcome_view(outcome) == #[trigger] verification(
                    credential@,
                    self.secret(),
                    now,
                ),
    {
        let now: u64 = clock::now();
        self.verify_at(credential, now)
    }
}

/// A credential verifies at every moment before its expiry, and yields the
/// subject it was issued for.
pub proof fn lemma_issued_credential_verifies(
    credential: Seq<char>,
    secret: Seq<char>,
    subject: Seq<char>,
    ttl: u64,
    now: u64,
    later: u64,
)
    requires
        ttl > 0,
        now + ttl <= u64::MAX,
        signed_payload(credential, secret) == Some(payload_of(issued_claims(subject, ttl, now))),
        now <= later < now + ttl,
    ensures
        verification(credential, secret, later) == Ok::<ClaimsView, AuthError>(
            issued_claims(subject, ttl, now),
        ),
        verification(credential, secret, now) is Ok,
        verification(credential, secret, now)->Ok_0.sub == subject,
{
}

/// Once its time to live has passed, a credential is refused as
/// `InvalidToken`.
pub proof fn lemma_expired_credential_is_refused(
    credential: Seq<char>,
    secret: Seq<char>,
    subject: Seq<char>,
    ttl: u64,
    now: u64,
    later: u64,
)
    requires
        now + ttl <= u64::MAX,
        signed_payload(credential, secret) == Some(payload_of(issued_claims(subject, ttl, now))),
        later >= now + ttl,
    ensures
        verification(credential, secret, later) == Err::<ClaimsView, AuthError>(
            AuthError::InvalidToken,
        ),
{
}

/// A credential that expires after every time the clock can show verifies
/// whenever it is checked by the clock.
pub proof fn lemma_unexpiring_credential_verifies(
    credential: Seq<char>,
    secret: Seq<char>,
    claims: ClaimsView,
    now: u64,
)
    requires
        signed_payload(credential, secret) == Some(payload_of(claims)),
        claims.exp > i64::MAX,
        now <= i64::MAX,
    ensures
        verification(credential, secret, now) == Ok::<ClaimsView, AuthError>(claims),
{
}

/// A check never fails in any way but `InvalidToken`.
pub proof fn lemma_failure_is_uniform(token: Seq<char>, secret: Seq<char>, now: u64)
    ensures
        verification(token, secret, now) matches Err(error) ==> error == AuthError::InvalidToken,
{
}

} // verus!
