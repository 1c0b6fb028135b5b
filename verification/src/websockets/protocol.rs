//! The handshake that authenticates a session, and the check that every
//! later envelope passes.
//!
//! A session starts unauthenticated. An envelope of the authentication kind
//! of the session's role carries a bearer credential in its body; if the
//! credential holds, the session is bound to the credential's subject, once
//! and for good. Until then every other envelope is refused.

use vstd::prelude::*;
use crate::common::app_error::{AppError, AuthError};
use crate::common::clock;
use crate::common::jwt_token::{outcome_view, verification, ClaimCodec, Claims, ClaimsView};
use crate::websockets::message::{
    decode_envelope,
    decoded,
    EnvelopeView,
    WebSocketMessage,
    WebSocketMessageType,
};

verus! {

/// The name of the member that holds the subject of a session.
pub const SUBJECT_MEMBER: &'static str = "uuid";

/// The name of the member that tells whether a session is authenticated.
pub const AUTHENTICATED_MEMBER: &'static str = "authenticated";

/// What `to_string` of a `serde_json::Value` writes for the object with one
/// string member and one boolean member under the names given.
pub uninterp spec fn text_and_flag_object(
    text_name: Seq<char>,
    text: Seq<char>,
    flag_name: Seq<char>,
    flag: bool,
) -> Seq<char>;

/// The JSON text that tells whom a session is bound to.
pub open spec fn user_session_text(uuid: Seq<char>, authenticated: bool) -> Seq<char> {
    text_and_flag_object(SUBJECT_MEMBER@, uuid, AUTHENTICATED_MEMBER@, authenticated)
}

/// Wraps `to_string` of a `serde_json::Value` that is an object with one
/// string member and one boolean member under the names given. The text is
/// the one that `text_and_flag_object` names.
#[verifier::external_body]
fn write_text_and_flag(text_name: &str, text: &str, flag_name: &str, flag: bool) -> (written: String)
    ensures
        written@ == text_and_flag_object(text_name@, text@, flag_name@, flag),
{
    let mut members = serde_json::Map::new();
    members.insert(text_name.to_string(), serde_json::Value::from(text));
    members.insert(flag_name.to_string(), serde_json::Value::from(flag));
    serde_json::Value::Object(members).to_string()
}

/// The identity a session is bound to: the subject, once `authenticated`
/// is set.
#[derive(Clone, Debug, PartialEq, Eq)]
pub struct UserSession {
    pub uuid: String,
    pub authenticated: bool,
}

/// The authentication state of one duplex connection.
#[derive(Clone, Debug, PartialEq, Eq)]
pub struct UserWebSocketSession {
    pub user: UserSession,
}

/// The mathematical content of a session's authentication state.
pub struct SessionView {
    pub uuid: Seq<char>,
    pub authenticated: bool,
}

impl View for UserSession {
    type V = SessionView;

    open spec fn view(&self) -> SessionView {
        SessionView { uuid: self.uuid@, authenticated: self.authenticated }
    }
}

impl View for UserWebSocketSession {
    type V = SessionView;

    open spec fn view(&self) -> SessionView {
        self.user@
    }
}

/// Who is expected at the other end of a connection. The role decides which
/// kind of envelope authenticates the session.
#[derive(Clone, Copy, Debug, PartialEq, Eq, Structural)]
pub enum SessionRole {
    User,
    Agent,
}

impl SessionRole {
    /// The kind of envelope that carries the credential.
    pub open spec fn authentication_kind(self) -> WebSocketMessageType {
        match self {
            SessionRole::User => WebSocketMessageType::UserAuthentication,
            SessionRole::Agent => WebSocketMessageType::AgentAuthentication,
        }
    }

    /// The kind of envelope in which the backend tells the peer about the
    /// session.
    pub open spec fn notice_kind(self) -> WebSocketMessageType {
        match self {
            SessionRole::User => WebSocketMessageType::User,
            SessionRole::Agent => WebSocketMessageType::Agent,
        }
    }

    /// The kind of envelope that carries the credential.
    pub fn authentication(&self) -> (kind: WebSocketMessageType)
        ensures
            kind == self.authentication_kind(),
    {
        match self {
            SessionRole::User => WebSocketMessageType::UserAuthentication,
            SessionRole::Agent => WebSocketMessageType::AgentAuthentication,
        }
    }

    /// The kind of envelope in which the backend tells the peer about the
    /// session.
    pub fn notice(&self) -> (kind: WebSocketMessageType)
        ensures
            kind == self.notice_kind(),
    {
        match self {
            SessionRole::User => WebSocketMessageType::User,
            SessionRole::Agent => WebSocketMessageType::Agent,
        }
    }
}

/// What the backend does with one inbound frame.
#[derive(Clone, Debug, PartialEq, Eq)]
pub enum SessionAction {
    /// Send the envelope to the peer.
    Reply(WebSocketMessage),
    /// Send the error envelope to the peer and drop what came in.
    Reject { error: AuthError, envelope: WebSocketMessage },
    /// Hand the envelope to the business handlers, acting as `subject`.
    Forward { subject: String, envelope: WebSocketMessage },
    /// Process nothing more: the connection is closed.
    Stop,
}

/// The mathematical content of an action.
pub enum ActionView {
    Reply(EnvelopeView),
    Reject { error: AuthError, envelope: EnvelopeView },
    Forward { subject: Seq<char>, envelope: EnvelopeView },
    Stop,
}

impl View for SessionAction {
    type V = ActionView;

    open spec fn view(&self) -> ActionView {
        match self {
            SessionAction::Reply(envelope) => ActionView::Reply(envelope@),
            SessionAction::Reject { error, envelope } => ActionView::Reject {
                error: *error,
                envelope: envelope@,
            },
            SessionAction::Forward { subject, envelope } => ActionView::Forward {
                subject: subject@,
                envelope: envelope@,
            },
            SessionAction::Stop => ActionView::Stop,
        }
    }
}

/// What arrives from the transport.
#[derive(Clone, Debug, PartialEq, Eq)]
pub enum SocketEvent {
    /// A frame that carries text.
    Text(String),
    /// A frame that carries no text.
    Unreadable,
    /// The transport failed.
    Failed,
    /// Either side closed the connection.
    Closed,
}

/// The error envelope with the given reason.
pub open spec fn error_envelope(reason: Seq<char>) -> EnvelopeView {
    EnvelopeView { body: reason, message_type: WebSocketMessageType::Error }
}

/// The envelope that tells the peer whom the session is bound to.
pub open spec fn session_notice(session: SessionView, role: SessionRole) -> EnvelopeView {
    EnvelopeView {
        body: user_session_text(session.uuid, session.authenticated),
        message_type: role.authentication_kind(),
    }
}

/// The refusal of an envelope that came in before the session was
/// authenticated.
pub open spec fn not_authenticated() -> ActionView {
    ActionView::Reject {
        error: AuthError::ProtocolViolation,
        envelope: error_envelope("Session not authenticated"@),
    }
}

/// The refusal of a frame that holds no envelope.
pub open spec fn malformed() -> ActionView {
    ActionView::Reject {
        error: AuthError::ProtocolViolation,
        envelope: error_envelope("Error parsing message"@),
    }
}

/// The refusal of a credential that does not hold.
pub open spec fn invalid_token() -> ActionView {
    ActionView::Reject {
        error: AuthError::InvalidToken,
        envelope: error_envelope("Invalid token"@),
    }
}

/// The session after an authentication envelope whose credential was
/// judged by `verdict`. A session that is authenticated already stays as it
/// is, whatever the verdict; an unauthenticated one is bound to the subject
/// of a credential that holds, and stays as it is otherwise.
pub open spec fn authenticated_by(
    session: SessionView,
    verdict: Result<ClaimsView, AuthError>,
) -> SessionView {
    if session.authenticated {
        session
    } else {
        match verdict {
            Ok(claims) => SessionView { uuid: claims.sub, authenticated: true },
            Err(_) => session,
        }
    }
}

/// Whether an authentication envelope whose credential was judged by
/// `verdict` is accepted.
pub open spec fn accepts(session: SessionView, verdict: Result<ClaimsView, AuthError>) -> bool {
    session.authenticated || verdict is Ok
}

/// Whether `outcome` is the right answer to an authentication envelope:
/// success where the envelope is accepted, else the error that reports an
/// invalid token.
pub open spec fn answers(outcome: Result<(), AppError>, accepted: bool) -> bool {
    match outcome {
        Ok(_) => accepted,
        Err(error) => !accepted && AuthError::InvalidToken.reported_as(error),
    }
}

/// What is done with an envelope that does not authenticate: it goes to the
/// business handlers if the session is authenticated, and is refused if
/// not.
pub open spec fn passed_on(session: SessionView, envelope: EnvelopeView) -> ActionView {
    if session.authenticated {
        ActionView::Forward { subject: session.uuid, envelope }
    } else {
        not_authenticated()
    }
}

/// The transition function of the session protocol: the session after an
/// envelope, and what is done with the envelope. `verdict` judges the
/// envelope's body as a credential; it is consulted only for an
/// authentication envelope on an unauthenticated session.
pub open spec fn transition(
    session: SessionView,
    role: SessionRole,
    envelope: EnvelopeView,
    verdict: Result<ClaimsView, AuthError>,
) -> (SessionView, ActionView) {
    if envelope.message_type == role.authentication_kind() {
        if accepts(session, verdict) {
            let next = authenticated_by(session, verdict);
            (next, ActionView::Reply(session_notice(next, role)))
        } else {
            (session, invalid_token())
        }
    } else {
        (session, passed_on(session, envelope))
    }
}

/// The transition on a text frame: a text that holds no envelope is
/// refused and changes nothing; an envelope is judged under `secret` at
/// time `now`.
pub open spec fn transition_on_text(
    session: SessionView,
    role: SessionRole,
    text: Seq<char>,
    secret: Seq<char>,
    now: u64,
) -> (SessionView, ActionView) {
    match decoded(text) {
        Some(envelope) => transition(
            session,
            role,
            envelope,
            verification(envelope.body, secret, now),
        ),
        None => (session, malformed()),
    }
}

fn reject(error: AuthError, reason: &str) -> (action: SessionAction)
    ensures
        action@ == (ActionView::Reject { error, envelope: error_envelope(reason@) }),
{
    SessionAction::Reject {
        error,
        envelope: WebSocketMessage {
            body: reason.to_string(),
            message_type: WebSocketMessageType::Error,
        },
    }
}

impl UserWebSocketSession {
    /// A session that nobody has authenticated yet.
    pub fn new() -> (session: UserWebSocketSession)
        ensures
            session@ == (SessionView { uuid: Seq::<char>::empty(), authenticated: false }),
    {
        UserWebSocketSession { user: UserSession { uuid: String::new(), authenticated: false } }
    }

    /// The envelope that tells the peer whom the session is bound to.
    pub fn notice(&self, role: SessionRole) -> (envelope: WebSocketMessage)
        ensures
            envelope@ == session_notice(self@, role),
    {
        WebSocketMessage {
            body: write_text_and_flag(
                SUBJECT_MEMBER,
                self.user.uuid.as_str(),
                AUTHENTICATED_MEMBER,
                self.user.authenticated,
            ),
            message_type: role.authentication(),
        }
    }
}

/// Reads the envelope out of what the transport delivered. Only a text
/// frame that holds an envelope of a known kind gives one. A failure of
/// the transport is an internal error; whatever else holds no envelope is
/// a violation of the protocol.
pub fn parse_message(message: &SocketEvent) -> (envelope: Result<WebSocketMessage, AppError>)
    ensures
        match *message {
            SocketEvent::Text(text) => match decoded(text@) {
                Some(view) => envelope matches Ok(found) && found@ == view,
                None => envelope matches Err(error) && AuthError::ProtocolViolation.reported_as(
                    error,
                ),
            },
            SocketEvent::Failed => envelope == Err::<WebSocketMessage, AppError>(
                AppError::InternalServer,
            ),
            _ => envelope matches Err(error) && AuthError::ProtocolViolation.reported_as(error),
        },
{
    match message {
        SocketEvent::Text(text) => decode_envelope(text.as_str()),
        SocketEvent::Failed => Err(AppError::InternalServer),
        _ => Err(AuthError::ProtocolViolation.to_app_error()),
    }
}

/// Applies the verdict on a credential to the session that presented it.
/// An authenticated session stays bound to its subject and the envelope is
/// accepted without a look at the verdict.
pub fn apply_verdict(session: &mut UserWebSocketSession, verdict: Result<Claims, AuthError>) -> (outcome:
    Result<(), AppError>)
    ensures
        final(session)@ == authenticated_by(old(session)@, outcome_view(verdict)),
        answers(outcome, accepts(old(session)@, outcome_view(verdict))),
{
    if session.user.authenticated {
        return Ok(());
    }
    match verdict {
        Ok(claims) => {
            session.user.authenticated = true;
            session.user.uuid = claims.sub;
            Ok(())
        },
        Err(_) => Err(AuthError::InvalidToken.to_app_error()),
    }
}

/// Handles an authentication envelope: the body is checked as a credential
/// at time `now`, unless the session is authenticated already.
pub fn handle_auth_message_at(
    message: WebSocketMessage,
    session: &mut UserWebSocketSession,
    codec: &ClaimCodec,
    now: u64,
) -> (outcome: Result<(), AppError>)
    ensures
        final(session)@ == authenticated_by(
            old(session)@,
            verification(message.body@, codec.secret(), now),
        ),
        answers(outcome, accepts(old(session)@, verification(message.body@, codec.secret(), now))),
{
    if session.user.authenticated {
        return Ok(());
    }
    let verdict = codec.verify_at(message.body.as_str(), now);
    apply_verdict(session, verdict)
}

/// Handles an authentication envelope at the time the clock shows.
pub fn handle_auth_message(
    message: WebSocketMessage,
    session: &mut UserWebSocketSession,
    codec: &ClaimCodec,
) -> (outcome: Result<(), AppError>)
    ensures
        exists|now: u64|
            {
                let verdict = #[trigger] verification(message.body@, codec.secret(), now);
                &&& now <= i64::MAX
                &&& final(session)@ == authenticated_by(old(session)@, verdict)
                &&& answers(outcome, accepts(old(session)@, verdict))
            },
{
    let now: u64 = clock::now();
    handle_auth_message_at(message, session, codec, now)
}

fn pass_on(session: &UserWebSocketSession, message: WebSocketMessage) -> (action: SessionAction)
    ensures
        action@ == passed_on(session@, message@),
{
    if session.user.authenticated {
        SessionAction::Forward { subject: session.user.uuid.clone(), envelope: message }
    } else {
        reject(AuthError::ProtocolViolation, "Session not authenticated")
    }
}

fn answer(session: &UserWebSocketSession, role: SessionRole, outcome: Result<(), AppError>) -> (action:
    SessionAction)
    ensures
        action@ == match outcome {
            Ok(_) => ActionView::Reply(session_notice(session@, role)),
            Err(_) => invalid_token(),
        },
{
    match outcome {
        Ok(_) => SessionAction::Reply(session.notice(role)),
        Err(_) => reject(AuthError::InvalidToken, "Invalid token"),
    }
}

/// One step of the session protocol, given the verdict on the envelope's
/// body as a credential.
pub fn step(
    session: &mut UserWebSocketSession,
    role: SessionRole,
    message: WebSocketMessage,
    verdict: Result<Claims, AuthError>,
) -> (action: SessionAction)
    ensures
        (final(session)@, action@) == transition(
            old(session)@,
            role,
            message@,
            outcome_view(verdict),
        ),
{
    if message.message_type == role.authentication() {
        let outcome = apply_verdict(session, verdict);
        answer(session, role, outcome)
    } else {
        pass_on(session, message)
    }
}

/// One step of the session protocol at time `now`. The envelope's body is
/// checked as a credential only where the protocol asks for it.
pub fn handle_message_at(
    session: &mut UserWebSocketSession,
    role: SessionRole,
    message: WebSocketMessage,
    codec: &ClaimCodec,
    now: u64,
) -> (action: SessionAction)
    ensures
        (final(session)@, action@) == transition(
            old(session)@,
            role,
            message@,
            verification(message.body@, codec.secret(), now),
        ),
{
    if message.message_type == role.authentication() {
        let outcome = handle_auth_message_at(message, session, codec, now);
        answer(session, role, outcome)
    } else {
        pass_on(session, message)
    }
}

/// One step of the session protocol on a text frame at time `now`.
pub fn handle_text_at(
    session: &mut UserWebSocketSession,
    role: SessionRole,
    text: &str,
    codec: &ClaimCodec,
    now: u64,
) -> (action: SessionAction)
    ensures
        (final(session)@, action@) == transition_on_text(
            old(session)@,
            role,
            text@,
            codec.secret(),
            now,
        ),
{
    match decode_envelope(text) {
        Ok(message) => handle_message_at(session, role, message, codec, now),
        Err(_) => reject(AuthError::ProtocolViolation, "Error parsing message"),
    }
}

} // verus!
