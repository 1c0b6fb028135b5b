//! The supervision of one duplex connection, from upgrade to close.
//!
//! Each connection has a session of its own, which nothing else touches.
//! The transport hands in what arrives, one event after the other; the
//! session answers each with what is to be done, and ends in `Closed`.

use vstd::prelude::*;
use crate::common::clock;
use crate::common::ident::random_uuid;
use crate::common::jwt_token::{verification, ClaimCodec, ClaimsView};
use crate::common::app_error::AuthError;
use crate::middlewares::auth_middleware::decision;
use crate::websockets::message::{decoded, EnvelopeView, WebSocketMessage, WebSocketMessageType};
use crate::websockets::protocol::{
    handle_text_at,
    invalid_token,
    malformed,
    transition,
    transition_on_text,
    ActionView,
    AUTHENTICATED_MEMBER,
    SessionAction,
    SessionRole,
    SessionView,
    SocketEvent,
    UserWebSocketSession,
};

verus! {

/// The name of the member that holds the identifier of a session.
pub const SESSION_MEMBER: &'static str = "uuid";

/// The name of the member that holds the address of the peer.
pub const ADDRESS_MEMBER: &'static str = "addr";

/// What `to_string` of a `serde_json::Value` writes for the object with two
/// string members and one boolean member under the names given.
pub uninterp spec fn two_texts_and_flag_object(
    first_name: Seq<char>,
    first: Seq<char>,
    second_name: Seq<char>,
    second: Seq<char>,
    flag_name: Seq<char>,
    flag: bool,
) -> Seq<char>;

/// The JSON text that shows a session: its identifier, the address of the
/// peer, and whether it is authenticated.
pub open spec fn session_info_text(uuid: Seq<char>, addr: Seq<char>, authenticated: bool) -> Seq<
    char,
> {
    two_texts_and_flag_object(
        SESSION_MEMBER@,
        uuid,
        ADDRESS_MEMBER@,
        addr,
        AUTHENTICATED_MEMBER@,
        authenticated,
    )
}

/// Wraps `to_string` of a `serde_json::Value` that is an object with two
/// string members and one boolean member under the names given. The text
/// is the one that `two_texts_and_flag_object` names.
#[verifier::external_body]
fn write_two_texts_and_flag(
    first: (&str, &str),
    second: (&str, &str),
    flag_name: &str,
    flag: bool,
) -> (written: String)
    ensures
        written@ == two_texts_and_flag_object(
            first.0@,
            first.1@,
            second.0@,
            second.1@,
            flag_name@,
            flag,
        ),
{
    let mut members = serde_json::Map::new();
    members.insert(first.0.to_string(), serde_json::Value::from(first.1));
    members.insert(second.0.to_string(), serde_json::Value::from(second.1));
    members.insert(flag_name.to_string(), serde_json::Value::from(flag));
    serde_json::Value::Object(members).to_string()
}

/// The states of a session.
#[derive(Clone, Copy, Debug, PartialEq, Eq, Structural)]
pub enum SessionState {
    /// Nobody has authenticated yet. Every session starts here.
    Unauthenticated,
    /// The session is bound to a subject.
    Authenticated,
    /// The connection is gone. Nothing leads out of this state.
    Closed,
}

/// One live duplex connection: its generated identifier, the address of the
/// peer, the role the peer is expected in, and how far authentication has
/// come.
#[derive(Clone, Debug, PartialEq, Eq)]
pub struct WebSocketSession {
    pub uuid: String,
    pub addr: String,
    pub role: SessionRole,
    pub closed: bool,
    pub session: UserWebSocketSession,
}

/// The mathematical content of a connection's session.
pub struct ConnectionView {
    pub uuid: Seq<char>,
    pub addr: Seq<char>,
    pub role: SessionRole,
    pub closed: bool,
    pub session: SessionView,
}

impl View for WebSocketSession {
    type V = ConnectionView;

    open spec fn view(&self) -> ConnectionView {
        ConnectionView {
            uuid: self.uuid@,
            addr: self.addr@,
            role: self.role,
            closed: self.closed,
            session: self.session@,
        }
    }
}

impl ConnectionView {
    /// The state the session is in.
    pub open spec fn state(self) -> SessionState {
        if self.closed {
            SessionState::Closed
        } else if self.session.authenticated {
            SessionState::Authenticated
        } else {
            SessionState::Unauthenticated
        }
    }

    /// A session that is not authenticated is bound to nobody.
    pub open spec fn well_formed(self) -> bool {
        !self.session.authenticated ==> self.session.uuid == Seq::<char>::empty()
    }

    /// The session as it is right after the upgrade.
    pub open spec fn fresh(uuid: Seq<char>, addr: Seq<char>, role: SessionRole) -> ConnectionView {
        ConnectionView {
            uuid,
            addr,
            role,
            closed: false,
            session: SessionView { uuid: Seq::<char>::empty(), authenticated: false },
        }
    }

    /// The envelope that shows the peer its own session.
    pub open spec fn descriptor(self) -> EnvelopeView {
        EnvelopeView {
            body: session_info_text(self.uuid, self.addr, self.session.authenticated),
            message_type: self.role.notice_kind(),
        }
    }
}

/// The transition function of a connection: the session after an event,
/// and what is done about the event. A closed session ignores everything;
/// a close or a failure of the transport closes the session; a frame is
/// put through the session protocol, with credentials judged under
/// `secret` at time `now`.
pub open spec fn connection_step(
    connection: ConnectionView,
    event: SocketEvent,
    secret: Seq<char>,
    now: u64,
) -> (ConnectionView, ActionView) {
    if connection.closed {
        (connection, ActionView::Stop)
    } else {
        match event {
            SocketEvent::Closed => (ConnectionView { closed: true, ..connection }, ActionView::Stop),
            SocketEvent::Failed => (ConnectionView { closed: true, ..connection }, ActionView::Stop),
            SocketEvent::Unreadable => (connection, malformed()),
            SocketEvent::Text(text) => {
                let (session, action) = transition_on_text(
                    connection.session,
                    connection.role,
                    text@,
                    secret,
                    now,
                );
                (ConnectionView { session, ..connection }, action)
            },
        }
    }
}

impl WebSocketSession {
    /// The session of a connection that was just upgraded, under the given
    /// identifier.
    pub fn with_id(uuid: String, addr: String, role: SessionRole) -> (connection: WebSocketSession)
        ensures
            connection@ == ConnectionView::fresh(uuid@, addr@, role),
    {
        WebSocketSession { uuid, addr, role, closed: false, session: UserWebSocketSession::new() }
    }

    /// The session of a connection that was just upgraded, under a freshly
    /// generated identifier.
    pub fn open(addr: String, role: SessionRole) -> (connection: WebSocketSession)
        ensures
            connection@ == ConnectionView::fresh(connection.uuid@, addr@, role),
    {
        WebSocketSession::with_id(random_uuid(), addr, role)
    }

    /// The state the session is in.
    pub fn state(&self) -> (state: SessionState)
        ensures
            state == self@.state(),
    {
        if self.closed {
            SessionState::Closed
        } else if self.session.user.authenticated {
            SessionState::Authenticated
        } else {
            SessionState::Unauthenticated
        }
    }

    /// Whether the session is bound to a subject.
    pub fn authenticated(&self) -> (authenticated: bool)
        ensures
            authenticated == self@.session.authenticated,
    {
        self.session.user.authenticated
    }

    /// The subject the session is bound to, if it is authenticated.
    pub fn subject(&self) -> (subject: Option<&str>)
        ensures
            match subject {
                Some(subject) => self@.session.authenticated && subject@ == self@.session.uuid,
                None => !self@.session.authenticated,
            },
    {
        if self.session.user.authenticated {
            Some(self.session.user.uuid.as_str())
        } else {
            None
        }
    }

    /// The envelope that shows the peer its own session: identifier, peer
    /// address and whether it is authenticated.
    pub fn descriptor(&self) -> (envelope: WebSocketMessage)
        ensures
            envelope@ == self@.descriptor(),
    {
        WebSocketMessage {
            body: write_two_texts_and_flag(
                (SESSION_MEMBER, self.uuid.as_str()),
                (ADDRESS_MEMBER, self.addr.as_str()),
                AUTHENTICATED_MEMBER,
                self.session.user.authenticated,
            ),
            message_type: self.role.notice(),
        }
    }

    /// Takes one event from the transport at time `now`.
    pub fn on_event_at(&mut self, event: SocketEvent, codec: &ClaimCodec, now: u64) -> (action:
        SessionAction)
        ensures
            (final(self)@, action@) == connection_step(old(self)@, event, codec.secret(), now),
    {
        if self.closed {
            return SessionAction::Stop;
        }
        match event {
            SocketEvent::Closed => {
                self.closed = true;
                SessionAction::Stop
            },
            SocketEvent::Failed => {
                self.closed = true;
                SessionAction::Stop
            },
            SocketEvent::Unreadable => SessionAction::Reject {
                error: AuthError::ProtocolViolation,
                envelope: WebSocketMessage {
                    body: "Error parsing message".to_string(),
                    message_type: WebSocketMessageType::Error,
                },
            },
            SocketEvent::Text(text) => handle_text_at(
                &mut self.session,
                self.role,
                text.as_str(),
                codec,
                now,
            ),
        }
    }

    /// Takes one event from the transport at the time the clock shows.
    pub fn on_event(&mut self, event: SocketEvent, codec: &ClaimCodec) -> (action: SessionAction)
        ensures
            exists|now: u64|
                now <= i64::MAX && (final(self)@, action@) == #[trigger] connection_step(
                    old(self)@,
                    event,
                    codec.secret(),
                    now,
                ),
    {
        let now: u64 = clock::now();
        self.on_event_at(event, codec, now)
    }

    /// Closes the session. Every later event is ignored.
    pub fn close(&mut self)
        ensures
            final(self)@ == (ConnectionView { closed: true, ..old(self)@ }),
            final(self)@.state() == SessionState::Closed,
    {
        self.closed = true;
    }
}

/// The credential that an event presents to a session of the given role:
/// the body of an authentication envelope, if the event is a text frame
/// that holds one.
pub open spec fn presented_credential(role: SessionRole, event: SocketEvent) -> Option<Seq<char>> {
    match event {
        SocketEvent::Text(text) => match decoded(text@) {
            Some(envelope) => if envelope.message_type == role.authentication_kind() {
                Some(envelope.body)
            } else {
                None
            },
            None => None,
        },
        _ => None,
    }
}

/// An unauthenticated session that receives a frame other than an
/// authentication envelope answers with an error envelope and stays as it
/// is: unauthenticated, and open.
pub proof fn lemma_unauthenticated_refuses(
    connection: ConnectionView,
    event: SocketEvent,
    secret: Seq<char>,
    now: u64,
)
    requires
        connection.state() == SessionState::Unauthenticated,
        event is Text || event is Unreadable,
        presented_credential(connection.role, event) is None,
    ensures
        connection_step(connection, event, secret, now).0 == connection,
        connection_step(connection, event, secret, now).0.state() == SessionState::Unauthenticated,
        connection_step(connection, event, secret, now).1 matches ActionView::Reject {
            envelope,
            ..
        } && envelope.message_type == WebSocketMessageType::Error,
{
}

/// An unauthenticated session becomes authenticated by a credential that
/// holds and by nothing else, and is then bound to the subject of that
/// credential. A credential that does not hold leaves it as it is.
pub proof fn lemma_only_a_valid_credential_authenticates(
    connection: ConnectionView,
    event: SocketEvent,
    secret: Seq<char>,
    now: u64,
)
    requires
        connection.state() == SessionState::Unauthenticated,
    ensures
        ({
            let next = connection_step(connection, event, secret, now).0;
            match presented_credential(connection.role, event) {
                Some(credential) => match verification(credential, secret, now) {
                    Ok(claims) => next.state() == SessionState::Authenticated && next.session.uuid
                        == claims.sub,
                    Err(_) => next == connection,
                },
                None => next.state() != SessionState::Authenticated,
            }
        }),
{
}

/// The HTTP check and the handshake judge a credential alike: at the same
/// moment, a credential lets a request pass as a subject exactly when it
/// binds an unauthenticated session to that subject, and where it fails it
/// fails as `InvalidToken` on both paths.
pub proof fn lemma_http_and_handshake_agree(
    connection: ConnectionView,
    event: SocketEvent,
    credential: Seq<char>,
    secret: Seq<char>,
    now: u64,
)
    requires
        connection.state() == SessionState::Unauthenticated,
        presented_credential(connection.role, event) == Some(credential),
    ensures
        ({
            let (next, action) = connection_step(connection, event, secret, now);
            match decision(true, verification(credential, secret, now)) {
                Ok(subject) => {
                    &&& next.state() == SessionState::Authenticated
                    &&& next.session.uuid == subject
                    &&& action is Reply
                },
                Err(failure) => {
                    &&& failure == AuthError::InvalidToken
                    &&& next == connection
                    &&& action == invalid_token()
                },
            }
        }),
{
}

/// A session that has authenticated stays bound to the subject it
/// authenticated as: a second authentication envelope is accepted and
/// changes nothing, whatever credential it carries.
pub proof fn lemma_identity_is_bound_once(
    session: SessionView,
    role: SessionRole,
    first: EnvelopeView,
    claims: ClaimsView,
    second: EnvelopeView,
    verdict: Result<ClaimsView, AuthError>,
)
    requires
        !session.authenticated,
        first.message_type == role.authentication_kind(),
        second.message_type == role.authentication_kind(),
    ensures
        ({
            let bound = transition(session, role, first, Ok(claims)).0;
            &&& bound.authenticated
            &&& bound.uuid == claims.sub
            &&& transition(bound, role, second, verdict).0 == bound
            &&& transition(bound, role, second, verdict).1 is Reply
        }),
{
}

/// Whatever arrives, an authenticated session keeps its subject for as long
/// as the connection lives.
pub proof fn lemma_subject_never_changes(
    connection: ConnectionView,
    event: SocketEvent,
    secret: Seq<char>,
    now: u64,
)
    requires
        connection.session.authenticated,
    ensures
        connection_step(connection, event, secret, now).0.session == connection.session,
{
}

/// Nothing leads out of `Closed`, and a closed session processes nothing.
pub proof fn lemma_closed_is_final(
    connection: ConnectionView,
    event: SocketEvent,
    secret: Seq<char>,
    now: u64,
)
    requires
        connection.state() == SessionState::Closed,
    ensures
        connection_step(connection, event, secret, now) == (connection, ActionView::Stop),
{
}

/// A session is closed by a close or a failure of the transport and by
/// nothing else.
pub proof fn lemma_only_the_transport_closes(
    connection: ConnectionView,
    event: SocketEvent,
    secret: Seq<char>,
    now: u64,
)
    requires
        !connection.closed,
    ensures
        connection_step(connection, event, secret, now).0.closed <==> (event is Closed
            || event is Failed),
{
}

/// A step changes nothing of a session but its state: identifier, peer
/// address and role stay, and a session bound to nobody stays well formed.
pub proof fn lemma_step_keeps_the_connection(
    connection: ConnectionView,
    event: SocketEvent,
    secret: Seq<char>,
    now: u64,
)
    ensures
        ({
            let next = connection_step(connection, event, secret, now).0;
            &&& next.uuid == connection.uuid
            &&& next.addr == connection.addr
            &&& next.role == connection.role
            &&& connection.well_formed() ==> next.well_formed()
        }),
{
}

} // verus!
