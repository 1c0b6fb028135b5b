//! The envelope exchanged over a duplex connection, and its form on the wire.
//!
//! On the wire an envelope is a JSON object with two string members:
//! `message_type`, the name of the kind, and `body`.

use vstd::prelude::*;
use crate::common::app_error::{AppError, AuthError};
use crate::common::text::same_text;

verus! {

#[verifier::external_type_specification]
#[verifier::external_body]
pub struct ExJsonError(serde_json::Error);

/// The name of the member that holds the kind.
pub const KIND_MEMBER: &'static str = "message_type";

/// The name of the member that holds the body.
pub const BODY_MEMBER: &'static str = "body";

/// What `serde_json::from_str` finds in a text under two member names:
/// `None` where the text is not JSON, else the member of the value under
/// the first name and the member under the second, each if it is there and
/// a string.
pub uninterp spec fn string_members(text: Seq<char>, first: Seq<char>, second: Seq<char>) -> Option<
    (Option<Seq<char>>, Option<Seq<char>>),
>;

/// The two members of an envelope that a text on the wire holds.
pub open spec fn envelope_members(text: Seq<char>) -> Option<
    (Option<Seq<char>>, Option<Seq<char>>),
> {
    string_members(text, KIND_MEMBER@, BODY_MEMBER@)
}

/// The kind of an envelope.
#[derive(Clone, Copy, Debug, PartialEq, Eq, Structural)]
pub enum WebSocketMessageType {
    UserAuthentication,
    User,
    AgentAuthentication,
    Agent,
    Printer,
    Error,
}

/// One message exchanged over a duplex connection. What the body means
/// depends on the kind.
#[derive(Clone, Debug, PartialEq, Eq)]
pub struct WebSocketMessage {
    pub body: String,
    pub message_type: WebSocketMessageType,
}

/// The mathematical content of an envelope.
pub struct EnvelopeView {
    pub body: Seq<char>,
    pub message_type: WebSocketMessageType,
}

impl View for WebSocketMessage {
    type V = EnvelopeView;

    open spec fn view(&self) -> EnvelopeView {
        EnvelopeView { body: self.body@, message_type: self.message_type }
    }
}

/// The two members of an envelope as read from the wire, before the kind is
/// looked up.
#[derive(Clone, Debug, PartialEq, Eq)]
pub struct EnvelopeMembers {
    pub message_type: Option<String>,
    pub body: Option<String>,
}

impl View for EnvelopeMembers {
    type V = (Option<Seq<char>>, Option<Seq<char>>);

    open spec fn view(&self) -> Self::V {
        (
            match self.message_type {
                Some(name) => Some(name@),
                None => None,
            },
            match self.body {
                Some(body) => Some(body@),
                None => None,
            },
        )
    }
}

impl WebSocketMessageType {
    /// The name of the kind on the wire.
    pub open spec fn name_text(self) -> Seq<char> {
        match self {
            WebSocketMessageType::UserAuthentication => "UserAuthentication"@,
            WebSocketMessageType::User => "User"@,
            WebSocketMessageType::AgentAuthentication => "AgentAuthentication"@,
            WebSocketMessageType::Agent => "Agent"@,
            WebSocketMessageType::Printer => "Printer"@,
            WebSocketMessageType::Error => "Error"@,
        }
    }

    /// The kind with the given name on the wire, if there is one.
    pub open spec fn named(name: Seq<char>) -> Option<WebSocketMessageType> {
        if name == "UserAuthentication"@ {
            Some(WebSocketMessageType::UserAuthentication)
        } else if name == "User"@ {
            Some(WebSocketMessageType::User)
        } else if name == "AgentAuthentication"@ {
            Some(WebSocketMessageType::AgentAuthentication)
        } else if name == "Agent"@ {
            Some(WebSocketMessageType::Agent)
        } else if name == "Printer"@ {
            Some(WebSocketMessageType::Printer)
        } else if name == "Error"@ {
            Some(WebSocketMessageType::Error)
        } else {
            None
        }
    }

    /// The name of the kind on the wire.
    pub fn name(&self) -> (name: &'static str)
        ensures
            name@ == self.name_text(),
    {
        match self {
            WebSocketMessageType::UserAuthentication => "UserAuthentication",
            WebSocketMessageType::User => "User",
            WebSocketMessageType::AgentAuthentication => "AgentAuthentication",
            WebSocketMessageType::Agent => "Agent",
            WebSocketMessageType::Printer => "Printer",
            WebSocketMessageType::Error => "Error",
        }
    }

    /// The kind with the given name on the wire. A name that belongs to no
    /// kind gives nothing.
    pub fn from_name(name: &str) -> (kind: Option<WebSocketMessageType>)
        ensures
            kind == Self::named(name@),
    {
        if same_text(name, "UserAuthentication") {
            Some(WebSocketMessageType::UserAuthentication)
        } else if same_text(name, "User") {
            Some(WebSocketMessageType::User)
        } else if same_text(name, "AgentAuthentication") {
            Some(WebSocketMessageType::AgentAuthentication)
        } else if same_text(name, "Agent") {
            Some(WebSocketMessageType::Agent)
        } else if same_text(name, "Printer") {
            Some(WebSocketMessageType::Printer)
        } else if same_text(name, "Error") {
            Some(WebSocketMessageType::Error)
        } else {
            None
        }
    }
}

/// Wraps `serde_json::from_str` at the type `serde_json::Value`, then picks
/// the members under the two names with `Value::get` and `Value::as_str`.
/// The result is the one that `string_members` names.
#[verifier::external_body]
fn read_string_members(text: &str, first: &str, second: &str) -> (members: Result<
    (Option<String>, Option<String>),
    serde_json::Error,
>)
    ensures
        match members {
            Ok(found) => string_members(text@, first@, second@) == Some(
                (
                    match found.0 {
                        Some(value) => Some(value@),
                        None => None,
                    },
                    match found.1 {
                        Some(value) => Some(value@),
                        None => None,
                    },
                ),
            ),
            Err(_) => string_members(text@, first@, second@) is None,
        },
{
    let value = serde_json::from_str::<serde_json::Value>(text)?;
    Ok(
        (
            value.get(first).and_then(serde_json::Value::as_str).map(str::to_owned),
            value.get(second).and_then(serde_json::Value::as_str).map(str::to_owned),
        ),
    )
}

/// Wraps `to_string` of a `serde_json::Value` that is an object with two
/// string members under different names. The contract claims that
/// `serde_json::from_str` reads the text back as an object with the same
/// two members.
#[verifier::external_body]
fn write_string_members(first: &str, first_value: &str, second: &str, second_value: &str) -> (text:
    String)
    requires
        first@ != second@,
    ensures
        string_members(text@, first@, second@) == Some((Some(first_value@), Some(second_value@))),
{
    let mut members = serde_json::Map::new();
    members.insert(first.to_string(), serde_json::Value::from(first_value));
    members.insert(second.to_string(), serde_json::Value::from(second_value));
    serde_json::Value::Object(members).to_string()
}

/// The envelope that the members of a JSON text amount to: both members
/// must be there, and the kind must be known.
pub open spec fn envelope_of(members: (Option<Seq<char>>, Option<Seq<char>>)) -> Option<
    EnvelopeView,
> {
    match members {
        (Some(name), Some(body)) => match WebSocketMessageType::named(name) {
            Some(message_type) => Some(EnvelopeView { body, message_type }),
            None => None,
        },
        _ => None,
    }
}

/// The envelope that a text on the wire holds, if it holds one.
pub open spec fn decoded(text: Seq<char>) -> Option<EnvelopeView> {
    match envelope_members(text) {
        Some(members) => envelope_of(members),
        None => None,
    }
}

/// Builds the envelope from its two members as read from the wire. A
/// missing member or an unknown kind is refused as a violation of the
/// protocol.
pub fn envelope_from_members(members: EnvelopeMembers) -> (envelope: Result<
    WebSocketMessage,
    AppError,
>)
    ensures
        match envelope_of(members@) {
            Some(view) => envelope matches Ok(message) && message@ == view,
            None => envelope matches Err(error) && AuthError::ProtocolViolation.reported_as(error),
        },
{
    match (members.message_type, members.body) {
        (Some(name), Some(body)) => match WebSocketMessageType::from_name(name.as_str()) {
            Some(message_type) => Ok(WebSocketMessage { body, message_type }),
            None => Err(AuthError::ProtocolViolation.to_app_error()),
        },
        _ => Err(AuthError::ProtocolViolation.to_app_error()),
    }
}

/// Reads an envelope from its text on the wire. A text that is not JSON, a
/// missing member and an unknown kind are all refused in the same way, as
/// a violation of the protocol.
pub fn decode_envelope(text: &str) -> (envelope: Result<WebSocketMessage, AppError>)
    ensures
        match decoded(text@) {
            Some(view) => envelope matches Ok(message) && message@ == view,
            None => envelope matches Err(error) && AuthError::ProtocolViolation.reported_as(error),
        },
{
    match read_string_members(text, KIND_MEMBER, BODY_MEMBER) {
        Ok(found) => envelope_from_members(EnvelopeMembers { message_type: found.0, body: found.1 }),
        Err(_) => Err(AuthError::ProtocolViolation.to_app_error()),
    }
}

/// Writes an envelope as its text on the wire.
pub fn encode_envelope(message: &WebSocketMessage) -> (text: String)
    ensures
        envelope_members(text@) == Some(
            (Some(message.message_type.name_text()), Some(message.body@)),
        ),
{
    proof {
        reveal_strlit("message_type");
        reveal_strlit("body");
        assert(KIND_MEMBER@.len() != BODY_MEMBER@.len());
    }
    write_string_members(KIND_MEMBER, message.message_type.name(), BODY_MEMBER, message.body.as_str())
}

/// Every kind is found again under its name.
pub proof fn lemma_kind_found_by_name(kind: WebSocketMessageType)
    ensures
        WebSocketMessageType::named(kind.name_text()) == Some(kind),
{
    reveal_strlit("UserAuthentication");
    reveal_strlit("User");
    reveal_strlit("AgentAuthentication");
    reveal_strlit("Agent");
    reveal_strlit("Printer");
    reveal_strlit("Error");
    match kind {
        WebSocketMessageType::UserAuthentication => {},
        WebSocketMessageType::User => {
            assert("User"@.len() != "UserAuthentication"@.len());
        },
        WebSocketMessageType::AgentAuthentication => {
            assert("AgentAuthentication"@.len() != "UserAuthentication"@.len());
            assert("AgentAuthentication"@.len() != "User"@.len());
        },
        WebSocketMessageType::Agent => {
            assert("Agent"@.len() != "UserAuthentication"@.len());
            assert("Agent"@.len() != "User"@.len());
            assert("Agent"@.len() != "AgentAuthentication"@.len());
        },
        WebSocketMessageType::Printer => {
            assert("Printer"@.len() != "UserAuthentication"@.len());
            assert("Printer"@.len() != "User"@.len());
            assert("Printer"@.len() != "AgentAuthentication"@.len());
            assert("Printer"@.len() != "Agent"@.len());
        },
        WebSocketMessageType::Error => {
            assert("Error"@.len() != "UserAuthentication"@.len());
            assert("Error"@.len() != "User"@.len());
            assert("Error"@.len() != "AgentAuthentication"@.len());
            assert("Error"@[0] != "Agent"@[0]);
            assert("Error"@.len() != "Printer"@.len());
        },
    }
}

/// An envelope written to the wire and read back is the same envelope.
pub proof fn lemma_envelope_round_trip(message: EnvelopeView, text: Seq<char>)
    requires
        envelope_members(text) == Some((Some(message.message_type.name_text()), Some(message.body))),
    ensures
        decoded(text) == Some(message),
{
    lemma_kind_found_by_name(message.message_type);
}

} // verus!
