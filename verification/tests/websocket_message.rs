use printerlynx::common::app_error::{AppError, AuthError, HttpStatus};
use printerlynx::websockets::message::{
    decode_envelope, encode_envelope, envelope_from_members, EnvelopeMembers, WebSocketMessage,
    WebSocketMessageType, BODY_MEMBER, KIND_MEMBER,
};

fn violation() -> AppError {
    AppError::Validation {
        messages: "Protocol violation".to_string(),
        status: HttpStatus::bad_request(),
    }
}

fn all_kinds() -> Vec<(WebSocketMessageType, &'static str)> {
    vec![
        (WebSocketMessageType::UserAuthentication, "UserAuthentication"),
        (WebSocketMessageType::User, "User"),
        (WebSocketMessageType::AgentAuthentication, "AgentAuthentication"),
        (WebSocketMessageType::Agent, "Agent"),
        (WebSocketMessageType::Printer, "Printer"),
        (WebSocketMessageType::Error, "Error"),
    ]
}

#[test]
fn every_kind_has_its_name() {
    for (kind, name) in all_kinds() {
        assert_eq!(kind.name(), name);
        assert_eq!(WebSocketMessageType::from_name(name), Some(kind));
        assert_eq!(WebSocketMessageType::from_name(kind.name()), Some(kind));
    }
}

#[test]
fn unknown_names_belong_to_no_kind() {
    for name in ["", "user", "USER", "Users", "Authentication", "Error ", " Error", "Data"] {
        assert_eq!(WebSocketMessageType::from_name(name), None);
    }
}

#[test]
fn envelope_survives_the_wire() {
    for (kind, _) in all_kinds() {
        for body in ["", "hello", "{\"nested\": \"json\"}", "line\nbreak \"quoted\" \\", "世界 🦀"] {
            let message = WebSocketMessage { body: body.to_string(), message_type: kind };
            let text = encode_envelope(&message);
            assert_ne!(text, body);
            assert_eq!(decode_envelope(&text), Ok(message));
        }
    }
}

#[test]
fn wire_form_is_a_json_object_with_two_members() {
    let message = WebSocketMessage {
        body: "token".to_string(),
        message_type: WebSocketMessageType::UserAuthentication,
    };
    let text = encode_envelope(&message);
    let value: serde_json::Value = serde_json::from_str(&text).unwrap();
    let object = value.as_object().unwrap();
    assert_eq!(object.len(), 2);
    assert_eq!(object["body"], "token");
    assert_eq!(object["message_type"], "UserAuthentication");
    assert_eq!(KIND_MEMBER, "message_type");
    assert_eq!(BODY_MEMBER, "body");
}

#[test]
fn envelope_is_read_from_json() {
    let text = r#"{"body": "abc", "message_type": "Printer"}"#;
    assert_eq!(
        decode_envelope(text),
        Ok(WebSocketMessage { body: "abc".to_string(), message_type: WebSocketMessageType::Printer })
    );
    let reordered = r#"{"message_type": "Agent", "extra": [1, 2], "body": ""}"#;
    assert_eq!(
        decode_envelope(reordered),
        Ok(WebSocketMessage { body: "".to_string(), message_type: WebSocketMessageType::Agent })
    );
}

#[test]
fn unknown_kind_is_refused() {
    let text = r#"{"body": "abc", "message_type": "Telemetry"}"#;
    assert_eq!(decode_envelope(text), Err(violation()));
    let lower = r#"{"body": "abc", "message_type": "error"}"#;
    assert_eq!(decode_envelope(lower), Err(violation()));
}

#[test]
fn refusal_is_the_report_of_a_protocol_violation() {
    let refused = decode_envelope(r#"{"body":"x","message_type":"Bogus"}"#).unwrap_err();
    assert_eq!(refused, AuthError::ProtocolViolation.to_app_error());
    assert_ne!(refused, AuthError::Internal.to_app_error());
    assert_eq!(refused.status().as_u16(), 400);
    assert_eq!(refused.message(), "Protocol violation");
}

#[test]
fn malformed_envelopes_are_refused() {
    for text in [
        "",
        "Pong",
        "{",
        "[]",
        "null",
        "42",
        "\"User\"",
        "{}",
        r#"{"body": "abc"}"#,
        r#"{"message_type": "User"}"#,
        r#"{"body": 1, "message_type": "User"}"#,
        r#"{"body": "abc", "message_type": 3}"#,
        r#"{"body": null, "message_type": "User"}"#,
        r#"{"body": "abc", "message_type": "User"} trailing"#,
    ] {
        assert_eq!(decode_envelope(text), Err(violation()), "{}", text);
    }
}

#[test]
fn members_become_an_envelope_only_when_both_are_there() {
    let whole = EnvelopeMembers {
        message_type: Some("Error".to_string()),
        body: Some("reason".to_string()),
    };
    assert_eq!(
        envelope_from_members(whole),
        Ok(WebSocketMessage { body: "reason".to_string(), message_type: WebSocketMessageType::Error })
    );
    let no_kind = EnvelopeMembers { message_type: None, body: Some("reason".to_string()) };
    assert_eq!(envelope_from_members(no_kind), Err(violation()));
    let no_body = EnvelopeMembers { message_type: Some("Error".to_string()), body: None };
    assert_eq!(envelope_from_members(no_body), Err(violation()));
    let unknown = EnvelopeMembers {
        message_type: Some("Nope".to_string()),
        body: Some("reason".to_string()),
    };
    assert_eq!(envelope_from_members(unknown), Err(violation()));
    let neither = EnvelopeMembers { message_type: None, body: None };
    assert_eq!(envelope_from_members(neither), Err(violation()));
}
