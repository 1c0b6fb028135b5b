//! The errors the gateway reports, and the response body that carries them.

use vstd::prelude::*;

verus! {

/// What `Display` of `axum::http::StatusCode` writes for a status code:
/// the number, a space and the canonical reason phrase.
pub uninterp spec fn status_text(code: u16) -> Seq<char>;

/// Wraps `axum::http::StatusCode::from_u16` followed by `to_string`.
/// `from_u16` accepts exactly the codes from 100 to 999, so the error arm is
/// never taken; the text is the one `status_text` names.
#[verifier::external_body]
fn format_status(code: u16) -> (text: String)
    requires
        100 <= code <= 999,
    ensures
        text@ == status_text(code),
{
    match axum::http::StatusCode::from_u16(code) {
        Ok(status) => status.to_string(),
        Err(_) => String::new(),
    }
}

/// An HTTP status code, always between 100 and 999.
#[derive(Clone, Copy, Debug, PartialEq, Eq, Structural)]
pub struct HttpStatus {
    code: u16,
}

impl HttpStatus {
    #[verifier::type_invariant]
    spec fn in_range(self) -> bool {
        100 <= self.code <= 999
    }

    /// The numeric code.
    pub closed spec fn value(self) -> u16 {
        self.code
    }

    /// The status with the given code, if the code lies between 100 and 999.
    pub fn from_u16(code: u16) -> (status: Option<HttpStatus>)
        ensures
            status is Some <==> 100 <= code <= 999,
            status matches Some(s) ==> s.value() == code,
    {
        if 100 <= code && code <= 999 {
            Some(HttpStatus { code })
        } else {
            None
        }
    }

    /// 400 Bad Request.
    pub fn bad_request() -> (status: HttpStatus)
        ensures
            status.value() == 400,
    {
        HttpStatus { code: 400 }
    }

    /// 401 Unauthorized.
    pub fn unauthorized() -> (status: HttpStatus)
        ensures
            status.value() == 401,
    {
        HttpStatus { code: 401 }
    }

    /// 404 Not Found.
    pub fn not_found() -> (status: HttpStatus)
        ensures
            status.value() == 404,
    {
        HttpStatus { code: 404 }
    }

    /// 500 Internal Server Error.
    pub fn internal_server_error() -> (status: HttpStatus)
        ensures
            status.value() == 500,
    {
        HttpStatus { code: 500 }
    }

    /// The numeric code.
    pub fn as_u16(&self) -> (code: u16)
        ensures
            code == self.value(),
            100 <= code <= 999,
    {
        proof {
            use_type_invariant(self);
        }
        self.code
    }

    /// The status line text, such as `401 Unauthorized`.
    pub fn text(&self) -> (text: String)
        ensures
            text@ == status_text(self.value()),
    {
        proof {
            use_type_invariant(self);
        }
        format_status(self.code)
    }
}

/// The JSON body of an error response.
#[derive(Clone, Debug, PartialEq, Eq)]
pub struct ErrorMessage {
    pub status: String,
    pub message: String,
}

/// An error response before it is put on the wire.
#[derive(Clone, Debug, PartialEq, Eq)]
pub struct ErrorResponse {
    pub status: HttpStatus,
    pub body: ErrorMessage,
}

/// The ways in which authentication fails.
#[derive(Clone, Copy, Debug, PartialEq, Eq, Structural)]
pub enum AuthError {
    /// No credential was supplied.
    Unauthenticated,
    /// A credential was supplied and is malformed, forged or expired.
    InvalidToken,
    /// The envelope is not acceptable in the session's current state.
    ProtocolViolation,
    /// Anything unexpected.
    Internal,
}

impl AuthError {
    /// The application error that reports this failure over HTTP: a missing
    /// or invalid credential is answered with 401, a protocol violation with
    /// 400, and an internal error tells the caller nothing.
    pub open spec fn reported_as(self, error: AppError) -> bool {
        match self {
            AuthError::Unauthenticated => {
                &&& error is Auth
                &&& error.message_text() == "Unauthenticated"@
                &&& error.status_code() == 401
            },
            AuthError::InvalidToken => {
                &&& error is Token
                &&& error.message_text() == "Invalid token"@
                &&& error.status_code() == 401
            },
            AuthError::ProtocolViolation => {
                &&& error is Validation
                &&& error.message_text() == "Protocol violation"@
                &&& error.status_code() == 400
            },
            AuthError::Internal => error == AppError::InternalServer,
        }
    }

    /// The application error that reports this failure over HTTP.
    pub fn to_app_error(self) -> (error: AppError)
        ensures
            self.reported_as(error),
    {
        match self {
            AuthError::Unauthenticated => AppError::Auth {
                message: "Unauthenticated".to_string(),
                status: HttpStatus::unauthorized(),
            },
            AuthError::InvalidToken => AppError::Token {
                message: "Invalid token".to_string(),
                status: HttpStatus::unauthorized(),
            },
            AuthError::ProtocolViolation => AppError::Validation {
                messages: "Protocol violation".to_string(),
                status: HttpStatus::bad_request(),
            },
            AuthError::Internal => AppError::InternalServer,
        }
    }
}

/// An error of the application together with the status it is answered with.
///
/// - `InternalServer`: the cause is not told to the caller
/// - `Auth`: registration and login
/// - `User`: accounts
/// - `Token`: bearer credentials
/// - `PrintFile`: print files
/// - `Agent`: agents
/// - `Validation`: a request that breaks a rule; the messages are separated by commas
#[derive(Clone, Debug, PartialEq, Eq)]
pub enum AppError {
    InternalServer,
    Auth { message: String, status: HttpStatus },
    User { message: String, status: HttpStatus },
    Token { message: String, status: HttpStatus },
    PrintFile { message: String, status: HttpStatus },
    Agent { message: String, status: HttpStatus },
    Validation { messages: String, status: HttpStatus },
}

impl AppError {
    /// The text shown to the caller.
    pub open spec fn message_text(self) -> Seq<char> {
        match self {
            AppError::InternalServer => "Something went wrong, please try again"@,
            AppError::Auth { message, .. } => message@,
            AppError::User { message, .. } => message@,
            AppError::Token { message, .. } => message@,
            AppError::PrintFile { message, .. } => message@,
            AppError::Agent { message, .. } => message@,
            AppError::Validation { messages, .. } => messages@,
        }
    }

    /// The code of the status the error is answered with.
    pub open spec fn status_code(self) -> u16 {
        match self {
            AppError::InternalServer => 500,
            AppError::Auth { status, .. } => status.value(),
            AppError::User { status, .. } => status.value(),
            AppError::Token { status, .. } => status.value(),
            AppError::PrintFile { status, .. } => status.value(),
            AppError::Agent { status, .. } => status.value(),
            AppError::Validation { status, .. } => status.value(),
        }
    }

    /// Whether the error shows the given message and is answered with the
    /// given status.
    pub open spec fn says(self, message: Seq<char>, status: u16) -> bool {
        self.message_text() == message && self.status_code() == status
    }

    /// The text shown to the caller.
    pub fn message(&self) -> (text: String)
        ensures
            text@ == self.message_text(),
    {
        match self {
            AppError::InternalServer => "Something went wrong, please try again".to_string(),
            AppError::Auth { message, .. } => message.clone(),
            AppError::User { message, .. } => message.clone(),
            AppError::Token { message, .. } => message.clone(),
            AppError::PrintFile { message, .. } => message.clone(),
            AppError::Agent { message, .. } => message.clone(),
            AppError::Validation { messages, .. } => messages.clone(),
        }
    }

    /// The status the error is answered with.
    pub fn status(&self) -> (status: HttpStatus)
        ensures
            status.value() == self.status_code(),
    {
        match self {
            AppError::InternalServer => HttpStatus::internal_server_error(),
            AppError::Auth { status, .. } => *status,
            AppError::User { status, .. } => *status,
            AppError::Token { status, .. } => *status,
            AppError::PrintFile { status, .. } => *status,
            AppError::Agent { status, .. } => *status,
            AppError::Validation { status, .. } => *status,
        }
    }

    /// The response that reports the error: its status, and a body that
    /// repeats the status line and gives the message.
    pub fn into_response(self) -> (response: ErrorResponse)
        ensures
            response.status.value() == self.status_code(),
            response.body.status@ == status_text(self.status_code()),
            response.body.message@ == self.message_text(),
    {
        let status = self.status();
        let body = ErrorMessage { status: status.text(), message: self.message() };
        ErrorResponse { status, body }
    }
}

} // verus!
