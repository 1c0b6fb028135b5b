use printerlynx::common::app_error::{AppError, AuthError, HttpStatus};

#[test]
fn test_app_error_message() {
    let err = AppError::Auth { message: "test".to_string(), status: HttpStatus::bad_request() };
    assert_eq!(err.message(), "test");
}

#[test]
fn test_app_error_into_response() {
    let err = AppError::Auth { message: "test".to_string(), status: HttpStatus::bad_request() };
    let response = err.into_response();
    assert_eq!(response.status, HttpStatus::bad_request());
}

#[test]
fn response_body_repeats_status_line_and_message() {
    let err = AppError::Auth { message: "test".to_string(), status: HttpStatus::bad_request() };
    let response = err.into_response();
    assert_eq!(response.status.as_u16(), 400);
    assert_eq!(response.body.status, "400 Bad Request");
    assert_eq!(response.body.message, "test");
}

#[test]
fn internal_server_error_tells_nothing() {
    let err = AppError::InternalServer;
    assert_eq!(err.message(), "Something went wrong, please try again");
    assert_eq!(err.status().as_u16(), 500);
    let response = err.into_response();
    assert_eq!(response.status.as_u16(), 500);
    assert_eq!(response.body.status, "500 Internal Server Error");
    assert_eq!(response.body.message, "Something went wrong, please try again");
}

#[test]
fn every_variant_shows_its_own_message_and_status() {
    let status = HttpStatus::not_found();
    let errors = vec![
        AppError::Auth { message: "a".to_string(), status },
        AppError::User { message: "a".to_string(), status },
        AppError::Token { message: "a".to_string(), status },
        AppError::PrintFile { message: "a".to_string(), status },
        AppError::Agent { message: "a".to_string(), status },
        AppError::Validation { messages: "a".to_string(), status },
    ];
    for err in errors {
        assert_eq!(err.message(), "a");
        assert_eq!(err.status().as_u16(), 404);
        assert_eq!(err.into_response().body.status, "404 Not Found");
    }
}

#[test]
fn status_codes_run_from_100_to_999() {
    assert_eq!(HttpStatus::from_u16(0), None);
    assert_eq!(HttpStatus::from_u16(99), None);
    assert_eq!(HttpStatus::from_u16(100).map(|s| s.as_u16()), Some(100));
    assert_eq!(HttpStatus::from_u16(418).map(|s| s.as_u16()), Some(418));
    assert_eq!(HttpStatus::from_u16(999).map(|s| s.as_u16()), Some(999));
    assert_eq!(HttpStatus::from_u16(1000), None);
    assert_eq!(HttpStatus::from_u16(u16::MAX), None);
}

#[test]
fn named_statuses_have_their_codes() {
    assert_eq!(HttpStatus::bad_request().as_u16(), 400);
    assert_eq!(HttpStatus::unauthorized().as_u16(), 401);
    assert_eq!(HttpStatus::not_found().as_u16(), 404);
    assert_eq!(HttpStatus::internal_server_error().as_u16(), 500);
    assert_eq!(HttpStatus::from_u16(401), Some(HttpStatus::unauthorized()));
}

#[test]
fn status_text_is_code_and_reason() {
    assert_eq!(HttpStatus::unauthorized().text(), "401 Unauthorized");
    assert_eq!(HttpStatus::from_u16(200).unwrap().text(), "200 OK");
    assert_eq!(HttpStatus::from_u16(100).unwrap().text(), "100 Continue");
    assert_eq!(HttpStatus::from_u16(999).unwrap().text(), "999 <unknown status code>");
}

#[test]
fn authentication_failures_are_reported_over_http() {
    assert_eq!(
        AuthError::Unauthenticated.to_app_error(),
        AppError::Auth { message: "Unauthenticated".to_string(), status: HttpStatus::unauthorized() }
    );
    assert_eq!(
        AuthError::InvalidToken.to_app_error(),
        AppError::Token { message: "Invalid token".to_string(), status: HttpStatus::unauthorized() }
    );
    assert_eq!(
        AuthError::ProtocolViolation.to_app_error(),
        AppError::Validation {
            messages: "Protocol violation".to_string(),
            status: HttpStatus::bad_request()
        }
    );
    assert_eq!(AuthError::Internal.to_app_error(), AppError::InternalServer);
}
