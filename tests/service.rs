use thereiwas::auth::{
    audit_source, decide_client_authentication, token_times, AuditLogAction, AuditLogResult,
    AuthenticatedClient, AuthorizationError, CredentialCheck, LoginEvent, LoginStep, TokenTimes,
};
use thereiwas::dispatch::{classify_message_type, dispatch, status_report_outcome, Dispatch, MessageKind};
use thereiwas::outcome::{status_for_result, OwnTracksError, ResponseStatus};
use thereiwas::settings::{logging_level_of, LogLevel};
use thereiwas::web::{CustomHandlerError, CORS};

#[test]
fn dispatch_by_message_type() {
    assert_eq!(dispatch(Some("location")), Dispatch::HandleLocation);
    assert_eq!(dispatch(Some("status")), Dispatch::HandleStatus);
    assert_eq!(dispatch(Some("waypoint")), Dispatch::Respond(ResponseStatus::BadRequest));
    assert_eq!(dispatch(Some("Location")), Dispatch::Respond(ResponseStatus::BadRequest));
    assert_eq!(dispatch(None), Dispatch::Respond(ResponseStatus::UnprocessableEntity));
    assert_eq!(classify_message_type("status"), Some(MessageKind::Status));
    assert_eq!(classify_message_type("locations"), None);
    assert_eq!(classify_message_type(""), None);
}

#[test]
fn status_reports() {
    assert_eq!(status_report_outcome(true), Ok(()));
    assert_eq!(status_report_outcome(false), Err(OwnTracksError::RequestBodyParsingError));
}

#[test]
fn taxonomy() {
    assert_eq!(status_for_result(Ok(())), ResponseStatus::NoContent);
    assert_eq!(status_for_result(Err(OwnTracksError::LocationAlreadyKnown)), ResponseStatus::Conflict);
    assert_eq!(status_for_result(Err(OwnTracksError::WiFiAPInformationAlreadyKnown)), ResponseStatus::Conflict);
    assert_eq!(status_for_result(Err(OwnTracksError::GenericDatabaseError)), ResponseStatus::InternalServerError);
    assert_eq!(ResponseStatus::Conflict.code(), 409);
    assert_eq!(ResponseStatus::UnprocessableEntity.code(), 422);
    assert_eq!(ResponseStatus::ServiceUnavailable.code(), 503);
    assert_eq!(OwnTracksError::LocationAlreadyKnown.message(), "The provided location is already known");
}

#[test]
fn client_authentication() {
    let ok = decide_client_authentication(CredentialCheck::Matched { id: 3 });
    assert_eq!(ok.client, Some(AuthenticatedClient { id: 3 }));
    assert_eq!(ok.audit, Some(AuditLogResult::Successful));
    let no = decide_client_authentication(CredentialCheck::NoMatch);
    assert_eq!(no.client, None);
    assert_eq!(no.status, ResponseStatus::Forbidden);
    assert_eq!(no.error, Some(AuthorizationError::MissingAuthorizationUrlParameter));
    assert_eq!(no.audit, Some(AuditLogResult::Failed));
    let missing = decide_client_authentication(CredentialCheck::MissingParameters);
    assert_eq!(missing.status, ResponseStatus::Forbidden);
    assert_eq!(missing.audit, None);
    let failed = decide_client_authentication(CredentialCheck::QueryFailed);
    assert_eq!(failed.status, ResponseStatus::InternalServerError);
    assert_eq!(failed.error, Some(AuthorizationError::DatabaseError));
    let pool = decide_client_authentication(CredentialCheck::PoolNotFound);
    assert_eq!(pool.error, Some(AuthorizationError::DatabaseConnectionPoolNotFound));
    let busy = decide_client_authentication(CredentialCheck::StoreUnavailable);
    assert_eq!(busy.status, ResponseStatus::ServiceUnavailable);
}

#[test]
fn audit_texts() {
    assert_eq!(AuditLogAction::ClientTokenAuthentication.as_str(), "client_token_authentication");
    assert_eq!(AuditLogAction::UserAuthentication.as_str(), "user_authentication");
    assert_eq!(AuditLogResult::Successful.as_str(), "successful");
    assert_eq!(AuditLogResult::Failed.as_str(), "failed");
    assert_eq!(audit_source("10.0.0.1"), "Request originated from 10.0.0.1");
}

#[test]
fn token_validity() {
    assert_eq!(token_times(1000), Some(TokenTimes { iat: 1000, nbf: 1001, exp: 4601 }));
    assert_eq!(token_times(u64::MAX - 3601), Some(TokenTimes { iat: u64::MAX - 3601, nbf: u64::MAX - 3600, exp: u64::MAX }));
    assert_eq!(token_times(u64::MAX - 3600), None);
}

#[test]
fn login_flow() {
    let s = LoginStep::FindUser.advance(LoginEvent::UsersFound { count: 1 });
    assert_eq!(s, LoginStep::CheckPassword);
    let s2 = s.advance(LoginEvent::PasswordChecked { matches: true });
    assert_eq!(s2, LoginStep::IssueToken);
    assert_eq!(
        s2.advance(LoginEvent::TokenIssued),
        LoginStep::Done { status: ResponseStatus::Success, audit: Some(AuditLogResult::Successful), equalize_timing: false }
    );
    assert_eq!(
        LoginStep::FindUser.advance(LoginEvent::UsersFound { count: 0 }),
        LoginStep::Done { status: ResponseStatus::Unauthorized, audit: Some(AuditLogResult::Failed), equalize_timing: true }
    );
    assert_eq!(
        LoginStep::FindUser.advance(LoginEvent::UsersFound { count: 2 }),
        LoginStep::Done { status: ResponseStatus::Unauthorized, audit: Some(AuditLogResult::Failed), equalize_timing: true }
    );
    assert_eq!(
        LoginStep::CheckPassword.advance(LoginEvent::PasswordChecked { matches: false }),
        LoginStep::Done { status: ResponseStatus::Unauthorized, audit: Some(AuditLogResult::Failed), equalize_timing: false }
    );
    assert_eq!(
        LoginStep::CheckPassword.advance(LoginEvent::PasswordCheckFailed),
        LoginStep::Done { status: ResponseStatus::InternalServerError, audit: None, equalize_timing: false }
    );
    assert_eq!(
        LoginStep::IssueToken.advance(LoginEvent::TokenFailed),
        LoginStep::Done { status: ResponseStatus::InternalServerError, audit: None, equalize_timing: false }
    );
}

#[test]
fn error_bodies() {
    assert_eq!(CustomHandlerError::bad_request("/v1/owntracks").message, "Request to /v1/owntracks was not correct");
    assert_eq!(CustomHandlerError::unauthorized("/a").message, "Request to /a was unauthorized");
    assert_eq!(CustomHandlerError::forbidden("/a").message, "Request to /a was not authorized");
    assert_eq!(CustomHandlerError::not_found("/b").message, "Could not find resource /b");
    assert_eq!(
        CustomHandlerError::conflict().message,
        "The submitted data point seems to be submitted and stored before already"
    );
    assert_eq!(
        CustomHandlerError::unprocessable_entity().message,
        "The request was well-formed but was unable to be followed due to semantic errors"
    );
    assert_eq!(CustomHandlerError::internal_server_error().message, "Internal Server Error");
}

#[test]
fn cors_headers() {
    assert_eq!(CORS::name(), "Add CORS headers to responses");
    assert_eq!(
        CORS::headers(),
        vec![
            ("Access-Control-Allow-Origin", "*"),
            ("Access-Control-Allow-Methods", "POST, GET, OPTIONS"),
            ("Access-Control-Allow-Headers", "Content-Type, Authorization"),
            ("Access-Control-Allow-Credentials", "true"),
        ]
    );
}

#[test]
fn error_messages_are_fixed_and_distinct() {
    let all = [
        OwnTracksError::LocationAlreadyKnown,
        OwnTracksError::WiFiAPInformationAlreadyKnown,
        OwnTracksError::GenericDatabaseError,
        OwnTracksError::RequestBodyParsingError,
    ];
    assert_eq!(
        OwnTracksError::WiFiAPInformationAlreadyKnown.message(),
        "The provided WiFi access point BSSID/SSID combination is already known"
    );
    assert_eq!(
        OwnTracksError::GenericDatabaseError.message(),
        "There was an generic database error while trying to query or save an entity"
    );
    assert_eq!(
        OwnTracksError::RequestBodyParsingError.message(),
        "There was an error while trying to parse the request body to the expected data type"
    );
    for a in all {
        for b in all {
            assert_eq!(a == b, a.message() == b.message());
        }
    }
}

#[test]
fn logging_levels() {
    assert_eq!(logging_level_of("trace"), Some(LogLevel::Trace));
    assert_eq!(logging_level_of("debug"), Some(LogLevel::Debug));
    assert_eq!(logging_level_of("info"), Some(LogLevel::Info));
    assert_eq!(logging_level_of("warn"), Some(LogLevel::Warn));
    assert_eq!(logging_level_of("error"), Some(LogLevel::Error));
    assert_eq!(logging_level_of("verbose"), None);
    assert_eq!(logging_level_of(""), None);
}
