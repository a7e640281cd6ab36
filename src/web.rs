//! Values exchanged with HTTP clients: request bodies, error bodies and the
//! headers added to every response.

use vstd::prelude::*;
use vstd::string::*;

verus! {

/// The largest request body that is read, in bytes (1 MiB).
pub const BODY_LIMIT_BYTES: u64 = 1_048_576;

/// A request body exactly as received.
pub struct RawBody(pub Vec<u8>);

/// The body of an error response.
pub struct CustomHandlerError {
    pub message: String,
}

/// `prefix`, then `middle`, then `suffix`.
fn framed(prefix: &str, middle: &str, suffix: &str) -> (r: String)
    ensures
        r@ == prefix@ + middle@ + suffix@,
{
    let mut r = <String as StringExecFns>::from_str(prefix);
    r.append(middle);
    r.append(suffix);
    r
}

impl CustomHandlerError {
    /// For a malformed request to `uri`.
    pub fn bad_request(uri: &str) -> (r: CustomHandlerError)
        ensures
            r.message@ == "Request to "@ + uri@ + " was not correct"@,
    {
        CustomHandlerError { message: framed("Request to ", uri, " was not correct") }
    }

    /// For a request to `uri` without valid credentials.
    pub fn unauthorized(uri: &str) -> (r: CustomHandlerError)
        ensures
            r.message@ == "Request to "@ + uri@ + " was unauthorized"@,
    {
        CustomHandlerError { message: framed("Request to ", uri, " was unauthorized") }
    }

    /// For a request to `uri` that its credentials do not allow.
    pub fn forbidden(uri: &str) -> (r: CustomHandlerError)
        ensures
            r.message@ == "Request to "@ + uri@ + " was not authorized"@,
    {
        CustomHandlerError { message: framed("Request to ", uri, " was not authorized") }
    }

    /// For a request to a resource `uri` that does not exist.
    pub fn not_found(uri: &str) -> (r: CustomHandlerError)
        ensures
            r.message@ == "Could not find resource "@ + uri@,
    {
        let mut m = <String as StringExecFns>::from_str("Could not find resource ");
        m.append(uri);
        CustomHandlerError { message: m }
    }

    /// For a data point that was stored before.
    pub fn conflict() -> (r: CustomHandlerError)
        ensures
            r.message@ == "The submitted data point seems to be submitted and stored before already"@,
    {
        CustomHandlerError {
            message: <String as StringExecFns>::from_str(
                "The submitted data point seems to be submitted and stored before already",
            ),
        }
    }

    /// For a well-formed request whose content cannot be used.
    pub fn unprocessable_entity() -> (r: CustomHandlerError)
        ensures
            r.message@
                == "The request was well-formed but was unable to be followed due to semantic errors"@,
    {
        CustomHandlerError {
            message: <String as StringExecFns>::from_str(
                "The request was well-formed but was unable to be followed due to semantic errors",
            ),
        }
    }

    /// For a failure on the server's side.
    pub fn internal_server_error() -> (r: CustomHandlerError)
        ensures
            r.message@ == "Internal Server Error"@,
    {
        CustomHandlerError {
            message: <String as StringExecFns>::from_str("Internal Server Error"),
        }
    }
}

/// Adds the cross-origin headers to every response.
pub struct CORS;

impl CORS {
    /// The name under which the response hook is registered.
    pub fn name() -> (r: &'static str)
        ensures
            r@ == "Add CORS headers to responses"@,
    {
        "Add CORS headers to responses"
    }

    /// The headers set on every response, as (name, value).
    pub fn headers() -> (r: Vec<(&'static str, &'static str)>)
        ensures
            r@.len() == 4,
            r@[0].0@ == "Access-Control-Allow-Origin"@ && r@[0].1@ == "*"@,
            r@[1].0@ == "Access-Control-Allow-Methods"@ && r@[1].1@ == "POST, GET, OPTIONS"@,
            r@[2].0@ == "Access-Control-Allow-Headers"@ && r@[2].1@
                == "Content-Type, Authorization"@,
            r@[3].0@ == "Access-Control-Allow-Credentials"@ && r@[3].1@ == "true"@,
    {
        let mut r: Vec<(&'static str, &'static str)> = Vec::new();
        r.push(("Access-Control-Allow-Origin", "*"));
        r.push(("Access-Control-Allow-Methods", "POST, GET, OPTIONS"));
        r.push(("Access-Control-Allow-Headers", "Content-Type, Authorization"));
        r.push(("Access-Control-Allow-Credentials", "true"));
        r
    }
}

/// The body of a login request.
pub struct LoginInformation {
    /// The name of the user.
    pub username: String,
    /// The password for the login request.
    pub password: String,
}

/// The body of a successful login.
pub struct TokenResponse {
    /// The access token to use for API requests.
    pub access_token: String,
}

/// Device status as an iOS client reports it.
pub struct StatusRequestApple {
    pub altimeter_authorization_status: String,
    pub altimeter_is_relative_altitude_available: bool,
    pub background_refresh_status: String,
    pub device_identifier_for_vendor: String,
    pub device_model: String,
    pub device_system_name: String,
    pub device_system_version: String,
    pub device_user_interface_idiom: String,
    pub locale: String,
    pub locale_uses_metric_system: bool,
    pub location_manager_authorization_status: String,
    pub version: String,
}

/// Device status as an Android client reports it.
pub struct StatusRequestAndroid {
    pub hib: i32,
    pub bo: i32,
    pub loc: i32,
    pub ps: i32,
    pub wifi: i32,
}

/// A status message: the report of either platform, and the request id.
pub struct StatusRequest {
    pub ios: Option<StatusRequestApple>,
    pub android: Option<StatusRequestAndroid>,
    pub id: Option<String>,
}

} // verus!
