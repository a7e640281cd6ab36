use vstd::prelude::*;

verus! {

/// Why handling a report failed.
#[derive(Clone, Copy, Debug, PartialEq, Eq, Structural)]
pub enum OwnTracksError {
    /// Each location can only be stored once; a second submission is rejected.
    LocationAlreadyKnown,
    /// The BSSID/SSID combination was stored concurrently (reported only
    /// under `ApRacePolicy::Report`).
    WiFiAPInformationAlreadyKnown,
    /// The store failed while querying or saving an entity.
    GenericDatabaseError,
    /// The request body could not be read as the expected data.
    RequestBodyParsingError,
}

impl OwnTracksError {
    /// A fixed, human-readable description of the error; it carries no
    /// detail of what the store reported.
    pub fn message(&self) -> (r: &'static str)
        ensures
            r@ == error_message(*self),
    {
        match self {
            OwnTracksError::LocationAlreadyKnown => "The provided location is already known",
            OwnTracksError::WiFiAPInformationAlreadyKnown => {
                "The provided WiFi access point BSSID/SSID combination is already known"
            },
            OwnTracksError::GenericDatabaseError => {
                "There was an generic database error while trying to query or save an entity"
            },
            OwnTracksError::RequestBodyParsingError => {
                "There was an error while trying to parse the request body to the expected data type"
            },
        }
    }
}

/// The description of each error.
pub open spec fn error_message(e: OwnTracksError) -> Seq<char> {
    match e {
        OwnTracksError::LocationAlreadyKnown => "The provided location is already known"@,
        OwnTracksError::WiFiAPInformationAlreadyKnown => {
            "The provided WiFi access point BSSID/SSID combination is already known"@
        },
        OwnTracksError::GenericDatabaseError => {
            "There was an generic database error while trying to query or save an entity"@
        },
        OwnTracksError::RequestBodyParsingError => {
            "There was an error while trying to parse the request body to the expected data type"@
        },
    }
}

/// Different errors have different descriptions.
pub proof fn lemma_error_messages_distinct(a: OwnTracksError, b: OwnTracksError)
    requires
        a != b,
    ensures
        error_message(a) != error_message(b),
{
    reveal_strlit("The provided location is already known");
    reveal_strlit("The provided WiFi access point BSSID/SSID combination is already known");
    reveal_strlit("There was an generic database error while trying to query or save an entity");
    reveal_strlit(
        "There was an error while trying to parse the request body to the expected data type",
    );
    let (ma, mb) = (error_message(a), error_message(b));
    assert(ma[3] != mb[3] || ma[13] != mb[13]);
}

/// The HTTP status that answers a request.
#[derive(Clone, Copy, Debug, PartialEq, Eq, Structural)]
pub enum ResponseStatus {
    Success,
    NoContent,
    BadRequest,
    Unauthorized,
    Forbidden,
    NotFound,
    Conflict,
    UnprocessableEntity,
    InternalServerError,
    ServiceUnavailable,
}

/// The numeric code of a status.
pub open spec fn status_code_of(s: ResponseStatus) -> u16 {
    match s {
        ResponseStatus::Success => 200,
        ResponseStatus::NoContent => 204,
        ResponseStatus::BadRequest => 400,
        ResponseStatus::Unauthorized => 401,
        ResponseStatus::Forbidden => 403,
        ResponseStatus::NotFound => 404,
        ResponseStatus::Conflict => 409,
        ResponseStatus::UnprocessableEntity => 422,
        ResponseStatus::InternalServerError => 500,
        ResponseStatus::ServiceUnavailable => 503,
    }
}

impl ResponseStatus {
    /// The numeric HTTP code.
    pub fn code(&self) -> (r: u16)
        ensures
            r == status_code_of(*self),
    {
        match self {
            ResponseStatus::Success => 200,
            ResponseStatus::NoContent => 204,
            ResponseStatus::BadRequest => 400,
            ResponseStatus::Unauthorized => 401,
            ResponseStatus::Forbidden => 403,
            ResponseStatus::NotFound => 404,
            ResponseStatus::Conflict => 409,
            ResponseStatus::UnprocessableEntity => 422,
            ResponseStatus::InternalServerError => 500,
            ResponseStatus::ServiceUnavailable => 503,
        }
    }
}

/// The status that an error is answered with.
pub open spec fn error_status(e: OwnTracksError) -> ResponseStatus {
    match e {
        OwnTracksError::LocationAlreadyKnown => ResponseStatus::Conflict,
        OwnTracksError::WiFiAPInformationAlreadyKnown => ResponseStatus::Conflict,
        OwnTracksError::RequestBodyParsingError => ResponseStatus::UnprocessableEntity,
        OwnTracksError::GenericDatabaseError => ResponseStatus::InternalServerError,
    }
}

/// The status that answers the handling of a message: no content on
/// success, else the status of the error.
pub fn status_for_result(r: Result<(), OwnTracksError>) -> (s: ResponseStatus)
    ensures
        match r {
            Ok(_) => s == ResponseStatus::NoContent,
            Err(e) => s == error_status(e),
        },
{
    match r {
        Ok(_) => ResponseStatus::NoContent,
        Err(OwnTracksError::LocationAlreadyKnown) => ResponseStatus::Conflict,
        Err(OwnTracksError::WiFiAPInformationAlreadyKnown) => ResponseStatus::Conflict,
        Err(OwnTracksError::RequestBodyParsingError) => ResponseStatus::UnprocessableEntity,
        Err(OwnTracksError::GenericDatabaseError) => ResponseStatus::InternalServerError,
    }
}

} // verus!
