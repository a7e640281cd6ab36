//! Decisions of client authentication, user login and the audit log.

use crate::outcome::ResponseStatus;
use vstd::prelude::*;
use vstd::string::*;

verus! {

/// A client whose credentials were found in the store.
#[derive(Clone, Copy, Debug, PartialEq, Eq, Structural)]
pub struct AuthenticatedClient {
    pub id: i32,
}

/// Why a client could not be authenticated.
#[derive(Clone, Copy, Debug, PartialEq, Eq, Structural)]
pub enum AuthorizationError {
    /// The request carried no matching `client_id` / `client_secret` pair.
    MissingAuthorizationUrlParameter,
    /// The store's connection pool is not available to the request.
    DatabaseConnectionPoolNotFound,
    /// The store failed while fetching the credentials.
    DatabaseError,
}

/// The kind of authentication an audit entry records.
#[derive(Clone, Copy, Debug, PartialEq, Eq, Structural)]
pub enum AuditLogAction {
    ClientTokenAuthentication,
    UserAuthentication,
}

/// The result an audit entry records.
#[derive(Clone, Copy, Debug, PartialEq, Eq, Structural)]
pub enum AuditLogResult {
    Successful,
    Failed,
}

impl AuditLogAction {
    /// The name under which the action is stored.
    pub fn as_str(&self) -> (r: &'static str)
        ensures
            r@ == (match *self {
                AuditLogAction::ClientTokenAuthentication => seq![
                    'c', 'l', 'i', 'e', 'n', 't', '_', 't', 'o', 'k', 'e', 'n', '_',
                    'a', 'u', 't', 'h', 'e', 'n', 't', 'i', 'c', 'a', 't', 'i', 'o', 'n',
                ],
                AuditLogAction::UserAuthentication => seq![
                    'u', 's', 'e', 'r', '_',
                    'a', 'u', 't', 'h', 'e', 'n', 't', 'i', 'c', 'a', 't', 'i', 'o', 'n',
                ],
            }),
    {
        proof {
            reveal_strlit("client_token_authentication");
            reveal_strlit("user_authentication");
        }
        match self {
            AuditLogAction::ClientTokenAuthentication => {
                let r = "client_token_authentication";
                assert(r@ =~= seq![
                    'c', 'l', 'i', 'e', 'n', 't', '_', 't', 'o', 'k', 'e', 'n', '_',
                    'a', 'u', 't', 'h', 'e', 'n', 't', 'i', 'c', 'a', 't', 'i', 'o', 'n',
                ]);
                r
            },
            AuditLogAction::UserAuthentication => {
                let r = "user_authentication";
                assert(r@ =~= seq![
                    'u', 's', 'e', 'r', '_',
                    'a', 'u', 't', 'h', 'e', 'n', 't', 'i', 'c', 'a', 't', 'i', 'o', 'n',
                ]);
                r
            },
        }
    }
}

impl AuditLogResult {
    /// The name under which the result is stored.
    pub fn as_str(&self) -> (r: &'static str)
        ensures
            r@ == (match *self {
                AuditLogResult::Successful => seq!['s', 'u', 'c', 'c', 'e', 's', 's', 'f', 'u', 'l'],
                AuditLogResult::Failed => seq!['f', 'a', 'i', 'l', 'e', 'd'],
            }),
    {
        proof {
            reveal_strlit("successful");
            reveal_strlit("failed");
        }
        match self {
            AuditLogResult::Successful => {
                let r = "successful";
                assert(r@ =~= seq!['s', 'u', 'c', 'c', 'e', 's', 's', 'f', 'u', 'l']);
                r
            },
            AuditLogResult::Failed => {
                let r = "failed";
                assert(r@ =~= seq!['f', 'a', 'i', 'l', 'e', 'd']);
                r
            },
        }
    }
}

/// The text that opens the source of a client authentication audit entry.
pub open spec fn origin_prefix() -> Seq<char> {
    seq![
        'R', 'e', 'q', 'u', 'e', 's', 't', ' ', 'o', 'r', 'i', 'g', 'i', 'n', 'a', 't', 'e', 'd',
        ' ', 'f', 'r', 'o', 'm', ' ',
    ]
}

/// The source recorded for a client authentication attempt from `remote`.
pub fn audit_source(remote: &str) -> (r: String)
    ensures
        r@ == origin_prefix() + remote@,
{
    proof {
        reveal_strlit("Request originated from ");
    }
    let mut r = <String as StringExecFns>::from_str("Request originated from ");
    assert(r@ =~= origin_prefix());
    r.append(remote);
    r
}

/// What became of looking up a client's credentials.
#[derive(Clone, Copy, Debug, PartialEq, Eq, Structural)]
pub enum CredentialCheck {
    /// `client_id` or `client_secret` is missing from the request.
    MissingParameters,
    /// The store's connection pool is not part of the application state.
    PoolNotFound,
    /// No store handle could be had in time.
    StoreUnavailable,
    /// The first matching credentials belong to this client.
    Matched { id: i32 },
    /// No credentials match.
    NoMatch,
    /// The lookup failed.
    QueryFailed,
}

/// The answer to a client's authentication attempt, and the audit entry to
/// write for it, if any.
#[derive(Clone, Copy, Debug, PartialEq, Eq, Structural)]
pub struct GuardDecision {
    pub client: Option<AuthenticatedClient>,
    pub status: ResponseStatus,
    pub error: Option<AuthorizationError>,
    pub audit: Option<AuditLogResult>,
}

pub open spec fn guard_decision_of(check: CredentialCheck) -> GuardDecision {
    match check {
        CredentialCheck::MissingParameters => GuardDecision {
            client: None,
            status: ResponseStatus::Forbidden,
            error: Some(AuthorizationError::MissingAuthorizationUrlParameter),
            audit: None,
        },
        CredentialCheck::PoolNotFound => GuardDecision {
            client: None,
            status: ResponseStatus::InternalServerError,
            error: Some(AuthorizationError::DatabaseConnectionPoolNotFound),
            audit: None,
        },
        CredentialCheck::StoreUnavailable => GuardDecision {
            client: None,
            status: ResponseStatus::ServiceUnavailable,
            error: Some(AuthorizationError::DatabaseError),
            audit: None,
        },
        CredentialCheck::Matched { id } => GuardDecision {
            client: Some(AuthenticatedClient { id }),
            status: ResponseStatus::Success,
            error: None,
            audit: Some(AuditLogResult::Successful),
        },
        CredentialCheck::NoMatch => GuardDecision {
            client: None,
            status: ResponseStatus::Forbidden,
            error: Some(AuthorizationError::MissingAuthorizationUrlParameter),
            audit: Some(AuditLogResult::Failed),
        },
        CredentialCheck::QueryFailed => GuardDecision {
            client: None,
            status: ResponseStatus::InternalServerError,
            error: Some(AuthorizationError::DatabaseError),
            audit: Some(AuditLogResult::Failed),
        },
    }
}

/// Decides a client's authentication: matching credentials authenticate
/// the client, anything else refuses it; every attempt that reached the
/// credentials table is audited.
pub fn decide_client_authentication(check: CredentialCheck) -> (r: GuardDecision)
    ensures
        r == guard_decision_of(check),
{
    match check {
        CredentialCheck::MissingParameters => GuardDecision {
            client: None,
            status: ResponseStatus::Forbidden,
            error: Some(AuthorizationError::MissingAuthorizationUrlParameter),
            audit: None,
        },
        CredentialCheck::PoolNotFound => GuardDecision {
            client: None,
            status: ResponseStatus::InternalServerError,
            error: Some(AuthorizationError::DatabaseConnectionPoolNotFound),
            audit: None,
        },
        CredentialCheck::StoreUnavailable => GuardDecision {
            client: None,
            status: ResponseStatus::ServiceUnavailable,
            error: Some(AuthorizationError::DatabaseError),
            audit: None,
        },
        CredentialCheck::Matched { id } => GuardDecision {
            client: Some(AuthenticatedClient { id }),
            status: ResponseStatus::Success,
            error: None,
            audit: Some(AuditLogResult::Successful),
        },
        CredentialCheck::NoMatch => GuardDecision {
            client: None,
            status: ResponseStatus::Forbidden,
            error: Some(AuthorizationError::MissingAuthorizationUrlParameter),
            audit: Some(AuditLogResult::Failed),
        },
        CredentialCheck::QueryFailed => GuardDecision {
            client: None,
            status: ResponseStatus::InternalServerError,
            error: Some(AuthorizationError::DatabaseError),
            audit: Some(AuditLogResult::Failed),
        },
    }
}

/// How long an issued token is valid, in seconds.
pub const TOKEN_LIFETIME_IN_SECONDS: u64 = 3600;

/// The times a token states, in seconds since the Unix epoch.
#[derive(Clone, Copy, Debug, PartialEq, Eq, Structural)]
pub struct TokenTimes {
    /// Issued at.
    pub iat: u64,
    /// Not valid before.
    pub nbf: u64,
    /// Expires at.
    pub exp: u64,
}

/// The times of a token issued at `issued_at`: valid from the next second
/// on, for `TOKEN_LIFETIME_IN_SECONDS`. `None` where they would not fit.
pub fn token_times(issued_at: u64) -> (r: Option<TokenTimes>)
    ensures
        issued_at + 1 + TOKEN_LIFETIME_IN_SECONDS <= u64::MAX <==> r is Some,
        r is Some ==> r->0 == (TokenTimes {
            iat: issued_at,
            nbf: (issued_at + 1) as u64,
            exp: (issued_at + 1 + TOKEN_LIFETIME_IN_SECONDS) as u64,
        }),
{
    if issued_at > u64::MAX - 1 - TOKEN_LIFETIME_IN_SECONDS {
        return None;
    }
    Some(TokenTimes {
        iat: issued_at,
        nbf: issued_at + 1,
        exp: issued_at + 1 + TOKEN_LIFETIME_IN_SECONDS,
    })
}

/// Where a login stands: the next thing to find out, or the answer.
#[derive(Clone, Copy, Debug, PartialEq, Eq, Structural)]
pub enum LoginStep {
    /// Look up the user by name.
    FindUser,
    /// Check the password against the user's stored hash.
    CheckPassword,
    /// Issue a token for the user.
    IssueToken,
    /// Answer with `status`, write the audit entry, if any; where
    /// `equalize_timing`, first spend the time a password check takes, so
    /// that an unknown name cannot be told from a wrong password.
    Done { status: ResponseStatus, audit: Option<AuditLogResult>, equalize_timing: bool },
}

/// What the last step of a login found.
#[derive(Clone, Copy, Debug, PartialEq, Eq, Structural)]
pub enum LoginEvent {
    UsersFound { count: u64 },
    LookupFailed,
    PasswordChecked { matches: bool },
    PasswordCheckFailed,
    TokenIssued,
    TokenFailed,
}

pub open spec fn refused(equalize_timing: bool) -> LoginStep {
    LoginStep::Done {
        status: ResponseStatus::Unauthorized,
        audit: Some(AuditLogResult::Failed),
        equalize_timing,
    }
}

pub open spec fn server_error() -> LoginStep {
    LoginStep::Done { status: ResponseStatus::InternalServerError, audit: None, equalize_timing: false }
}

pub open spec fn next_login_step(step: LoginStep, ev: LoginEvent) -> LoginStep {
    match step {
        LoginStep::FindUser => match ev {
            LoginEvent::UsersFound { count } => if count == 1 {
                LoginStep::CheckPassword
            } else {
                refused(true)
            },
            _ => refused(true),
        },
        LoginStep::CheckPassword => match ev {
            LoginEvent::PasswordChecked { matches } => if matches {
                LoginStep::IssueToken
            } else {
                refused(false)
            },
            _ => server_error(),
        },
        LoginStep::IssueToken => match ev {
            LoginEvent::TokenIssued => LoginStep::Done {
                status: ResponseStatus::Success,
                audit: Some(AuditLogResult::Successful),
                equalize_timing: false,
            },
            _ => server_error(),
        },
        LoginStep::Done { .. } => step,
    }
}

impl LoginStep {
    /// The next step of a login: exactly one user of that name and a
    /// matching password earn a token; an unknown name or a wrong password
    /// is refused and audited; failures of the check or of issuing the
    /// token are server errors.
    pub fn advance(self, ev: LoginEvent) -> (r: LoginStep)
        ensures
            r == next_login_step(self, ev),
    {
        match self {
            LoginStep::FindUser => match ev {
                LoginEvent::UsersFound { count } => if count == 1 {
                    LoginStep::CheckPassword
                } else {
                    LoginStep::Done {
                        status: ResponseStatus::Unauthorized,
                        audit: Some(AuditLogResult::Failed),
                        equalize_timing: true,
                    }
                },
                _ => LoginStep::Done {
                    status: ResponseStatus::Unauthorized,
                    audit: Some(AuditLogResult::Failed),
                    equalize_timing: true,
                },
            },
            LoginStep::CheckPassword => match ev {
                LoginEvent::PasswordChecked { matches } => if matches {
                    LoginStep::IssueToken
                } else {
                    LoginStep::Done {
                        status: ResponseStatus::Unauthorized,
                        audit: Some(AuditLogResult::Failed),
                        equalize_timing: false,
                    }
                },
                _ => LoginStep::Done {
                    status: ResponseStatus::InternalServerError,
                    audit: None,
                    equalize_timing: false,
                },
            },
            LoginStep::IssueToken => match ev {
                LoginEvent::TokenIssued => LoginStep::Done {
                    status: ResponseStatus::Success,
                    audit: Some(AuditLogResult::Successful),
                    equalize_timing: false,
                },
                _ => LoginStep::Done {
                    status: ResponseStatus::InternalServerError,
                    audit: None,
                    equalize_timing: false,
                },
            },
            LoginStep::Done { .. } => self,
        }
    }
}

} // verus!
