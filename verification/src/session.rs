//! The session that a successful login yields, and the ways a login fails.

use vstd::prelude::*;

verus! {

/// `reqwest::Error`, the transport's own error. Nothing is claimed of what it
/// holds: a value of it is only carried from the transport to the caller.
#[verifier::external_type_specification]
#[verifier::external_body]
pub struct ExTransportError(reqwest::Error);

/// What the service issues on a successful login. All three fields come from
/// one reply, so a session is never partly filled.
#[derive(Debug, Clone)]
pub struct Session {
    pub user_id: i32,
    pub session_id: String,
    pub country_code: String,
}

/// The mathematical content of a [`Session`].
pub struct SessionView {
    pub user_id: int,
    pub session_id: Seq<char>,
    pub country_code: Seq<char>,
}

impl View for Session {
    type V = SessionView;

    open spec fn view(&self) -> SessionView {
        SessionView {
            user_id: self.user_id as int,
            session_id: self.session_id@,
            country_code: self.country_code@,
        }
    }
}

/// Why a login did not yield a session.
#[derive(Debug)]
pub enum AuthError {
    /// The request did not get through, or its reply could not be read; the
    /// transport's error is kept as the cause.
    AuthRequestFailed { source: reqwest::Error },
    /// The service answered and refused the login.
    CreateSessionFailed,
}

impl From<reqwest::Error> for AuthError {
    /// A transport error becomes a failed request with that error as cause.
    fn from(source: reqwest::Error) -> (error: AuthError) {
        AuthError::AuthRequestFailed { source }
    }
}

impl vstd::std_specs::convert::FromSpecImpl<reqwest::Error> for AuthError {
    open spec fn obeys_from_spec() -> bool {
        true
    }

    open spec fn from_spec(source: reqwest::Error) -> AuthError {
        AuthError::AuthRequestFailed { source }
    }
}

impl AuthError {
    /// The text that describes each kind of failure.
    pub open spec fn spec_message(&self) -> Seq<char> {
        match self {
            AuthError::AuthRequestFailed { .. } => "The Authetication request failed"@,
            AuthError::CreateSessionFailed => "Fetch session failed"@,
        }
    }

    /// A one-line description of the failure, for display.
    pub fn message(&self) -> (text: String)
        ensures
            text@ == self.spec_message(),
    {
        match self {
            AuthError::AuthRequestFailed { .. } => "The Authetication request failed".to_owned(),
            AuthError::CreateSessionFailed => "Fetch session failed".to_owned(),
        }
    }

    /// The underlying error, where the failure has one.
    pub open spec fn spec_cause(&self) -> Option<&reqwest::Error> {
        match self {
            AuthError::AuthRequestFailed { source } => Some(source),
            AuthError::CreateSessionFailed => None,
        }
    }

    /// The transport's error behind a failed request; a refused login has
    /// none.
    pub fn cause(&self) -> (cause: Option<&reqwest::Error>)
        ensures
            cause == self.spec_cause(),
    {
        match self {
            AuthError::AuthRequestFailed { source } => Some(source),
            AuthError::CreateSessionFailed => None,
        }
    }
}

} // verus!
