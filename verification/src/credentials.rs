//! The credential holder: an application token and, once a login has
//! succeeded, the session it yielded.

use vstd::prelude::*;
use crate::exchange::{after_body, after_response, is_success, login_request, LoginRequest, Next};
use crate::session::{AuthError, Session, SessionView};

verus! {

/// An application token with the session established for it, if any.
#[derive(Debug, Clone)]
pub struct TidalCredentials {
    pub token: String,
    pub session: Option<Session>,
}

/// The mathematical content of [`TidalCredentials`].
pub struct CredentialsView {
    pub token: Seq<char>,
    pub session: Option<SessionView>,
}

impl View for TidalCredentials {
    type V = CredentialsView;

    open spec fn view(&self) -> CredentialsView {
        CredentialsView {
            token: self.token@,
            session: match self.session {
                Some(session) => Some(session@),
                None => None,
            },
        }
    }
}

impl TidalCredentials {
    /// The holder with its session replaced by `session`.
    pub open spec fn with_session(self, session: Option<Session>) -> TidalCredentials {
        TidalCredentials { token: self.token, session }
    }

    /// The session that a login's outcome leaves: the session of a success,
    /// none after a failure of either kind.
    pub open spec fn session_of(outcome: Result<Session, AuthError>) -> Option<Session> {
        match outcome {
            Ok(session) => Some(session),
            Err(_) => None,
        }
    }

    /// Whether the holder can be used to log in: its token is not empty.
    pub open spec fn usable(&self) -> bool {
        self.token@.len() > 0
    }

    /// A holder for `token` with no session. The token is taken as it is,
    /// empty or not.
    #[must_use]
    pub fn new(token: &str) -> (credentials: TidalCredentials)
        ensures
            credentials@ == (CredentialsView { token: token@, session: None }),
    {
        TidalCredentials { token: token.to_owned(), session: None }
    }

    /// Replaces the session and keeps the token.
    pub fn session(self, session: Option<Session>) -> (credentials: TidalCredentials)
        ensures
            credentials == self.with_session(session),
    {
        TidalCredentials { token: self.token, session }
    }

    /// Whether the token is set.
    pub fn has_token(&self) -> (set: bool)
        ensures
            set == self.usable(),
    {
        !self.token.as_str().is_empty()
    }

    /// Begins a login with this holder's token: the request to send. An
    /// empty token never reaches the network, so the holder must be usable.
    #[must_use]
    pub fn create_session(&self, username: &str, password: &str) -> (request: LoginRequest)
        requires
            self.usable(),
        ensures
            request@ == login_request(self.token@, username@, password@),
    {
        Session::get_session(self.token.as_str(), username, password)
    }

    /// Begins a login where the holder allows one. `None` tells the caller
    /// to abort: the token is empty, no request exists, and nothing may be
    /// sent. Otherwise the result is the request of
    /// [`TidalCredentials::create_session`].
    #[must_use]
    pub fn begin_session(&self, username: &str, password: &str) -> (request: Option<
        LoginRequest,
    >)
        ensures
            !self.usable() ==> request is None,
            self.usable() ==> request is Some && request->0@ == login_request(
                self.token@,
                username@,
                password@,
            ),
    {
        if self.has_token() {
            Some(self.create_session(username, password))
        } else {
            None
        }
    }

    /// Ends a login: a session obtained is attached, and a failure of either
    /// kind leaves the holder without a session and is not passed on.
    #[must_use]
    pub fn with_outcome(self, outcome: Result<Session, AuthError>) -> (credentials:
        TidalCredentials)
        ensures
            credentials == self.with_session(Self::session_of(outcome)),
    {
        match outcome {
            Ok(session) => self.session(Some(session)),
            Err(_) => self.session(None),
        }
    }
}

/// Replacing the session touches nothing else and leaves no trace of an
/// earlier replacement: two holders made from one differ only in the session
/// each was given, and a second replacement decides alone.
pub proof fn lemma_session_replacement(
    credentials: TidalCredentials,
    first: Option<Session>,
    second: Option<Session>,
)
    ensures
        credentials.with_session(first).session == first,
        credentials.with_session(second).session == second,
        credentials.with_session(first).token == credentials.token,
        credentials.with_session(second).token == credentials.token,
        credentials.with_session(first).with_session(second) == credentials.with_session(second),
{
}

/// A login that fails, for whichever reason, leaves the holder without a
/// session; one that succeeds leaves exactly the session obtained. The token
/// stays as it was either way.
pub proof fn lemma_outcome_collapses(
    credentials: TidalCredentials,
    outcome: Result<Session, AuthError>,
)
    ensures
        outcome is Err ==> credentials.with_session(
            TidalCredentials::session_of(outcome),
        ).session is None,
        outcome is Ok ==> credentials.with_session(
            TidalCredentials::session_of(outcome),
        ).session == Some(outcome->Ok_0),
        credentials.with_session(TidalCredentials::session_of(outcome)).token
            == credentials.token,
{
}

/// A reply with a status outside 200 to 299 ends the login as refused, with
/// no look at its body, and the holder is left without a session.
pub proof fn lemma_refused_login_leaves_no_session(credentials: TidalCredentials, status: u16)
    requires
        !is_success(status),
    ensures
        after_response(Ok(status)) == Next::Rejected,
        credentials.with_session(
            TidalCredentials::session_of(Err(AuthError::CreateSessionFailed)),
        ).session is None,
{
}

/// A transport failure, before a reply or while its body is read, ends the
/// login with that very error as the cause, and the holder is left without a
/// session.
pub proof fn lemma_transport_failure_keeps_cause(
    credentials: TidalCredentials,
    cause: reqwest::Error,
)
    ensures
        after_response(Err(cause)) == Next::Failed(
            AuthError::AuthRequestFailed { source: cause },
        ),
        after_body(Err(cause)) == Err::<Session, AuthError>(
            AuthError::AuthRequestFailed { source: cause },
        ),
        credentials.with_session(TidalCredentials::session_of(after_body(Err(cause)))).session
            is None,
{
}

/// An accepted reply whose body decodes ends the login with the decoded
/// session, which the holder then carries unchanged.
pub proof fn lemma_accepted_login_attaches_session(
    credentials: TidalCredentials,
    status: u16,
    session: Session,
)
    requires
        is_success(status),
    ensures
        after_response(Ok(status)) == Next::ReadBody,
        after_body(Ok(session)) == Ok::<Session, AuthError>(session),
        credentials.with_session(TidalCredentials::session_of(after_body(Ok(session)))).session
            == Some(session),
{
}

} // verus!
