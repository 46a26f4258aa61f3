//! The session exchanger: what a login request holds, what each reply to it
//! means, and what is put on record when the service refuses.

use vstd::prelude::*;
use crate::session::{AuthError, Session};

verus! {

/// Where a login is posted.
pub const LOGIN_URL: &'static str = "https://api.tidalhifi.com/v1/login/username";

/// What stands in a record for a value that must not be read there.
pub const MASK: &'static str = "***";

/// One named text value of a request.
#[derive(Debug, Clone)]
pub struct Field {
    pub name: String,
    pub value: String,
}

impl View for Field {
    type V = (Seq<char>, Seq<char>);

    open spec fn view(&self) -> (Seq<char>, Seq<char>) {
        (self.name@, self.value@)
    }
}

/// The names and values of `fields`, in their order.
pub open spec fn pairs(fields: Seq<Field>) -> Seq<(Seq<char>, Seq<char>)> {
    fields.map_values(|f: Field| f@)
}

/// A single HTTP POST: the address, the parameters of its query string, and
/// the fields of its form-encoded body, each in the order they are sent.
#[derive(Debug, Clone)]
pub struct LoginRequest {
    pub url: String,
    pub query: Vec<Field>,
    pub form: Vec<Field>,
}

/// The mathematical content of a [`LoginRequest`].
pub struct LoginRequestView {
    pub url: Seq<char>,
    pub query: Seq<(Seq<char>, Seq<char>)>,
    pub form: Seq<(Seq<char>, Seq<char>)>,
}

impl View for LoginRequest {
    type V = LoginRequestView;

    open spec fn view(&self) -> LoginRequestView {
        LoginRequestView { url: self.url@, query: pairs(self.query@), form: pairs(self.form@) }
    }
}

/// The request that logs `username` in: the application token travels in the
/// query string, the user's name and password in the body.
pub open spec fn login_request(
    token: Seq<char>,
    username: Seq<char>,
    password: Seq<char>,
) -> LoginRequestView {
    LoginRequestView {
        url: LOGIN_URL@,
        query: seq![("token"@, token)],
        form: seq![("username"@, username), ("password"@, password)],
    }
}

/// `fields` with every value replaced by the mask; names and order stay.
pub open spec fn masked(fields: Seq<(Seq<char>, Seq<char>)>) -> Seq<(Seq<char>, Seq<char>)> {
    fields.map_values(|f: (Seq<char>, Seq<char>)| (f.0, MASK@))
}

/// What of a request goes on record: its address and query string as they
/// were sent, and of its form only the names of the fields.
pub open spec fn record_of(request: LoginRequestView) -> LoginRequestView {
    LoginRequestView { url: request.url, query: request.query, form: masked(request.form) }
}

/// What follows once the request has been sent.
#[derive(Debug)]
pub enum Next {
    /// The service accepted the login: decode the reply's body as a session
    /// and hand the result to [`Session::on_body`].
    ReadBody,
    /// The service refused the login: read the reply's body as text and hand
    /// it to [`LoginRequest::on_refusal`].
    Rejected,
    /// No reply arrived: fail with the error held here.
    Failed(AuthError),
}

/// What is put on record when a login is refused. The user's name and
/// password are not in it.
#[derive(Debug)]
pub struct Diagnostic {
    /// The refused request, with its form values masked.
    pub request: LoginRequest,
    /// The body of the refusing reply as it came, where it could be read.
    pub body: Option<String>,
}

/// The mathematical content of a [`Diagnostic`].
pub struct DiagnosticView {
    pub request: LoginRequestView,
    pub body: Option<Seq<char>>,
}

impl View for Diagnostic {
    type V = DiagnosticView;

    open spec fn view(&self) -> DiagnosticView {
        DiagnosticView {
            request: self.request@,
            body: match self.body {
                Some(text) => Some(text@),
                None => None,
            },
        }
    }
}

/// How a refused login ends: the record to emit, then the error to return.
#[derive(Debug)]
pub struct Refusal {
    pub diagnostic: Diagnostic,
    pub error: AuthError,
}

/// Whether an HTTP status reports success.
pub open spec fn is_success(status: u16) -> bool {
    200 <= status < 300
}

/// What a reply to the login request calls for: `sent` is the reply's HTTP
/// status, or the transport's error where no reply arrived.
pub open spec fn after_response(sent: Result<u16, reqwest::Error>) -> Next {
    match sent {
        Err(cause) => Next::Failed(AuthError::AuthRequestFailed { source: cause }),
        Ok(status) => if is_success(status) {
            Next::ReadBody
        } else {
            Next::Rejected
        },
    }
}

/// How a login ends once the body of an accepted reply has been decoded.
pub open spec fn after_body(decoded: Result<Session, reqwest::Error>) -> Result<
    Session,
    AuthError,
> {
    match decoded {
        Ok(session) => Ok(session),
        Err(cause) => Err(AuthError::AuthRequestFailed { source: cause }),
    }
}

/// The record of a refusal of `request`, whose reply's body was read as
/// `body`: a body that could not be read is left out.
pub open spec fn diagnostic_of(
    request: LoginRequestView,
    body: Result<String, reqwest::Error>,
) -> DiagnosticView {
    DiagnosticView {
        request: record_of(request),
        body: match body {
            Ok(text) => Some(text@),
            Err(_) => None,
        },
    }
}

/// `reqwest::StatusCode::from_u16` followed by `StatusCode::is_success`: the
/// first accepts the numbers from 100 to 999, the second holds of those from
/// 200 to 299. A number that is no status code is no success.
#[verifier::external_body]
fn status_is_success(status: u16) -> (success: bool)
    ensures
        success == is_success(status),
{
    match reqwest::StatusCode::from_u16(status) {
        Ok(code) => code.is_success(),
        Err(_) => false,
    }
}

fn field(name: &str, value: &str) -> (f: Field)
    ensures
        f@ == (name@, value@),
{
    Field { name: name.to_owned(), value: value.to_owned() }
}

fn mask_values(fields: &Vec<Field>) -> (hidden: Vec<Field>)
    ensures
        pairs(hidden@) == masked(pairs(fields@)),
{
    let mut hidden: Vec<Field> = Vec::new();
    let mut i: usize = 0;
    while i < fields.len()
        invariant
            i <= fields.len(),
            hidden.len() == i,
            forall|k: int| 0 <= k < i ==> (#[trigger] hidden[k])@ == (fields[k].name@, MASK@),
        decreases fields.len() - i,
    {
        hidden.push(field(fields[i].name.as_str(), MASK));
        i += 1;
    }
    assert(pairs(hidden@) =~= masked(pairs(fields@)));
    hidden
}

impl LoginRequest {
    /// The same request addressed to `url`, as a test harness that stands in
    /// for the service needs it.
    pub fn at(self, url: &str) -> (request: LoginRequest)
        ensures
            request@ == (LoginRequestView { url: url@, ..self@ }),
    {
        LoginRequest { url: url.to_owned(), query: self.query, form: self.form }
    }

    /// Ends a refused login. The record holds the request's address and
    /// query string, the names of its form fields with every value masked,
    /// and the reply's body where it was read; the error is that of a
    /// refused login, whatever the body holds. The record is to be emitted
    /// before the error is returned.
    pub fn on_refusal(self, body: Result<String, reqwest::Error>) -> (refusal: Refusal)
        ensures
            refusal.diagnostic@ == diagnostic_of(self@, body),
            refusal.error == AuthError::CreateSessionFailed,
    {
        let form = mask_values(&self.form);
        let request = LoginRequest { url: self.url, query: self.query, form };
        let body = match body {
            Ok(text) => Some(text),
            Err(_) => None,
        };
        Refusal {
            diagnostic: Diagnostic { request, body },
            error: AuthError::CreateSessionFailed,
        }
    }
}

impl Session {
    /// Prepares the one request of a login exchange. Sending it is the
    /// caller's part; the reply goes to [`Session::on_response`].
    pub fn get_session(token: &str, username: &str, password: &str) -> (request: LoginRequest)
        ensures
            request@ == login_request(token@, username@, password@),
    {
        let mut query: Vec<Field> = Vec::new();
        query.push(field("token", token));
        let mut form: Vec<Field> = Vec::new();
        form.push(field("username", username));
        form.push(field("password", password));
        let request = LoginRequest { url: LOGIN_URL.to_owned(), query, form };
        assert(request@.query =~= login_request(token@, username@, password@).query);
        assert(request@.form =~= login_request(token@, username@, password@).form);
        request
    }

    /// Decides what follows the sending of the request. A transport error
    /// ends the exchange with that error as the cause; a status from 200 to
    /// 299 asks for the body to be decoded; any other status makes it a
    /// refused login, whatever the body holds.
    pub fn on_response(sent: Result<u16, reqwest::Error>) -> (next: Next)
        ensures
            next == after_response(sent),
    {
        match sent {
            Err(cause) => Next::Failed(AuthError::from(cause)),
            Ok(status) => {
                if status_is_success(status) {
                    Next::ReadBody
                } else {
                    Next::Rejected
                }
            },
        }
    }

    /// Ends an accepted login: the decoded session is the result, and a body
    /// that could not be read or decoded fails with that error as the cause.
    pub fn on_body(decoded: Result<Session, reqwest::Error>) -> (outcome: Result<
        Session,
        AuthError,
    >)
        ensures
            outcome == after_body(decoded),
    {
        match decoded {
            Ok(session) => Ok(session),
            Err(cause) => Err(AuthError::from(cause)),
        }
    }
}

/// Nothing that was sent in the form can be read in the record: every form
/// field keeps its name and place and shows the mask for its value, while
/// the address and the query string stay as they were. Recording a record
/// changes nothing more.
pub proof fn lemma_record_hides_form_values(request: LoginRequestView)
    ensures
        record_of(request).url == request.url,
        record_of(request).query == request.query,
        record_of(request).form.len() == request.form.len(),
        forall|i: int|
            0 <= i < request.form.len() ==> #[trigger] record_of(request).form[i] == (
                request.form[i].0,
                MASK@,
            ),
        record_of(record_of(request)) == record_of(request),
{
    assert(masked(masked(request.form)) =~= masked(request.form));
}

/// The record of a refused login names the application token and the two
/// form fields, and shows neither the user's name nor the password.
pub proof fn lemma_login_record(token: Seq<char>, username: Seq<char>, password: Seq<char>)
    ensures
        record_of(login_request(token, username, password)) == (LoginRequestView {
            url: LOGIN_URL@,
            query: seq![("token"@, token)],
            form: seq![("username"@, MASK@), ("password"@, MASK@)],
        }),
{
    assert(masked(login_request(token, username, password).form) =~= seq![
        ("username"@, MASK@),
        ("password"@, MASK@),
    ]);
}

} // verus!
