//! The credential exchange: a login step against the identity service and
//! a token-issuance step whose response body, taken verbatim, is the
//! bearer token.
//!
//! The two HTTP posts themselves are outside this crate; the functions
//! here decide everything between them: which form fields the login step
//! sends, what a login response yields, which payload the token step
//! sends, and what the exchange as a whole returns.  Every failure is
//! absorbed into a typed outcome; the token degrades to the empty string.

use vstd::prelude::*;

use crate::fetch::FetchOutcome;
use crate::json::Json;
use crate::json::parse_json;
use crate::json::parsed_json;

verus! {

/// Why the credential exchange failed.
#[derive(Debug, PartialEq, Eq, Structural, Clone, Copy)]
pub enum AuthFailure {
    /// A transport-level failure on either step.
    Transport,
    /// A non-success status on either step.
    HttpStatus(u16),
    /// The login response body is not valid JSON.
    BadJson,
    /// The login response holds no string field `session_id`.
    MissingSession,
}

/// What the exchange as a whole yields: a bearer token, or a reason.
#[derive(Debug)]
pub enum AuthOutcome {
    Token(String),
    NoToken(AuthFailure),
}

/// The name of the session field of the login response.
pub open spec fn session_key() -> Seq<char> {
    "session_id"@
}

/// What the login step yields: the `session_id` string of its JSON body,
/// or the failure that the token step is never attempted after.
pub open spec fn spec_session(login: FetchOutcome) -> Result<Seq<char>, AuthFailure> {
    match login {
        FetchOutcome::Transport(_) => Result::Err(AuthFailure::Transport),
        FetchOutcome::HttpStatus(c) => Result::Err(AuthFailure::HttpStatus(c)),
        FetchOutcome::Body(b) => match parsed_json(b@) {
            Option::None => Result::Err(AuthFailure::BadJson),
            Option::Some(j) => match j.spec_lookup(session_key()) {
                Json::Str(s) => Result::Ok(s@),
                _ => Result::Err(AuthFailure::MissingSession),
            },
        },
    }
}

/// The token text the whole exchange yields: the token endpoint's body,
/// verbatim, where the login yielded a session; the empty string
/// everywhere else.
pub open spec fn spec_exchange_token(login: FetchOutcome, issue: FetchOutcome) -> Seq<char> {
    match spec_session(login) {
        Result::Err(_) => Seq::empty(),
        Result::Ok(_) => match issue {
            FetchOutcome::Body(b) => b@,
            _ => Seq::empty(),
        },
    }
}

impl AuthOutcome {
    /// The token text of this outcome: empty where the exchange failed.
    pub open spec fn spec_token_text(self) -> Seq<char> {
        match self {
            AuthOutcome::Token(t) => t@,
            AuthOutcome::NoToken(_) => Seq::empty(),
        }
    }

    /// The token as the exporter stores it: `""` where the exchange
    /// failed, so that one failed system never stops the others.
    pub fn into_token_string(self) -> (r: String)
        ensures
            r@ == self.spec_token_text(),
    {
        match self {
            AuthOutcome::Token(t) => t,
            AuthOutcome::NoToken(_) => String::new(),
        }
    }
}

/// The form fields of the login step, in the order they are sent.
pub fn login_form(user: &String, pass: &String) -> (r: Vec<(String, String)>)
    ensures
        r@.len() == 2,
        r@[0].0@ == "user[email]"@,
        r@[0].1@ == user@,
        r@[1].0@ == "user[password]"@,
        r@[1].1@ == pass@,
{
    let mut r: Vec<(String, String)> = Vec::new();
    r.push(("user[email]".to_owned(), user.clone()));
    r.push(("user[password]".to_owned(), pass.clone()));
    r
}

/// Decide what the login response yields: the session id, or the failure
/// that ends the exchange.
pub fn session_from_login(login: &FetchOutcome) -> (r: Result<String, AuthFailure>)
    ensures
        (match r {
            Result::Ok(s) => Result::Ok(s@),
            Result::Err(e) => Result::Err(e),
        }) == spec_session(*login),
{
    match login {
        FetchOutcome::Transport(_) => Result::Err(AuthFailure::Transport),
        FetchOutcome::HttpStatus(c) => Result::Err(AuthFailure::HttpStatus(*c)),
        FetchOutcome::Body(b) => match parse_json(b.as_str()) {
            Option::None => Result::Err(AuthFailure::BadJson),
            Option::Some(j) => {
                let key = "session_id".to_owned();
                match j.get(&key) {
                    Option::Some(v) => match v {
                        Json::Str(s) => Result::Ok(s.clone()),
                        _ => Result::Err(AuthFailure::MissingSession),
                    },
                    Option::None => Result::Err(AuthFailure::MissingSession),
                }
            },
        },
    }
}

/// The JSON payload of the token-issuance step, with its three fields in
/// the order they are sent.
pub fn token_request(session_id: &String, serial: &String, user: &String) -> (r: Json)
    ensures
        r matches Json::Obj(fields) && {
            &&& fields@.len() == 3
            &&& fields@[0].0@ == "session_id"@
            &&& fields@[0].1 matches Json::Str(s) && s@ == session_id@
            &&& fields@[1].0@ == "serial_num"@
            &&& fields@[1].1 matches Json::Str(s) && s@ == serial@
            &&& fields@[2].0@ == "username"@
            &&& fields@[2].1 matches Json::Str(s) && s@ == user@
        },
{
    let mut fields: Vec<(String, Json)> = Vec::new();
    fields.push(("session_id".to_owned(), Json::Str(session_id.clone())));
    fields.push(("serial_num".to_owned(), Json::Str(serial.clone())));
    fields.push(("username".to_owned(), Json::Str(user.clone())));
    Json::Obj(fields)
}

/// Decide what the token-issuance response yields: its body, verbatim, is
/// the bearer token; any failure leaves the system without one.
pub fn token_from_issue(issue: &FetchOutcome) -> (r: AuthOutcome)
    ensures
        issue matches FetchOutcome::Body(b) ==> r matches AuthOutcome::Token(t) && t@ == b@,
        issue matches FetchOutcome::Transport(_) ==> r == AuthOutcome::NoToken(
            AuthFailure::Transport,
        ),
        issue matches FetchOutcome::HttpStatus(c) ==> r == AuthOutcome::NoToken(
            AuthFailure::HttpStatus(*c),
        ),
{
    match issue {
        FetchOutcome::Body(b) => AuthOutcome::Token(b.clone()),
        FetchOutcome::Transport(_) => AuthOutcome::NoToken(AuthFailure::Transport),
        FetchOutcome::HttpStatus(c) => AuthOutcome::NoToken(AuthFailure::HttpStatus(*c)),
    }
}

/// Law: a login response in which no `session_id` string stands — a body
/// that is not JSON, or JSON without that string field — ends the
/// exchange with the empty token, whatever the token endpoint would have
/// answered.
pub proof fn lemma_malformed_login_empty_token(login: FetchOutcome, issue: FetchOutcome)
    requires
        login matches FetchOutcome::Body(b) && (match parsed_json(b@) {
            Option::Some(j) => !(j.spec_lookup(session_key()) matches Json::Str(_)),
            Option::None => true,
        }),
    ensures
        spec_session(login) is Err,
        spec_exchange_token(login, issue) == Seq::<char>::empty(),
{
}

/// Law: where the login yields a session and the token endpoint answers
/// with a body, the exchange returns that body text verbatim, unmodified.
pub proof fn lemma_token_verbatim(login: FetchOutcome, issue: FetchOutcome)
    requires
        spec_session(login) is Ok,
        issue matches FetchOutcome::Body(_),
    ensures
        spec_exchange_token(login, issue) == issue->Body_0@,
{
}

} // verus!
