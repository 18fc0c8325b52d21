use envoy_exporter::auth::AuthFailure;
use envoy_exporter::auth::AuthOutcome;
use envoy_exporter::auth::login_form;
use envoy_exporter::auth::session_from_login;
use envoy_exporter::auth::token_from_issue;
use envoy_exporter::auth::token_request;
use envoy_exporter::fetch::FetchOutcome;
use envoy_exporter::json::Json;

fn body(s: &str) -> FetchOutcome {
    FetchOutcome::Body(s.to_owned())
}

#[test]
fn login_form_fields_in_order() {
    let form = login_form(&"me@example.org".to_owned(), &"hunter2".to_owned());
    assert_eq!(form.len(), 2);
    assert_eq!(form[0].0, "user[email]");
    assert_eq!(form[0].1, "me@example.org");
    assert_eq!(form[1].0, "user[password]");
    assert_eq!(form[1].1, "hunter2");
}

#[test]
fn login_with_session_id_yields_it() {
    let r = session_from_login(&body("{\"session_id\":\"abc\"}"));
    assert_eq!(r, Ok("abc".to_owned()));
}

#[test]
fn login_without_session_id_fails() {
    let r = session_from_login(&body("{\"user\":\"me\"}"));
    assert_eq!(r, Err(AuthFailure::MissingSession));
}

#[test]
fn login_with_non_string_session_id_fails() {
    let r = session_from_login(&body("{\"session_id\":5}"));
    assert_eq!(r, Err(AuthFailure::MissingSession));
}

#[test]
fn login_with_invalid_json_fails() {
    let r = session_from_login(&body("not json at all"));
    assert_eq!(r, Err(AuthFailure::BadJson));
}

#[test]
fn login_transport_failure_fails() {
    let r = session_from_login(&FetchOutcome::Transport("connection refused".to_owned()));
    assert_eq!(r, Err(AuthFailure::Transport));
}

#[test]
fn login_bad_status_fails() {
    let r = session_from_login(&FetchOutcome::HttpStatus(401));
    assert_eq!(r, Err(AuthFailure::HttpStatus(401)));
}

#[test]
fn malformed_login_degrades_to_empty_token() {
    // The exchange never gets past a malformed login: the stored token is "".
    let r = session_from_login(&body("{}"));
    let failure = r.expect_err("no session_id in an empty object");
    let token = AuthOutcome::NoToken(failure).into_token_string();
    assert_eq!(token, "");
}

#[test]
fn token_is_issue_body_verbatim() {
    let outcome = token_from_issue(&body("XYZ123"));
    assert_eq!(outcome.into_token_string(), "XYZ123");
}

#[test]
fn token_body_is_not_json_parsed() {
    // The token endpoint's body is taken as text even when it looks like JSON.
    let outcome = token_from_issue(&body("{\"anything\": 1}"));
    assert_eq!(outcome.into_token_string(), "{\"anything\": 1}");
}

#[test]
fn whole_exchange_happy_path() {
    let session = session_from_login(&body("{\"session_id\":\"abc\"}")).unwrap();
    assert_eq!(session, "abc");
    let outcome = token_from_issue(&body("XYZ123"));
    assert_eq!(outcome.into_token_string(), "XYZ123");
}

#[test]
fn token_issue_failures_yield_no_token() {
    let t = token_from_issue(&FetchOutcome::Transport("timed out".to_owned()));
    assert!(matches!(t, AuthOutcome::NoToken(AuthFailure::Transport)));
    let s = token_from_issue(&FetchOutcome::HttpStatus(500));
    assert!(matches!(s, AuthOutcome::NoToken(AuthFailure::HttpStatus(500))));
    assert_eq!(
        token_from_issue(&FetchOutcome::HttpStatus(500)).into_token_string(),
        ""
    );
}

#[test]
fn token_request_payload_shape() {
    let payload = token_request(
        &"abc".to_owned(),
        &"122000000000".to_owned(),
        &"me@example.org".to_owned(),
    );
    match payload {
        Json::Obj(fields) => {
            assert_eq!(fields.len(), 3);
            assert_eq!(fields[0].0, "session_id");
            assert!(matches!(&fields[0].1, Json::Str(s) if s == "abc"));
            assert_eq!(fields[1].0, "serial_num");
            assert!(matches!(&fields[1].1, Json::Str(s) if s == "122000000000"));
            assert_eq!(fields[2].0, "username");
            assert!(matches!(&fields[2].1, Json::Str(s) if s == "me@example.org"));
        }
        other => panic!("token request payload is not an object: {:?}", other),
    }
}

#[test]
fn non_object_login_body_fails() {
    let r = session_from_login(&body("[\"session_id\"]"));
    assert_eq!(r, Err(AuthFailure::MissingSession));
}
