//! Obtaining an installation token: the request, the answer, the failures.

use http_handlers::client::GithubClient;
use http_handlers::exchange::{Action, Reply};
use http_handlers::token::{installation_token, TokenExchange};
use http_handlers::http::PostRequest;
use http_handlers::models::HandlersErr;

/// The time on the clock in these tests: 2020-04-18 00:00:00 UTC.
const NOW: i64 = 1_587_168_000;

fn header<'a>(request: &'a PostRequest, name: &str) -> Vec<&'a str> {
    request.headers.iter().filter(|h| h.name == name).map(|h| h.value.as_str()).collect()
}

fn sent(action: Action<String>) -> PostRequest {
    match action {
        Action::Send { request } => request,
        other => panic!("expected a request, got {:?}", other),
    }
}

fn finished(action: Action<String>) -> Result<String, HandlersErr> {
    match action {
        Action::Finish { result } => result,
        other => panic!("expected the end, got {:?}", other),
    }
}

fn awaiting_response(installation_id: u64) -> TokenExchange {
    let (exchange, _) = GithubClient::new().get_installation_token("org/repo", installation_id);
    let (exchange, _) =
        exchange.advance_with(Reply::Key { pem: Vec::new() }, Ok(String::from("signed")));
    exchange
}

#[test]
fn token_is_read_from_a_created_response() {
    let body = Some(String::from("{\"token\":\"abc123\"}"));
    assert_eq!(installation_token(201, &body), Ok(String::from("abc123")));
}

#[test]
fn token_exchange_returns_the_token_of_a_201() {
    let reply = Reply::Response { status: 201, body: Some(String::from("{\"token\":\"abc123\"}")) };
    let (_, action) = awaiting_response(42).advance(reply, NOW);
    assert_eq!(finished(action), Ok(String::from("abc123")));
}

#[test]
fn token_is_read_among_other_members() {
    let body = Some(String::from(
        " { \"expires_at\": \"2020-04-18T00:00:00Z\", \"token\": \"v1.1f699f1069f60xxx\", \"permissions\": {\"checks\": \"write\"}, \"n\": 1.5 } ",
    ));
    assert_eq!(installation_token(200, &body), Ok(String::from("v1.1f699f1069f60xxx")));
}

#[test]
fn token_with_escapes_is_unescaped() {
    let body = Some(String::from("{\"token\":\"a\\\"b\\u00e9\\n\"}"));
    assert_eq!(installation_token(201, &body), Ok(String::from("a\"b\u{e9}\n")));
}

#[test]
fn token_may_be_empty() {
    let body = Some(String::from("{\"token\":\"\"}"));
    assert_eq!(installation_token(201, &body), Ok(String::new()));
}

#[test]
fn unauthorized_response_is_remote_rejected() {
    let body = Some(String::from("{\"token\":\"abc123\"}"));
    assert_eq!(installation_token(401, &body), Err(HandlersErr::RemoteRejected));
}

#[test]
fn not_found_response_is_remote_rejected() {
    let body = Some(String::from("{\"message\":\"Not Found\"}"));
    assert_eq!(installation_token(404, &body), Err(HandlersErr::RemoteRejected));
    assert_eq!(installation_token(404, &None), Err(HandlersErr::RemoteRejected));
    assert_eq!(
        installation_token(404, &Some(String::from("<html>"))),
        Err(HandlersErr::RemoteRejected)
    );
}

#[test]
fn rejected_token_exchange_ends_without_a_request() {
    for status in [401u16, 404] {
        let reply = Reply::Response { status, body: Some(String::from("{\"token\":\"abc123\"}")) };
        let (exchange, action) = awaiting_response(42).advance(reply, NOW);
        assert_eq!(finished(action), Err(HandlersErr::RemoteRejected));
        let (_, again) = exchange.advance(Reply::Unreachable, NOW);
        assert_eq!(finished(again), Err(HandlersErr::RemoteRejected));
    }
}

#[test]
fn status_decides_at_the_edges_of_success() {
    let body = Some(String::from("{\"token\":\"t\"}"));
    assert_eq!(installation_token(199, &body), Err(HandlersErr::RemoteRejected));
    assert_eq!(installation_token(200, &body), Ok(String::from("t")));
    assert_eq!(installation_token(299, &body), Ok(String::from("t")));
    assert_eq!(installation_token(300, &body), Err(HandlersErr::RemoteRejected));
    assert_eq!(installation_token(0, &body), Err(HandlersErr::RemoteRejected));
    assert_eq!(installation_token(500, &body), Err(HandlersErr::RemoteRejected));
    assert_eq!(installation_token(u16::MAX, &body), Err(HandlersErr::RemoteRejected));
}

#[test]
fn unreadable_body_is_a_transport_error() {
    assert_eq!(installation_token(201, &None), Err(HandlersErr::TransportError));
}

#[test]
fn body_without_a_token_is_a_parse_error() {
    for text in [
        "",
        "abc123",
        "{}",
        "{\"token\":42}",
        "{\"token\":null}",
        "{\"token\":[\"abc123\"]}",
        "{\"Token\":\"abc123\"}",
        "[\"abc123\"]",
        "\"abc123\"",
        "{\"token\":\"abc123\"} trailing",
        "{\"token\":\"abc123\"",
    ] {
        assert_eq!(
            installation_token(201, &Some(String::from(text))),
            Err(HandlersErr::ResponseParseError),
            "{}",
            text
        );
    }
}

#[test]
fn token_exchange_begins_by_asking_for_the_key() {
    let (_, action) = GithubClient::new().get_installation_token("org/repo", 42);
    match action {
        Action::ReadKey { path } => {
            assert_eq!(path, "/home/ec2-user/dollar-ci.2020-04-18.private-key.pem")
        }
        other => panic!("expected the key to be asked for, got {:?}", other),
    }
}

#[test]
fn token_request_goes_to_the_installation() {
    let request = GithubClient::new().token_request(42, "signed");
    assert_eq!(request.url, "https://api.github.com/app/installations/42/access_tokens");
    assert_eq!(request.body, None);
    assert_eq!(header(&request, "Authorization"), vec!["Bearer signed"]);
    assert_eq!(
        header(&request, "Accept"),
        vec![
            "application/vnd.github.machine-man-preview+json",
            "application/vnd.github.antiope-preview+json"
        ]
    );
    assert_eq!(header(&request, "User-Agent"), vec!["dollar-ci"]);
    assert_eq!(header(&request, "Content-Type"), vec!["application/json"]);
    assert_eq!(request.headers.len(), 5);
}

#[test]
fn token_request_writes_the_installation_in_decimal() {
    let client = GithubClient::new();
    assert_eq!(
        client.token_request(0, "a").url,
        "https://api.github.com/app/installations/0/access_tokens"
    );
    assert_eq!(
        client.token_request(9, "a").url,
        "https://api.github.com/app/installations/9/access_tokens"
    );
    assert_eq!(
        client.token_request(10, "a").url,
        "https://api.github.com/app/installations/10/access_tokens"
    );
    assert_eq!(
        client.token_request(8_055_361, "a").url,
        "https://api.github.com/app/installations/8055361/access_tokens"
    );
    assert_eq!(
        client.token_request(u64::MAX, "a").url,
        "https://api.github.com/app/installations/18446744073709551615/access_tokens"
    );
}

#[test]
fn key_reply_leads_to_the_token_request() {
    let (exchange, _) = GithubClient::new().get_installation_token("org/repo", 7);
    let (_, action) =
        exchange.advance_with(Reply::Key { pem: Vec::new() }, Ok(String::from("a.b.c")));
    let request = sent(action);
    assert_eq!(request.url, "https://api.github.com/app/installations/7/access_tokens");
    assert_eq!(header(&request, "Authorization"), vec!["Bearer a.b.c"]);
}

#[test]
fn failed_assertion_ends_the_token_exchange() {
    for error in [HandlersErr::KeyLoadError, HandlersErr::SigningError] {
        let (exchange, _) = GithubClient::new().get_installation_token("org/repo", 7);
        let (_, action) = exchange.advance_with(Reply::Key { pem: Vec::new() }, Err(error));
        assert_eq!(finished(action), Err(error));
    }
}

#[test]
fn unreadable_key_is_a_key_load_error() {
    let (exchange, _) = GithubClient::new().get_installation_token("org/repo", 7);
    let (_, action) = exchange.advance(Reply::KeyUnreadable, NOW);
    assert_eq!(finished(action), Err(HandlersErr::KeyLoadError));
}

#[test]
fn malformed_key_ends_the_token_exchange() {
    let (exchange, _) = GithubClient::new().get_installation_token("org/repo", 7);
    let (_, action) = exchange.advance(Reply::Key { pem: b"no key at all".to_vec() }, NOW);
    assert_eq!(finished(action), Err(HandlersErr::KeyLoadError));
}

#[test]
fn reply_that_answers_nothing_fails_the_pending_action() {
    let (exchange, _) = GithubClient::new().get_installation_token("org/repo", 7);
    let (_, action) = exchange.advance(Reply::Response { status: 200, body: None }, NOW);
    assert_eq!(finished(action), Err(HandlersErr::KeyLoadError));
    let (_, action) = awaiting_response(7).advance(Reply::KeyUnreadable, NOW);
    assert_eq!(finished(action), Err(HandlersErr::TransportError));
    let (_, action) = awaiting_response(7).advance(Reply::Key { pem: Vec::new() }, NOW);
    assert_eq!(finished(action), Err(HandlersErr::TransportError));
}

#[test]
fn unanswered_token_request_is_a_transport_error() {
    let (_, action) = awaiting_response(7).advance(Reply::Unreachable, NOW);
    assert_eq!(finished(action), Err(HandlersErr::TransportError));
}

#[test]
fn finished_token_exchange_repeats_its_result() {
    let reply = Reply::Response { status: 201, body: Some(String::from("{\"token\":\"abc123\"}")) };
    let (exchange, first) = awaiting_response(7).advance(reply, NOW);
    assert_eq!(finished(first), Ok(String::from("abc123")));
    let (exchange, second) = exchange.advance(Reply::Unreachable, NOW);
    assert_eq!(finished(second), Ok(String::from("abc123")));
    let (_, third) = exchange.advance_with(Reply::KeyUnreadable, Err(HandlersErr::SigningError));
    assert_eq!(finished(third), Ok(String::from("abc123")));
}
