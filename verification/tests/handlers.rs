use shortlink::config::{LINKS_FILE, LISTEN_ADDR, MAX_CONCURRENT_REQUESTS, REQUEST_TIMEOUT_SECS};
use shortlink::handlers::{
    get_links_count, handle_error, redirect_to_link, Delivery, Redirection, ServiceError,
    NOT_FOUND_BODY, OVERLOADED_BODY, TIMED_OUT_BODY, UNHANDLED_PREFIX,
};
use shortlink::response::{
    Body, Response, STATUS_INTERNAL_SERVER_ERROR, STATUS_MOVED_PERMANENTLY, STATUS_NOT_FOUND,
    STATUS_OK, STATUS_REQUEST_TIMEOUT, STATUS_SERVICE_UNAVAILABLE,
};
use shortlink::store::{AppState, LinkMap};
use std::collections::HashMap;

fn state_of(entries: &[(&str, &str)]) -> AppState {
    AppState::new(LinkMap {
        links: entries.iter().map(|(code, url)| (code.to_string(), url.to_string())).collect(),
    })
}

fn load(document: &str) -> AppState {
    let parsed: HashMap<String, HashMap<String, String>> =
        serde_json::from_str(document).expect("a links document");
    let links = parsed.get("links").expect("the links member").clone();
    AppState::new(LinkMap { links: links.into_iter().collect() })
}

fn not_found() -> Response {
    Response {
        status: 404,
        location: None,
        body: Body::Json("{\"error\":\"Not Found\"}".to_string()),
    }
}

fn moved(target: &str) -> Response {
    Response { status: 301, location: Some(target.to_string()), body: Body::Empty }
}

#[test]
fn status_codes() {
    assert_eq!(STATUS_OK, 200);
    assert_eq!(STATUS_MOVED_PERMANENTLY, 301);
    assert_eq!(STATUS_NOT_FOUND, 404);
    assert_eq!(STATUS_REQUEST_TIMEOUT, 408);
    assert_eq!(STATUS_INTERNAL_SERVER_ERROR, 500);
    assert_eq!(STATUS_SERVICE_UNAVAILABLE, 503);
}

#[test]
fn fixed_texts_and_settings() {
    assert_eq!(NOT_FOUND_BODY, "{\"error\":\"Not Found\"}");
    assert_eq!(TIMED_OUT_BODY, "request timed out");
    assert_eq!(OVERLOADED_BODY, "service is overloaded, try again later");
    assert_eq!(UNHANDLED_PREFIX, "Unhandled internal error: ");
    assert_eq!(LINKS_FILE, "./links.json");
    assert_eq!(LISTEN_ADDR, "0.0.0.0:5008");
    assert_eq!(REQUEST_TIMEOUT_SECS, 60);
    assert_eq!(MAX_CONCURRENT_REQUESTS, 1024);
}

#[test]
fn known_code_is_redirected_permanently() {
    let state = state_of(&[("a", "https://example.com"), ("b", "https://example.org/b")]);
    let outcome = redirect_to_link(&state, "a", None);
    assert_eq!(outcome.response, moved("https://example.com"));
    let outcome = redirect_to_link(&state, "b", None);
    assert_eq!(outcome.response.status, 301);
    assert_eq!(outcome.response.location.as_deref(), Some("https://example.org/b"));
    assert_eq!(outcome.response.body, Body::Empty);
}

#[test]
fn redirect_target_is_the_configured_text_byte_for_byte() {
    let target = "HTTPS://Example.COM/a%20b/../c?q=\u{e9}&r=\"1\"#\u{4e16}\u{754c} ";
    let state = state_of(&[("x", target)]);
    let outcome = redirect_to_link(&state, "x", Some("site"));
    assert_eq!(outcome.response.status, 301);
    let location = outcome.response.location.expect("a target");
    assert_eq!(location.as_bytes(), target.as_bytes());
}

#[test]
fn unknown_code_is_not_found() {
    let state = state_of(&[("a", "https://example.com")]);
    for code in ["b", "A", "a ", "aa", "", "a/b"] {
        let outcome = redirect_to_link(&state, code, None);
        assert_eq!(outcome.response, not_found());
        assert_eq!(outcome.notification, None);
    }
}

#[test]
fn unknown_code_in_an_empty_table_is_not_found() {
    let state = state_of(&[]);
    let outcome = redirect_to_link(&state, "a", Some("site"));
    assert_eq!(outcome.response.status, 404);
    assert_eq!(outcome.response.location, None);
    assert_eq!(outcome.response.body, Body::Json("{\"error\":\"Not Found\"}".to_string()));
    assert_eq!(outcome.notification, None);
}

#[test]
fn not_found_body_is_one_json_member() {
    let state = state_of(&[]);
    let outcome = redirect_to_link(&state, "missing", None);
    let text = match outcome.response.body {
        Body::Json(text) => text,
        other => panic!("not a JSON body: {:?}", other),
    };
    let value: serde_json::Value = serde_json::from_str(&text).expect("valid JSON");
    let object = value.as_object().expect("an object");
    assert_eq!(object.len(), 1);
    assert_eq!(object.get("error").and_then(|v| v.as_str()), Some("Not Found"));
}

#[test]
fn redirect_comes_with_a_report() {
    let state = state_of(&[("a", "https://example.com")]);
    let outcome = redirect_to_link(&state, "a", None);
    let request = outcome.notification.expect("a report");
    assert_eq!(request.endpoint, "https://umami.omnid.io/api/send");
    assert_eq!(request.content_type, "application/json");
    assert_eq!(
        request.body,
        "{\"type\":\"event\",\"payload\":{\"website\":\"dev\",\"name\":\"a\",\"url\":\"https://example.com\"}}"
    );
    let outcome = redirect_to_link(&state, "a", Some("w1"));
    assert_eq!(
        outcome.notification.expect("a report").body,
        "{\"type\":\"event\",\"payload\":{\"website\":\"w1\",\"name\":\"a\",\"url\":\"https://example.com\"}}"
    );
}

#[test]
fn reply_does_not_depend_on_the_website() {
    let state = state_of(&[("a", "https://example.com")]);
    let plain = redirect_to_link(&state, "a", None);
    let configured = redirect_to_link(&state, "a", Some("some-site"));
    assert_eq!(plain.response, configured.response);
    let plain = redirect_to_link(&state, "zzz", None);
    let configured = redirect_to_link(&state, "zzz", Some("some-site"));
    assert_eq!(plain.response, configured.response);
}

#[test]
fn reply_is_the_same_however_delivery_ends() {
    let state = state_of(&[("a", "https://example.com")]);
    for delivery in [Delivery::Delivered, Delivery::Rejected, Delivery::Unreadable, Delivery::Failed] {
        let outcome = redirect_to_link(&state, "a", None);
        assert_eq!(outcome.conclude(delivery), moved("https://example.com"));
    }
    let pending = Redirection { response: not_found(), notification: None };
    assert_eq!(pending.conclude(Delivery::Failed), not_found());
}

#[test]
fn count_of_an_empty_table() {
    let reply = get_links_count(&state_of(&[]));
    assert_eq!(
        reply,
        Response { status: 200, location: None, body: Body::Json("{\"total_links\":0}".to_string()) }
    );
}

#[test]
fn count_of_one_mapping() {
    let reply = get_links_count(&state_of(&[("a", "https://example.com")]));
    assert_eq!(reply.status, 200);
    assert_eq!(reply.location, None);
    assert_eq!(reply.body, Body::Json("{\"total_links\":1}".to_string()));
}

#[test]
fn count_of_many_mappings() {
    let mut links = Vec::new();
    for i in 0..1234 {
        links.push((format!("c{}", i), format!("https://example.com/{}", i)));
    }
    let state = AppState::new(LinkMap { links });
    let reply = get_links_count(&state);
    assert_eq!(reply.status, 200);
    assert_eq!(reply.body, Body::Json("{\"total_links\":1234}".to_string()));
    let text = match reply.body {
        Body::Json(text) => text,
        other => panic!("not a JSON body: {:?}", other),
    };
    let value: serde_json::Value = serde_json::from_str(&text).expect("valid JSON");
    assert_eq!(value.as_object().expect("an object").len(), 1);
    assert_eq!(value.get("total_links").and_then(|v| v.as_u64()), Some(1234));
}

#[test]
fn count_ignores_repeated_codes() {
    let reply = get_links_count(&state_of(&[("a", "1"), ("a", "2"), ("b", "3")]));
    assert_eq!(reply.body, Body::Json("{\"total_links\":2}".to_string()));
}

#[test]
fn timeout_is_answered_with_408() {
    assert_eq!(
        handle_error(ServiceError::Elapsed),
        Response { status: 408, location: None, body: Body::Text("request timed out".to_string()) }
    );
}

#[test]
fn overload_is_answered_with_503() {
    assert_eq!(
        handle_error(ServiceError::Overloaded),
        Response {
            status: 503,
            location: None,
            body: Body::Text("service is overloaded, try again later".to_string()),
        }
    );
}

#[test]
fn other_failures_are_answered_with_500() {
    assert_eq!(
        handle_error(ServiceError::Other("connection reset".to_string())),
        Response {
            status: 500,
            location: None,
            body: Body::Text("Unhandled internal error: connection reset".to_string()),
        }
    );
    assert_eq!(
        handle_error(ServiceError::Other(String::new())),
        Response {
            status: 500,
            location: None,
            body: Body::Text("Unhandled internal error: ".to_string()),
        }
    );
}

#[test]
fn loaded_document_is_served() {
    let state = load("{\"links\": {\"a\": \"https://example.com\"}}");
    let outcome = redirect_to_link(&state, "a", None);
    assert_eq!(outcome.response.status, 301);
    assert_eq!(outcome.response.location.as_deref(), Some("https://example.com"));
    assert_eq!(get_links_count(&state).body, Body::Json("{\"total_links\":1}".to_string()));
    assert_eq!(redirect_to_link(&state, "b", None).response, not_found());
}

#[test]
fn loaded_document_with_several_links() {
    let state = load(
        "{\"links\": {\"gh\": \"https://github.com\", \"rs\": \"https://www.rust-lang.org/\", \"\u{e9}\": \"https://example.com/\u{e9}\"}}",
    );
    assert_eq!(get_links_count(&state).body, Body::Json("{\"total_links\":3}".to_string()));
    assert_eq!(redirect_to_link(&state, "gh", None).response, moved("https://github.com"));
    assert_eq!(redirect_to_link(&state, "rs", None).response, moved("https://www.rust-lang.org/"));
    assert_eq!(
        redirect_to_link(&state, "\u{e9}", None).response,
        moved("https://example.com/\u{e9}")
    );
    assert_eq!(redirect_to_link(&state, "GH", None).response, not_found());
}
