use jelly_stats::jelly::{
    gather_page, ConversationListOptions, ConversationStatus, JellyAPIError, JellyClient, JellyError,
    PageWalk,
};
use jelly_stats::urls::UrlError;

fn client() -> JellyClient {
    match JellyClient::new("https://app.letsjelly.com/api", "secret-key") {
        Ok(c) => c,
        Err(e) => panic!("unexpected error {e:?}"),
    }
}

#[test]
fn from_raw_body_reads_known_errors() {
    assert!(matches!(
        JellyAPIError::from_raw_body(r#"{"error":"Endpoint not found"}"#),
        JellyAPIError::EndpointNotFound
    ));
    assert!(matches!(
        JellyAPIError::from_raw_body(r#"{ "error": "Invalid API token", "code": 401 }"#),
        JellyAPIError::InvalidAPIToken
    ));
}

#[test]
fn from_raw_body_reads_a_one_element_array() {
    assert!(matches!(JellyAPIError::from_raw_body(r#"["Invalid API token"]"#), JellyAPIError::InvalidAPIToken));
    match JellyAPIError::from_raw_body(r#" [ "Slow down" ] "#) {
        JellyAPIError::UnknownError(m) => assert_eq!(m, "Slow down"),
        other => panic!("unexpected {other:?}"),
    }
    for body in [r#"[]"#, r#"["Invalid API token", 1]"#, r#"[5]"#, r#"[["x"]]"#] {
        match JellyAPIError::from_raw_body(body) {
            JellyAPIError::UnknownError(m) => assert_eq!(m, body),
            other => panic!("unexpected {other:?}"),
        }
    }
}

#[test]
fn from_raw_body_skips_other_members_as_a_record_does() {
    assert!(matches!(
        JellyAPIError::from_raw_body(r#"{"n": 1e400, "error": "Invalid API token"}"#),
        JellyAPIError::InvalidAPIToken
    ));
    let deep = format!(r#"{{"error":"Endpoint not found","d":{}{}}}"#, "[".repeat(200), "]".repeat(200));
    assert!(matches!(JellyAPIError::from_raw_body(&deep), JellyAPIError::EndpointNotFound));
    match JellyAPIError::from_raw_body(r#"{"error": "a\u00e9b"}"#) {
        JellyAPIError::UnknownError(m) => assert_eq!(m, "a\u{e9}b"),
        other => panic!("unexpected {other:?}"),
    }
}

#[test]
fn from_raw_body_keeps_other_messages() {
    match JellyAPIError::from_raw_body(r#"{"error":"Rate limited"}"#) {
        JellyAPIError::UnknownError(m) => assert_eq!(m, "Rate limited"),
        other => panic!("unexpected {other:?}"),
    }
}

#[test]
fn from_raw_body_falls_back_to_the_body() {
    for body in ["<html>oops</html>", r#"{"error": 5}"#, r#"{"message":"x"}"#, ""] {
        match JellyAPIError::from_raw_body(body) {
            JellyAPIError::UnknownError(m) => assert_eq!(m, body),
            other => panic!("unexpected {other:?}"),
        }
    }
}

#[test]
fn api_error_messages() {
    assert_eq!(JellyAPIError::EndpointNotFound.message(), "endpoint not found");
    assert_eq!(JellyAPIError::InvalidAPIToken.message(), "invalid API token");
    assert_eq!(JellyAPIError::UnknownError("boom".to_string()).message(), "boom");
}

#[test]
fn new_keeps_the_base_url_and_sets_the_bearer_token() {
    let c = client();
    assert_eq!(c.base_url(), "https://app.letsjelly.com/api/");
    assert_eq!(c.authorization(), "Bearer secret-key");
    let c = match JellyClient::new("https://app.letsjelly.com/api/", "k") {
        Ok(c) => c,
        Err(e) => panic!("unexpected error {e:?}"),
    };
    assert_eq!(c.base_url(), "https://app.letsjelly.com/api/");
}

#[test]
fn new_refuses_keys_that_cannot_be_headers() {
    assert!(matches!(JellyClient::new("https://app.letsjelly.com/api", "bad\nkey"), Err(JellyError::InvalidHeader)));
    assert!(matches!(JellyClient::new("https://app.letsjelly.com/api", "bad\u{7f}"), Err(JellyError::InvalidHeader)));
    assert!(JellyClient::new("https://app.letsjelly.com/api", "tab\tand space é").is_ok());
}

#[test]
fn endpoints_stay_under_a_base_url_with_a_path() {
    let c = match JellyClient::new("https://proxy.example.com/jelly/api", "k") {
        Ok(c) => c,
        Err(e) => panic!("unexpected error {e:?}"),
    };
    assert_eq!(c.base_url(), "https://proxy.example.com/jelly/api/");
    assert_eq!(
        c.endpoint(&JellyClient::conversations_path()).unwrap(),
        "https://proxy.example.com/jelly/api/conversations"
    );
    assert_eq!(
        c.endpoint(&JellyClient::conversation_path("c_1")).unwrap(),
        "https://proxy.example.com/jelly/api/conversations/c_1"
    );
}

#[test]
fn query_and_fragment_of_the_base_url_are_dropped() {
    let c = match JellyClient::new("https://x.com/api?v=1", "k") {
        Ok(c) => c,
        Err(e) => panic!("unexpected error {e:?}"),
    };
    assert_eq!(c.base_url(), "https://x.com/api/");
    assert_eq!(c.endpoint("/conversations").unwrap(), "https://x.com/api/conversations");
    let c = match JellyClient::new("https://x.com/jelly/#top", "k") {
        Ok(c) => c,
        Err(e) => panic!("unexpected error {e:?}"),
    };
    assert_eq!(c.base_url(), "https://x.com/jelly/");
}

#[test]
fn try_new_reports_bases_that_cannot_take_paths() {
    assert!(JellyClient::try_new("mailto:team@example.com", "k").is_none());
    assert!(matches!(
        JellyClient::try_new("mailto:team@example.com", "bad\nkey"),
        Some(Err(JellyError::InvalidHeader))
    ));
    match JellyClient::try_new("https://proxy.example.com/jelly/api", "k") {
        Some(Ok(c)) => assert_eq!(c.base_url(), "https://proxy.example.com/jelly/api/"),
        _ => panic!("expected a client"),
    }
}

#[test]
fn endpoint_is_relative_to_the_api_root() {
    let c = client();
    assert_eq!(c.endpoint("/conversations").unwrap(), "https://app.letsjelly.com/api/conversations");
    assert_eq!(c.endpoint("conversations").unwrap(), "https://app.letsjelly.com/api/conversations");
    assert_eq!(c.endpoint("//conversations/abc").unwrap(), "https://app.letsjelly.com/api/conversations/abc");
    assert_eq!(
        c.endpoint(&JellyClient::conversation_path("c_123")).unwrap(),
        "https://app.letsjelly.com/api/conversations/c_123"
    );
    assert_eq!(JellyClient::conversations_path(), "/conversations");
}

#[test]
fn endpoint_reports_bad_urls() {
    let c = client();
    assert!(matches!(c.endpoint("http://[::1"), Err(JellyError::InvalidUrl(UrlError::InvalidIpv6Address))));
}

#[test]
fn read_response_passes_successful_bodies() {
    let r = JellyClient::read_response("u".to_string(), 200, "{}".to_string());
    assert_eq!(r.unwrap(), "{}");
    let r = JellyClient::read_response("u".to_string(), 299, "x".to_string());
    assert_eq!(r.unwrap(), "x");
}

#[test]
fn read_response_reads_api_errors() {
    let r = JellyClient::read_response(
        "https://app.letsjelly.com/api/x".to_string(),
        404,
        r#"{"error":"Endpoint not found"}"#.to_string(),
    );
    match r {
        Err(JellyError::Api { status, endpoint, body, source }) => {
            assert_eq!(status, 404);
            assert_eq!(endpoint, "https://app.letsjelly.com/api/x");
            assert_eq!(body, r#"{"error":"Endpoint not found"}"#);
            assert!(matches!(source, JellyAPIError::EndpointNotFound));
        }
        other => panic!("unexpected {other:?}"),
    }
    assert!(matches!(
        JellyClient::read_response("u".to_string(), 300, "x".to_string()),
        Err(JellyError::Api { status: 300, .. })
    ));
    assert!(matches!(
        JellyClient::read_response("u".to_string(), 199, "x".to_string()),
        Err(JellyError::Api { status: 199, .. })
    ));
}

#[test]
fn status_names() {
    assert_eq!(ConversationStatus::Open.as_str(), "open");
    assert_eq!(ConversationStatus::Archived.as_str(), "archived");
    assert_eq!(ConversationStatus::Snoozed.as_str(), "snoozed");
    assert_eq!(ConversationStatus::Spam.as_str(), "spam");
    assert_eq!(ConversationStatus::Trash.as_str(), "trash");
}

fn pairs(v: &[(&str, &str)]) -> Vec<(String, String)> {
    v.iter().map(|(a, b)| (a.to_string(), b.to_string())).collect()
}

#[test]
fn query_pairs_leave_out_absent_options() {
    assert!(ConversationListOptions::default().query_pairs().is_empty());
    let o = ConversationListOptions {
        status: Some(ConversationStatus::Snoozed),
        label_id: None,
        mailbox_id: Some("mb_1".to_string()),
        limit: Some(50),
        cursor: Some("abc".to_string()),
    };
    assert_eq!(
        o.query_pairs(),
        pairs(&[("status", "snoozed"), ("mailbox_id", "mb_1"), ("limit", "50"), ("cursor", "abc")])
    );
    let o = ConversationListOptions { label_id: Some("l".to_string()), ..ConversationListOptions::none() };
    assert_eq!(o.query_pairs(), pairs(&[("label_id", "l")]));
}

#[test]
fn walk_follows_cursors_until_none() {
    let mut first = ConversationListOptions::default();
    first.status = Some(ConversationStatus::Open);
    let mut walk = PageWalk::start(&first, None);
    let req = walk.next_request().unwrap();
    assert!(req.cursor.is_none());
    assert_eq!(req.status, Some(ConversationStatus::Open));
    walk.record_page(25, Some("c2".to_string()));
    let req = walk.next_request().unwrap();
    assert_eq!(req.cursor.as_deref(), Some("c2"));
    assert_eq!(req.status, Some(ConversationStatus::Open));
    walk.record_page(25, Some("c3".to_string()));
    assert_eq!(walk.next_request().unwrap().cursor.as_deref(), Some("c3"));
    walk.record_page(7, None);
    assert!(walk.is_finished());
    assert!(walk.next_request().is_none());
    assert_eq!(walk.discovered(), 57);
}

#[test]
fn walk_stops_on_an_empty_cursor() {
    let mut walk = PageWalk::start(&ConversationListOptions::default(), None);
    walk.record_page(3, Some(String::new()));
    assert!(walk.is_finished());
    assert_eq!(walk.discovered(), 3);
}

#[test]
fn walk_stops_once_the_limit_is_reached() {
    let mut walk = PageWalk::start(&ConversationListOptions::default(), Some(50));
    walk.record_page(25, Some("c2".to_string()));
    assert!(!walk.is_finished());
    walk.record_page(25, Some("c3".to_string()));
    assert!(walk.is_finished());
    assert_eq!(walk.discovered(), 50);

    let mut walk = PageWalk::start(&ConversationListOptions::default(), Some(0));
    assert!(walk.next_request().is_some());
    walk.record_page(10, Some("c2".to_string()));
    assert!(walk.is_finished());
}

#[test]
fn gathering_pages_keeps_order_and_count() {
    let mut all: Vec<u32> = Vec::new();
    let mut walk = PageWalk::start(&ConversationListOptions::default(), None);
    for (page, cursor) in [(vec![1, 2, 3], Some("b")), (vec![4], Some("c")), (vec![], None)] {
        walk.record_page(page.len(), cursor.map(String::from));
        gather_page(&mut all, page);
    }
    assert_eq!(all, vec![1, 2, 3, 4]);
    assert_eq!(all.len(), walk.discovered());
}
