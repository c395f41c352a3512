use scrape_gateway::backend::{
    build_text_request, build_ws_message, decode_reply_json, find_blank_line, interpret_reply,
    interpret_ws_event, parse_text_reply, ScrapeResult, WsEvent,
};
use scrape_gateway::dispatch::ScrapeRequest;
use scrape_gateway::errors::BackendError;

fn target(url: &str) -> ScrapeRequest {
    ScrapeRequest { url: String::from(url) }
}

#[test]
fn text_request_is_framed_exactly() {
    let req = build_text_request(&target("https://example.com/a b"));
    assert_eq!(
        req,
        "GET /scrape/https%3A%2F%2Fexample.com%2Fa%20b HTTP/1.1\r\n\
         Host: localhost:3000\r\n\
         Connection: close\r\n\
         \r\n",
    );
}

#[test]
fn text_request_encodes_reserved_characters() {
    let req = build_text_request(&target("http://h/?q=1&r=2"));
    assert!(req.starts_with("GET /scrape/http%3A%2F%2Fh%2F%3Fq%3D1%26r%3D2 HTTP/1.1\r\n"));
    assert!(req.ends_with("\r\n\r\n"));
}

#[test]
fn blank_line_is_the_first_boundary() {
    assert_eq!(find_blank_line("HTTP/1.1 200 OK\r\n\r\nbody"), Some(15));
    assert_eq!(find_blank_line("a\r\n\r\nb\r\n\r\nc"), Some(1));
    assert_eq!(find_blank_line("no boundary here"), None);
    assert_eq!(find_blank_line(""), None);
    assert_eq!(find_blank_line("\r\n\r\n"), Some(0));
}

#[test]
fn text_reply_with_content_succeeds() {
    let reply = "HTTP/1.1 200 OK\r\nContent-Type: application/json\r\n\r\n\
                 {\"content\":\"<p>hi</p>\",\"charset\":\"utf-8\"}";
    match parse_text_reply(reply) {
        Ok(ScrapeResult::Success { content, charset }) => {
            assert_eq!(content, "<p>hi</p>");
            assert_eq!(charset.as_deref(), Some("utf-8"));
        },
        _ => panic!("a well-formed reply was not accepted"),
    }
}

#[test]
fn text_reply_without_charset_succeeds() {
    let reply = "HTTP/1.1 200 OK\r\n\r\n{\"content\":\"x\"}";
    match parse_text_reply(reply) {
        Ok(ScrapeResult::Success { content, charset }) => {
            assert_eq!(content, "x");
            assert!(charset.is_none());
        },
        _ => panic!("a well-formed reply was not accepted"),
    }
}

#[test]
fn text_reply_with_error_field_is_a_reported_failure() {
    let reply = "HTTP/1.1 200 OK\r\n\r\n{\"error\":\"could not fetch\"}";
    match parse_text_reply(reply) {
        Ok(ScrapeResult::Failure { message }) => assert_eq!(message, "could not fetch"),
        _ => panic!("the backend's own report was not surfaced"),
    }
}

#[test]
fn text_reply_without_boundary_is_malformed() {
    assert!(matches!(
        parse_text_reply("HTTP/1.1 200 OK"),
        Err(BackendError::MalformedResponse),
    ));
}

#[test]
fn reply_with_neither_field_is_malformed() {
    let reply = "HTTP/1.1 200 OK\r\n\r\n{\"foo\":\"bar\"}";
    assert!(matches!(parse_text_reply(reply), Err(BackendError::MalformedResponse)));
    let fields = decode_reply_json("{\"foo\":\"bar\"}");
    assert!(matches!(interpret_reply(fields), Err(BackendError::MalformedResponse)));
}

#[test]
fn reply_that_is_no_object_is_malformed() {
    for body in ["[1,2]", "\"text\"", "3", "not json at all", ""] {
        let reply = format!("HTTP/1.1 200 OK\r\n\r\n{}", body);
        assert!(matches!(parse_text_reply(&reply), Err(BackendError::MalformedResponse)));
    }
}

#[test]
fn reply_with_non_string_content_is_malformed() {
    let reply = "HTTP/1.1 200 OK\r\n\r\n{\"content\":3}";
    assert!(matches!(parse_text_reply(reply), Err(BackendError::MalformedResponse)));
}

#[test]
fn ws_message_is_framed_exactly() {
    let msg = build_ws_message(&target("https://example.com"));
    assert_eq!(msg, "{\"url\":\"https://example.com\"}");
}

#[test]
fn ws_message_escapes_the_url() {
    let url = "https://example.com/?q=\"a\\b\"\n";
    let msg = build_ws_message(&target(url));
    assert_eq!(msg, "{\"url\":\"https://example.com/?q=\\\"a\\\\b\\\"\\n\"}");
    let parsed: serde_json::Value = serde_json::from_str(&msg).unwrap();
    assert_eq!(parsed.get("url").and_then(|v| v.as_str()), Some(url));
}

#[test]
fn ws_message_escapes_control_characters() {
    let url = "http://h/\u{1}";
    let msg = build_ws_message(&target(url));
    assert_eq!(msg, "{\"url\":\"http://h/\\u0001\"}");
    let parsed: serde_json::Value = serde_json::from_str(&msg).unwrap();
    assert_eq!(parsed.get("url").and_then(|v| v.as_str()), Some(url));
}

#[test]
fn ws_text_reply_with_content_succeeds() {
    let ev = WsEvent::Text(String::from("{\"content\":\"<p>ws</p>\"}"));
    match interpret_ws_event(ev) {
        Ok(ScrapeResult::Success { content, charset }) => {
            assert_eq!(content, "<p>ws</p>");
            assert!(charset.is_none());
        },
        _ => panic!("a well-formed message reply was not accepted"),
    }
}

#[test]
fn ws_other_events_are_typed_failures() {
    let ev = WsEvent::Text(String::from("{\"nothing\":\"here\"}"));
    assert!(matches!(interpret_ws_event(ev), Err(BackendError::MalformedResponse)));
    assert!(matches!(interpret_ws_event(WsEvent::NonText), Err(BackendError::MalformedResponse)));
    assert!(matches!(interpret_ws_event(WsEvent::TransportError), Err(BackendError::IoFailed)));
    assert!(matches!(interpret_ws_event(WsEvent::Closed), Err(BackendError::IoFailed)));
}
