use scrape_gateway::dispatch::{
    finish_request, parse_target, plan_request, RequestPlan, ScrapeRequest,
};
use scrape_gateway::backend::ScrapeResult;
use scrape_gateway::errors::{BackendError, GatewayError, ValidationError};
use scrape_gateway::response::{map_error, status_of, OutgoingResponse, ResponseBody};
use scrape_gateway::staticserve::{plan_static, StaticPlan};
use std::io::Read;

fn body_text(resp: &OutgoingResponse) -> &str {
    match &resp.body {
        ResponseBody::Text(s) => s.as_str(),
        ResponseBody::Bytes(_) => panic!("expected a text body"),
    }
}

fn body_bytes(resp: &OutgoingResponse) -> &[u8] {
    match &resp.body {
        ResponseBody::Bytes(b) => b.as_slice(),
        ResponseBody::Text(_) => panic!("expected a byte body"),
    }
}

fn unbrotli(bytes: &[u8]) -> String {
    let mut reader = brotlic::DecompressorReader::new(bytes);
    let mut out = Vec::new();
    reader.read_to_end(&mut out).unwrap();
    String::from_utf8(out).unwrap()
}

#[test]
fn missing_url_is_rejected() {
    assert!(matches!(parse_target("a=b&c=d"), Err(ValidationError::MissingUrl)));
    assert!(matches!(parse_target(""), Err(ValidationError::MissingUrl)));
    assert!(matches!(parse_target("urls=https://example.com"), Err(ValidationError::MissingUrl)));
}

#[test]
fn missing_url_answers_without_backend_call() {
    match plan_request("a=b") {
        RequestPlan::Respond(resp) => {
            assert_eq!(resp.status, 400);
            assert_eq!(resp.content_type, "application/json");
            assert!(resp.content_encoding.is_none());
            assert_eq!(
                body_text(&resp),
                "{\"status\":\"error\",\"error\":\"No URL provided. Use ?url=https://example.com\"}",
            );
        },
        RequestPlan::CallBackend(_) => panic!("a backend call was planned for a request without a url"),
    }
}

#[test]
fn valid_url_plans_exactly_the_backend_call() {
    match plan_request("url=https://example.com/page") {
        RequestPlan::CallBackend(sr) => assert_eq!(sr.url, "https://example.com/page"),
        RequestPlan::Respond(_) => panic!("a valid url was not dispatched"),
    }
    match plan_request("url=http://example.com") {
        RequestPlan::CallBackend(sr) => assert_eq!(sr.url, "http://example.com"),
        RequestPlan::Respond(_) => panic!("a valid url was not dispatched"),
    }
}

#[test]
fn first_url_parameter_wins() {
    match parse_target("url=https://a.example/&url=https://b.example/") {
        Ok(sr) => assert_eq!(sr.url, "https://a.example/"),
        Err(_) => panic!("first url parameter was not taken"),
    }
}

#[test]
fn url_parameter_is_percent_decoded() {
    match parse_target("url=https%3A%2F%2Fexample.com%2Fa%20b") {
        Ok(sr) => assert_eq!(sr.url, "https://example.com/a b"),
        Err(_) => panic!("percent-decoding failed"),
    }
}

#[test]
fn bad_scheme_is_rejected() {
    assert!(matches!(parse_target("url=ftp://example.com"), Err(ValidationError::InvalidScheme)));
    assert!(matches!(parse_target("url=example.com"), Err(ValidationError::InvalidScheme)));
    assert!(matches!(parse_target("url="), Err(ValidationError::InvalidScheme)));
    match plan_request("url=ftp://example.com") {
        RequestPlan::Respond(resp) => assert_eq!(resp.status, 400),
        RequestPlan::CallBackend(_) => panic!("a bad scheme reached the backend plan"),
    }
}

#[test]
fn success_round_trip_through_compression() {
    let reply = "HTTP/1.1 200 OK\r\n\r\n{\"content\":\"<p>hi</p>\",\"charset\":\"utf-8\"}";
    let outcome = scrape_gateway::backend::parse_text_reply(reply);
    assert!(outcome.is_ok());
    let resp = finish_request(outcome, true);
    assert_eq!(resp.status, 200);
    assert_eq!(resp.content_type, "text/html; charset=utf-8");
    assert_eq!(resp.content_encoding.as_deref(), Some("br"));
    assert_eq!(unbrotli(body_bytes(&resp)), "<p>hi</p>");
}

#[test]
fn compression_is_lossless_for_any_content() {
    let cases = [
        String::new(),
        String::from("a"),
        String::from("hello world").repeat(500),
        String::from("caf\u{e9} \u{2603} \u{1f600}"),
        String::from("line\nbreaks\tand \"quotes\" and \\slashes\\"),
    ];
    for content in cases {
        let resp = finish_request(
            Ok(ScrapeResult::Success { content: content.clone(), charset: None }),
            true,
        );
        assert_eq!(unbrotli(body_bytes(&resp)), content);
    }
}

#[test]
fn uncompressed_body_is_the_content_itself() {
    let resp = finish_request(
        Ok(ScrapeResult::Success { content: String::from("<p>plain</p>"), charset: None }),
        false,
    );
    assert_eq!(resp.status, 200);
    assert!(resp.content_encoding.is_none());
    assert_eq!(body_text(&resp), "<p>plain</p>");
}

#[test]
fn charset_defaults_to_utf8() {
    let resp = finish_request(
        Ok(ScrapeResult::Success { content: String::from("x"), charset: None }),
        false,
    );
    assert_eq!(resp.content_type, "text/html; charset=utf-8");
    let resp = finish_request(
        Ok(ScrapeResult::Success {
            content: String::from("x"),
            charset: Some(String::from("iso-8859-1")),
        }),
        false,
    );
    assert_eq!(resp.content_type, "text/html; charset=iso-8859-1");
}

#[test]
fn backend_failures_map_to_server_errors() {
    let resp = finish_request(Err(BackendError::ConnectFailed), true);
    assert_eq!(resp.status, 502);
    assert_eq!(
        body_text(&resp),
        "{\"status\":\"error\",\"error\":\"Could not reach the content service\"}",
    );
    let resp = finish_request(Err(BackendError::IoFailed), false);
    assert_eq!(resp.status, 502);
    let resp = finish_request(Err(BackendError::MalformedResponse), false);
    assert_eq!(
        body_text(&resp),
        "{\"status\":\"error\",\"error\":\"The content service sent an unexpected reply\"}",
    );
}

#[test]
fn reported_backend_error_maps_to_its_own_kind() {
    let resp = finish_request(
        Ok(ScrapeResult::Failure { message: String::from("page not reachable") }),
        true,
    );
    assert_eq!(resp.status, 502);
    assert_eq!(
        body_text(&resp),
        "{\"status\":\"error\",\"error\":\"The content service could not retrieve the page\"}",
    );
}

#[test]
fn every_error_kind_has_a_status_and_a_stable_body() {
    let kinds = [
        (GatewayError::MissingUrl, 400),
        (GatewayError::InvalidUrlScheme, 400),
        (GatewayError::BackendConnectFailed, 502),
        (GatewayError::BackendIoFailed, 502),
        (GatewayError::BackendMalformedResponse, 502),
        (GatewayError::BackendReportedError, 502),
        (GatewayError::CompressionFailed, 500),
        (GatewayError::ResponseWriteFailed, 500),
    ];
    let mut bodies = Vec::new();
    for (kind, status) in kinds {
        assert_eq!(status_of(kind), status);
        let resp = map_error(kind);
        assert_eq!(resp.status, status);
        assert_eq!(resp.content_type, "application/json");
        assert!(resp.content_encoding.is_none());
        let body = body_text(&resp).to_string();
        assert!(body.starts_with("{\"status\":\"error\",\"error\":\""));
        assert!(body.ends_with("\"}"));
        bodies.push(body);
    }
    for i in 0..bodies.len() {
        for j in 0..i {
            assert_ne!(bodies[i], bodies[j]);
        }
    }
}

#[test]
fn traversal_paths_are_refused_without_file_access() {
    assert!(matches!(plan_static("/a/../b"), StaticPlan::NotFound));
    assert!(matches!(plan_static(".."), StaticPlan::NotFound));
    assert!(matches!(plan_static("/x/..%2fetc"), StaticPlan::NotFound));
    assert!(matches!(plan_static("/static/..hidden"), StaticPlan::NotFound));
    match plan_static("/static/index.html") {
        StaticPlan::ServeFile(f) => assert_eq!(f, "/static/index.html"),
        StaticPlan::NotFound => panic!("a clean path was refused"),
    }
}

#[test]
fn validated_request_keeps_its_url() {
    let sr = ScrapeRequest { url: String::from("https://example.com") };
    assert_eq!(sr.url, "https://example.com");
}
