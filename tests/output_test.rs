use rustrest::cli::OutputFormat;
use rustrest::collections::{Collection, SavedRequest};
use rustrest::display::{colorize_json, pretty_body};
use rustrest::error::AppError;
use rustrest::fields::FieldMap;
use rustrest::request::{HttpMethod, HttpRequest};
use rustrest::response::{render_response, ParsedResponse};

#[test]
fn colorize_paints_keys_and_string_values() {
    colored::control::set_override(true);
    let out = colorize_json("{\n  \"name\": \"Alice\",\n  \"age\": 30\n}");
    colored::control::unset_override();
    let lines: Vec<&str> = out.lines().collect();
    assert_eq!(lines[0], "{");
    assert_eq!(lines[1], "  \u{1b}[36m\"name\": \u{1b}[0m\u{1b}[33m\"Alice\",\u{1b}[0m");
    assert_eq!(lines[2], "  \u{1b}[36m\"age\": \u{1b}[0m30");
    assert_eq!(lines[3], "}");
}

#[test]
fn pretty_body_only_touches_json() {
    assert_eq!(pretty_body("{\"a\":1", "application/json"), "{\"a\":1");
    assert_eq!(pretty_body("{\"a\":1}", "text/plain"), "{\"a\":1}");
    let out = pretty_body("{\"a\":1}", "application/json");
    assert!(out.contains("\"a\""));
    assert!(out.starts_with("{\n"));
}

fn parsed(body: &str, content_type: Option<&str>) -> ParsedResponse {
    ParsedResponse::from_parts(200, Some("OK"), content_type, vec![], body.to_string(), 5)
}

#[test]
fn response_defaults_and_size() {
    let p = ParsedResponse::from_parts(299, None, None, vec![], "é".to_string(), 1);
    assert_eq!(p.status_text, "Unknown");
    assert_eq!(p.content_type, "application/octet-stream");
    assert_eq!(p.size_bytes, 2);
}

#[test]
fn render_response_flags() {
    let p = parsed("{\"a\":1}", Some("application/json"));
    let out = render_response(&p, OutputFormat::Json, true, false);
    assert!(out.show_status && out.show_headers && out.line_end);
    assert_eq!(out.body_text, "{\"a\":1}");
    let out = render_response(&p, OutputFormat::Plain, true, true);
    assert!(!out.show_status && !out.show_headers && !out.line_end);
    assert_eq!(out.body_text, "{\"a\":1}");
    let out = render_response(&p, OutputFormat::Pretty, false, false);
    assert!(!out.show_headers);
    assert_ne!(out.body_text, "{\"a\":1}");
}

fn saved(url: &str) -> SavedRequest {
    SavedRequest {
        name: "n".to_string(),
        description: None,
        request: HttpRequest {
            method: HttpMethod::Get,
            url: url.to_string(),
            headers: FieldMap::new(),
            query: FieldMap::new(),
            body: None,
        },
    }
}

#[test]
fn collection_lookup() {
    let col = Collection {
        name: "api".to_string(),
        description: None,
        requests: vec![("list".to_string(), saved("http://h/list")), ("one".to_string(), saved("http://h/1"))],
    };
    assert!(col.keys_distinct());
    assert_eq!(col.find_request("one").unwrap().request.url, "http://h/1");
    match col.find_request("missing") {
        Err(AppError::Other(m)) => assert_eq!(m, "Request 'missing' not found in collection 'api'"),
        _ => panic!("expected a lookup error"),
    }
}

#[test]
fn collection_with_repeated_key_is_not_distinct() {
    let col = Collection {
        name: "api".to_string(),
        description: None,
        requests: vec![("a".to_string(), saved("http://h/1")), ("b".to_string(), saved("http://h/2")), ("a".to_string(), saved("http://h/3"))],
    };
    assert!(!col.keys_distinct());
}

#[test]
fn pretty_body_colorizes_reindented_json() {
    colored::control::set_override(true);
    let out = pretty_body("{\"a\":\"x\"}", "text/json");
    colored::control::unset_override();
    assert_eq!(out, "{\n  \u{1b}[36m\"a\": \u{1b}[0m\u{1b}[33m\"x\"\u{1b}[0m\n}");
}
