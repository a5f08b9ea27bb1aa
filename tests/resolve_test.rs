use rustrest::cli::Command;
use rustrest::config::AppConfig;
use rustrest::error::AppError;
use rustrest::fields::FieldMap;
use rustrest::request::{parse_header, parse_key_value, resolve_body, resolve_url, HttpMethod, HttpRequest, RequestBody};
use std::path::PathBuf;

fn config() -> AppConfig {
    AppConfig::with_collections_dir(PathBuf::from("."))
}

#[test]
fn absolute_url_kept_for_any_base() {
    assert_eq!(resolve_url("https://h/x", None).unwrap(), "https://h/x");
    assert_eq!(resolve_url("https://h/x", Some("http://other/api/")).unwrap(), "https://h/x");
    assert_eq!(resolve_url("http://h/x?q=1", Some("http://b/")).unwrap(), "http://h/x?q=1");
}

#[test]
fn relative_url_joins_base() {
    assert_eq!(resolve_url("path", Some("http://h/api/")).unwrap(), "http://h/api/path");
    assert_eq!(resolve_url("path", Some("http://h/api")).unwrap(), "http://h/path");
}

#[test]
fn bare_host_gets_http() {
    assert_eq!(resolve_url("h.example", None).unwrap(), "http://h.example");
}

#[test]
fn unparseable_url_is_an_error() {
    assert!(matches!(resolve_url("http://", None), Err(AppError::UrlParse(_))));
    assert!(matches!(resolve_url("path", Some("not a base")), Err(AppError::UrlParse(_))));
}

#[test]
fn header_is_split_and_trimmed() {
    let (k, v) = parse_header("Authorization: Bearer x").unwrap();
    assert_eq!(k, "Authorization");
    assert_eq!(v, "Bearer x");
    let (k, v) = parse_header("  X-A :b:c  ").unwrap();
    assert_eq!(k, "X-A");
    assert_eq!(v, "b:c");
}

#[test]
fn malformed_header_fails() {
    match parse_header("malformed") {
        Err(AppError::InvalidHeader { header }) => assert_eq!(header, "malformed"),
        _ => panic!("expected an invalid header error"),
    }
}

#[test]
fn key_value_splits_at_first_equals() {
    let (k, v) = parse_key_value("a=b=c", false).unwrap();
    assert_eq!(k, "a");
    assert_eq!(v, "b=c");
    match parse_key_value("page", false) {
        Err(AppError::Other(m)) => assert_eq!(m, "Invalid query param 'page' — expected key=value"),
        _ => panic!("expected a query error"),
    }
    match parse_key_value("name", true) {
        Err(AppError::Other(m)) => assert_eq!(m, "Invalid form field 'name' — expected key=value"),
        _ => panic!("expected a form error"),
    }
}

#[test]
fn body_kinds() {
    match resolve_body(&Some("{\"a\":1}".to_string()), &[]).unwrap() {
        Some(RequestBody::Json(v)) => {
            assert_eq!(v, serde_json::from_str::<serde_json::Value>("{\"a\":1}").unwrap());
        },
        _ => panic!("expected a JSON body"),
    }
    match resolve_body(&Some("plain".to_string()), &[]).unwrap() {
        Some(RequestBody::Text(s)) => assert_eq!(s, "plain"),
        _ => panic!("expected a text body"),
    }
    match resolve_body(&Some("@f.txt".to_string()), &[]).unwrap() {
        Some(RequestBody::File(p)) => assert_eq!(p, "f.txt"),
        _ => panic!("expected a file body"),
    }
    assert!(resolve_body(&None, &[]).unwrap().is_none());
}

#[test]
fn form_wins_over_body() {
    for body in [None, Some("{\"a\":1}".to_string()), Some("@f".to_string())] {
        match resolve_body(&body, &["k=v".to_string()]).unwrap() {
            Some(RequestBody::Form(m)) => {
                assert_eq!(m.len(), 1);
                assert_eq!(m.get("k").unwrap(), "v");
            },
            _ => panic!("expected a form body"),
        }
    }
    assert!(matches!(resolve_body(&None, &["k=v".to_string(), "bad".to_string()]), Err(AppError::Other(_))));
}

#[test]
fn get_command_end_to_end() {
    let cmd = Command::Get {
        url: "api.example.com/x".to_string(),
        headers: vec!["X-Test: 1".to_string()],
        query: vec![],
    };
    let req = HttpRequest::from_command(&cmd, &config()).unwrap();
    assert_eq!(req.method, HttpMethod::Get);
    assert_eq!(req.url, "http://api.example.com/x");
    assert_eq!(req.headers.len(), 1);
    assert_eq!(req.headers.get("X-Test").unwrap(), "1");
    assert!(req.query.is_empty());
    assert!(req.body.is_none());
}

#[test]
fn user_headers_override_defaults() {
    let mut cfg = config();
    let mut defaults = FieldMap::new();
    defaults.insert("Accept".to_string(), "*/*".to_string());
    defaults.insert("X-Env".to_string(), "dev".to_string());
    cfg.default_headers = defaults;
    cfg.base_url = Some("http://h/api/".to_string());
    let cmd = Command::Post {
        url: "users".to_string(),
        headers: vec!["Accept: application/json".to_string()],
        body: Some("hello".to_string()),
        form: vec![],
    };
    let req = HttpRequest::from_command(&cmd, &cfg).unwrap();
    assert_eq!(req.url, "http://h/api/users");
    assert_eq!(req.headers.get("Accept").unwrap(), "application/json");
    assert_eq!(req.headers.get("X-Env").unwrap(), "dev");
    assert_eq!(req.headers.len(), 2);
    assert!(matches!(req.body, Some(RequestBody::Text(ref s)) if s == "hello"));
}

#[test]
fn command_errors() {
    let bad_header = Command::Delete { url: "h".to_string(), headers: vec!["nocolon".to_string()] };
    assert!(matches!(HttpRequest::from_command(&bad_header, &config()), Err(AppError::InvalidHeader { .. })));
    let bad_query = Command::Get { url: "h".to_string(), headers: vec![], query: vec!["x".to_string()] };
    assert!(matches!(HttpRequest::from_command(&bad_query, &config()), Err(AppError::Other(_))));
    match HttpRequest::from_command(&Command::Tui, &config()) {
        Err(AppError::Other(m)) => assert_eq!(m, "Not an HTTP command"),
        _ => panic!("expected an error"),
    }
}

#[test]
fn query_and_put_body() {
    let get = Command::Get {
        url: "https://h/x".to_string(),
        headers: vec![],
        query: vec!["page=1".to_string(), "page=2".to_string(), "q=a=b".to_string()],
    };
    let req = HttpRequest::from_command(&get, &config()).unwrap();
    assert_eq!(req.query.len(), 2);
    assert_eq!(req.query.get("page").unwrap(), "2");
    assert_eq!(req.query.get("q").unwrap(), "a=b");
    let put = Command::Put { url: "https://h/x".to_string(), headers: vec![], body: Some("[1]".to_string()) };
    let req = HttpRequest::from_command(&put, &config()).unwrap();
    assert_eq!(req.method, HttpMethod::Put);
    assert!(matches!(req.body, Some(RequestBody::Json(_))));
}
