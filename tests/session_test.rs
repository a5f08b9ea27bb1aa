use rustrest::config::AppConfig;
use rustrest::request::HttpMethod;
use rustrest::session::{transition, Action, App, AppMode, FocusArea, Key, KeyPress, ResponseTitle, SendOutcome, StatusLine};
use std::path::PathBuf;

fn app() -> App {
    App::new(AppConfig::with_collections_dir(PathBuf::from(".")))
}

fn key(k: Key) -> KeyPress {
    KeyPress { key: k, ctrl: false }
}

#[test]
fn new_session_defaults() {
    let a = app();
    assert_eq!(a.mode, AppMode::Normal);
    assert_eq!(a.focus, FocusArea::UrlInput);
    assert_eq!(a.method, HttpMethod::Get);
    assert!(a.url.is_empty() && a.headers_raw.is_empty() && a.body_raw.is_empty());
    assert!(!a.is_loading);
    assert_eq!(a.status_line(), StatusLine::Ready);
    assert_eq!(a.response_title(), ResponseTitle::Idle);
}

#[test]
fn method_cycle_visits_all_six() {
    let mut a = app();
    let mut seen = vec![];
    for _ in 0..6 {
        seen.push(a.method);
        a.next_method();
    }
    assert_eq!(a.method, HttpMethod::Get);
    assert_eq!(seen, vec![HttpMethod::Get, HttpMethod::Post, HttpMethod::Put, HttpMethod::Patch, HttpMethod::Delete, HttpMethod::Head]);
}

#[test]
fn focus_cycle_visits_all_five() {
    let mut a = app();
    a.focus = FocusArea::MethodSelector;
    let mut seen = vec![];
    for _ in 0..5 {
        seen.push(a.focus);
        a.next_focus();
    }
    assert_eq!(a.focus, FocusArea::MethodSelector);
    assert_eq!(seen, vec![FocusArea::MethodSelector, FocusArea::UrlInput, FocusArea::HeadersInput, FocusArea::BodyInput, FocusArea::ResponseView]);
}

#[test]
fn normal_mode_keys() {
    let mut a = app();
    assert_eq!(a.handle_key(key(Key::Char('q'))), Some(Action::Quit));
    assert_eq!(a.handle_key(KeyPress { key: Key::Char('c'), ctrl: true }), Some(Action::Quit));
    assert_eq!(a.handle_key(key(Key::Char('c'))), None);
    assert_eq!(a.handle_key(key(Key::Enter)), Some(Action::SendRequest));
    assert_eq!(a.handle_key(key(Key::Char('m'))), None);
    assert_eq!(a.method, HttpMethod::Get);
    for _ in 0..4 {
        a.handle_key(key(Key::Tab));
    }
    assert_eq!(a.focus, FocusArea::MethodSelector);
    a.handle_key(key(Key::Char('m')));
    assert_eq!(a.method, HttpMethod::Post);
    a.handle_key(key(Key::Char('i')));
    assert_eq!(a.mode, AppMode::Insert);
    assert_eq!(a.focus, FocusArea::MethodSelector);
}

#[test]
fn insert_mode_edits_bound_buffer() {
    let mut a = app();
    a.handle_key(key(Key::Char('i')));
    for c in "h/x".chars() {
        assert_eq!(a.handle_key(key(Key::Char(c))), None);
    }
    assert_eq!(a.url, "h/x");
    a.handle_key(key(Key::Backspace));
    assert_eq!(a.url, "h/");
    assert_eq!(a.handle_key(key(Key::Enter)), Some(Action::SendRequest));
    a.handle_key(key(Key::Esc));
    a.handle_key(key(Key::Tab));
    a.handle_key(key(Key::Char('i')));
    a.handle_key(key(Key::Char('A')));
    assert_eq!(a.handle_key(key(Key::Enter)), None);
    assert_eq!(a.headers_raw, "A\n");
    assert_eq!(a.url, "h/");
    a.handle_key(key(Key::Backspace));
    a.handle_key(key(Key::Backspace));
    a.handle_key(key(Key::Backspace));
    assert_eq!(a.headers_raw, "");
}

#[test]
fn method_and_response_ignore_edits() {
    let t = transition(AppMode::Insert, FocusArea::MethodSelector, key(Key::Char('x')));
    assert_eq!(t.mode, AppMode::Insert);
    assert_eq!(t.action, None);
    let t = transition(AppMode::Insert, FocusArea::ResponseView, key(Key::Enter));
    assert_eq!(t.action, Some(Action::SendRequest));
}

#[test]
fn send_success_fills_response() {
    let mut a = app();
    a.url = "http://h/x".to_string();
    a.error_message = Some("old".to_string());
    let req = a.begin_send();
    assert!(a.is_loading);
    assert_eq!(a.error_message, None);
    assert_eq!(a.response_title(), ResponseTitle::Sending);
    assert_eq!(req.url, "http://h/x");
    assert!(req.headers.is_empty() && req.body.is_none());
    a.finish_send(SendOutcome::Received {
        status: 200,
        elapsed_ms: 12,
        content_type: "application/json".to_string(),
        body: "{\"a\":1}".to_string(),
    });
    assert!(!a.is_loading);
    assert_eq!(a.status_code, Some(200));
    assert_eq!(a.response_text, "{\n  \"a\": 1\n}");
    assert_eq!(a.status_line(), StatusLine::Done { elapsed_ms: 12 });
    assert_eq!(a.response_title(), ResponseTitle::Status(200));
}

#[test]
fn send_failure_keeps_response() {
    let mut a = app();
    a.begin_send();
    a.finish_send(SendOutcome::Received { status: 404, elapsed_ms: 3, content_type: "text/plain".to_string(), body: "nope".to_string() });
    a.begin_send();
    a.finish_send(SendOutcome::Failed { message: "timed out".to_string() });
    assert!(!a.is_loading);
    assert_eq!(a.status_code, Some(404));
    assert_eq!(a.response_text, "nope");
    assert_eq!(a.status_line(), StatusLine::Error("timed out".to_string()));
}
