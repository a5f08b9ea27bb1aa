use rustrest::display::{colorize_json, format_body, is_json_content_type, status_class};

#[test]
fn json_pretty_round_trips() {
    let input = r#"{"name":"Alice","age":30,"active":true}"#;
    let pretty = format_body(input, "application/json");
    assert!(pretty.contains("\"name\""));
    assert!(pretty.contains("\"Alice\""));
    assert!(pretty.contains("\"age\""));
}

#[test]
fn status_code_class() {
    let class = |code: u16| status_class(code).label();
    assert_eq!(class(200), "success");
    assert_eq!(class(204), "success");
    assert_eq!(class(301), "redirect");
    assert_eq!(class(404), "client_error");
    assert_eq!(class(422), "client_error");
    assert_eq!(class(500), "server_error");
    assert_eq!(class(503), "server_error");
}

#[test]
fn content_type_json_detection() {
    let is_json = |ct: &str| is_json_content_type(ct);
    assert!(is_json("application/json"));
    assert!(is_json("application/json; charset=utf-8"));
    assert!(is_json("text/json"));
    assert!(!is_json("text/html"));
    assert!(!is_json("application/xml"));
}

#[test]
fn status_class_edges() {
    assert_eq!(status_class(199).label(), "unknown");
    assert_eq!(status_class(299).label(), "success");
    assert_eq!(status_class(399).label(), "redirect");
    assert_eq!(status_class(599).label(), "server_error");
    assert_eq!(status_class(600).label(), "unknown");
}

#[test]
fn json_content_type_is_case_sensitive() {
    assert!(!is_json_content_type("Application/JSON"));
    assert!(!is_json_content_type(""));
}

#[test]
fn formatter_json_keeps_every_key() {
    let body = r#"{"a":1,"b":{"c":[1,2]},"d":"x"}"#;
    let out = format_body(body, "application/json; charset=utf-8");
    assert_ne!(out, body);
    for key in ["\"a\"", "\"b\"", "\"c\"", "\"d\""] {
        assert!(out.contains(key));
    }
    assert!(out.contains('\n'));
}

#[test]
fn formatter_invalid_json_is_unchanged() {
    let body = "{not json";
    assert_eq!(format_body(body, "application/json"), body);
}

#[test]
fn formatter_other_content_type_is_unchanged() {
    let body = r#"{"a":1}"#;
    assert_eq!(format_body(body, "text/plain"), body);
    assert_eq!(format_body("<p>x</p>", "text/html"), "<p>x</p>");
}

#[test]
fn colorize_keeps_text_apart_from_color_codes() {
    let text = "{\n  \"name\": \"Alice\",\n  \"age\": 30\n}\n";
    let out = colorize_json(text);
    let plain: String = strip_escapes(&out);
    assert_eq!(plain, "{\n  \"name\": \"Alice\",\n  \"age\": 30\n}");
}

#[test]
fn colorize_passes_plain_lines() {
    assert_eq!(strip_escapes(&colorize_json("[\n  1,\n  2\n]")), "[\n  1,\n  2\n]");
    assert_eq!(colorize_json(""), "");
}

fn strip_escapes(s: &str) -> String {
    let mut out = String::new();
    let mut chars = s.chars();
    while let Some(c) = chars.next() {
        if c == '\u{1b}' {
            for d in chars.by_ref() {
                if d == 'm' {
                    break;
                }
            }
        } else {
            out.push(c);
        }
    }
    out
}

#[test]
fn formatter_json_content_types_reindent() {
    for ct in ["application/json", "application/json; charset=utf-8", "text/json"] {
        assert_eq!(format_body(r#"{"a":1}"#, ct), "{\n  \"a\": 1\n}");
    }
    for ct in ["text/html", "application/xml"] {
        assert_eq!(format_body(r#"{"a":1}"#, ct), r#"{"a":1}"#);
    }
}
