use rustrest::fields::FieldMap;
use rustrest::request::{HttpMethod, HttpRequest};

#[test]
fn request_stores_method_and_url() {
    let req = HttpRequest {
        method: HttpMethod::Get,
        url: "https://httpbin.org/get".to_string(),
        headers: FieldMap::new(),
        query: FieldMap::new(),
        body: None,
    };
    assert_eq!(req.url, "https://httpbin.org/get");
    assert!(req.headers.is_empty());
    assert!(req.body.is_none());
}

#[test]
fn http_method_display() {
    assert_eq!(HttpMethod::Get.to_string(), "GET");
    assert_eq!(HttpMethod::Post.to_string(), "POST");
    assert_eq!(HttpMethod::Put.to_string(), "PUT");
    assert_eq!(HttpMethod::Patch.to_string(), "PATCH");
    assert_eq!(HttpMethod::Delete.to_string(), "DELETE");
    assert_eq!(HttpMethod::Head.to_string(), "HEAD");
}

#[test]
fn request_with_headers() {
    let mut headers = FieldMap::new();
    headers.insert("Authorization".to_string(), "Bearer token123".to_string());
    headers.insert("Accept".to_string(), "application/json".to_string());

    let req = HttpRequest {
        method: HttpMethod::Post,
        url: "https://api.example.com/users".to_string(),
        headers,
        query: FieldMap::new(),
        body: None,
    };

    assert_eq!(req.headers.get("Authorization").unwrap(), "Bearer token123");
    assert_eq!(req.headers.len(), 2);
}

#[test]
fn field_map_insert_replaces_in_place() {
    let mut m = FieldMap::new();
    m.insert("A".to_string(), "1".to_string());
    m.insert("B".to_string(), "2".to_string());
    m.insert("A".to_string(), "3".to_string());
    assert_eq!(m.len(), 2);
    assert_eq!(m.get("A").unwrap(), "3");
    assert_eq!(m.pairs()[0].0, "A");
    assert!(m.get("a").is_none());
}
