use http_core::headers::Headers;
use http_core::response::Response;

#[test]
fn test_response_default() {
    let response: Response = Response::default();

    assert_eq!(response.version(), "HTTP/1.1");
    assert_eq!(response.status_code(), "200");
    assert_eq!(response.status_text(), "OK");
    assert!(response.header_map().is_none());
    assert!(response.body_opt().is_none());
}

#[test]
fn test_response_new() {
    let mut headers = Headers::new();
    headers.insert("Content-Type".to_string(), "text/html".to_string());

    let response: Response = Response::new("404", Some(headers), Some("Not Found".to_string()));

    assert_eq!(response.version(), "HTTP/1.1");
    assert_eq!(response.status_code(), "404");
    assert_eq!(response.status_text(), "Not Found");
    assert_eq!(
        response.header_map().unwrap().get("Content-Type"),
        Some(&"text/html".to_string())
    );
    assert_eq!(response.body_opt(), Some(&"Not Found".to_string()));
}

#[test]
fn test_response_into_string() {
    let response: Response = Response::new("200", None, Some("xxxx".to_string()));
    let response_str: String = response.into();

    assert_eq!(
        response_str,
        "HTTP/1.1 200 OK\r\nContent-Type:text/html\r\nContent Length: 4\r\n\r\nxxxx"
    );
}

#[test]
fn missing_headers_default_to_html() {
    let response = Response::new("404", None, Some("Not Found".to_string()));
    assert_eq!(response.status_text(), "Not Found");
    let h = response.header_map().unwrap();
    assert_eq!(h.len(), 1);
    assert_eq!(h.get("Content-Type"), Some(&"text/html".to_string()));
    assert_eq!(response.body(), "Not Found");
}

#[test]
fn explicit_empty_headers_are_kept() {
    let response = Response::new("200", Some(Headers::new()), None);
    assert_eq!(response.header_map().unwrap().len(), 0);
    assert_eq!(response.to_wire(), "HTTP/1.1 200 OK\r\nContent Length: 0\r\n\r\n");
}

#[test]
fn status_table() {
    assert_eq!(Response::new("200", None, None).status_text(), "OK");
    assert_eq!(Response::new("400", None, None).status_text(), "Bad Request");
    assert_eq!(Response::new("404", None, None).status_text(), "Not Found");
    assert_eq!(Response::new("500", None, None).status_text(), "Internal Server Error");
    assert_eq!(Response::new("418", None, None).status_text(), "Unknown Error");
    assert_eq!(Response::new("418", None, None).status_code(), "418");
}

#[test]
fn default_response_serializes_without_fields() {
    let response = Response::default();
    assert_eq!(response.headers(), "");
    assert_eq!(String::from(response), "HTTP/1.1 200 OK\r\nContent Length: 0\r\n\r\n");
}

#[test]
fn content_length_counts_bytes() {
    let response = Response::new("200", None, Some("h\u{e9}llo \u{20ac}".to_string()));
    assert_eq!(
        response.to_wire(),
        "HTTP/1.1 200 OK\r\nContent-Type:text/html\r\nContent Length: 10\r\n\r\nh\u{e9}llo \u{20ac}"
    );
}

#[test]
fn fields_serialize_in_insertion_order() {
    let mut headers = Headers::new();
    headers.insert("B".to_string(), "1".to_string());
    headers.insert("A".to_string(), "2".to_string());
    headers.insert("B".to_string(), "3".to_string());
    let response = Response::new("500", Some(headers), Some("oops".to_string()));
    assert_eq!(response.headers(), "B:3\r\nA:2\r\n");
    assert_eq!(
        response.to_wire(),
        "HTTP/1.1 500 Internal Server Error\r\nB:3\r\nA:2\r\nContent Length: 4\r\n\r\noops"
    );
}

#[test]
fn serializing_twice_gives_same_text() {
    let mut headers = Headers::new();
    headers.insert("X".to_string(), "1".to_string());
    headers.insert("Y".to_string(), "2".to_string());
    let response = Response::new("404", Some(headers), Some("gone".to_string()));
    let first = response.to_wire();
    let second = response.to_wire();
    assert_eq!(first, second);
}

#[test]
fn long_body_length() {
    let body = "a".repeat(1234);
    let response = Response::new("200", None, Some(body.clone()));
    let expected = format!("HTTP/1.1 200 OK\r\nContent-Type:text/html\r\nContent Length: 1234\r\n\r\n{}", body);
    assert_eq!(response.to_wire(), expected);
}

#[test]
fn headers_field_access() {
    let mut headers = Headers::new();
    headers.insert("K".to_string(), "v".to_string());
    let (k, v) = headers.field(0);
    assert_eq!(k, "K");
    assert_eq!(v, "v");
}

#[test]
fn not_found_without_body_through_from() {
    let response = Response::new("404", Some(Headers::new()), None);
    assert_eq!(String::from(response), "HTTP/1.1 404 Not Found\r\nContent Length: 0\r\n\r\n");
}
