use http_core::request::{Method, ParseError, Request, Resource, Version};

#[test]
fn test_method_from_str() {
    assert_eq!(Method::from("GET"), Method::Get);
    assert_eq!(Method::from("POST"), Method::Post);
    assert_eq!(Method::from("FOO"), Method::Uninitialized);
}

#[test]
fn test_method_into() {
    let m: Method = "GET".into();
    assert_eq!(m, Method::Get);
}

#[test]
fn test_version_from_str() {
    assert_eq!(Version::from("HTTP/1.1"), Version::V1_1);
    assert_eq!(Version::from("HTTP/2.0"), Version::V2_0);
    assert_eq!(Version::from("FOO"), Version::Uninitialized);
}

#[test]
fn test_version_into() {
    let v1: Version = "HTTP/1.1".into();
    assert_eq!(v1, Version::V1_1);

    let v2: Version = "HTTP/2.0".into();
    assert_eq!(v2, Version::V2_0);
}

#[test]
fn test_request_from_string() {
    let s: String =
        String::from("GET /greeting HTTP/1.1\r\nHost:example.com\r\nAccept:*/*\r\n\r\n");
    let request: Request = s.into();

    assert_eq!(request.method, Method::Get);
    assert_eq!(request.version, Version::V1_1);
    assert_eq!(request.resource, Resource::Path("/greeting".to_string()));
    assert_eq!(request.headers.get("Host"), Some(&"example.com".into()));
    assert_eq!(request.headers.get("Accept"), Some(&"*/*".into()));
    assert_eq!(request.msg_body, "");
}

#[test]
fn method_is_case_sensitive() {
    assert_eq!(Method::from("get"), Method::Uninitialized);
    assert_eq!(Method::from(""), Method::Uninitialized);
    assert_eq!(Method::from("GETX"), Method::Uninitialized);
}

#[test]
fn version_other_labels_unrecognized() {
    assert_eq!(Version::from("HTTP/1.0"), Version::Uninitialized);
    assert_eq!(Version::from("http/1.1"), Version::Uninitialized);
}

#[test]
fn empty_text_gives_defaults() {
    let r = Request::from_text("");
    assert_eq!(r.method, Method::Uninitialized);
    assert_eq!(r.version, Version::V1_1);
    assert_eq!(r.resource, Resource::Path(String::new()));
    assert_eq!(r.headers.len(), 0);
    assert_eq!(r.msg_body, "");
}

#[test]
fn post_with_body_last_line_wins() {
    let r = Request::from_text("POST /form HTTP/2.0\r\nHost:a\r\n\r\nfirst\r\nsecond");
    assert_eq!(r.method, Method::Post);
    assert_eq!(r.version, Version::V2_0);
    assert_eq!(r.resource, Resource::Path("/form".to_string()));
    assert_eq!(r.msg_body, "second");
}

#[test]
fn header_split_at_first_colon_kept_verbatim() {
    let r = Request::from_text("GET / HTTP/1.1\r\nHost: example.com:8080 \r\n");
    assert_eq!(r.headers.get("Host"), Some(&" example.com:8080 ".to_string()));
    assert_eq!(r.headers.get("Missing"), None);
}

#[test]
fn duplicate_header_last_wins() {
    let r = Request::from_text("GET / HTTP/1.1\r\nX:1\r\nY:2\r\nX:3\r\n\r\n");
    assert_eq!(r.headers.len(), 2);
    assert_eq!(r.headers.get("X"), Some(&"3".to_string()));
    assert_eq!(r.headers.get("Y"), Some(&"2".to_string()));
}

#[test]
fn query_string_kept_in_path() {
    let r = Request::from_text("GET /a?b=c HTTP/1.1\r\n");
    assert_eq!(r.resource, Resource::Path("/a?b=c".to_string()));
}

#[test]
fn tabs_separate_request_line_words() {
    let r = Request::from_text("GET\t/x  HTTP/1.1");
    assert_eq!(r.method, Method::Get);
    assert_eq!(r.resource, Resource::Path("/x".to_string()));
    assert_eq!(r.version, Version::V1_1);
}

#[test]
fn malformed_request_line_is_refused() {
    let e = Request::parse("GET HTTP/1.1\r\n\r\n");
    assert_eq!(e.err(), Some(ParseError::MalformedRequestLine));
    let lenient = Request::from_text("GET HTTP/1.1\r\n\r\n");
    assert_eq!(lenient.method, Method::Get);
    assert_eq!(lenient.resource, Resource::Path("HTTP/1.1".to_string()));
    assert_eq!(lenient.version, Version::Uninitialized);
}

#[test]
fn well_formed_request_parses() {
    let r = Request::parse("GET /greeting HTTP/1.1\r\nHost:example.com\r\n\r\n").unwrap();
    assert_eq!(r.method, Method::Get);
    assert_eq!(r.headers.get("Host"), Some(&"example.com".to_string()));
}

#[test]
fn post_through_from_keeps_last_body_line() {
    let r: Request = "POST /submit HTTP/2.0\r\nX-Key: v \r\n\r\nhello\r\nworld".to_string().into();
    assert_eq!(r.method, Method::Post);
    assert_eq!(r.version, Version::V2_0);
    assert_eq!(r.resource, Resource::Path("/submit".to_string()));
    assert_eq!(r.headers.len(), 1);
    assert_eq!(r.headers.get("X-Key"), Some(&" v ".to_string()));
    assert_eq!(r.msg_body, "world");
}

#[test]
fn duplicate_header_through_from() {
    let r: Request = "GET / HTTP/1.1\r\nA:1\r\nA:2\r\n\r\n".to_string().into();
    assert_eq!(r.headers.len(), 1);
    assert_eq!(r.headers.get("A"), Some(&"2".to_string()));
    assert_eq!(r.resource, Resource::Path("/".to_string()));
    assert_eq!(r.msg_body, "");
}
