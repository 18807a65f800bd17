use http_core::request::Request;
use http_core::router::{Route, Router};
use http_core::server::Server;

fn route_text(text: &str) -> Route {
    Router::route(&Request::from_text(text))
}

#[test]
fn api_paths_go_to_web_service() {
    assert_eq!(route_text("GET /api/anything HTTP/1.1\r\n\r\n"), Route::Api);
    assert_eq!(route_text("GET /api HTTP/1.1\r\n\r\n"), Route::Api);
}

#[test]
fn other_get_paths_go_to_static_pages() {
    assert_eq!(route_text("GET /index.html HTTP/1.1\r\n\r\n"), Route::Static);
    assert_eq!(route_text("GET / HTTP/1.1\r\n\r\n"), Route::Static);
    assert_eq!(route_text("GET /apis HTTP/1.1\r\n\r\n"), Route::Static);
    assert_eq!(route_text("GET /x/api HTTP/1.1\r\n\r\n"), Route::Static);
    assert_eq!(route_text("GET api HTTP/1.1\r\n\r\n"), Route::Static);
}

#[test]
fn post_goes_to_not_found() {
    assert_eq!(route_text("POST /api/anything HTTP/1.1\r\n\r\n"), Route::NotFound);
    assert_eq!(route_text("POST /index.html HTTP/1.1\r\n\r\n"), Route::NotFound);
}

#[test]
fn unrecognized_method_goes_to_not_found() {
    assert_eq!(route_text("PUT /api/x HTTP/1.1\r\n\r\n"), Route::NotFound);
    assert_eq!(route_text(""), Route::NotFound);
}

#[test]
fn server_keeps_its_address() {
    let s = Server::new("127.0.0.1:3000");
    assert_eq!(s.socket_addr(), "127.0.0.1:3000");
}
