use server::response::{Header, Response, ResponseBuilder};

#[test]
fn default_builder_renders_bare_success() {
    let mut builder = ResponseBuilder::new();
    let response = builder.build();
    assert_eq!(response.status_code, 200);
    assert_eq!(response.bytes(), b"HTTP/1.1 200 Testing-phrase \r\n\r\n".to_vec());
}

#[test]
fn success_matches_new() {
    let mut a = ResponseBuilder::success();
    let mut b = ResponseBuilder::new();
    assert_eq!(a.build().bytes(), b.build().bytes());
}

#[test]
fn bad_request_renders_status_400() {
    let mut builder = ResponseBuilder::bad_request();
    let response = builder.build();
    assert_eq!(response.status_code, 400);
    assert_eq!(response.bytes(), b"HTTP/1.1 400 Testing-phrase \r\n\r\n".to_vec());
}

#[test]
fn status_code_replaces_only_the_code() {
    let mut builder = ResponseBuilder::new().status_code(503);
    let response = builder.build();
    assert_eq!(response.status_code, 503);
    assert_eq!(response.headers.len(), 0);
    assert_eq!(response.body, "");
    assert_eq!(response.bytes(), b"HTTP/1.1 503 Testing-phrase \r\n\r\n".to_vec());
}

#[test]
fn body_is_appended_after_blank_line() {
    let mut builder = ResponseBuilder::new().body(String::from("Hello"));
    let response = builder.build();
    assert_eq!(response.bytes(), b"HTTP/1.1 200 Testing-phrase \r\n\r\nHello".to_vec());
}

#[test]
fn headers_render_in_order_with_colon_and_space() {
    let mut builder = ResponseBuilder::new()
        .add_header(Header { name: String::from("Content-Type"), value: String::from("text/plain") })
        .add_header(Header { name: String::from("X-One"), value: String::from("1") })
        .body(String::from("ok"));
    let response = builder.build();
    assert_eq!(
        response.bytes(),
        b"HTTP/1.1 200 Testing-phrase \r\nContent-Type:text/plain X-One:1 \r\nok".to_vec()
    );
}

#[test]
fn smallest_status_code_renders_one_digit() {
    let mut builder = ResponseBuilder::new().status_code(0);
    assert_eq!(builder.build().bytes(), b"HTTP/1.1 0 Testing-phrase \r\n\r\n".to_vec());
}

#[test]
fn largest_status_code_renders_five_digits() {
    let mut builder = ResponseBuilder::new().status_code(65535);
    assert_eq!(builder.build().bytes(), b"HTTP/1.1 65535 Testing-phrase \r\n\r\n".to_vec());
}

#[test]
fn clone_renders_the_same_bytes() {
    let mut builder = ResponseBuilder::new()
        .status_code(201)
        .add_header(Header { name: String::from("A"), value: String::from("b") })
        .body(String::from("payload"));
    let response = builder.build();
    let copy = response.clone();
    assert_eq!(response.bytes(), copy.bytes());
}

#[test]
fn build_leaves_the_builder_reusable() {
    let mut builder = ResponseBuilder::new().body(String::from("x"));
    let first = builder.build();
    let second = builder.build();
    assert_eq!(first.bytes(), second.bytes());
}
