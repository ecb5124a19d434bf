use server::operator::{Operator, Request};
use server::reqhandle::{handle_bytes, handle_request};

#[test]
fn a_request_for_the_test_path_is_greeted() {
    let mut operator = Operator::new();
    let (bytes, wants_file) = handle_bytes(b"GET /test HTTP/1.1\r\n\r\n", &mut operator);
    assert_eq!(bytes, Some(b"HTTP/1.1 200 Testing-phrase \r\n\r\nHello".to_vec()));
    assert!(wants_file);
}

#[test]
fn a_request_for_another_path_is_greeted_without_the_file() {
    let mut operator = Operator::new();
    let (bytes, wants_file) = handle_bytes(b"GET / HTTP/1.1\r\n\r\n", &mut operator);
    assert_eq!(bytes, Some(b"HTTP/1.1 200 Testing-phrase \r\n\r\nHello".to_vec()));
    assert!(!wants_file);
}

#[test]
fn malformed_bytes_get_a_bad_request_with_the_parse_error() {
    let mut operator = Operator::new();
    let (bytes, wants_file) = handle_bytes(b"\x01\x02\x03", &mut operator);
    assert_eq!(bytes, Some(b"HTTP/1.1 400 Testing-phrase \r\n\r\ninvalid token".to_vec()));
    assert!(!wants_file);
}

#[test]
fn a_truncated_request_is_abandoned() {
    let mut operator = Operator::new();
    let (bytes, wants_file) = handle_bytes(b"GET", &mut operator);
    assert_eq!(bytes, None);
    assert!(!wants_file);
}

#[test]
fn handle_request_builds_a_success_response() {
    let mut operator = Operator::new();
    let req = Request { method: Some(String::from("GET")), path: Some(String::from("/test")) };
    let (response, wants_file) = handle_request(&req, &mut operator);
    let response = response.expect("a routed request is answered");
    assert_eq!(response.status_code, 200);
    assert_eq!(response.headers.len(), 0);
    assert_eq!(response.body, "Hello");
    assert!(wants_file);
}

#[test]
fn handle_request_abandons_a_request_without_a_path() {
    let mut operator = Operator::new();
    let req = Request { method: None, path: None };
    let (response, wants_file) = handle_request(&req, &mut operator);
    assert!(response.is_none());
    assert!(!wants_file);
}
