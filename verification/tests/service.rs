//! End-to-end tests of the dispatch surface: one request in, status and body
//! out, compared byte for byte.

use hello_actix::handlers::Response;
use hello_actix::routes::dispatch;
use hello_actix::routes::Method;

fn get(path: &[u8]) -> Response {
    dispatch(Method::Get, path, Vec::new())
}

fn post(path: &[u8], body: &[u8]) -> Response {
    dispatch(Method::Post, path, body.to_vec())
}

#[test]
fn test_hello() {
    let resp = get(b"/");
    assert_eq!(resp.status, 200);
    assert_eq!(resp.body, b"Hello, Quira.sh!".to_vec());
}

#[test]
fn test_echo() {
    let resp = post(b"/post", b"This is a test");
    assert_eq!(resp.status, 200);
    assert_eq!(resp.body, b"This is a test".to_vec());
}

#[test]
fn test_status() {
    let resp = get(b"/status");
    assert_eq!(resp.status, 200);
    let expected = br#"{"name":"Hello Actix App","version":"1.0.0"}"#;
    assert_eq!(resp.body, expected.to_vec());
}

#[test]
fn test_set_name() {
    let resp = get(b"/a/Dom");
    assert_eq!(resp.status, 200);
    let expected = br#"{"name":"Dom"}"#;
    assert_eq!(resp.body, expected.to_vec());
}

#[test]
fn test_not_found() {
    let resp = get(b"/notfound");
    assert_eq!(resp.status, 404);
}

#[test]
fn main_test_not_found() {
    let resp = get(b"/non-existent");
    assert_eq!(resp.status, 404);
}

#[test]
fn echo_sample_data() {
    let resp = post(b"/post", b"Sample Data");
    assert_eq!(resp.status, 200);
    assert_eq!(resp.body, b"Sample Data".to_vec());
}

#[test]
fn echo_empty_body() {
    let resp = post(b"/post", b"");
    assert_eq!(resp.status, 200);
    assert_eq!(resp.body, Vec::<u8>::new());
}

#[test]
fn echo_arbitrary_bytes() {
    let bytes: Vec<u8> = vec![0x00, 0xff, 0x22, 0x5c, 0x0a, 0x80];
    let resp = dispatch(Method::Post, b"/post", bytes.clone());
    assert_eq!(resp.status, 200);
    assert_eq!(resp.body, bytes);
}

#[test]
fn set_name_escapes_quote_and_backslash() {
    let resp = get(b"/a/D\"o\\m");
    assert_eq!(resp.status, 200);
    let expected = br#"{"name":"D\"o\\m"}"#;
    assert_eq!(resp.body, expected.to_vec());
}

#[test]
fn set_name_escapes_control_bytes() {
    let resp = get(b"/a/a\nb\x01c");
    assert_eq!(resp.status, 200);
    let expected = br#"{"name":"a\nb\u0001c"}"#;
    assert_eq!(resp.body, expected.to_vec());
}

#[test]
fn name_route_needs_segment() {
    assert_eq!(get(b"/a/").status, 404);
    assert_eq!(get(b"/a").status, 404);
}

#[test]
fn name_route_takes_one_segment() {
    assert_eq!(get(b"/a/x/y").status, 404);
    let resp = get(b"/a/x");
    assert_eq!(resp.status, 200);
    assert_eq!(resp.body, br#"{"name":"x"}"#.to_vec());
}

#[test]
fn method_is_part_of_the_route() {
    assert_eq!(post(b"/", b"ignored").status, 404);
    assert_eq!(get(b"/post").status, 404);
    assert_eq!(post(b"/status", b"").status, 404);
    assert_eq!(post(b"/a/Dom", b"").status, 404);
}

#[test]
fn not_found_body_is_empty() {
    let resp = get(b"/non-existent");
    assert_eq!(resp.body, Vec::<u8>::new());
}
