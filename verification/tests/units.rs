//! Tests of the handlers, the models and the JSON escaping, called directly.

use hello_actix::handlers::app_info;
use hello_actix::handlers::echo;
use hello_actix::handlers::hello;
use hello_actix::handlers::not_found;
use hello_actix::handlers::set_name;
use hello_actix::handlers::status;
use hello_actix::json::escape_json;
use hello_actix::models::serialize_app_info;
use hello_actix::models::serialize_user;
use hello_actix::models::AppInfo;
use hello_actix::models::User;
use hello_actix::routes::match_route;
use hello_actix::routes::Endpoint;
use hello_actix::routes::Method;

#[test]
fn hello_answers_greeting() {
    let resp = hello();
    assert_eq!(resp.status, 200);
    assert_eq!(resp.body, b"Hello, Quira.sh!".to_vec());
}

#[test]
fn echo_hands_the_body_back() {
    let resp = echo(b"abc".to_vec());
    assert_eq!(resp.status, 200);
    assert_eq!(resp.body, b"abc".to_vec());
}

#[test]
fn status_answers_metadata_json() {
    let resp = status();
    assert_eq!(resp.status, 200);
    assert_eq!(resp.body, br#"{"name":"Hello Actix App","version":"1.0.0"}"#.to_vec());
}

#[test]
fn set_name_frames_the_name() {
    let resp = set_name(b"Dom".to_vec());
    assert_eq!(resp.status, 200);
    assert_eq!(resp.body, br#"{"name":"Dom"}"#.to_vec());
}

#[test]
fn not_found_answer() {
    let resp = not_found();
    assert_eq!(resp.status, 404);
    assert_eq!(resp.body, Vec::<u8>::new());
}

#[test]
fn app_info_holds_the_constants() {
    let info = app_info();
    assert_eq!(info.name, b"Hello Actix App".to_vec());
    assert_eq!(info.version, b"1.0.0".to_vec());
}

#[test]
fn serialize_user_exact() {
    let user = User { name: b"Ada".to_vec() };
    assert_eq!(serialize_user(&user), br#"{"name":"Ada"}"#.to_vec());
}

#[test]
fn serialize_user_empty_name() {
    let user = User { name: Vec::new() };
    assert_eq!(serialize_user(&user), br#"{"name":""}"#.to_vec());
}

#[test]
fn serialize_app_info_exact() {
    let info = AppInfo {
        name: b"svc".to_vec(),
        version: b"2.1".to_vec(),
    };
    assert_eq!(
        serialize_app_info(&info),
        br#"{"name":"svc","version":"2.1"}"#.to_vec()
    );
}

#[test]
fn escape_passes_plain_text_through() {
    assert_eq!(escape_json(b"Hello, Quira.sh!"), b"Hello, Quira.sh!".to_vec());
    assert_eq!(escape_json(b""), Vec::<u8>::new());
}

#[test]
fn escape_short_escapes() {
    assert_eq!(escape_json(b"\""), b"\\\"".to_vec());
    assert_eq!(escape_json(b"\\"), b"\\\\".to_vec());
    assert_eq!(escape_json(b"\x08\t\n\x0c\r"), b"\\b\\t\\n\\f\\r".to_vec());
}

#[test]
fn escape_control_bytes_as_unicode() {
    assert_eq!(escape_json(b"\x00"), b"\\u0000".to_vec());
    assert_eq!(escape_json(b"\x01"), b"\\u0001".to_vec());
    assert_eq!(escape_json(b"\x0b"), b"\\u000b".to_vec());
    assert_eq!(escape_json(b"\x1f"), b"\\u001f".to_vec());
}

#[test]
fn escape_keeps_high_bytes() {
    let name: Vec<u8> = vec![0xc3, 0xa9];
    assert_eq!(escape_json(&name), name);
}

#[test]
fn match_route_table() {
    assert_eq!(match_route(Method::Get, b"/"), Endpoint::Hello);
    assert_eq!(match_route(Method::Post, b"/post"), Endpoint::Echo);
    assert_eq!(match_route(Method::Get, b"/status"), Endpoint::Status);
    assert_eq!(match_route(Method::Get, b"/a/Dom"), Endpoint::SetName);
    assert_eq!(match_route(Method::Get, b"/other"), Endpoint::NotFound);
    assert_eq!(match_route(Method::Post, b"/"), Endpoint::NotFound);
}
