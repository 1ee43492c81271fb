//! Handlers for the service's routes.
//!
//! Each handler is a pure function from the data the router hands it to a
//! `Response` value: a greeting on the root route, an echo of the request
//! body, the service metadata as JSON, and a JSON object around a name taken
//! from the path. Every contract pins the status and the body byte for byte.

use vstd::prelude::*;

use crate::models::AppInfo;
use crate::models::User;
use crate::models::app_info_json;
use crate::models::serialize_app_info;
use crate::models::serialize_user;
use crate::models::user_json;

verus! {

/// The HTTP status for a handled request.
pub const STATUS_OK: u16 = 200;

/// The HTTP status for a request no route matches.
pub const STATUS_NOT_FOUND: u16 = 404;

/// What the service answers: a status code and a body.
pub struct Response {
    /// The HTTP status code.
    pub status: u16,
    /// The response body, UTF-8 text as bytes.
    pub body: Vec<u8>,
}

/// The greeting on the root route: `Hello, Quira.sh!`.
pub open spec fn greeting() -> Seq<u8> {
    seq![
        0x48u8, 0x65u8, 0x6cu8, 0x6cu8, 0x6fu8, 0x2cu8, 0x20u8, 0x51u8, 0x75u8, 0x69u8,
        0x72u8, 0x61u8, 0x2eu8, 0x73u8, 0x68u8, 0x21u8,
    ]
}

/// The service's name: `Hello Actix App`.
pub open spec fn app_name() -> Seq<u8> {
    seq![
        0x48u8, 0x65u8, 0x6cu8, 0x6cu8, 0x6fu8, 0x20u8, 0x41u8, 0x63u8, 0x74u8, 0x69u8,
        0x78u8, 0x20u8, 0x41u8, 0x70u8, 0x70u8,
    ]
}

/// The service's version: `1.0.0`.
pub open spec fn app_version() -> Seq<u8> {
    seq![0x31u8, 0x2eu8, 0x30u8, 0x2eu8, 0x30u8]
}

/// The body of the status route: the metadata's JSON object.
pub open spec fn status_json() -> Seq<u8> {
    app_info_json(app_name(), app_version())
}

/// The service metadata, as served on the status route.
pub fn app_info() -> (info: AppInfo)
    ensures
        info.name@ == app_name(),
        info.version@ == app_version(),
{
    let mut name: Vec<u8> = Vec::new();
    name.push(0x48);
    name.push(0x65);
    name.push(0x6c);
    name.push(0x6c);
    name.push(0x6f);
    name.push(0x20);
    name.push(0x41);
    name.push(0x63);
    name.push(0x74);
    name.push(0x69);
    name.push(0x78);
    name.push(0x20);
    name.push(0x41);
    name.push(0x70);
    name.push(0x70);
    let mut version: Vec<u8> = Vec::new();
    version.push(0x31);
    version.push(0x2e);
    version.push(0x30);
    version.push(0x2e);
    version.push(0x30);
    proof {
        assert(name@ =~= app_name());
        assert(version@ =~= app_version());
    }
    AppInfo { name, version }
}

/// Handler for the root route: answers the fixed greeting.
pub fn hello() -> (r: Response)
    ensures
        r.status == STATUS_OK,
        r.body@ == greeting(),
{
    let mut body: Vec<u8> = Vec::new();
    body.push(0x48);
    body.push(0x65);
    body.push(0x6c);
    body.push(0x6c);
    body.push(0x6f);
    body.push(0x2c);
    body.push(0x20);
    body.push(0x51);
    body.push(0x75);
    body.push(0x69);
    body.push(0x72);
    body.push(0x61);
    body.push(0x2e);
    body.push(0x73);
    body.push(0x68);
    body.push(0x21);
    proof {
        assert(body@ =~= greeting());
    }
    Response { status: STATUS_OK, body }
}

/// Handler for the echo route: answers the request body unchanged, for every
/// byte sequence, the empty one included.
pub fn echo(req_body: Vec<u8>) -> (r: Response)
    ensures
        r.status == STATUS_OK,
        r.body@ == req_body@,
{
    Response { status: STATUS_OK, body: req_body }
}

/// Handler for the status route: answers the service metadata as JSON.
pub fn status() -> (r: Response)
    ensures
        r.status == STATUS_OK,
        r.body@ == status_json(),
{
    let info = app_info();
    let body = serialize_app_info(&info);
    Response { status: STATUS_OK, body }
}

/// Handler for the name route: answers the JSON object `{"name":"<name>"}`,
/// with the name escaped as a JSON string asks.
pub fn set_name(name: Vec<u8>) -> (r: Response)
    ensures
        r.status == STATUS_OK,
        r.body@ == user_json(name@),
{
    let user = User { name };
    let body = serialize_user(&user);
    Response { status: STATUS_OK, body }
}

/// The not-found answer for a request no route matches: an empty body.
pub fn not_found() -> (r: Response)
    ensures
        r.status == STATUS_NOT_FOUND,
        r.body@ == Seq::<u8>::empty(),
{
    Response { status: STATUS_NOT_FOUND, body: Vec::new() }
}

} // verus!
