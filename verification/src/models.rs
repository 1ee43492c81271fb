//! The two data records the service answers with, and their JSON forms.
//!
//! `User` carries the name taken from the request path; `AppInfo` carries the
//! service's name and version. Each record's JSON object is specified byte
//! for byte by `user_json` and `app_info_json`, and computed by the
//! serializers below. Text is UTF-8 carried as bytes.

use vstd::prelude::*;

use crate::json::QUOTE;
use crate::json::escape_bytes;
use crate::json::escape_json;

verus! {

/// A user, named by one segment of the request path.
pub struct User {
    /// The name of the user, UTF-8 text.
    pub name: Vec<u8>,
}

/// The service's metadata, answered on the status route.
pub struct AppInfo {
    /// The name of the application, UTF-8 text.
    pub name: Vec<u8>,
    /// The version of the application, UTF-8 text.
    pub version: Vec<u8>,
}

/// The opening bytes of both objects, whose first member is the name: `{"name":"`.
pub open spec fn name_open() -> Seq<u8> {
    seq![0x7bu8, 0x22u8, 0x6eu8, 0x61u8, 0x6du8, 0x65u8, 0x22u8, 0x3au8, 0x22u8]
}

/// The closing bytes of a JSON object whose last member is a string: `"}`.
pub open spec fn object_close() -> Seq<u8> {
    seq![0x22u8, 0x7du8]
}

/// The bytes between the name value and the version key: `","version":"`.
pub open spec fn version_key() -> Seq<u8> {
    seq![
        0x22u8, 0x2cu8, 0x22u8, 0x76u8, 0x65u8, 0x72u8, 0x73u8, 0x69u8, 0x6fu8, 0x6eu8,
        0x22u8, 0x3au8, 0x22u8,
    ]
}

/// The JSON object `{"name":"<name, escaped>"}`.
pub open spec fn user_json(name: Seq<u8>) -> Seq<u8> {
    name_open() + escape_bytes(name) + object_close()
}

/// The JSON object `{"name":"<name, escaped>","version":"<version, escaped>"}`.
pub open spec fn app_info_json(name: Seq<u8>, version: Seq<u8>) -> Seq<u8> {
    name_open() + escape_bytes(name) + version_key() + escape_bytes(version) + object_close()
}

/// A name of plain bytes appears in its JSON object verbatim: the body is
/// exactly `{"name":"` + the name + `"}`.
pub proof fn lemma_plain_name_json(name: Seq<u8>)
    requires
        forall|i: int| 0 <= i < name.len() ==> crate::json::is_plain_byte(name[i]),
    ensures
        user_json(name) == name_open() + name + object_close(),
{
    crate::json::lemma_escape_plain(name);
}

/// The name can be read back exactly from its JSON object: the bytes between
/// the opening `{"name":"` and the closing `"}` unescape to the name itself,
/// for every name.
pub proof fn lemma_user_json_round_trip(name: Seq<u8>)
    ensures
        user_json(name).len() >= name_open().len() + object_close().len(),
        crate::json::unescape_bytes(
            user_json(name).subrange(
                name_open().len() as int,
                user_json(name).len() - object_close().len(),
            ),
        ) == name,
{
    let body = user_json(name);
    assert(body.subrange(name_open().len() as int, body.len() - object_close().len())
        =~= escape_bytes(name));
    crate::json::lemma_unescape_escape(name);
}

/// Serializes a user to its JSON object.
pub fn serialize_user(user: &User) -> (out: Vec<u8>)
    ensures
        out@ == user_json(user.name@),
{
    let mut out: Vec<u8> = Vec::new();
    push_name_open(&mut out);
    let mut escaped = escape_json(user.name.as_slice());
    out.append(&mut escaped);
    out.push(QUOTE);
    out.push(0x7d);
    proof {
        assert(out@ =~= user_json(user.name@));
    }
    out
}

/// Serializes the service metadata to its JSON object.
pub fn serialize_app_info(info: &AppInfo) -> (out: Vec<u8>)
    ensures
        out@ == app_info_json(info.name@, info.version@),
{
    let mut out: Vec<u8> = Vec::new();
    push_name_open(&mut out);
    let mut escaped_name = escape_json(info.name.as_slice());
    out.append(&mut escaped_name);
    out.push(QUOTE);
    out.push(0x2c);
    out.push(QUOTE);
    out.push(0x76);
    out.push(0x65);
    out.push(0x72);
    out.push(0x73);
    out.push(0x69);
    out.push(0x6f);
    out.push(0x6e);
    out.push(QUOTE);
    out.push(0x3a);
    out.push(QUOTE);
    let mut escaped_version = escape_json(info.version.as_slice());
    out.append(&mut escaped_version);
    out.push(QUOTE);
    out.push(0x7d);
    proof {
        assert(out@ =~= app_info_json(info.name@, info.version@));
    }
    out
}

/// Appends `{"name":"` to a body being built.
fn push_name_open(out: &mut Vec<u8>)
    ensures
        final(out)@ == old(out)@ + name_open(),
{
    out.push(0x7b);
    out.push(QUOTE);
    out.push(0x6e);
    out.push(0x61);
    out.push(0x6d);
    out.push(0x65);
    out.push(QUOTE);
    out.push(0x3a);
    out.push(QUOTE);
    proof {
        assert(out@ =~= old(out)@ + name_open());
    }
}

} // verus!
