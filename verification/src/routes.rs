//! The route table, and the dispatch of a request through it.
//!
//! Four routes are served: the root greeting on `GET /`, the body echo on
//! `POST /post`, the metadata object on `GET /status`, and the name echo on
//! `GET /a/{name}`, where `{name}` is one non-empty path segment. Every
//! other method and path pair answers not found. `endpoint_of` is the route
//! table as a specification; `dispatch` answers any request and its contract
//! pins status and body for every input.

use vstd::prelude::*;
use vstd::slice::slice_index_get;
use vstd::slice::slice_subrange;
use vstd::slice::slice_to_vec;

use crate::handlers::Response;
use crate::handlers::STATUS_NOT_FOUND;
use crate::handlers::STATUS_OK;
use crate::handlers::echo;
use crate::handlers::greeting;
use crate::handlers::hello;
use crate::handlers::not_found;
use crate::handlers::set_name;
use crate::handlers::status;
use crate::handlers::status_json;
use crate::models::user_json;

verus! {

/// The slash byte, `/`.
pub const SLASH: u8 = 0x2f;

/// The HTTP methods the route table distinguishes.
#[derive(Clone, Copy, Debug, PartialEq, Eq, Structural)]
pub enum Method {
    Get,
    Post,
}

/// The handler a request is dispatched to, or none.
#[derive(Clone, Copy, Debug, PartialEq, Eq, Structural)]
pub enum Endpoint {
    Hello,
    Echo,
    Status,
    SetName,
    NotFound,
}

/// The root path, `/`.
pub open spec fn root_path() -> Seq<u8> {
    seq![SLASH]
}

/// The echo path, `/post`.
pub open spec fn post_path() -> Seq<u8> {
    seq![SLASH, 0x70u8, 0x6fu8, 0x73u8, 0x74u8]
}

/// The status path, `/status`.
pub open spec fn status_path() -> Seq<u8> {
    seq![SLASH, 0x73u8, 0x74u8, 0x61u8, 0x74u8, 0x75u8, 0x73u8]
}

/// A path of the form `/a/{name}`: the prefix `/a/` followed by one
/// non-empty segment without a further slash.
pub open spec fn is_name_path(path: Seq<u8>) -> bool {
    &&& path.len() > 3
    &&& path[0] == SLASH
    &&& path[1] == 0x61
    &&& path[2] == SLASH
    &&& forall|i: int| 3 <= i < path.len() ==> path[i] != SLASH
}

/// The name segment of a `/a/{name}` path.
pub open spec fn name_of(path: Seq<u8>) -> Seq<u8> {
    path.skip(3)
}

/// The route table: which handler a method and path pair reaches.
pub open spec fn endpoint_of(method: Method, path: Seq<u8>) -> Endpoint {
    if method is Get && path == root_path() {
        Endpoint::Hello
    } else if method is Post && path == post_path() {
        Endpoint::Echo
    } else if method is Get && path == status_path() {
        Endpoint::Status
    } else if method is Get && is_name_path(path) {
        Endpoint::SetName
    } else {
        Endpoint::NotFound
    }
}

/// The status a request is answered with: success exactly when a route
/// matches, not found otherwise.
pub open spec fn status_of(method: Method, path: Seq<u8>) -> u16 {
    if endpoint_of(method, path) is NotFound {
        STATUS_NOT_FOUND
    } else {
        STATUS_OK
    }
}

/// The body a request is answered with, byte for byte.
pub open spec fn body_of(method: Method, path: Seq<u8>, req_body: Seq<u8>) -> Seq<u8> {
    match endpoint_of(method, path) {
        Endpoint::Hello => greeting(),
        Endpoint::Echo => req_body,
        Endpoint::Status => status_json(),
        Endpoint::SetName => user_json(name_of(path)),
        Endpoint::NotFound => Seq::empty(),
    }
}

/// Every request is answered with success or not found, and with success
/// exactly when the route table matches it.
pub proof fn lemma_status_total(method: Method, path: Seq<u8>)
    ensures
        status_of(method, path) == STATUS_OK || status_of(method, path) == STATUS_NOT_FOUND,
        status_of(method, path) == STATUS_OK <==> !(endpoint_of(method, path) is NotFound),
{
}

/// The name route echoes its segment back intact: for every `/a/{name}`
/// path, the body answered is the name's JSON object, and the name itself
/// can be read back from between that object's fixed opening and closing
/// bytes, whatever bytes the name holds.
pub proof fn lemma_name_round_trip(path: Seq<u8>, req_body: Seq<u8>)
    requires
        is_name_path(path),
    ensures
        body_of(Method::Get, path, req_body) == user_json(name_of(path)),
        crate::json::unescape_bytes(
            body_of(Method::Get, path, req_body).subrange(
                crate::models::name_open().len() as int,
                body_of(Method::Get, path, req_body).len()
                    - crate::models::object_close().len(),
            ),
        ) == name_of(path),
{
    assert(path != root_path()) by {
        assert(root_path().len() == 1);
    }
    assert(path != status_path()) by {
        assert(status_path()[1] == 0x73);
    }
    crate::models::lemma_user_json_round_trip(name_of(path));
}

/// Looks a method and path pair up in the route table.
pub fn match_route(method: Method, path: &[u8]) -> (e: Endpoint)
    ensures
        e == endpoint_of(method, path@),
{
    match method {
        Method::Get => {
            if path.len() == 1 && *slice_index_get(path, 0) == SLASH {
                proof {
                    assert(path@ =~= root_path());
                }
                Endpoint::Hello
            } else if path.len() == 7 && *slice_index_get(path, 0) == SLASH
                && *slice_index_get(path, 1) == 0x73 && *slice_index_get(path, 2) == 0x74
                && *slice_index_get(path, 3) == 0x61 && *slice_index_get(path, 4) == 0x74
                && *slice_index_get(path, 5) == 0x75 && *slice_index_get(path, 6) == 0x73 {
                proof {
                    assert(path@ =~= status_path());
                }
                Endpoint::Status
            } else if path.len() > 3 && *slice_index_get(path, 0) == SLASH
                && *slice_index_get(path, 1) == 0x61 && *slice_index_get(path, 2) == SLASH {
                let mut i: usize = 3;
                let mut clean = true;
                while i < path.len()
                    invariant
                        3 <= i <= path@.len(),
                        clean == (forall|j: int| 3 <= j < i ==> path@[j] != SLASH),
                    decreases path@.len() - i,
                {
                    if *slice_index_get(path, i) == SLASH {
                        clean = false;
                    }
                    i = i + 1;
                }
                if clean {
                    Endpoint::SetName
                } else {
                    Endpoint::NotFound
                }
            } else {
                Endpoint::NotFound
            }
        },
        Method::Post => {
            if path.len() == 5 && *slice_index_get(path, 0) == SLASH
                && *slice_index_get(path, 1) == 0x70 && *slice_index_get(path, 2) == 0x6f
                && *slice_index_get(path, 3) == 0x73 && *slice_index_get(path, 4) == 0x74 {
                proof {
                    assert(path@ =~= post_path());
                }
                Endpoint::Echo
            } else {
                Endpoint::NotFound
            }
        },
    }
}

/// Answers one request: routes it and runs the matched handler, or answers
/// not found. The contract fixes the whole observable surface: the status is
/// success exactly when a route matches, and the body is the greeting, the
/// request body itself, the metadata object, or the framed name.
pub fn dispatch(method: Method, path: &[u8], req_body: Vec<u8>) -> (r: Response)
    ensures
        r.status == status_of(method, path@),
        r.body@ == body_of(method, path@, req_body@),
{
    let route = match_route(method, path);
    match route {
        Endpoint::Hello => hello(),
        Endpoint::Echo => echo(req_body),
        Endpoint::Status => status(),
        Endpoint::SetName => {
            let tail = slice_subrange(path, 3, path.len());
            let name = slice_to_vec(tail);
            proof {
                assert(name@ =~= name_of(path@));
            }
            set_name(name)
        },
        Endpoint::NotFound => not_found(),
    }
}

} // verus!
