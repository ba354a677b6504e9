//! The HTTP surface: the health handler, the router that dispatches on
//! method and path, and the exact bytes both of them answer with.

use vstd::prelude::*;
use vstd::utf8::encode_utf8;
use vstd::utf8::is_ascii_chars;
use vstd::utf8::is_ascii_chars_encode_utf8;
use crate::json::encode_string_object;
use crate::json::json_string_object;
use crate::json::json_plain_byte;
use crate::json::lemma_json_escaped_all_plain;

verus! {

/// The liveness payload of the health endpoint: one string field `status`.
pub struct HealthStatus {
    pub status: String,
}

impl HealthStatus {
    /// The payload the health endpoint always reports: status `"UP"`.
    pub fn up() -> (h: HealthStatus)
        ensures
            h.status@ == "UP"@,
    {
        HealthStatus { status: String::from_str("UP") }
    }
}

/// The serialized body of a health response carrying the given status text:
/// the JSON object `{"status":"<text>"}`.
pub open spec fn health_body(status: Seq<char>) -> Seq<u8> {
    json_string_object(encode_utf8("status"@), encode_utf8(status))
}

/// The body of every response to a request outside the routing table:
/// the plain text `404 Not Found`.
pub open spec fn not_found_body() -> Seq<u8> {
    encode_utf8("404 Not Found"@)
}

/// A response as the router hands it back: status code, optional
/// content type, and the body bytes.
pub struct HttpReply {
    pub code: u16,
    pub content_type: Option<String>,
    pub body: Vec<u8>,
}

/// What the router's one routing-table entry matches: `GET` on `/health`.
pub open spec fn route_is_health(method: Seq<char>, path: Seq<char>) -> bool {
    method == "GET"@ && path == "/health"@
}

/// Serializes a health payload: the JSON object with the payload's status
/// text as its one field.
pub fn health_json(h: &HealthStatus) -> (r: Vec<u8>)
    ensures
        r@ == health_body(h.status@),
{
    encode_string_object("status", h.status.as_str())
}

/// The health handler: always answers `200` with content type
/// `application/json` and the body `{"status":"UP"}`, whatever the request.
pub fn health_check_handler() -> (r: HttpReply)
    ensures
        r.code == 200,
        r.content_type matches Some(ct) && ct@ == "application/json"@,
        r.body@ == health_body("UP"@),
{
    let health_status = HealthStatus::up();
    let json_response = health_json(&health_status);
    HttpReply {
        code: 200,
        content_type: Some(String::from_str("application/json")),
        body: json_response,
    }
}

fn str_eq(a: &str, b: &str) -> (r: bool)
    ensures
        r == (a@ == b@),
{
    let left = String::from_str(a);
    let right = String::from_str(b);
    left == right
}

/// The router: `GET /health` goes to the health handler, anything else is
/// answered `404` with the fixed plain-text body. The dispatch is pure:
/// the same method and path always take the same branch.
pub fn http_service_router(method: &str, path: &str) -> (r: HttpReply)
    ensures
        route_is_health(method@, path@) ==> r.code == 200 && (r.content_type matches Some(ct)
            && ct@ == "application/json"@) && r.body@ == health_body("UP"@),
        !route_is_health(method@, path@) ==> r.code == 404 && r.content_type is None
            && r.body@ == not_found_body(),
{
    if str_eq(method, "GET") && str_eq(path, "/health") {
        health_check_handler()
    } else {
        HttpReply {
            code: 404,
            content_type: None,
            body: "404 Not Found".as_bytes_vec(),
        }
    }
}

/// The health endpoint is idempotent: it mutates nothing, and any two
/// replies it can produce agree on the status code, the content type and
/// the body bytes — however often it is called.
pub proof fn lemma_health_replies_agree(first: HttpReply, second: HttpReply)
    requires
        first.code == 200,
        first.content_type matches Some(ct) && ct@ == "application/json"@,
        first.body@ == health_body("UP"@),
        second.code == 200,
        second.content_type matches Some(ct) && ct@ == "application/json"@,
        second.body@ == health_body("UP"@),
    ensures
        first.code == second.code,
        first.body@ == second.body@,
        first.content_type->Some_0@ == second.content_type->Some_0@,
{
}

/// The health body for status `"UP"` is, byte for byte, the JSON text
/// `{"status":"UP"}`; so a reachable health endpoint answers exactly that,
/// however many times it is asked.
pub proof fn lemma_health_body_exact()
    ensures
        health_body("UP"@) == encode_utf8("{\"status\":\"UP\"}"@),
{
    reveal_strlit("status");
    reveal_strlit("UP");
    reveal_strlit("{\"status\":\"UP\"}");
    assert(is_ascii_chars("status"@));
    assert(is_ascii_chars("UP"@));
    assert(is_ascii_chars("{\"status\":\"UP\"}"@));
    is_ascii_chars_encode_utf8("status"@);
    is_ascii_chars_encode_utf8("UP"@);
    is_ascii_chars_encode_utf8("{\"status\":\"UP\"}"@);
    assert(forall|i: int|
        0 <= i < encode_utf8("status"@).len() ==> json_plain_byte(
            #[trigger] encode_utf8("status"@)[i],
        ));
    assert(forall|i: int|
        0 <= i < encode_utf8("UP"@).len() ==> json_plain_byte(#[trigger] encode_utf8("UP"@)[i]));
    lemma_json_escaped_all_plain(encode_utf8("status"@));
    lemma_json_escaped_all_plain(encode_utf8("UP"@));
    assert(health_body("UP"@) =~= encode_utf8("{\"status\":\"UP\"}"@));
}

/// The 404 body is, byte for byte, the ASCII text `404 Not Found`.
pub proof fn lemma_not_found_body_exact()
    ensures
        not_found_body() =~= Seq::new("404 Not Found"@.len(), |i: int| "404 Not Found"@[i] as u8),
{
    reveal_strlit("404 Not Found");
    assert(is_ascii_chars("404 Not Found"@));
    is_ascii_chars_encode_utf8("404 Not Found"@);
}

} // verus!
