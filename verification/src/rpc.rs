//! The greeting service: message types and the one remote operation.

use vstd::prelude::*;

verus! {

/// Request message of the `SayHello` operation. It carries no fields.
pub struct GreetRequest {}

/// Response message of the `SayHello` operation: a single text field
/// `message`, never empty.
pub struct GreetResponse {
    pub message: String,
}

/// The greeting handler. It is stateless: every call is independent of every
/// other, so concurrent calls may interleave freely.
#[derive(Debug)]
pub struct MyGreeter {}

impl Default for MyGreeter {
    fn default() -> (greeter: MyGreeter) {
        MyGreeter {}
    }
}

/// The fixed greeting text that every `SayHello` call returns.
pub open spec fn greeting() -> Seq<char> {
    "hello"@
}

impl MyGreeter {
    pub fn new() -> (greeter: MyGreeter)
    {
        MyGreeter {}
    }

    /// `SayHello`: always succeeds, and the reply's `message` field is
    /// exactly the fixed greeting, whatever the request.
    pub fn say_hello(&self, _request: GreetRequest) -> (reply: GreetResponse)
        ensures
            reply.message@ == greeting(),
            reply.message@.len() > 0,
    {
        proof {
            reveal_strlit("hello");
        }
        GreetResponse { message: String::from_str("hello") }
    }
}

/// True of the ASCII whitespace bytes JSON allows between tokens.
pub open spec fn is_json_ws(b: u8) -> bool {
    b == 0x20 || b == 0x09 || b == 0x0a || b == 0x0d
}

/// The first position in `s` at or after `i` holding no whitespace byte
/// (or the end of `s`).
pub open spec fn skip_ws(s: Seq<u8>, i: int) -> int
    decreases s.len() - i,
{
    if i < s.len() && is_json_ws(s[i]) {
        skip_ws(s, i + 1)
    } else {
        i
    }
}

/// True of the byte strings that encode the empty request message on the
/// wire: nothing but whitespace, or a JSON object with no fields,
/// `{}`, with whitespace anywhere around the braces.
pub open spec fn spec_is_empty_request(s: Seq<u8>) -> bool {
    let i = skip_ws(s, 0);
    if i == s.len() {
        true
    } else if s[i] == 0x7b {
        let j = skip_ws(s, i + 1);
        j < s.len() && s[j] == 0x7d && skip_ws(s, j + 1) == s.len()
    } else {
        false
    }
}

fn scan_ws(bytes: &[u8], i: usize) -> (j: usize)
    requires
        i <= bytes.len(),
    ensures
        j == skip_ws(bytes@, i as int),
        i <= j <= bytes.len(),
    decreases bytes.len() - i,
{
    if i < bytes.len() {
        let b = bytes[i];
        if b == 0x20 || b == 0x09 || b == 0x0a || b == 0x0d {
            return scan_ws(bytes, i + 1);
        }
    }
    i
}

/// Decodes a request body: succeeds exactly on the wire forms of the empty
/// request message (an empty or all-whitespace body, or the object `{}`),
/// and yields the message, which has nothing in it to carry over.
pub fn parse_greet_request(body: &[u8]) -> (r: Option<GreetRequest>)
    ensures
        (r is Some) == spec_is_empty_request(body@),
{
    let i = scan_ws(body, 0);
    if i == body.len() {
        return Some(GreetRequest {});
    }
    if body[i] != 0x7b {
        return None;
    }
    let j = scan_ws(body, i + 1);
    if j < body.len() && body[j] == 0x7d && scan_ws(body, j + 1) == body.len() {
        Some(GreetRequest {})
    } else {
        None
    }
}

/// Concurrent `SayHello` calls are independent: the handler holds no
/// mutable state, so any two replies it can produce carry the same,
/// non-empty greeting — N interleaved calls yield N identical responses.
pub proof fn lemma_say_hello_uniform(first: Seq<char>, second: Seq<char>)
    requires
        first == greeting(),
        second == greeting(),
    ensures
        first == second,
        first.len() > 0,
{
    reveal_strlit("hello");
}

} // verus!
