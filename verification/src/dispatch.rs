use vstd::prelude::*;
use vstd::string::StrSliceExecFns;

use crate::http::{Method, Request, Response, ResponseView};

verus! {

/// The text served at the root path, byte for byte: `Try POSTing data to /echo`.
pub open spec fn greeting_bytes() -> Seq<u8> {
    seq![
        // T    r     y           P    O    S    T    i     n     g
        84u8, 114u8, 121u8, 32u8, 80u8, 79u8, 83u8, 84u8, 105u8, 110u8, 103u8, 32u8,
        // d    a    t     a           t     o          /     e     c    h     o
        100u8, 97u8, 116u8, 97u8, 32u8, 116u8, 111u8, 32u8, 47u8, 101u8, 99u8, 104u8, 111u8,
    ]
}

/// The greeting bytes read, character for character, `Try POSTing data to /echo`.
pub proof fn lemma_greeting_is_the_text()
    ensures
        greeting_bytes() == "Try POSTing data to /echo"@.map_values(|c: char| c as u8),
{
    reveal_strlit("Try POSTing data to /echo");
    assert(greeting_bytes() =~= "Try POSTing data to /echo"@.map_values(|c: char| c as u8));
}

/// The path of the greeting route.
pub open spec fn root_path() -> Seq<char> {
    "/"@
}

/// The path of the echo route.
pub open spec fn echo_path() -> Seq<char> {
    "/echo"@
}

/// The whole routing table: what the dispatcher answers to any request.
///
/// `GET /` is answered with status 200 and the greeting; `POST /echo` with
/// status 200 and the request body unchanged; everything else with status 404
/// and an empty body.
pub open spec fn spec_dispatch(method: Method, path: Seq<char>, body: Seq<u8>) -> ResponseView {
    if method == Method::Get && path == root_path() {
        ResponseView { status: 200, body: greeting_bytes() }
    } else if method == Method::Post && path == echo_path() {
        ResponseView { status: 200, body: body }
    } else {
        ResponseView { status: 404, body: Seq::<u8>::empty() }
    }
}

/// Character-for-character equality of two strings.
pub fn str_eq(a: &str, b: &str) -> (r: bool)
    ensures
        r == (a@ == b@),
{
    let a_len = a.unicode_len();
    let b_len = b.unicode_len();
    if a_len != b_len {
        return false;
    }
    let mut i: usize = 0;
    while i < a_len
        invariant
            i <= a_len,
            a_len == a@.len(),
            b_len == b@.len(),
            a_len == b_len,
            forall|j: int| 0 <= j < i ==> a@[j] == b@[j],
        decreases a_len - i,
    {
        if a.get_char(i) != b.get_char(i) {
            return false;
        }
        i += 1;
    }
    proof {
        assert(a@ =~= b@);
    }
    true
}

/// The greeting body as it goes out on the wire.
pub fn greeting() -> (v: Vec<u8>)
    ensures
        v@ == greeting_bytes(),
{
    let mut v: Vec<u8> = Vec::new();
    v.push(84); // T
    v.push(114); // r
    v.push(121); // y
    v.push(32);
    v.push(80); // P
    v.push(79); // O
    v.push(83); // S
    v.push(84); // T
    v.push(105); // i
    v.push(110); // n
    v.push(103); // g
    v.push(32);
    v.push(100); // d
    v.push(97); // a
    v.push(116); // t
    v.push(97); // a
    v.push(32);
    v.push(116); // t
    v.push(111); // o
    v.push(32);
    v.push(47); // /
    v.push(101); // e
    v.push(99); // c
    v.push(104); // h
    v.push(111); // o
    proof {
        assert(v@ =~= greeting_bytes());
    }
    v
}

/// The dispatcher: a pure map from request to response, with no state and no
/// failure. Its answer is exactly `spec_dispatch` of the request's parts.
pub fn dispatch(req: Request) -> (resp: Response)
    ensures
        resp@ == spec_dispatch(req.method, req.path@, req.body@),
{
    let Request { method, path, body } = req;
    if method == Method::Get && str_eq(path.as_str(), "/") {
        Response { status: 200, body: greeting() }
    } else if method == Method::Post && str_eq(path.as_str(), "/echo") {
        Response { status: 200, body }
    } else {
        Response { status: 404, body: Vec::new() }
    }
}

/// Echo law: a POST to the echo path is answered with status 200 and exactly
/// the posted body, for every byte sequence, the empty one included.
pub proof fn lemma_echo_returns_body(body: Seq<u8>)
    ensures
        spec_dispatch(Method::Post, echo_path(), body).status == 200,
        spec_dispatch(Method::Post, echo_path(), body).body == body,
{
}

/// Greeting law: a GET of the root path is answered with status 200 and the
/// greeting text, whatever body came with the request.
pub proof fn lemma_root_greeting(body: Seq<u8>)
    ensures
        spec_dispatch(Method::Get, root_path(), body).status == 200,
        spec_dispatch(Method::Get, root_path(), body).body == greeting_bytes(),
{
}

/// Not-found law: every method and path outside the two routes is answered
/// with status 404 and an empty body.
pub proof fn lemma_unmatched_not_found(method: Method, path: Seq<char>, body: Seq<u8>)
    requires
        !(method == Method::Get && path == root_path()),
        !(method == Method::Post && path == echo_path()),
    ensures
        spec_dispatch(method, path, body).status == 404,
        spec_dispatch(method, path, body).body == Seq::<u8>::empty(),
{
}

/// Idempotence law: the dispatcher keeps no state, so repeating a request
/// yields the identical response every time.
pub proof fn lemma_repeat_same_response(
    m1: Method,
    p1: Seq<char>,
    b1: Seq<u8>,
    m2: Method,
    p2: Seq<char>,
    b2: Seq<u8>,
)
    requires
        m1 == m2,
        p1 == p2,
        b1 == b2,
    ensures
        spec_dispatch(m1, p1, b1) == spec_dispatch(m2, p2, b2),
{
}

/// Isolation law: each echo response carries exactly its own request's body,
/// so two echo requests with different bodies get different answers and none
/// gets the other's.
pub proof fn lemma_echo_no_cross_talk(b1: Seq<u8>, b2: Seq<u8>)
    requires
        b1 != b2,
    ensures
        spec_dispatch(Method::Post, echo_path(), b1).body == b1,
        spec_dispatch(Method::Post, echo_path(), b2).body == b2,
        spec_dispatch(Method::Post, echo_path(), b1).body != spec_dispatch(
            Method::Post,
            echo_path(),
            b2,
        ).body,
{
}

} // verus!
