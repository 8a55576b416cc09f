use vstd::prelude::*;

verus! {

/// A request method, as far as routing tells them apart.
///
/// The router only distinguishes `Get` and `Post`; the remaining verbs are
/// carried so that a caller can hand over any request faithfully, and all of
/// them fall through to the not-found arm.
#[derive(Clone, Copy, Debug, PartialEq, Eq, Structural)]
pub enum Method {
    Get,
    Post,
    Put,
    Delete,
    Head,
    Options,
    Patch,
    Trace,
    Connect,
    Other,
}

/// One incoming request: everything the router reads of it.
pub struct Request {
    pub method: Method,
    pub path: String,
    pub body: Vec<u8>,
}

/// One outgoing response: a status code and a body.
pub struct Response {
    pub status: u16,
    pub body: Vec<u8>,
}

/// The mathematical image of a `Response`: its status and the bytes of its body.
pub struct ResponseView {
    pub status: u16,
    pub body: Seq<u8>,
}

impl View for Response {
    type V = ResponseView;

    open spec fn view(&self) -> ResponseView {
        ResponseView { status: self.status, body: self.body@ }
    }
}

impl Response {
    /// A fresh response: status 200 with an empty body.
    pub fn new() -> (r: Response)
        ensures
            r@.status == 200,
            r@.body == Seq::<u8>::empty(),
    {
        Response { status: 200, body: Vec::new() }
    }
}

} // verus!
