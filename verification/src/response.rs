//! The response handed back to the client: a status, headers and a body.

use vstd::prelude::*;
use vstd::slice::slice_to_vec;
use vstd::string::StringSliceAdditionalSpecFns;
use crate::headers::{entries, Header};

verus! {

/// A complete response.
#[derive(Clone, Debug, PartialEq, Eq)]
pub struct Response {
    pub status: u16,
    pub headers: Vec<Header>,
    pub body: Vec<u8>,
}

/// The single header of a plain-text response.
pub open spec fn text_headers() -> Seq<(Seq<u8>, Seq<u8>)> {
    seq![("content-type".spec_bytes(), "text/plain; charset=utf-8".spec_bytes())]
}

impl Response {
    /// The name/value pairs of the response headers, in order.
    pub open spec fn pairs(&self) -> Seq<(Seq<u8>, Seq<u8>)> {
        entries(self.headers@)
    }

    /// Whether this is the plain-text response with the given status and text.
    pub open spec fn is_text(&self, status: u16, body: &str) -> bool {
        &&& self.status == status
        &&& self.pairs() == text_headers()
        &&& self.body@ == body.spec_bytes()
    }

    /// A plain-text response with the given status and body.
    pub fn plain_text(status: u16, body: &str) -> (r: Response)
        ensures
            r.is_text(status, body),
    {
        let mut headers: Vec<Header> = Vec::new();
        headers.push(Header::text("content-type", "text/plain; charset=utf-8"));
        assert(entries(headers@) =~= text_headers());
        Response { status, headers, body: slice_to_vec(body.as_bytes()) }
    }
}

} // verus!
