//! The failures a relayed request can end in, and how each is shown to the client.

use vstd::prelude::*;
use vstd::string::StringSliceAdditionalSpecFns;
use crate::authentication::{access_denied_response, denied_headers};
use crate::response::{text_headers, Response};

verus! {

/// What went wrong while serving one request.
#[derive(Clone, Copy, Debug, PartialEq, Eq, Structural)]
pub enum ErrorKind {
    /// A query parameter other than `url` could not be read.
    Param,
    /// The origin could not be reached, timed out or answered with a failure.
    Fetch,
    /// The fetched body is not an image that can be decoded.
    Decode,
    /// The encoder refused the image or its settings.
    Encode,
    /// Credentials are required and were missing or wrong.
    Auth,
}

impl ErrorKind {
    /// Whether `r` is the response that reports a failure of this kind.
    pub open spec fn reported_by(self, r: Response) -> bool {
        &&& r.status == self.spec_status()
        &&& r.body@ == self.spec_message().spec_bytes()
        &&& r.pairs() == if self == ErrorKind::Auth {
            denied_headers()
        } else {
            text_headers()
        }
    }

    /// The HTTP status that stands for this kind of failure.
    pub open spec fn spec_status(self) -> u16 {
        match self {
            ErrorKind::Param => 400,
            ErrorKind::Auth => 401,
            ErrorKind::Fetch => 500,
            ErrorKind::Decode => 500,
            ErrorKind::Encode => 500,
        }
    }

    /// The one message a client sees for this kind of failure.
    pub open spec fn spec_message(self) -> &'static str {
        match self {
            ErrorKind::Param => "Something went wrong: invalid request parameters",
            ErrorKind::Auth => "Access denied",
            ErrorKind::Fetch => "Something went wrong: could not fetch the image",
            ErrorKind::Decode => "Something went wrong: could not decode the image",
            ErrorKind::Encode => "Something went wrong: could not encode the image",
        }
    }
}

/// A failed request: the kind of failure alone, since nothing of its
/// inner detail is shown to the client.
#[derive(Clone, Copy, Debug, PartialEq, Eq, Structural)]
pub struct AppError {
    pub kind: ErrorKind,
}

impl AppError {
    pub fn new(kind: ErrorKind) -> (e: AppError)
        ensures
            e.kind == kind,
    {
        AppError { kind }
    }

    /// The response status: 400 for a bad parameter, 401 for refused
    /// credentials, 500 for every failure to fetch, decode or encode.
    pub fn status(&self) -> (code: u16)
        ensures
            code == self.kind.spec_status(),
            self.kind == ErrorKind::Param ==> code == 400,
            self.kind == ErrorKind::Auth ==> code == 401,
            self.is_relay_failure() ==> 500 <= code <= 599,
    {
        match self.kind {
            ErrorKind::Param => 400,
            ErrorKind::Auth => 401,
            ErrorKind::Fetch => 500,
            ErrorKind::Decode => 500,
            ErrorKind::Encode => 500,
        }
    }

    /// Whether the failure lies with the origin or the codecs rather than the client.
    pub open spec fn is_relay_failure(&self) -> bool {
        self.kind == ErrorKind::Fetch || self.kind == ErrorKind::Decode || self.kind
            == ErrorKind::Encode
    }

    /// The body of the error response, fixed for each kind.
    pub fn message(&self) -> (text: &'static str)
        ensures
            text == self.kind.spec_message(),
    {
        match self.kind {
            ErrorKind::Param => "Something went wrong: invalid request parameters",
            ErrorKind::Auth => "Access denied",
            ErrorKind::Fetch => "Something went wrong: could not fetch the image",
            ErrorKind::Decode => "Something went wrong: could not decode the image",
            ErrorKind::Encode => "Something went wrong: could not encode the image",
        }
    }

    /// The response that reports this failure: its status and its fixed
    /// message as plain text, with nothing of the failure's cause. A
    /// refusal of credentials also carries the challenge.
    pub fn into_response(self) -> (r: Response)
        ensures
            self.kind.reported_by(r),
    {
        match self.kind {
            ErrorKind::Auth => access_denied_response(),
            _ => Response::plain_text(self.status(), self.message()),
        }
    }
}

} // verus!
