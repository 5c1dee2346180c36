//! The optional Basic credentials guard in front of the relay.
//!
//! When both a login and a password are configured, a request passes only
//! if its `Authorization` value reads `Basic ` followed by the base64 form
//! of `login:password`. When either is missing access is open.

use vstd::prelude::*;
use vstd::slice::slice_subrange;
use vstd::string::StringSliceAdditionalSpecFns;
use crate::error::{AppError, ErrorKind};
use crate::headers::{entries, Header};
use crate::response::{text_headers, Response};
use crate::views::{slice_bytes, vec_bytes};

verus! {

/// What the standard base64 alphabet, with padding, decodes `input` to;
/// `None` where `input` is not such an encoding.
pub uninterp spec fn base64_decoded(input: Seq<u8>) -> Option<Seq<u8>>;

/// Calls `decode` of `base64::engine::general_purpose::STANDARD` and drops
/// the error's detail. Trusted: the result is the named decoding of the
/// input, and depends on nothing else.
#[verifier::external_body]
fn decode_base64(input: &[u8]) -> (r: Option<Vec<u8>>)
    ensures
        vec_bytes(r) == base64_decoded(input@),
{
    base64::Engine::decode(&base64::engine::general_purpose::STANDARD, input).ok()
}

/// A byte that may stand in a header value read as text: a tab or a
/// printable ASCII character.
pub open spec fn is_visible_ascii(b: u8) -> bool {
    b == 9 || (32 <= b && b < 127)
}

/// Whether a header value can be read as text.
pub open spec fn readable(value: Seq<u8>) -> bool {
    forall|i: int| 0 <= i < value.len() ==> is_visible_ascii(#[trigger] value[i])
}

/// What follows `prefix` in `bytes`, if `bytes` begins with it.
pub open spec fn after_prefix(bytes: Seq<u8>, prefix: Seq<u8>) -> Option<Seq<u8>> {
    if prefix.len() <= bytes.len() && bytes.subrange(0, prefix.len() as int) == prefix {
        Some(bytes.subrange(prefix.len() as int, bytes.len() as int))
    } else {
        None
    }
}

/// The base64 text of an `Authorization` value: what follows `Basic `
/// in a value that is readable as text.
pub open spec fn basic_payload(value: Seq<u8>) -> Option<Seq<u8>> {
    if readable(value) {
        after_prefix(value, "Basic ".spec_bytes())
    } else {
        None
    }
}

/// Whether `decoded` is `user`, a colon and `pass`, the colon being the
/// first one in `decoded`.
pub open spec fn names_credentials(decoded: Seq<u8>, user: Seq<u8>, pass: Seq<u8>) -> bool {
    !user.contains(58u8) && decoded == user + seq![58u8] + pass
}

/// Whether an `Authorization` value presents exactly the given credentials.
pub open spec fn presents(value: Seq<u8>, user: Seq<u8>, pass: Seq<u8>) -> bool {
    match basic_payload(value) {
        Some(payload) => match base64_decoded(payload) {
            Some(decoded) => names_credentials(decoded, user, pass),
            None => false,
        },
        None => false,
    }
}

/// Whether a request is let through.
pub open spec fn access_granted(
    login: Option<&str>,
    password: Option<&str>,
    authorization: Option<Seq<u8>>,
) -> bool {
    match (login, password) {
        (Some(user), Some(pass)) => match authorization {
            Some(value) => presents(value, user.spec_bytes(), pass.spec_bytes()),
            None => false,
        },
        _ => true,
    }
}

/// Whether every byte of a header value is a tab or printable ASCII.
pub fn is_readable(value: &[u8]) -> (r: bool)
    ensures
        r == readable(value@),
{
    let mut i: usize = 0;
    while i < value.len()
        invariant
            i <= value.len(),
            forall|j: int| 0 <= j < i ==> is_visible_ascii(#[trigger] value@[j]),
        decreases value.len() - i,
    {
        let b: u8 = value[i];
        if !(b == 9 || (32 <= b && b < 127)) {
            return false;
        }
        i += 1;
    }
    true
}

/// Removes `prefix` from the front of `bytes`; `None` where `bytes` does
/// not begin with it.
pub fn strip_prefix<'a>(bytes: &'a [u8], prefix: &[u8]) -> (r: Option<&'a [u8]>)
    ensures
        slice_bytes(r) == after_prefix(bytes@, prefix@),
{
    if bytes.len() < prefix.len() {
        return None;
    }
    let mut i: usize = 0;
    while i < prefix.len()
        invariant
            i <= prefix.len(),
            prefix.len() <= bytes.len(),
            forall|j: int| 0 <= j < i ==> bytes@[j] == prefix@[j],
        decreases prefix.len() - i,
    {
        if bytes[i] != prefix[i] {
            return None;
        }
        i += 1;
    }
    assert(bytes@.subrange(0, prefix@.len() as int) =~= prefix@);
    Some(slice_subrange(bytes, prefix.len(), bytes.len()))
}

/// Splits decoded credentials at their first colon and compares both
/// halves with the expected login and password.
///
/// A match implies that `decoded` is well-formed text whenever `user` and
/// `pass` are, so no separate check of its encoding is needed.
pub fn credentials_match(decoded: &[u8], user: &[u8], pass: &[u8]) -> (r: bool)
    ensures
        r == names_credentials(decoded@, user@, pass@),
{
    if decoded.len() <= user.len() || decoded.len() - user.len() - 1 != pass.len() {
        return false;
    }
    let mut i: usize = 0;
    while i < user.len()
        invariant
            i <= user.len(),
            user.len() < decoded.len(),
            forall|j: int| 0 <= j < i ==> decoded@[j] == user@[j] && user@[j] != 58,
        decreases user.len() - i,
    {
        if user[i] == 58 {
            return false;
        }
        if decoded[i] != user[i] {
            return false;
        }
        i += 1;
    }
    if decoded[user.len()] != 58 {
        return false;
    }
    let start: usize = user.len() + 1;
    let mut k: usize = 0;
    while k < pass.len()
        invariant
            k <= pass.len(),
            start == user.len() + 1,
            decoded.len() == user.len() + 1 + pass.len(),
            forall|j: int| 0 <= j < k ==> decoded@[start + j] == pass@[j],
        decreases pass.len() - k,
    {
        if decoded[start + k] != pass[k] {
            return false;
        }
        k += 1;
    }
    assert(decoded@ =~= user@ + seq![58u8] + pass@);
    true
}

/// Decides on an `Authorization` value once its base64 text is decoded:
/// `decoded` is the decoding of the value's payload, or `None` where the
/// value has no payload or the payload does not decode.
pub fn decide(decoded: Option<Vec<u8>>, user: &str, pass: &str) -> (r: Result<(), AppError>)
    ensures
        r.is_ok() == match decoded {
            Some(d) => names_credentials(d@, user.spec_bytes(), pass.spec_bytes()),
            None => false,
        },
        r matches Err(e) ==> e.kind == ErrorKind::Auth,
{
    match decoded {
        Some(d) => {
            if credentials_match(d.as_slice(), user.as_bytes(), pass.as_bytes()) {
                Ok(())
            } else {
                Err(AppError::new(ErrorKind::Auth))
            }
        },
        None => Err(AppError::new(ErrorKind::Auth)),
    }
}

/// The credentials guard. With a login and a password configured, the
/// request passes exactly when `authorization` presents both; with either
/// missing, every request passes. A refusal is always of kind `Auth`.
pub fn authenticate(
    login: Option<&str>,
    password: Option<&str>,
    authorization: Option<&[u8]>,
) -> (r: Result<(), AppError>)
    ensures
        r.is_ok() == access_granted(login, password, slice_bytes(authorization)),
        r matches Err(e) ==> e.kind == ErrorKind::Auth,
{
    let (user, pass) = match (login, password) {
        (Some(user), Some(pass)) => (user, pass),
        _ => {
            return Ok(());
        },
    };
    let value = match authorization {
        Some(value) => value,
        None => {
            return Err(AppError::new(ErrorKind::Auth));
        },
    };
    if !is_readable(value) {
        return Err(AppError::new(ErrorKind::Auth));
    }
    match strip_prefix(value, "Basic ".as_bytes()) {
        Some(payload) => decide(decode_base64(payload), user, pass),
        None => Err(AppError::new(ErrorKind::Auth)),
    }
}

/// The headers of the refusal: plain text, and the challenge.
pub open spec fn denied_headers() -> Seq<(Seq<u8>, Seq<u8>)> {
    text_headers().push(
        (
            "www-authenticate".spec_bytes(),
            "Basic realm=\"Bandwidth-Hero Compression Service\"".spec_bytes(),
        ),
    )
}

/// The response to a request that was not let through: status 401, a
/// `WWW-Authenticate` challenge and the text `Access denied`.
pub fn access_denied_response() -> (r: Response)
    ensures
        r.status == 401,
        r.pairs() == denied_headers(),
        r.body@ == "Access denied".spec_bytes(),
{
    let mut r = Response::plain_text(401, "Access denied");
    r.headers.push(
        Header::text("www-authenticate", "Basic realm=\"Bandwidth-Hero Compression Service\""),
    );
    r
}

/// With a login or a password missing, every request is let through.
pub proof fn lemma_open_without_credentials(
    login: Option<&str>,
    password: Option<&str>,
    authorization: Option<Seq<u8>>,
)
    requires
        login is None || password is None,
    ensures
        access_granted(login, password, authorization),
{
}

/// With both credentials set, a request is let through exactly when it
/// carries an `Authorization` value that is `Basic ` and a base64
/// payload, the payload decodes to the login, a colon and the password,
/// and the login holds no colon.
pub proof fn lemma_closed_with_credentials(
    login: &str,
    password: &str,
    authorization: Option<Seq<u8>>,
)
    ensures
        access_granted(Some(login), Some(password), authorization) <==> (authorization matches Some(
            value,
        ) && basic_payload(value) matches Some(payload) && base64_decoded(payload) == Some(
            login.spec_bytes() + seq![58u8] + password.spec_bytes(),
        ) && !login.spec_bytes().contains(58u8)),
{
}

/// The refusal has status 401 and carries a `WWW-Authenticate` challenge.
pub proof fn lemma_refusal_carries_challenge(r: Response)
    requires
        ErrorKind::Auth.reported_by(r),
    ensures
        r.status == 401,
        exists|i: int|
            0 <= i < r.pairs().len() && (#[trigger] r.pairs()[i]).0
                == "www-authenticate".spec_bytes(),
{
    assert(r.pairs()[1].0 == "www-authenticate".spec_bytes());
}

} // verus!
