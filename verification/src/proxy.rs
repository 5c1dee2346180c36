//! The relay itself: what to do with a request, what to ask of the
//! origin, and what to answer once the origin has replied.
//!
//! Fetching is left to the caller. `proxy_url` says whether anything is
//! to be fetched and with which headers; `respond` turns the outcome of
//! the fetch into the response.

use vstd::prelude::*;
use vstd::string::StringSliceAdditionalSpecFns;
use crate::compress::{compress_image, transcoded};
use crate::decimal::{decimal, format_signed, format_unsigned, signed_decimal};
use crate::error::{AppError, ErrorKind};
use crate::headers::{entries, key_bytes, listed, named_in, select_headers, Header};
use crate::params::{target_of, wants_webp, BandwidthHeroParams};
use crate::views::text_view;
use crate::response::Response;

verus! {

/// A request to the origin.
#[derive(Clone, Debug, PartialEq, Eq)]
pub struct FetchRequest {
    pub url: String,
    pub headers: Vec<Header>,
}

/// What the relay does with a request.
#[derive(Clone, Debug, PartialEq, Eq)]
pub enum RelayStep {
    /// Nothing is to be fetched: answer with this response.
    Landing(Response),
    /// Fetch the image, then call `respond`.
    Fetch(FetchRequest),
}

/// How a fetch ended.
#[derive(Clone, Debug, PartialEq, Eq)]
pub enum FetchOutcome {
    /// No answer: the origin was unreachable, too slow, or redirected too often.
    Failed,
    /// The origin answered with this status and body.
    Answered { status: u16, body: Vec<u8> },
}

/// The sizes before and after recompression, and their difference, which
/// is negative where recompression made the image larger.
#[derive(Clone, Copy, Debug, PartialEq, Eq, Structural)]
pub struct SavingsReport {
    pub original_size: usize,
    pub compressed_size: usize,
    pub bytes_saved: i128,
}

impl SavingsReport {
    /// The report for an image of `original_size` bytes recompressed to
    /// `compressed_size` bytes.
    pub fn new(original_size: usize, compressed_size: usize) -> (report: SavingsReport)
        ensures
            report.original_size == original_size,
            report.compressed_size == compressed_size,
            report.bytes_saved == original_size - compressed_size,
    {
        SavingsReport {
            original_size,
            compressed_size,
            bytes_saved: original_size as i128 - compressed_size as i128,
        }
    }
}

/// The inbound headers that are passed on as they are.
pub open spec fn passthrough_keys() -> Seq<Seq<u8>> {
    seq!["cookie".spec_bytes(), "dnt".spec_bytes(), "referer".spec_bytes()]
}

/// The header that carries the chain of forwarding addresses.
pub open spec fn forwarded_keys() -> Seq<Seq<u8>> {
    seq!["x-forwarded-for".spec_bytes()]
}

/// The header by which the relay names itself to the origin.
pub open spec fn user_agent() -> (Seq<u8>, Seq<u8>) {
    ("user-agent".spec_bytes(), "Bandwidth-Hero Compressor".spec_bytes())
}

/// The header that discloses the relay in the proxy chain.
pub open spec fn via() -> (Seq<u8>, Seq<u8>) {
    ("via".spec_bytes(), "1.1 bandwidth-hero".spec_bytes())
}

/// The headers sent to the origin for a request that came with
/// `inbound`: the passed-on headers, the relay's user agent, every
/// `x-forwarded-for` of the request unchanged, and `via` last.
pub open spec fn outbound(inbound: Seq<(Seq<u8>, Seq<u8>)>) -> Seq<(Seq<u8>, Seq<u8>)> {
    inbound.filter(named_in(passthrough_keys())).push(user_agent()) + inbound.filter(
        named_in(forwarded_keys()),
    ).push(via())
}

/// The media type of the chosen codec.
pub open spec fn content_type(webp: bool) -> Seq<u8> {
    if webp {
        "image/webp".spec_bytes()
    } else {
        "image/jpeg".spec_bytes()
    }
}

/// The headers of a successful response for an image of `original`
/// bytes recompressed to `compressed` bytes.
pub open spec fn savings_headers(original: nat, compressed: nat, webp: bool) -> Seq<
    (Seq<u8>, Seq<u8>),
> {
    seq![
        ("content-encoding".spec_bytes(), "identity".spec_bytes()),
        ("content-type".spec_bytes(), content_type(webp)),
        ("content-length".spec_bytes(), decimal(compressed)),
        ("x-original-size".spec_bytes(), decimal(original)),
        ("x-bytes-saved".spec_bytes(), signed_decimal(original - compressed)),
    ]
}

/// Whether `step` is the fixed answer to a request without a target.
pub open spec fn is_landing(step: RelayStep) -> bool {
    step matches RelayStep::Landing(r) && r.is_text(200, "bandwidth-hero-proxy")
}

/// Whether `request` asks the origin for `url` with the outbound form of `inbound`.
pub open spec fn asks(request: FetchRequest, url: Seq<char>, inbound: Seq<Header>) -> bool {
    request.url@ == url && entries(request.headers@) == outbound(entries(inbound))
}

/// Whether `step` is what the relay does with a request for `target`
/// that came with the headers `inbound`.
pub open spec fn plans(step: RelayStep, target: Option<Seq<char>>, inbound: Seq<Header>) -> bool {
    match target {
        None => is_landing(step),
        Some(url) => step matches RelayStep::Fetch(request) && asks(request, url, inbound),
    }
}

/// Whether the origin answered with a success status.
pub open spec fn fetch_succeeded(outcome: FetchOutcome) -> bool {
    outcome matches FetchOutcome::Answered { status, .. } && 200 <= status && status <= 299
}

/// Whether `r` is the successful response that carries `compressed` for
/// an original of `original_size` bytes.
pub open spec fn is_image_response(r: Response, original_size: nat, compressed: Seq<u8>, webp: bool) -> bool {
    &&& r.status == 200
    &&& r.body@ == compressed
    &&& r.pairs() == savings_headers(original_size, compressed.len(), webp)
}

/// Whether `r` is the report of a failure of kind `kind`.
pub open spec fn is_failure(r: Response, kind: ErrorKind) -> bool {
    kind.reported_by(r)
}

/// Whether `r` answers a request with parameters `params` whose fetch
/// ended in `outcome`.
pub open spec fn answers(r: Response, outcome: FetchOutcome, params: BandwidthHeroParams) -> bool {
    match outcome {
        FetchOutcome::Answered { status, body } if 200 <= status && status <= 299 => match transcoded(
            body@,
            params.quality,
            params.monochrome,
            params.webp,
        ) {
            Ok(compressed) => is_image_response(r, body@.len(), compressed, params.webp),
            Err(kind) => is_failure(r, kind),
        },
        _ => is_failure(r, ErrorKind::Fetch),
    }
}

/// The headers to send to the origin for a request that came with `inbound`.
pub fn outbound_headers(inbound: &Vec<Header>) -> (out: Vec<Header>)
    ensures
        entries(out@) == outbound(entries(inbound@)),
{
    let passthrough: Vec<&str> = vec!["cookie", "dnt", "referer"];
    let forwarded: Vec<&str> = vec!["x-forwarded-for"];
    assert(key_bytes(passthrough@) =~= passthrough_keys());
    assert(key_bytes(forwarded@) =~= forwarded_keys());
    let mut out = select_headers(inbound, &passthrough);
    out.push(Header::text("user-agent", "Bandwidth-Hero Compressor"));
    let mut chain = select_headers(inbound, &forwarded);
    chain.push(Header::text("via", "1.1 bandwidth-hero"));
    out.append(&mut chain);
    out
}

/// The request to the origin for `url`, for a request to the relay that
/// came with the headers `headers`.
pub fn proxy_remote(url: String, headers: Vec<Header>) -> (request: FetchRequest)
    ensures
        asks(request, url@, headers@),
{
    let out = outbound_headers(&headers);
    FetchRequest { url, headers: out }
}

/// The answer to a request without a target.
pub fn landing_response() -> (r: Response)
    ensures
        r.is_text(200, "bandwidth-hero-proxy"),
{
    Response::plain_text(200, "bandwidth-hero-proxy")
}

/// Decides what to do with a request. Without a target the answer is
/// the landing text with status 200, whatever the other parameters and
/// the headers are, and nothing is fetched. With a target, the origin
/// is to be asked for it.
pub fn proxy_url(params: &BandwidthHeroParams, headers: Vec<Header>) -> (step: RelayStep)
    ensures
        plans(step, text_view(params.url), headers@),
{
    match &params.url {
        None => RelayStep::Landing(landing_response()),
        Some(url) => RelayStep::Fetch(proxy_remote(url.clone(), headers)),
    }
}

/// The body of a fetch that succeeded, or the failure to report.
pub fn fetched_body(outcome: FetchOutcome) -> (r: Result<Vec<u8>, AppError>)
    ensures
        r.is_ok() == fetch_succeeded(outcome),
        r matches Ok(bytes) ==> outcome matches FetchOutcome::Answered { body, .. } && bytes == body,
        r matches Err(e) ==> e.kind == ErrorKind::Fetch,
{
    match outcome {
        FetchOutcome::Failed => Err(AppError::new(ErrorKind::Fetch)),
        FetchOutcome::Answered { status, body } => {
            if 200 <= status && status <= 299 {
                Ok(body)
            } else {
                Err(AppError::new(ErrorKind::Fetch))
            }
        },
    }
}

/// The successful response: the recompressed image with its media type,
/// its length, the original's length and the bytes saved.
pub fn bwh_response(
    original_image: &[u8],
    compressed_image: Vec<u8>,
    params: &BandwidthHeroParams,
) -> (r: Response)
    ensures
        is_image_response(r, original_image@.len(), compressed_image@, params.webp),
{
    let report = SavingsReport::new(original_image.len(), compressed_image.len());
    let media = if params.webp {
        "image/webp"
    } else {
        "image/jpeg"
    };
    let mut headers: Vec<Header> = Vec::new();
    headers.push(Header::text("content-encoding", "identity"));
    headers.push(Header::text("content-type", media));
    headers.push(
        Header::new("content-length".as_bytes(), format_unsigned(report.compressed_size as u128).as_slice()),
    );
    headers.push(
        Header::new("x-original-size".as_bytes(), format_unsigned(report.original_size as u128).as_slice()),
    );
    headers.push(Header::new("x-bytes-saved".as_bytes(), format_signed(report.bytes_saved).as_slice()));
    assert(entries(headers@) =~= savings_headers(
        original_image@.len(),
        compressed_image@.len(),
        params.webp,
    ));
    Response { status: 200, headers, body: compressed_image }
}

/// Answers a request whose fetch ended in `outcome`. A fetch that
/// failed, or an origin that answered with anything but a success
/// status, gives the report of a fetch failure, and the body is not
/// looked at. Otherwise the body is recompressed as `params` ask, and
/// the answer is the image, or the report of the stage that failed.
pub fn respond(outcome: FetchOutcome, params: &BandwidthHeroParams) -> (r: Response)
    ensures
        answers(r, outcome, *params),
        !fetch_succeeded(outcome) ==> r.status == 500,
{
    let original = match fetched_body(outcome) {
        Ok(body) => body,
        Err(e) => {
            return e.into_response();
        },
    };
    match compress_image(original.as_slice(), params.quality, params.monochrome, params.webp) {
        Ok(compressed) => bwh_response(original.as_slice(), compressed, params),
        Err(e) => e.into_response(),
    }
}

/// Nothing reaches the origin but what the policy names: every outbound
/// header is the relay's `user-agent`, its `via`, or a header of the
/// request whose name is `cookie`, `dnt`, `referer` or `x-forwarded-for`.
pub proof fn lemma_outbound_leaks_nothing(inbound: Seq<(Seq<u8>, Seq<u8>)>, i: int)
    requires
        0 <= i < outbound(inbound).len(),
    ensures
        ({
            let e = outbound(inbound)[i];
            e == user_agent() || e == via() || (inbound.contains(e) && (listed(
                e.0,
                passthrough_keys(),
            ) || listed(e.0, forwarded_keys())))
        }),
{
    let passed = inbound.filter(named_in(passthrough_keys()));
    let chain = inbound.filter(named_in(forwarded_keys()));
    if i < passed.len() {
        inbound.lemma_filter_pred(named_in(passthrough_keys()), i);
        assert(passed.contains(passed[i]));
        inbound.lemma_filter_contains_rev(named_in(passthrough_keys()), passed[i]);
    } else if passed.len() < i && i - passed.len() - 1 < chain.len() {
        let k = i - passed.len() - 1;
        inbound.lemma_filter_pred(named_in(forwarded_keys()), k);
        assert(chain.contains(chain[k]));
        inbound.lemma_filter_contains_rev(named_in(forwarded_keys()), chain[k]);
    }
}

/// A request without a target is answered with the landing text and
/// status 200, whatever its other parameters and its headers are. The
/// target is missing where the `url` parameter is absent or is no
/// absolute URL.
pub proof fn lemma_no_target_lands(
    url: Option<String>,
    jpeg: Option<bool>,
    bw: Option<u32>,
    l: Option<u8>,
    params: BandwidthHeroParams,
    inbound: Seq<Header>,
    step: RelayStep,
)
    requires
        target_of(url) is None,
        params.reads(target_of(url), jpeg, bw, l),
        plans(step, text_view(params.url), inbound),
    ensures
        step matches RelayStep::Landing(r) && r.status == 200 && r.body@
            == "bandwidth-hero-proxy".spec_bytes(),
{
}

/// A response with status 200 to a fetched request reports the true
/// sizes: `content-length` is the length of the body sent,
/// `x-original-size` the length of the body fetched, and `x-bytes-saved`
/// their difference, negative where the image grew.
pub proof fn lemma_savings_exact(r: Response, outcome: FetchOutcome, params: BandwidthHeroParams)
    requires
        answers(r, outcome, params),
        r.status == 200,
    ensures
        outcome matches FetchOutcome::Answered { body, .. } && r.pairs().len() == 5 && r.pairs()[2]
            == ("content-length".spec_bytes(), decimal(r.body@.len())) && r.pairs()[3] == (
            "x-original-size".spec_bytes(),
            decimal(body@.len()),
        ) && r.pairs()[4] == (
            "x-bytes-saved".spec_bytes(),
            signed_decimal(body@.len() - r.body@.len()),
        ),
{
}

/// A response with status 200 to a fetched request is typed by the
/// codec asked for: `image/jpeg` where the `jpeg` parameter is present
/// and true, `image/webp` otherwise.
pub proof fn lemma_content_type_follows_codec(
    r: Response,
    outcome: FetchOutcome,
    params: BandwidthHeroParams,
    jpeg: Option<bool>,
)
    requires
        params.webp == wants_webp(jpeg),
        answers(r, outcome, params),
        r.status == 200,
    ensures
        r.pairs().len() == 5,
        r.pairs()[1].0 == "content-type".spec_bytes(),
        jpeg == Some(true) ==> r.pairs()[1].1 == "image/jpeg".spec_bytes(),
        jpeg != Some(true) ==> r.pairs()[1].1 == "image/webp".spec_bytes(),
{
}

/// Where the origin did not answer with a success status, the response
/// is the report of a fetch failure, whatever the body would have
/// recompressed to.
pub proof fn lemma_origin_failure_is_relay_failure(
    r: Response,
    outcome: FetchOutcome,
    params: BandwidthHeroParams,
)
    requires
        answers(r, outcome, params),
        !fetch_succeeded(outcome),
    ensures
        ErrorKind::Fetch.reported_by(r),
        500 <= r.status <= 599,
{
}

} // verus!
