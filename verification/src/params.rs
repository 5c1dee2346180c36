//! The query parameters of a request and the relay's reading of them.

use vstd::prelude::*;
use crate::views::text_view;

verus! {

/// The query parameters as they arrive, each present or absent.
#[derive(Clone, Debug, PartialEq, Eq)]
pub struct RawBandwidthHeroParams {
    pub url: Option<String>,
    pub jpeg: Option<bool>,
    pub bw: Option<u32>,
    pub l: Option<u8>,
}

/// What a request asks for: the image to fetch, written out as an
/// absolute URL, the output codec, grayscale or colour, and the quality.
#[derive(Clone, Debug, PartialEq, Eq)]
pub struct BandwidthHeroParams {
    pub url: Option<String>,
    pub webp: bool,
    pub monochrome: bool,
    pub quality: u8,
}

/// The quality used when a request names none.
pub const DEFAULT_QUALITY: u8 = 40;

/// The written form of the absolute URL that `input` parses to; `None`
/// where `input` is no absolute URL.
pub uninterp spec fn url_parsed(input: Seq<char>) -> Option<Seq<char>>;

/// Calls `url::Url::parse` and writes the URL out again with
/// `String::from`. Trusted: the outcome is the named parse of `input`,
/// a parse error being `None`.
#[verifier::external_body]
fn parse_url(input: &str) -> (r: Option<String>)
    ensures
        text_view(r) == url_parsed(input@),
{
    url::Url::parse(input).ok().map(String::from)
}

/// The target of a request: the parse of its `url` parameter, if it has one.
pub open spec fn target_of(url: Option<String>) -> Option<Seq<char>> {
    match url {
        Some(text) => url_parsed(text@),
        None => None,
    }
}

/// WebP unless `jpeg` is present and true.
pub open spec fn wants_webp(jpeg: Option<bool>) -> bool {
    jpeg != Some(true)
}

/// Grayscale unless `bw` is present and zero.
pub open spec fn wants_monochrome(bw: Option<u32>) -> bool {
    bw != Some(0u32)
}

/// The `l` parameter as it is, or the default where it is absent.
pub open spec fn wanted_quality(l: Option<u8>) -> u8 {
    match l {
        Some(q) => q,
        None => DEFAULT_QUALITY,
    }
}

impl BandwidthHeroParams {
    /// Whether these are the parameters that `target`, `jpeg`, `bw` and
    /// `l` stand for.
    pub open spec fn reads(
        &self,
        target: Option<Seq<char>>,
        jpeg: Option<bool>,
        bw: Option<u32>,
        l: Option<u8>,
    ) -> bool {
        &&& text_view(self.url) == target
        &&& self.webp == wants_webp(jpeg)
        &&& self.monochrome == wants_monochrome(bw)
        &&& self.quality == wanted_quality(l)
    }

    /// Fills in the defaults around an already parsed target.
    pub fn with_target(
        target: Option<String>,
        jpeg: Option<bool>,
        bw: Option<u32>,
        l: Option<u8>,
    ) -> (p: BandwidthHeroParams)
        ensures
            p.reads(text_view(target), jpeg, bw, l),
    {
        let webp = match jpeg {
            Some(j) => !j,
            None => true,
        };
        let monochrome = match bw {
            Some(n) => n != 0,
            None => true,
        };
        let quality = match l {
            Some(q) => q,
            None => DEFAULT_QUALITY,
        };
        BandwidthHeroParams { url: target, webp, monochrome, quality }
    }

    /// Reads raw parameters. A `url` that is absent or no absolute URL
    /// leaves the request without a target; it is not an error.
    pub fn from_raw(raw: &RawBandwidthHeroParams) -> (p: BandwidthHeroParams)
        ensures
            p.reads(target_of(raw.url), raw.jpeg, raw.bw, raw.l),
            raw.url is None ==> p.url is None,
    {
        let target = match &raw.url {
            Some(text) => parse_url(text.as_str()),
            None => None,
        };
        BandwidthHeroParams::with_target(target, raw.jpeg, raw.bw, raw.l)
    }
}

} // verus!
