use bandwidth_hero::headers::Header;
use bandwidth_hero::params::{BandwidthHeroParams, RawBandwidthHeroParams};
use bandwidth_hero::proxy::{
    bwh_response, fetched_body, landing_response, proxy_remote, proxy_url, respond, FetchOutcome,
    RelayStep, SavingsReport,
};
use bandwidth_hero::error::ErrorKind;
use bandwidth_hero::response::Response;

fn png(width: u32, height: u32) -> Vec<u8> {
    let mut img = image::RgbaImage::new(width, height);
    for (x, y, pixel) in img.enumerate_pixels_mut() {
        *pixel = image::Rgba([(x * 2) as u8, (y * 2) as u8, 90, 255]);
    }
    let mut out = Vec::new();
    img.write_to(&mut std::io::Cursor::new(&mut out), image::ImageFormat::Png).unwrap();
    out
}

fn params(url: Option<&str>, jpeg: Option<bool>, bw: Option<u32>, l: Option<u8>) -> BandwidthHeroParams {
    BandwidthHeroParams::from_raw(&RawBandwidthHeroParams {
        url: url.map(|u| u.to_string()),
        jpeg,
        bw,
        l,
    })
}

fn header(r: &Response, name: &str) -> String {
    let found: Vec<&Header> = r.headers.iter().filter(|h| h.name == name.as_bytes()).collect();
    assert_eq!(found.len(), 1, "{}", name);
    String::from_utf8(found[0].value.clone()).unwrap()
}

#[test]
fn request_with_target_is_transcoded_to_webp() {
    let p = params(Some("https://example.test/cat.png"), None, None, Some(50));
    let step = proxy_url(&p, vec![Header::text("cookie", "a=1"), Header::text("accept", "*/*")]);
    let request = match step {
        RelayStep::Fetch(request) => request,
        RelayStep::Landing(_) => panic!("expected a fetch"),
    };
    assert_eq!(request.url, "https://example.test/cat.png");
    let names: Vec<Vec<u8>> = request.headers.iter().map(|h| h.name.clone()).collect();
    assert_eq!(names, vec![b"cookie".to_vec(), b"user-agent".to_vec(), b"via".to_vec()]);

    let body = png(100, 100);
    let r = respond(FetchOutcome::Answered { status: 200, body: body.clone() }, &p);
    assert_eq!(r.status, 200);
    assert_eq!(header(&r, "content-type"), "image/webp");
    assert_eq!(header(&r, "content-encoding"), "identity");
    assert_eq!(header(&r, "content-length"), r.body.len().to_string());
    assert_eq!(header(&r, "x-original-size"), body.len().to_string());
    assert_eq!(
        header(&r, "x-bytes-saved"),
        (body.len() as i64 - r.body.len() as i64).to_string()
    );
    assert_eq!(r.headers.len(), 5);
    let back = image::load_from_memory(&r.body).unwrap();
    assert_eq!((back.width(), back.height()), (100, 100));
}

#[test]
fn invalid_url_gets_the_landing_text() {
    let p = params(Some("not-a-valid-url"), None, None, None);
    match proxy_url(&p, Vec::new()) {
        RelayStep::Landing(r) => {
            assert_eq!(r.status, 200);
            assert_eq!(r.body, b"bandwidth-hero-proxy".to_vec());
        }
        RelayStep::Fetch(_) => panic!("nothing is to be fetched"),
    }
}

#[test]
fn missing_url_gets_the_landing_text_whatever_else_is_asked() {
    for p in [
        params(None, None, None, None),
        params(None, Some(true), Some(0), Some(255)),
        params(Some(""), Some(false), Some(9), Some(0)),
    ] {
        match proxy_url(&p, vec![Header::text("cookie", "a=1")]) {
            RelayStep::Landing(r) => {
                assert_eq!(r.status, 200);
                assert_eq!(r.body, b"bandwidth-hero-proxy".to_vec());
                assert_eq!(header(&r, "content-type"), "text/plain; charset=utf-8");
            }
            RelayStep::Fetch(_) => panic!("nothing is to be fetched"),
        }
    }
    assert_eq!(landing_response().status, 200);
}

#[test]
fn origin_failure_becomes_a_relay_failure() {
    let p = params(Some("https://example.test/cat.png"), None, None, None);
    let r = respond(FetchOutcome::Answered { status: 500, body: png(4, 4) }, &p);
    assert!(r.status >= 500 && r.status <= 599);
    assert_eq!(r.status, 500);
    assert_eq!(r.body, b"Something went wrong: could not fetch the image".to_vec());
    assert_eq!(header(&r, "content-type"), "text/plain; charset=utf-8");
}

#[test]
fn fetch_failure_becomes_a_relay_failure() {
    let p = params(Some("https://example.test/cat.png"), None, None, None);
    let r = respond(FetchOutcome::Failed, &p);
    assert_eq!(r.status, 500);
    assert_eq!(r.body, b"Something went wrong: could not fetch the image".to_vec());
}

#[test]
fn only_success_statuses_count() {
    assert!(fetched_body(FetchOutcome::Answered { status: 200, body: vec![1] }).is_ok());
    assert_eq!(fetched_body(FetchOutcome::Answered { status: 299, body: vec![1, 2] }), Ok(vec![1, 2]));
    for status in [0u16, 100, 199, 300, 304, 404, 500, 503] {
        assert_eq!(
            fetched_body(FetchOutcome::Answered { status, body: vec![1] }).unwrap_err().kind,
            ErrorKind::Fetch
        );
    }
    assert_eq!(fetched_body(FetchOutcome::Failed).unwrap_err().kind, ErrorKind::Fetch);
}

#[test]
fn undecodable_body_is_a_decode_failure() {
    let p = params(Some("https://example.test/cat.png"), None, None, None);
    let r = respond(FetchOutcome::Answered { status: 200, body: b"<html>".to_vec() }, &p);
    assert_eq!(r.status, 500);
    assert_eq!(r.body, b"Something went wrong: could not decode the image".to_vec());
}

#[test]
fn refused_quality_is_an_encode_failure() {
    let p = params(Some("https://example.test/cat.png"), None, None, Some(200));
    let r = respond(FetchOutcome::Answered { status: 200, body: png(4, 4) }, &p);
    assert_eq!(r.status, 500);
    assert_eq!(r.body, b"Something went wrong: could not encode the image".to_vec());
}

#[test]
fn jpeg_request_is_typed_as_jpeg() {
    let p = params(Some("https://example.test/cat.png"), Some(true), Some(0), None);
    let r = respond(FetchOutcome::Answered { status: 200, body: png(10, 10) }, &p);
    assert_eq!(r.status, 200);
    assert_eq!(header(&r, "content-type"), "image/jpeg");
    assert_eq!(&r.body[0..2], &[0xff, 0xd8]);
}

#[test]
fn savings_may_be_negative() {
    let p = params(None, None, None, None);
    let r = bwh_response(&[1, 2, 3], vec![0; 10], &p);
    assert_eq!(r.status, 200);
    assert_eq!(r.body, vec![0; 10]);
    assert_eq!(header(&r, "content-length"), "10");
    assert_eq!(header(&r, "x-original-size"), "3");
    assert_eq!(header(&r, "x-bytes-saved"), "-7");
    assert_eq!(header(&r, "content-type"), "image/webp");
}

#[test]
fn savings_of_equal_sizes_are_zero() {
    let p = params(None, Some(true), None, None);
    let r = bwh_response(&[1, 2, 3], vec![4, 5, 6], &p);
    assert_eq!(header(&r, "x-bytes-saved"), "0");
    assert_eq!(header(&r, "content-type"), "image/jpeg");
}

#[test]
fn savings_report_is_the_signed_difference() {
    assert_eq!(
        SavingsReport::new(1000, 250),
        SavingsReport { original_size: 1000, compressed_size: 250, bytes_saved: 750 }
    );
    assert_eq!(SavingsReport::new(0, usize::MAX).bytes_saved, -(usize::MAX as i128));
    assert_eq!(SavingsReport::new(usize::MAX, 0).bytes_saved, usize::MAX as i128);
}

#[test]
fn fetch_request_carries_url_and_outbound_headers() {
    let request = proxy_remote(
        "https://example.test/a.png".to_string(),
        vec![Header::text("X-Forwarded-For", "10.1.1.1"), Header::text("host", "relay")],
    );
    assert_eq!(request.url, "https://example.test/a.png");
    let got: Vec<(Vec<u8>, Vec<u8>)> =
        request.headers.iter().map(|h| (h.name.clone(), h.value.clone())).collect();
    assert_eq!(
        got,
        vec![
            (b"user-agent".to_vec(), b"Bandwidth-Hero Compressor".to_vec()),
            (b"X-Forwarded-For".to_vec(), b"10.1.1.1".to_vec()),
            (b"via".to_vec(), b"1.1 bandwidth-hero".to_vec()),
        ]
    );
}
