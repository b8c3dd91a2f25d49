//! Challenge detection by headers and body.

use antibot_rs::detect::{detect_in, fingerprint, fingerprint_in, Response, SeenHeaders};
use antibot_rs::{detect_challenge, ChallengeKind, DetectionInput};
use http::{HeaderMap, HeaderName, HeaderValue};

fn input<'a>(status: u16, headers: &'a HeaderMap, body: &'a str) -> DetectionInput<'a> {
    DetectionInput::new(status, headers, body, "https://example.com/")
}

fn no_headers() -> SeenHeaders {
    SeenHeaders {
        cf_mitigated: false,
        cf_chl_bypass: false,
        server: None,
        x_iinfo: None,
        x_cdn: None,
        set_cookie: Vec::new(),
    }
}

#[test]
fn detects_cloudflare_just_a_moment() {
    let h = HeaderMap::new();
    let body = "<html><body>Just a moment...</body></html>";
    assert_eq!(
        detect_challenge(&input(403, &h, body)),
        Some(ChallengeKind::Cloudflare)
    );
}

#[test]
fn detects_cf_mitigated_header() {
    let mut h = HeaderMap::new();
    h.insert("cf-mitigated", "challenge".parse().unwrap());
    assert_eq!(
        detect_challenge(&input(200, &h, "")),
        Some(ChallengeKind::Cloudflare)
    );
}

#[test]
fn detects_datadome() {
    let h = HeaderMap::new();
    assert_eq!(
        detect_challenge(&input(403, &h, "var dd_cookie_test = true;")),
        Some(ChallengeKind::DataDome)
    );
}

#[test]
fn detects_turnstile() {
    let h = HeaderMap::new();
    assert_eq!(
        detect_challenge(&input(200, &h, "<div class=\"cf-turnstile\"></div>")),
        Some(ChallengeKind::Turnstile)
    );
}

#[test]
fn clean_response_returns_none() {
    let h = HeaderMap::new();
    assert_eq!(
        detect_challenge(&input(200, &h, "<html><body>hello</body></html>")),
        None
    );
}

#[test]
fn cloudflare_server_counts_only_with_a_blocking_status() {
    let mut h = HeaderMap::new();
    h.insert("server", HeaderValue::from_static("CloudFlare"));
    assert_eq!(detect_challenge(&input(403, &h, "")), Some(ChallengeKind::Cloudflare));
    assert_eq!(detect_challenge(&input(503, &h, "")), Some(ChallengeKind::Cloudflare));
    assert_eq!(detect_challenge(&input(200, &h, "")), None);
    let mut bypass = HeaderMap::new();
    bypass.insert("CF-Chl-Bypass".parse::<HeaderName>().unwrap(), HeaderValue::from_static("1"));
    assert_eq!(detect_challenge(&input(200, &bypass, "")), Some(ChallengeKind::Cloudflare));
}

#[test]
fn any_set_cookie_value_counts() {
    let mut h = HeaderMap::new();
    h.append("set-cookie", HeaderValue::from_static("a=b"));
    h.append("set-cookie", HeaderValue::from_static("datadome=xyz; Path=/"));
    assert_eq!(detect_challenge(&input(200, &h, "")), Some(ChallengeKind::DataDome));

    let mut px = HeaderMap::new();
    px.append("set-cookie", HeaderValue::from_static("_px3=1"));
    assert_eq!(detect_challenge(&input(200, &px, "")), Some(ChallengeKind::PerimeterX));

    let mut ak = HeaderMap::new();
    ak.append("set-cookie", HeaderValue::from_static("bm_sv=1"));
    assert_eq!(detect_challenge(&input(200, &ak, "")), Some(ChallengeKind::Akamai));
}

#[test]
fn values_that_are_not_text_count_for_nothing() {
    let mut h = HeaderMap::new();
    h.append("set-cookie", HeaderValue::from_bytes(b"datadome=\xff").unwrap());
    assert_eq!(detect_challenge(&input(200, &h, "")), None);
    let mut m = HeaderMap::new();
    m.insert("cf-mitigated", HeaderValue::from_bytes(b"\xff").unwrap());
    assert_eq!(detect_challenge(&input(200, &m, "")), Some(ChallengeKind::Cloudflare));
}

#[test]
fn x_cdn_is_read_only_without_x_iinfo() {
    let mut h = HeaderMap::new();
    h.insert("x-cdn", HeaderValue::from_static("incapsula"));
    assert_eq!(detect_challenge(&input(200, &h, "")), Some(ChallengeKind::Imperva));
    h.insert("x-iinfo", HeaderValue::from_static("other"));
    assert_eq!(detect_challenge(&input(200, &h, "")), None);
    h.insert("x-iinfo", HeaderValue::from_static("1-incap-2"));
    assert_eq!(detect_challenge(&input(200, &h, "")), Some(ChallengeKind::Imperva));
}

#[test]
fn body_signs_of_each_kind() {
    let h = HeaderMap::new();
    let cases = [
        ("x__cf_chl_y", ChallengeKind::Cloudflare),
        ("/cdn-cgi/challenge-platform/h", ChallengeKind::Cloudflare),
        ("window.cf_chl_opt", ChallengeKind::Cloudflare),
        ("geo.captcha-delivery.com", ChallengeKind::DataDome),
        ("PerimeterX", ChallengeKind::PerimeterX),
        ("/_px/", ChallengeKind::PerimeterX),
        ("ak_bmsc", ChallengeKind::Akamai),
        ("akamaihd.net/sensor", ChallengeKind::Akamai),
        ("_Incapsula_Resource", ChallengeKind::Imperva),
        ("challenges.cloudflare.com/turnstile/v0", ChallengeKind::Turnstile),
        ("www.google.com/recaptcha/", ChallengeKind::Recaptcha),
        ("g-recaptcha", ChallengeKind::Recaptcha),
        ("recaptcha/api.js", ChallengeKind::Recaptcha),
    ];
    for (body, kind) in cases {
        assert_eq!(detect_challenge(&input(200, &h, body)), Some(kind), "{}", body);
    }
}

#[test]
fn fingerprints_list_every_sign_in_order() {
    let h = HeaderMap::new();
    let body = "g-recaptcha Just a moment dd_cookie_test";
    assert_eq!(
        fingerprint(&input(200, &h, body)),
        vec![ChallengeKind::Cloudflare, ChallengeKind::DataDome, ChallengeKind::Recaptcha]
    );
    assert_eq!(fingerprint(&input(200, &h, "hello")), vec![]);
}

#[test]
fn detection_on_plain_values() {
    let mut seen = no_headers();
    seen.set_cookie = vec![None, Some("ak_bmsc=1".to_string())];
    let r = Response { status: 200, seen, body: "cf-turnstile" };
    assert_eq!(detect_in(&r), Some(ChallengeKind::Akamai));
    assert_eq!(fingerprint_in(&r), vec![ChallengeKind::Akamai, ChallengeKind::Turnstile]);
    let clean = Response { status: 403, seen: no_headers(), body: "" };
    assert_eq!(detect_in(&clean), None);
}

#[test]
fn kinds_have_names() {
    assert_eq!(ChallengeKind::Cloudflare.name(), "cloudflare");
    assert_eq!(ChallengeKind::Recaptcha.name(), "recaptcha");
}
