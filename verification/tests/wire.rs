//! Requests and their wire form.

use antibot_rs::wire::{encode_post_body, percent_encode, url_encode_form, WireRequest};
use antibot_rs::{
    BrowserFingerprint, Cookie, FieldMap, PostBody, ProxyConfig, SolveMethod, SolveRequest,
    Viewport,
};

fn value(text: &str) -> serde_json::Value {
    serde_json::from_str(text).unwrap()
}

#[test]
fn percent_encoding_of_reserved_and_wide_characters() {
    assert_eq!(percent_encode("AZaz09-_.~"), "AZaz09-_.~");
    assert_eq!(percent_encode("a b&c=d+e%"), "a%20b%26c%3Dd%2Be%25");
    assert_eq!(percent_encode("é€"), "%C3%A9%E2%82%AC");
    assert_eq!(percent_encode("/\u{7f}\n"), "%2F%7F%0A");
    assert_eq!(percent_encode(""), "");
}

#[test]
fn forms_are_encoded_in_order_of_their_names() {
    let form = FieldMap::from_fields(&[("user", "alice"), ("pass", "a&b"), ("user", "bob")]);
    assert_eq!(form.len(), 2);
    assert_eq!(url_encode_form(&form), "pass=a%26b&user=bob");
    assert_eq!(url_encode_form(&FieldMap::new()), "");
    let blank = FieldMap::from_fields(&[("", "")]);
    assert_eq!(url_encode_form(&blank), "=");
}

#[test]
fn bodies_of_each_kind() {
    assert_eq!(
        encode_post_body(&PostBody::Json(value("{\"b\" : [1, null], \"a\" : \"x\"}"))),
        "{\"a\":\"x\",\"b\":[1,null]}"
    );
    assert_eq!(
        encode_post_body(&PostBody::Raw {
            content_type: "text/plain".to_string(),
            body: "as it is".to_string()
        }),
        "as it is"
    );
    assert_eq!(encode_post_body(&PostBody::Form(FieldMap::from_fields(&[("k", "v")]))), "k=v");
}

#[test]
fn a_plain_get_on_the_wire() {
    let w = WireRequest::from_solve(&SolveRequest::get("https://x.com"), 60_000);
    assert_eq!(w.cmd, "request.get");
    assert_eq!(w.url.as_deref(), Some("https://x.com"));
    assert_eq!(w.max_timeout, 60_000);
    assert_eq!(w.max_timeout_secs, 60);
    assert!(w.session.is_none());
    assert!(w.post_data.is_none());
    assert!(w.cookies.is_none());
    assert!(w.headers.is_none());
    assert!(w.proxy.is_none());
    assert!(w.user_agent.is_none());
    assert!(!w.return_only_cookies);
}

#[test]
fn a_full_request_on_the_wire() {
    let request = SolveRequest::post("https://x.com")
        .form(&[("k", "1")])
        .with_header("content", "x")
        .with_cookies(vec![Cookie::new("a", "b")])
        .with_cookie(Cookie::new("c", "d"))
        .with_timeout_ms(1)
        .with_session("s")
        .with_proxy(ProxyConfig::http("p").with_auth("u", "w"))
        .with_fingerprint(
            BrowserFingerprint::default()
                .user_agent("UA")
                .locale("en")
                .viewport(10, 20)
                .timezone("UTC")
                .platform("Win32"),
        )
        .return_only_cookies();
    let w = WireRequest::from_solve(&request.clone(), 60_000);
    assert_eq!(w.cmd, "request.post");
    assert_eq!(w.post_data.as_deref(), Some("k=1"));
    assert_eq!(w.max_timeout, 1);
    assert_eq!(w.max_timeout_secs, 1);
    assert_eq!(w.session.as_deref(), Some("s"));
    let cookies = w.cookies.unwrap();
    assert_eq!(cookies.len(), 2);
    assert_eq!(cookies[1].name, "c");
    let headers = w.headers.unwrap();
    assert_eq!(headers.len(), 2);
    assert_eq!(headers.get("Content-Type"), Some("application/x-www-form-urlencoded"));
    assert_eq!(headers.entry(1), ("content", "x"));
    assert_eq!(w.proxy.unwrap().password.as_deref(), Some("w"));
    assert_eq!(w.user_agent.as_deref(), Some("UA"));
    assert_eq!(w.locale.as_deref(), Some("en"));
    assert_eq!(w.viewport, Some(Viewport { width: 10, height: 20 }));
    assert_eq!(w.timezone.as_deref(), Some("UTC"));
    assert_eq!(w.platform.as_deref(), Some("Win32"));
    assert!(w.return_only_cookies);
}

#[test]
fn content_types_go_with_bodies_unless_named() {
    let content_type = |r: SolveRequest| {
        let w = WireRequest::from_solve(&r, 1);
        w.headers.unwrap().get("Content-Type").unwrap().to_string()
    };
    assert_eq!(content_type(SolveRequest::post("u").json(value("{}"))), "application/json");
    assert_eq!(content_type(SolveRequest::post("u").raw_body("a/b", "x")), "a/b");
    assert_eq!(content_type(SolveRequest::post("u")), "application/x-www-form-urlencoded");
    let own = SolveRequest::post("u").json(value("{}")).with_header("Content-Type", "mine");
    assert_eq!(content_type(own), "mine");
}

#[test]
fn session_commands_on_the_wire() {
    let c = WireRequest::sessions_create(Some("id".to_string()), None);
    assert_eq!(c.cmd, "sessions.create");
    assert_eq!(c.session.as_deref(), Some("id"));
    assert!(c.url.is_none());
    assert_eq!(c.max_timeout, 60_000);
    let d = WireRequest::sessions_destroy("id".to_string());
    assert_eq!(d.cmd, "sessions.destroy");
    assert_eq!(d.session.as_deref(), Some("id"));
    assert!(d.proxy.is_none());
}

#[test]
fn later_headers_and_bodies_replace_earlier_ones() {
    let r = SolveRequest::get("u")
        .with_headers(FieldMap::from_fields(&[("a", "1")]))
        .with_header("a", "2")
        .with_header("b", "3");
    let h = r.headers.as_ref().unwrap();
    assert_eq!(h.get("a"), Some("2"));
    assert_eq!(h.get("b"), Some("3"));
    assert_eq!(h.get("c"), None);
    let copy = SolveRequest::post("u").json(value("[1]")).clone();
    match copy.method {
        SolveMethod::Post { body: PostBody::Json(v) } => assert_eq!(v, value("[1]")),
        _ => panic!("expected a JSON body"),
    }
    assert!(SolveRequest::get("u").bypass_cache().bypass_cache);
    let mut m = FieldMap::from_fields(&[("x", "1")]);
    m.insert_if_absent("x", "2");
    m.insert_if_absent("y", "3");
    assert_eq!(m.get("x"), Some("1"));
    assert_eq!(m.clone().get("y"), Some("3"));
}

#[test]
fn fingerprints_know_when_they_are_empty() {
    assert!(BrowserFingerprint::default().is_empty());
    assert!(!BrowserFingerprint::default().viewport(1, 1).is_empty());
    assert!(!BrowserFingerprint::default().platform("x").is_empty());
}
