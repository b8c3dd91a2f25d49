//! Requests to solve a challenge.

use crate::cookie;
use crate::cookie::{Cookie, CookieView};
use crate::fields;
use crate::fields::FieldMap;
use crate::fingerprint;
use crate::fingerprint::{BrowserFingerprint, FingerprintView};
use crate::proxy;
use crate::proxy::{ProxyConfig, ProxyView};
use crate::text;
use vstd::prelude::*;

verus! {

/// A JSON document.
#[verifier::external_type_specification]
#[verifier::external_body]
pub struct ExJsonValue(serde_json::Value);

/// `serde_json::Value::clone`, derived by that crate over plain data: the copy is the same document.
pub assume_specification[ <serde_json::Value as Clone>::clone ](
    value: &serde_json::Value,
) -> (copy: serde_json::Value)
    ensures
        copy == *value,
;

/// A request to solve a challenge.
///
/// Use [`SolveRequest::get`] / [`SolveRequest::post`] to construct, then chain
/// `with_*` methods to attach headers, cookies, a session, or a proxy.
#[derive(Debug)]
pub struct SolveRequest {
    pub url: String,
    pub method: SolveMethod,
    pub headers: Option<FieldMap>,
    pub cookies: Option<Vec<Cookie>>,
    pub max_timeout_ms: Option<u64>,
    pub session_id: Option<String>,
    pub proxy: Option<ProxyConfig>,
    /// If true, bypass the session cache for this request only.
    pub bypass_cache: bool,
    /// Optional browser fingerprint hints (only honored by Byparr-class providers).
    pub fingerprint: Option<BrowserFingerprint>,
    /// If true, ask for the cookies alone, without the rendered page.
    pub return_only_cookies: bool,
}

#[derive(Debug)]
pub enum SolveMethod {
    Get,
    Post { body: PostBody },
}

#[derive(Debug)]
pub enum PostBody {
    /// `application/x-www-form-urlencoded` body.
    Form(FieldMap),
    /// JSON body sent as `application/json`.
    Json(serde_json::Value),
    /// Raw body with caller-specified content type.
    Raw { content_type: String, body: String },
}

/// What a [`PostBody`] says.
pub enum BodyView {
    Form(Map<Seq<char>, Seq<char>>),
    Json(serde_json::Value),
    Raw { content_type: Seq<char>, body: Seq<char> },
}

impl View for PostBody {
    type V = BodyView;

    open spec fn view(&self) -> BodyView {
        match self {
            PostBody::Form(map) => BodyView::Form(map@),
            PostBody::Json(value) => BodyView::Json(*value),
            PostBody::Raw { content_type, body } => BodyView::Raw {
                content_type: content_type@,
                body: body@,
            },
        }
    }
}

/// What a [`SolveMethod`] says.
pub enum MethodView {
    Get,
    Post { body: BodyView },
}

impl View for SolveMethod {
    type V = MethodView;

    open spec fn view(&self) -> MethodView {
        match self {
            SolveMethod::Get => MethodView::Get,
            SolveMethod::Post { body } => MethodView::Post { body: body@ },
        }
    }
}

/// What a [`SolveRequest`] says.
pub struct RequestView {
    pub url: Seq<char>,
    pub method: MethodView,
    pub headers: Option<Map<Seq<char>, Seq<char>>>,
    pub cookies: Option<Seq<CookieView>>,
    pub max_timeout_ms: Option<u64>,
    pub session_id: Option<Seq<char>>,
    pub proxy: Option<ProxyView>,
    pub bypass_cache: bool,
    pub fingerprint: Option<FingerprintView>,
    pub return_only_cookies: bool,
}

impl View for SolveRequest {
    type V = RequestView;

    open spec fn view(&self) -> RequestView {
        RequestView {
            url: self.url@,
            method: self.method@,
            headers: fields::opt_fields(self.headers),
            cookies: cookie::opt_views(self.cookies),
            max_timeout_ms: self.max_timeout_ms,
            session_id: text::opt_text(self.session_id),
            proxy: proxy::opt_proxy(self.proxy),
            bypass_cache: self.bypass_cache,
            fingerprint: fingerprint::opt_fingerprint(self.fingerprint),
            return_only_cookies: self.return_only_cookies,
        }
    }
}

impl Clone for PostBody {
    fn clone(&self) -> (r: Self)
        ensures
            r@ == self@,
    {
        match self {
            PostBody::Form(map) => PostBody::Form(map.clone()),
            PostBody::Json(value) => PostBody::Json(value.clone()),
            PostBody::Raw { content_type, body } => PostBody::Raw {
                content_type: content_type.clone(),
                body: body.clone(),
            },
        }
    }
}

impl Clone for SolveMethod {
    fn clone(&self) -> (r: Self)
        ensures
            r@ == self@,
    {
        match self {
            SolveMethod::Get => SolveMethod::Get,
            SolveMethod::Post { body } => SolveMethod::Post { body: body.clone() },
        }
    }
}

impl Clone for SolveRequest {
    fn clone(&self) -> (r: Self)
        ensures
            r@ == self@,
    {
        SolveRequest {
            url: self.url.clone(),
            method: self.method.clone(),
            headers: match &self.headers {
                Some(h) => Some(h.clone()),
                None => None,
            },
            cookies: match &self.cookies {
                Some(c) => Some(cookie::clone_all(c)),
                None => None,
            },
            max_timeout_ms: self.max_timeout_ms,
            session_id: self.session_id.clone(),
            proxy: match &self.proxy {
                Some(p) => Some(p.clone()),
                None => None,
            },
            bypass_cache: self.bypass_cache,
            fingerprint: match &self.fingerprint {
                Some(f) => Some(f.clone()),
                None => None,
            },
            return_only_cookies: self.return_only_cookies,
        }
    }
}

/// A request for `url` that asks for nothing beyond its method.
pub open spec fn plain_request(url: Seq<char>, method: MethodView) -> RequestView {
    RequestView {
        url,
        method,
        headers: None,
        cookies: None,
        max_timeout_ms: None,
        session_id: None,
        proxy: None,
        bypass_cache: false,
        fingerprint: None,
        return_only_cookies: false,
    }
}

/// A POST of the form that holds `fields`.
pub open spec fn form_post(fields: Map<Seq<char>, Seq<char>>) -> MethodView {
    MethodView::Post { body: BodyView::Form(fields) }
}

impl SolveRequest {
    fn plain(url: &str, method: SolveMethod) -> (r: Self)
        ensures
            r@ == plain_request(url@, method@),
    {
        SolveRequest {
            url: url.to_string(),
            method,
            headers: None,
            cookies: None,
            max_timeout_ms: None,
            session_id: None,
            proxy: None,
            bypass_cache: false,
            fingerprint: None,
            return_only_cookies: false,
        }
    }

    pub fn get(url: &str) -> (r: Self)
        ensures
            r@ == plain_request(url@, MethodView::Get),
    {
        Self::plain(url, SolveMethod::Get)
    }

    pub fn post(url: &str) -> (r: Self)
        ensures
            r@ == plain_request(url@, form_post(Map::empty())),
    {
        Self::plain(url, SolveMethod::Post { body: PostBody::Form(FieldMap::new()) })
    }

    /// Set a form body. Replaces any existing body.
    pub fn form(self, fields: &[(&str, &str)]) -> (r: Self)
        ensures
            r@ == (RequestView {
                method: form_post(fields::pairs_map(fields::field_texts(fields@))),
                ..self@
            }),
    {
        let mut r = self;
        r.method = SolveMethod::Post { body: PostBody::Form(FieldMap::from_fields(fields)) };
        r
    }

    /// Set a JSON body. Replaces any existing body.
    pub fn json(self, value: serde_json::Value) -> (r: Self)
        ensures
            r@ == (RequestView {
                method: MethodView::Post { body: BodyView::Json(value) },
                ..self@
            }),
    {
        let mut r = self;
        r.method = SolveMethod::Post { body: PostBody::Json(value) };
        r
    }

    /// Set a raw body. Replaces any existing body.
    pub fn raw_body(self, content_type: &str, body: &str) -> (r: Self)
        ensures
            r@ == (RequestView {
                method: MethodView::Post {
                    body: BodyView::Raw { content_type: content_type@, body: body@ },
                },
                ..self@
            }),
    {
        let mut r = self;
        r.method = SolveMethod::Post {
            body: PostBody::Raw { content_type: content_type.to_string(), body: body.to_string() },
        };
        r
    }

    pub fn with_headers(self, headers: FieldMap) -> (r: Self)
        ensures
            r@ == (RequestView { headers: Some(headers@), ..self@ }),
    {
        let mut r = self;
        r.headers = Some(headers);
        r
    }

    pub fn with_header(self, name: &str, value: &str) -> (r: Self)
        ensures
            r@ == (RequestView {
                headers: Some(
                    match self@.headers {
                        Some(h) => h,
                        None => Map::empty(),
                    }.insert(name@, value@),
                ),
                ..self@
            }),
    {
        let mut r = self;
        let mut headers = match r.headers {
            Some(h) => h,
            None => FieldMap::new(),
        };
        headers.insert(name.to_string(), value.to_string());
        r.headers = Some(headers);
        r
    }

    pub fn with_cookies(self, cookies: Vec<Cookie>) -> (r: Self)
        ensures
            r@ == (RequestView { cookies: Some(cookie::views(cookies@)), ..self@ }),
    {
        let mut r = self;
        r.cookies = Some(cookies);
        r
    }

    pub fn with_cookie(self, cookie: Cookie) -> (r: Self)
        ensures
            r@ == (RequestView {
                cookies: Some(
                    match self@.cookies {
                        Some(c) => c,
                        None => Seq::empty(),
                    }.push(cookie@),
                ),
                ..self@
            }),
    {
        let mut r = self;
        let mut cookies = match r.cookies {
            Some(c) => c,
            None => Vec::new(),
        };
        let ghost before = cookies@;
        let ghost view = cookie@;
        cookies.push(cookie);
        assert(cookie::views(cookies@) =~= cookie::views(before).push(view));
        assert(self.cookies is None ==> cookie::views(before) =~= Seq::empty());
        r.cookies = Some(cookies);
        r
    }

    pub fn with_timeout_ms(self, ms: u64) -> (r: Self)
        ensures
            r@ == (RequestView { max_timeout_ms: Some(ms), ..self@ }),
    {
        let mut r = self;
        r.max_timeout_ms = Some(ms);
        r
    }

    pub fn with_session(self, session_id: &str) -> (r: Self)
        ensures
            r@ == (RequestView { session_id: Some(session_id@), ..self@ }),
    {
        let mut r = self;
        r.session_id = Some(session_id.to_string());
        r
    }

    pub fn with_proxy(self, proxy: ProxyConfig) -> (r: Self)
        ensures
            r@ == (RequestView { proxy: Some(proxy@), ..self@ }),
    {
        let mut r = self;
        r.proxy = Some(proxy);
        r
    }

    pub fn bypass_cache(self) -> (r: Self)
        ensures
            r@ == (RequestView { bypass_cache: true, ..self@ }),
    {
        let mut r = self;
        r.bypass_cache = true;
        r
    }

    pub fn with_fingerprint(self, fingerprint: BrowserFingerprint) -> (r: Self)
        ensures
            r@ == (RequestView { fingerprint: Some(fingerprint@), ..self@ }),
    {
        let mut r = self;
        r.fingerprint = Some(fingerprint);
        r
    }

    /// Skip the rendered HTML, when only the cookies are of interest.
    pub fn return_only_cookies(self) -> (r: Self)
        ensures
            r@ == (RequestView { return_only_cookies: true, ..self@ }),
    {
        let mut r = self;
        r.return_only_cookies = true;
        r
    }
}

/// A request asks for its URL and method, and for nothing else until it is told to.
pub proof fn requests_start_out_plain(
    url: Seq<char>,
    method: MethodView,
    fields: Map<Seq<char>, Seq<char>>,
)
    ensures
        plain_request(url, method).url == url,
        plain_request(url, method).method == method,
        plain_request(url, method).headers is None,
        plain_request(url, method).cookies is None,
        plain_request(url, method).max_timeout_ms is None,
        plain_request(url, method).session_id is None,
        plain_request(url, method).proxy is None,
        !plain_request(url, method).bypass_cache,
        plain_request(url, method).fingerprint is None,
        !plain_request(url, method).return_only_cookies,
        form_post(fields) == (MethodView::Post { body: BodyView::Form(fields) }),
{
}

/// What a request says is what its fields hold.
pub proof fn requests_say_what_they_hold(r: SolveRequest, i: int)
    ensures
        r@.url == r.url@,
        r@.method is Get <==> r.method is Get,
        r.method is Post && r.method->body is Form ==> r@.method is Post && r@.method->body
            == BodyView::Form(r.method->body->Form_0@),
        r.method is Post && r.method->body is Json ==> r@.method is Post && r@.method->body
            == BodyView::Json(r.method->body->Json_0),
        r.method is Post && r.method->body is Raw ==> r@.method is Post && r@.method->body
            == (BodyView::Raw {
            content_type: r.method->body->content_type@,
            body: r.method->body->body@,
        }),
        r@.headers is Some <==> r.headers is Some,
        r.headers is Some ==> r@.headers->0 == r.headers->0@,
        r@.cookies is Some <==> r.cookies is Some,
        r.cookies is Some ==> r@.cookies->0.len() == r.cookies->0@.len(),
        r.cookies is Some && 0 <= i < r.cookies->0@.len() ==> r@.cookies->0[i]
            == r.cookies->0@[i]@,
        r@.max_timeout_ms == r.max_timeout_ms,
        r@.session_id is Some <==> r.session_id is Some,
        r.session_id is Some ==> r@.session_id->0 == r.session_id->0@,
        r@.proxy is Some <==> r.proxy is Some,
        r.proxy is Some ==> r@.proxy->0 == r.proxy->0@,
        r@.bypass_cache == r.bypass_cache,
        r@.fingerprint is Some <==> r.fingerprint is Some,
        r.fingerprint is Some ==> r@.fingerprint->0 == r.fingerprint->0@,
        r@.return_only_cookies == r.return_only_cookies,
{
}

} // verus!
