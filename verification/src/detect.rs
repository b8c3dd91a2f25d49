//! Cheap challenge detection — decide whether to invoke the (expensive) solver.
//!
//! The detection helpers stand on their own: construct a [`DetectionInput`] from
//! whatever response type you have and call [`detect_challenge`].

use crate::text;
use http::{HeaderMap, HeaderValue};
use vstd::prelude::*;

verus! {

#[derive(Debug, Clone, Copy, PartialEq, Eq, Hash, Structural)]
#[non_exhaustive]
pub enum ChallengeKind {
    Cloudflare,
    DataDome,
    PerimeterX,
    Akamai,
    Imperva,
    Turnstile,
    Recaptcha,
    Unknown,
}

pub open spec fn kind_name(k: ChallengeKind) -> Seq<char> {
    match k {
        ChallengeKind::Cloudflare => "cloudflare"@,
        ChallengeKind::DataDome => "datadome"@,
        ChallengeKind::PerimeterX => "perimeterx"@,
        ChallengeKind::Akamai => "akamai"@,
        ChallengeKind::Imperva => "imperva"@,
        ChallengeKind::Turnstile => "turnstile"@,
        ChallengeKind::Recaptcha => "recaptcha"@,
        ChallengeKind::Unknown => "unknown"@,
    }
}

impl ChallengeKind {
    pub fn name(&self) -> (s: &'static str)
        ensures
            s@ == kind_name(*self),
    {
        match self {
            ChallengeKind::Cloudflare => "cloudflare",
            ChallengeKind::DataDome => "datadome",
            ChallengeKind::PerimeterX => "perimeterx",
            ChallengeKind::Akamai => "akamai",
            ChallengeKind::Imperva => "imperva",
            ChallengeKind::Turnstile => "turnstile",
            ChallengeKind::Recaptcha => "recaptcha",
            ChallengeKind::Unknown => "unknown",
        }
    }
}

/// The headers of an HTTP message.
#[verifier::external_type_specification]
#[verifier::external_body]
#[verifier::reject_recursive_types(T)]
pub struct ExHeaderMap<T>(HeaderMap<T>);

/// One header value.
#[verifier::external_type_specification]
#[verifier::external_body]
pub struct ExHeaderValue(HeaderValue);

/// What a header map holds: for each header name in it, in lower case, the values in order. A value
/// is its text, or `None` where it is not all visible ASCII (spaces and tabs count as visible).
pub uninterp spec fn header_texts(
    headers: HeaderMap<HeaderValue>,
) -> Map<Seq<char>, Seq<Option<Seq<char>>>>;

/// The values of the header `name`, letters taken without regard to case.
pub open spec fn values_of(
    headers: Map<Seq<char>, Seq<Option<Seq<char>>>>,
    name: Seq<char>,
) -> Seq<Option<Seq<char>>> {
    if headers.contains_key(text::ascii_lower(name)) {
        headers[text::ascii_lower(name)]
    } else {
        seq![]
    }
}

/// The texts of a list of values.
pub open spec fn value_texts(values: Seq<Option<String>>) -> Seq<Option<Seq<char>>> {
    values.map_values(|v: Option<String>| text::opt_text(v))
}

/// `HeaderMap::contains_key`: whether the map has at least one value under the name.
#[verifier::external_body]
fn has_header(headers: &HeaderMap<HeaderValue>, name: &str) -> (b: bool)
    ensures
        b == (values_of(header_texts(*headers), name@).len() > 0),
{
    headers.contains_key(name)
}

/// `HeaderMap::get`: the first value under the name, taken as text by `HeaderValue::to_str`.
#[verifier::external_body]
fn first_value(headers: &HeaderMap<HeaderValue>, name: &str) -> (v: Option<Option<String>>)
    ensures
        v is Some <==> values_of(header_texts(*headers), name@).len() > 0,
        v is Some ==> text::opt_text(v->0) == values_of(header_texts(*headers), name@)[0],
{
    headers.get(name).map(|v| v.to_str().ok().map(|s| s.to_string()))
}

/// `HeaderMap::get_all`: every value under the name in the order they were added, each taken as
/// text by `HeaderValue::to_str`.
#[verifier::external_body]
fn all_values(headers: &HeaderMap<HeaderValue>, name: &str) -> (vs: Vec<Option<String>>)
    ensures
        value_texts(vs@) == values_of(header_texts(*headers), name@),
{
    headers.get_all(name).iter().map(|v| v.to_str().ok().map(|s| s.to_string())).collect()
}

/// Slim view over an HTTP response, suitable for detection without owning it.
#[derive(Debug, Clone, Copy)]
pub struct DetectionInput<'a> {
    pub status: u16,
    pub headers: &'a HeaderMap<HeaderValue>,
    pub body: &'a str,
    pub url: &'a str,
}

/// What a [`DetectionInput`] says.
pub struct InputView {
    pub status: u16,
    pub headers: Map<Seq<char>, Seq<Option<Seq<char>>>>,
    pub body: Seq<char>,
    pub url: Seq<char>,
}

impl<'a> View for DetectionInput<'a> {
    type V = InputView;

    open spec fn view(&self) -> InputView {
        InputView {
            status: self.status,
            headers: header_texts(*self.headers),
            body: self.body@,
            url: self.url@,
        }
    }
}

impl<'a> DetectionInput<'a> {
    pub fn new(
        status: u16,
        headers: &'a HeaderMap<HeaderValue>,
        body: &'a str,
        url: &'a str,
    ) -> (i: Self)
        ensures
            i@ == (InputView { status, headers: header_texts(*headers), body: body@, url: url@ }),
    {
        DetectionInput { status, headers, body, url }
    }
}

/// The headers that tell challenges apart. A value that is not text is `None`.
#[derive(Debug)]
pub struct SeenHeaders {
    /// Whether there is a `cf-mitigated`.
    pub cf_mitigated: bool,
    /// Whether there is a `cf-chl-bypass`.
    pub cf_chl_bypass: bool,
    /// First value of `server`.
    pub server: Option<Option<String>>,
    /// First value of `x-iinfo`.
    pub x_iinfo: Option<Option<String>>,
    /// First value of `x-cdn`.
    pub x_cdn: Option<Option<String>>,
    /// Every value of `set-cookie`.
    pub set_cookie: Vec<Option<String>>,
}

/// What [`SeenHeaders`] say.
pub struct SeenView {
    pub cf_mitigated: bool,
    pub cf_chl_bypass: bool,
    pub server: Option<Option<Seq<char>>>,
    pub x_iinfo: Option<Option<Seq<char>>>,
    pub x_cdn: Option<Option<Seq<char>>>,
    pub set_cookie: Seq<Option<Seq<char>>>,
}

pub open spec fn opt_value(v: Option<Option<String>>) -> Option<Option<Seq<char>>> {
    match v {
        Some(v) => Some(text::opt_text(v)),
        None => None,
    }
}

impl View for SeenHeaders {
    type V = SeenView;

    open spec fn view(&self) -> SeenView {
        SeenView {
            cf_mitigated: self.cf_mitigated,
            cf_chl_bypass: self.cf_chl_bypass,
            server: opt_value(self.server),
            x_iinfo: opt_value(self.x_iinfo),
            x_cdn: opt_value(self.x_cdn),
            set_cookie: value_texts(self.set_cookie@),
        }
    }
}

/// The first of `values`, if any.
pub open spec fn first_of(values: Seq<Option<Seq<char>>>) -> Option<Option<Seq<char>>> {
    if values.len() > 0 {
        Some(values[0])
    } else {
        None
    }
}

/// The headers that tell challenges apart, out of all the headers of a response.
pub open spec fn seen_in(headers: Map<Seq<char>, Seq<Option<Seq<char>>>>) -> SeenView {
    SeenView {
        cf_mitigated: values_of(headers, "cf-mitigated"@).len() > 0,
        cf_chl_bypass: values_of(headers, "cf-chl-bypass"@).len() > 0,
        server: first_of(values_of(headers, "server"@)),
        x_iinfo: first_of(values_of(headers, "x-iinfo"@)),
        x_cdn: first_of(values_of(headers, "x-cdn"@)),
        set_cookie: values_of(headers, "set-cookie"@),
    }
}

fn see_headers(headers: &HeaderMap<HeaderValue>) -> (seen: SeenHeaders)
    ensures
        seen@ == seen_in(header_texts(*headers)),
{
    SeenHeaders {
        cf_mitigated: has_header(headers, "cf-mitigated"),
        cf_chl_bypass: has_header(headers, "cf-chl-bypass"),
        server: first_value(headers, "server"),
        x_iinfo: first_value(headers, "x-iinfo"),
        x_cdn: first_value(headers, "x-cdn"),
        set_cookie: all_values(headers, "set-cookie"),
    }
}

/// What a response shows.
pub struct ResponseView {
    pub status: u16,
    pub seen: SeenView,
    pub body: Seq<char>,
}

/// What the response behind a [`DetectionInput`] shows.
pub open spec fn response_of(input: InputView) -> ResponseView {
    ResponseView { status: input.status, seen: seen_in(input.headers), body: input.body }
}

/// Whether some value of `set-cookie` holds `needle`.
pub open spec fn sets_cookie(r: ResponseView, needle: Seq<char>) -> bool {
    exists|i: int|
        0 <= i < r.seen.set_cookie.len() && text_occurs(#[trigger] r.seen.set_cookie[i], needle)
}

/// Whether a header value is text that holds `needle`.
pub open spec fn text_occurs(value: Option<Seq<char>>, needle: Seq<char>) -> bool {
    match value {
        Some(t) => text::occurs(t, needle),
        None => false,
    }
}

/// Whether the server names itself `cloudflare`, letters taken without regard to case.
pub open spec fn server_is_cloudflare(r: ResponseView) -> bool {
    match r.seen.server {
        Some(Some(t)) => text::ascii_lower(t) == text::ascii_lower("cloudflare"@),
        _ => false,
    }
}

pub open spec fn cloudflare_signs(r: ResponseView) -> bool {
    ||| r.seen.cf_mitigated
    ||| r.seen.cf_chl_bypass
    ||| text::occurs(r.body, "Just a moment"@)
    ||| text::occurs(r.body, "__cf_chl_"@)
    ||| text::occurs(r.body, "/cdn-cgi/challenge-platform/"@)
    ||| text::occurs(r.body, "cf_chl_opt"@)
    ||| server_is_cloudflare(r) && (r.status == 403 || r.status == 503)
}

pub open spec fn datadome_signs(r: ResponseView) -> bool {
    ||| text::occurs(r.body, "dd_cookie_test"@)
    ||| text::occurs(r.body, "geo.captcha-delivery.com"@)
    ||| sets_cookie(r, "datadome="@)
}

pub open spec fn perimeterx_signs(r: ResponseView) -> bool {
    ||| text::occurs(r.body, "_pxhd"@)
    ||| text::occurs(r.body, "PerimeterX"@)
    ||| text::occurs(r.body, "/_px/"@)
    ||| sets_cookie(r, "_px"@)
    ||| sets_cookie(r, "_pxhd"@)
}

pub open spec fn akamai_signs(r: ResponseView) -> bool {
    ||| text::occurs(r.body, "ak_bmsc"@)
    ||| text::occurs(r.body, "akamaihd.net/sensor"@)
    ||| sets_cookie(r, "ak_bmsc="@)
    ||| sets_cookie(r, "bm_sv="@)
}

pub open spec fn imperva_signs(r: ResponseView) -> bool {
    ||| text::occurs(r.body, "Incapsula"@)
    ||| text::occurs(r.body, "_Incapsula_Resource"@)
    ||| match (r.seen.x_iinfo, r.seen.x_cdn) {
        // `x-cdn` counts only where there is no `x-iinfo`.
        (Some(info), _) => text_occurs(info, "incap"@),
        (None, Some(cdn)) => text_occurs(cdn, "incap"@),
        (None, None) => false,
    }
}

pub open spec fn turnstile_signs(r: ResponseView) -> bool {
    ||| text::occurs(r.body, "cf-turnstile"@)
    ||| text::occurs(r.body, "challenges.cloudflare.com/turnstile/"@)
}

pub open spec fn recaptcha_signs(r: ResponseView) -> bool {
    ||| text::occurs(r.body, "www.google.com/recaptcha/"@)
    ||| text::occurs(r.body, "g-recaptcha"@)
    ||| text::occurs(r.body, "recaptcha/api.js"@)
}

/// Whether the response shows signs of `kind`.
pub open spec fn shows(r: ResponseView, kind: ChallengeKind) -> bool {
    match kind {
        ChallengeKind::Cloudflare => cloudflare_signs(r),
        ChallengeKind::DataDome => datadome_signs(r),
        ChallengeKind::PerimeterX => perimeterx_signs(r),
        ChallengeKind::Akamai => akamai_signs(r),
        ChallengeKind::Imperva => imperva_signs(r),
        ChallengeKind::Turnstile => turnstile_signs(r),
        ChallengeKind::Recaptcha => recaptcha_signs(r),
        ChallengeKind::Unknown => false,
    }
}

/// The kinds that can be detected, those checked first in front.
pub open spec fn kinds_in_order() -> Seq<ChallengeKind> {
    seq![
        ChallengeKind::Cloudflare,
        ChallengeKind::DataDome,
        ChallengeKind::PerimeterX,
        ChallengeKind::Akamai,
        ChallengeKind::Imperva,
        ChallengeKind::Turnstile,
        ChallengeKind::Recaptcha,
    ]
}

/// Those of `kinds` of which the response shows signs, in order.
pub open spec fn shown(r: ResponseView, kinds: Seq<ChallengeKind>) -> Seq<ChallengeKind>
    decreases kinds.len(),
{
    if kinds.len() == 0 {
        seq![]
    } else if shows(r, kinds[0]) {
        seq![kinds[0]] + shown(r, kinds.drop_first())
    } else {
        shown(r, kinds.drop_first())
    }
}

/// Every kind of challenge that the response shows signs of.
pub open spec fn fingerprints(r: ResponseView) -> Seq<ChallengeKind> {
    shown(r, kinds_in_order())
}

/// The kind of challenge that the response is taken for.
pub open spec fn detected(r: ResponseView) -> Option<ChallengeKind> {
    if fingerprints(r).len() > 0 {
        Some(fingerprints(r)[0])
    } else {
        None
    }
}

proof fn lemma_shown_step(r: ResponseView, i: int)
    requires
        0 <= i < 7,
    ensures
        shown(r, kinds_in_order().skip(i)) == if shows(r, kinds_in_order()[i]) {
            seq![kinds_in_order()[i]] + shown(r, kinds_in_order().skip(i + 1))
        } else {
            shown(r, kinds_in_order().skip(i + 1))
        },
{
    assert(kinds_in_order().skip(i).drop_first() =~= kinds_in_order().skip(i + 1));
}

proof fn lemma_shown_all(r: ResponseView)
    ensures
        fingerprints(r) == shown(r, kinds_in_order().skip(0)),
        shown(r, kinds_in_order().skip(7)) == Seq::<ChallengeKind>::empty(),
        forall|i: int|
            0 <= i < 7 ==> #[trigger] shown(r, kinds_in_order().skip(i)) == if shows(
                r,
                kinds_in_order()[i],
            ) {
                seq![kinds_in_order()[i]] + shown(r, kinds_in_order().skip(i + 1))
            } else {
                shown(r, kinds_in_order().skip(i + 1))
            },
{
    assert(kinds_in_order().skip(0) =~= kinds_in_order());
    assert forall|i: int| 0 <= i < 7 implies #[trigger] shown(r, kinds_in_order().skip(i))
        == if shows(r, kinds_in_order()[i]) {
        seq![kinds_in_order()[i]] + shown(r, kinds_in_order().skip(i + 1))
    } else {
        shown(r, kinds_in_order().skip(i + 1))
    } by {
        lemma_shown_step(r, i);
    }
}

/// A kind is among the fingerprints exactly when it can be detected and the response shows signs
/// of it.
pub proof fn fingerprints_are_the_shown_kinds(r: ResponseView, kind: ChallengeKind)
    ensures
        fingerprints(r).contains(kind) <==> shows(r, kind),
{
    lemma_shown_contains(r, kinds_in_order(), kind);
    if shows(r, kind) {
        let k = kinds_in_order();
        assert(k[0] == kind || k[1] == kind || k[2] == kind || k[3] == kind || k[4] == kind || k[5]
            == kind || k[6] == kind);
        assert(k.contains(kind));
    }
}

proof fn lemma_shown_contains(r: ResponseView, kinds: Seq<ChallengeKind>, kind: ChallengeKind)
    ensures
        shown(r, kinds).contains(kind) <==> kinds.contains(kind) && shows(r, kind),
    decreases kinds.len(),
{
    if kinds.len() > 0 {
        let rest = kinds.drop_first();
        lemma_shown_contains(r, rest, kind);
        assert(kinds =~= seq![kinds[0]] + rest);
        let tail = shown(r, rest);
        if kinds.contains(kind) && kinds[0] != kind {
            let i = choose|i: int| 0 <= i < kinds.len() && kinds[i] == kind;
            assert(rest[i - 1] == kind);
        }
        if rest.contains(kind) {
            let i = choose|i: int| 0 <= i < rest.len() && rest[i] == kind;
            assert(kinds[i + 1] == kind);
        }
        if shows(r, kinds[0]) {
            let all = seq![kinds[0]] + tail;
            assert(all[0] == kinds[0]);
            if tail.contains(kind) {
                let i = choose|i: int| 0 <= i < tail.len() && tail[i] == kind;
                assert(all[i + 1] == kind);
            }
            if all.contains(kind) && kinds[0] != kind {
                let i = choose|i: int| 0 <= i < all.len() && all[i] == kind;
                assert(tail[i - 1] == kind);
            }
        }
    }
}

/// Identify the challenge type, if any. Returns `None` when the response looks
/// clean.
///
/// Uses cheap header + body substring checks. Order matters: Cloudflare is
/// checked first because it's the most common and produces the fewest false
/// positives.
pub fn detect_challenge(input: &DetectionInput) -> (kind: Option<ChallengeKind>)
    ensures
        kind == detected(response_of(input@)),
{
    detect_in(&Response { status: input.status, seen: see_headers(input.headers), body: input.body })
}

/// A response, reduced to what tells challenges apart.
#[derive(Debug)]
pub struct Response<'a> {
    pub status: u16,
    pub seen: SeenHeaders,
    pub body: &'a str,
}

impl<'a> View for Response<'a> {
    type V = ResponseView;

    open spec fn view(&self) -> ResponseView {
        ResponseView { status: self.status, seen: self.seen@, body: self.body@ }
    }
}

/// As [`detect_challenge`], on the headers that matter.
pub fn detect_in(input: &Response) -> (kind: Option<ChallengeKind>)
    ensures
        kind == detected(input@),
{
    proof {
        lemma_shown_all(input@);
    }
    if detect_cloudflare(input) {
        return Some(ChallengeKind::Cloudflare);
    }
    if detect_datadome(input) {
        return Some(ChallengeKind::DataDome);
    }
    if detect_perimeterx(input) {
        return Some(ChallengeKind::PerimeterX);
    }
    if detect_akamai(input) {
        return Some(ChallengeKind::Akamai);
    }
    if detect_imperva(input) {
        return Some(ChallengeKind::Imperva);
    }
    if detect_turnstile(input) {
        return Some(ChallengeKind::Turnstile);
    }
    if detect_recaptcha(input) {
        return Some(ChallengeKind::Recaptcha);
    }
    None
}

/// Whether `out` holds the shown ones of the first `n` kinds.
spec fn collected(r: ResponseView, out: Seq<ChallengeKind>, n: int) -> bool {
    fingerprints(r) == out + shown(r, kinds_in_order().skip(n))
}

proof fn lemma_collected_step(
    r: ResponseView,
    before: Seq<ChallengeKind>,
    after: Seq<ChallengeKind>,
    n: int,
)
    requires
        0 <= n < 7,
        collected(r, before, n),
        after == if shows(r, kinds_in_order()[n]) {
            before.push(kinds_in_order()[n])
        } else {
            before
        },
    ensures
        collected(r, after, n + 1),
{
    lemma_shown_step(r, n);
    assert(before.push(kinds_in_order()[n]) + shown(r, kinds_in_order().skip(n + 1)) =~= before + (
    seq![kinds_in_order()[n]] + shown(r, kinds_in_order().skip(n + 1))));
}

/// `out`, with `kind` at its end if `hit`.
fn push_if(out: Vec<ChallengeKind>, hit: bool, kind: ChallengeKind) -> (r: Vec<ChallengeKind>)
    ensures
        r@ == if hit {
            out@.push(kind)
        } else {
            out@
        },
{
    let mut r = out;
    if hit {
        r.push(kind);
    }
    r
}

/// Every kind of challenge that the response shows signs of, even when a kind
/// checked earlier matched already; useful for telemetry.
pub fn fingerprint(input: &DetectionInput) -> (kinds: Vec<ChallengeKind>)
    ensures
        kinds@ == fingerprints(response_of(input@)),
{
    fingerprint_in(
        &Response { status: input.status, seen: see_headers(input.headers), body: input.body },
    )
}

/// As [`fingerprint`], on the headers that matter.
pub fn fingerprint_in(input: &Response) -> (kinds: Vec<ChallengeKind>)
    ensures
        kinds@ == fingerprints(input@),
{
    let ghost r = input@;
    let none: Vec<ChallengeKind> = Vec::new();
    proof {
        lemma_shown_all(r);
        assert(collected(r, none@, 0));
    }
    let a = push_if(none, detect_cloudflare(input), ChallengeKind::Cloudflare);
    let b = push_if(a, detect_datadome(input), ChallengeKind::DataDome);
    let c = push_if(b, detect_perimeterx(input), ChallengeKind::PerimeterX);
    let d = push_if(c, detect_akamai(input), ChallengeKind::Akamai);
    let e = push_if(d, detect_imperva(input), ChallengeKind::Imperva);
    let f = push_if(e, detect_turnstile(input), ChallengeKind::Turnstile);
    let g = push_if(f, detect_recaptcha(input), ChallengeKind::Recaptcha);
    proof {
        lemma_collected_step(r, none@, a@, 0);
        lemma_collected_step(r, a@, b@, 1);
        lemma_collected_step(r, b@, c@, 2);
        lemma_collected_step(r, c@, d@, 3);
        lemma_collected_step(r, d@, e@, 4);
        lemma_collected_step(r, e@, f@, 5);
        lemma_collected_step(r, f@, g@, 6);
        assert(g@ + shown(r, kinds_in_order().skip(7)) =~= g@);
    }
    g
}

fn detect_cloudflare(input: &Response) -> (b: bool)
    ensures
        b == cloudflare_signs(input@),
{
    if input.seen.cf_mitigated {
        return true;
    }
    if input.seen.cf_chl_bypass {
        return true;
    }
    let server_is_cloudflare = match &input.seen.server {
        Some(Some(s)) => text::eq_ignore_ascii_case(s.as_str(), "cloudflare"),
        _ => false,
    };
    let body = input.body;
    let body_signal = text::contains(body, "Just a moment") || text::contains(body, "__cf_chl_")
        || text::contains(body, "/cdn-cgi/challenge-platform/") || text::contains(
        body,
        "cf_chl_opt",
    );
    if body_signal {
        return true;
    }
    server_is_cloudflare && (input.status == 403 || input.status == 503)
}

/// Whether some value of `set-cookie` holds `needle`.
fn cookie_set(input: &Response, needle: &str) -> (b: bool)
    ensures
        b == sets_cookie(input@, needle@),
{
    let values = &input.seen.set_cookie;
    let ghost texts = input@.seen.set_cookie;
    let mut i: usize = 0;
    while i < values.len()
        invariant
            i <= values.len(),
            texts == value_texts(values@),
            texts == input@.seen.set_cookie,
            forall|j: int| 0 <= j < i ==> !text_occurs(#[trigger] texts[j], needle@),
        decreases values.len() - i,
    {
        assert(texts[i as int] == text::opt_text(values[i as int]));
        if let Some(s) = &values[i] {
            if text::contains(s.as_str(), needle) {
                assert(text_occurs(texts[i as int], needle@));
                return true;
            }
        }
        i = i + 1;
    }
    false
}

fn detect_datadome(input: &Response) -> (b: bool)
    ensures
        b == datadome_signs(input@),
{
    let body = input.body;
    if text::contains(body, "dd_cookie_test") || text::contains(body, "geo.captcha-delivery.com") {
        return true;
    }
    cookie_set(input, "datadome=")
}

fn detect_perimeterx(input: &Response) -> (b: bool)
    ensures
        b == perimeterx_signs(input@),
{
    let body = input.body;
    if text::contains(body, "_pxhd") || text::contains(body, "PerimeterX") || text::contains(
        body,
        "/_px/",
    ) {
        return true;
    }
    cookie_set(input, "_px") || cookie_set(input, "_pxhd")
}

fn detect_akamai(input: &Response) -> (b: bool)
    ensures
        b == akamai_signs(input@),
{
    let body = input.body;
    if text::contains(body, "ak_bmsc") || text::contains(body, "akamaihd.net/sensor") {
        return true;
    }
    cookie_set(input, "ak_bmsc=") || cookie_set(input, "bm_sv=")
}

fn detect_imperva(input: &Response) -> (b: bool)
    ensures
        b == imperva_signs(input@),
{
    let body = input.body;
    if text::contains(body, "Incapsula") || text::contains(body, "_Incapsula_Resource") {
        return true;
    }
    match (&input.seen.x_iinfo, &input.seen.x_cdn) {
        (Some(Some(s)), _) => text::contains(s.as_str(), "incap"),
        (None, Some(Some(s))) => text::contains(s.as_str(), "incap"),
        _ => false,
    }
}

fn detect_turnstile(input: &Response) -> (b: bool)
    ensures
        b == turnstile_signs(input@),
{
    let body = input.body;
    text::contains(body, "cf-turnstile") || text::contains(
        body,
        "challenges.cloudflare.com/turnstile/",
    )
}

fn detect_recaptcha(input: &Response) -> (b: bool)
    ensures
        b == recaptcha_signs(input@),
{
    let body = input.body;
    text::contains(body, "www.google.com/recaptcha/") || text::contains(body, "g-recaptcha")
        || text::contains(body, "recaptcha/api.js")
}

/// A mark of a kind, wherever it stands in the page, is a sign of that kind.
pub proof fn marks_are_found_anywhere_in_the_page(r: ResponseView, a: Seq<char>, b: Seq<char>)
    ensures
        r.body == a + "Just a moment"@ + b ==> shows(r, ChallengeKind::Cloudflare),
        r.body == a + "__cf_chl_"@ + b ==> shows(r, ChallengeKind::Cloudflare),
        r.body == a + "/cdn-cgi/challenge-platform/"@ + b ==> shows(r, ChallengeKind::Cloudflare),
        r.body == a + "cf_chl_opt"@ + b ==> shows(r, ChallengeKind::Cloudflare),
        r.body == a + "dd_cookie_test"@ + b ==> shows(r, ChallengeKind::DataDome),
        r.body == a + "geo.captcha-delivery.com"@ + b ==> shows(r, ChallengeKind::DataDome),
        r.body == a + "_pxhd"@ + b ==> shows(r, ChallengeKind::PerimeterX),
        r.body == a + "PerimeterX"@ + b ==> shows(r, ChallengeKind::PerimeterX),
        r.body == a + "/_px/"@ + b ==> shows(r, ChallengeKind::PerimeterX),
        r.body == a + "ak_bmsc"@ + b ==> shows(r, ChallengeKind::Akamai),
        r.body == a + "akamaihd.net/sensor"@ + b ==> shows(r, ChallengeKind::Akamai),
        r.body == a + "Incapsula"@ + b ==> shows(r, ChallengeKind::Imperva),
        r.body == a + "_Incapsula_Resource"@ + b ==> shows(r, ChallengeKind::Imperva),
        r.body == a + "cf-turnstile"@ + b ==> shows(r, ChallengeKind::Turnstile),
        r.body == a + "challenges.cloudflare.com/turnstile/"@ + b ==> shows(r, ChallengeKind::Turnstile),
        r.body == a + "www.google.com/recaptcha/"@ + b ==> shows(r, ChallengeKind::Recaptcha),
        r.body == a + "g-recaptcha"@ + b ==> shows(r, ChallengeKind::Recaptcha),
        r.body == a + "recaptcha/api.js"@ + b ==> shows(r, ChallengeKind::Recaptcha),
{
    text::text_occurs_where_it_stands(a, "Just a moment"@, b);
    text::text_occurs_where_it_stands(a, "__cf_chl_"@, b);
    text::text_occurs_where_it_stands(a, "/cdn-cgi/challenge-platform/"@, b);
    text::text_occurs_where_it_stands(a, "cf_chl_opt"@, b);
    text::text_occurs_where_it_stands(a, "dd_cookie_test"@, b);
    text::text_occurs_where_it_stands(a, "geo.captcha-delivery.com"@, b);
    text::text_occurs_where_it_stands(a, "_pxhd"@, b);
    text::text_occurs_where_it_stands(a, "PerimeterX"@, b);
    text::text_occurs_where_it_stands(a, "/_px/"@, b);
    text::text_occurs_where_it_stands(a, "ak_bmsc"@, b);
    text::text_occurs_where_it_stands(a, "akamaihd.net/sensor"@, b);
    text::text_occurs_where_it_stands(a, "Incapsula"@, b);
    text::text_occurs_where_it_stands(a, "_Incapsula_Resource"@, b);
    text::text_occurs_where_it_stands(a, "cf-turnstile"@, b);
    text::text_occurs_where_it_stands(a, "challenges.cloudflare.com/turnstile/"@, b);
    text::text_occurs_where_it_stands(a, "www.google.com/recaptcha/"@, b);
    text::text_occurs_where_it_stands(a, "g-recaptcha"@, b);
    text::text_occurs_where_it_stands(a, "recaptcha/api.js"@, b);
}

/// Whether some cookie that the response sets is text in which `mark` can be found.
pub open spec fn some_cookie_holds(r: ResponseView, mark: Seq<char>) -> bool {
    exists|i: int, a: Seq<char>, b: Seq<char>|
        0 <= i < r.seen.set_cookie.len() && #[trigger] r.seen.set_cookie[i] == Some(
            #[trigger] (a + mark + b),
        )
}

/// A mark of a kind, wherever it stands in any of the cookies that are set, is a sign of that kind.
pub proof fn marks_are_found_in_every_cookie(
    r: ResponseView,
    i: int,
    value: Seq<char>,
    a: Seq<char>,
    b: Seq<char>,
)
    requires
        0 <= i < r.seen.set_cookie.len(),
        r.seen.set_cookie[i] == Some(value),
    ensures
        value == a + "datadome="@ + b ==> shows(r, ChallengeKind::DataDome),
        value == a + "_px"@ + b ==> shows(r, ChallengeKind::PerimeterX),
        value == a + "_pxhd"@ + b ==> shows(r, ChallengeKind::PerimeterX),
        value == a + "ak_bmsc="@ + b ==> shows(r, ChallengeKind::Akamai),
        value == a + "bm_sv="@ + b ==> shows(r, ChallengeKind::Akamai),
{
    text::text_occurs_where_it_stands(a, "datadome="@, b);
    text::text_occurs_where_it_stands(a, "_px"@, b);
    text::text_occurs_where_it_stands(a, "_pxhd"@, b);
    text::text_occurs_where_it_stands(a, "ak_bmsc="@, b);
    text::text_occurs_where_it_stands(a, "bm_sv="@, b);
}

proof fn lemma_cookie_holds(r: ResponseView, mark: Seq<char>)
    ensures
        sets_cookie(r, mark) ==> some_cookie_holds(r, mark),
{
    if sets_cookie(r, mark) {
        let i = choose|i: int|
            0 <= i < r.seen.set_cookie.len() && text_occurs(#[trigger] r.seen.set_cookie[i], mark);
        let t = r.seen.set_cookie[i]->0;
        text::what_occurs_can_be_cut_out(t, mark);
        let (a, b) = choose|a: Seq<char>, b: Seq<char>| t == #[trigger] (a + mark + b);
        assert(r.seen.set_cookie[i] == Some(a + mark + b));
    }
}

/// Nothing is taken for a sign of a kind but the marks of that kind: in the page, in the cookies that
/// are set, and for Cloudflare and Imperva in their own headers. No response shows an unknown kind.
pub proof fn nothing_but_marks_is_a_sign(r: ResponseView)
    ensures
        shows(r, ChallengeKind::DataDome) ==> {
            ||| text::occurs(r.body, "dd_cookie_test"@)
            ||| text::occurs(r.body, "geo.captcha-delivery.com"@)
            ||| some_cookie_holds(r, "datadome="@)
        },
        shows(r, ChallengeKind::PerimeterX) ==> {
            ||| text::occurs(r.body, "_pxhd"@)
            ||| text::occurs(r.body, "PerimeterX"@)
            ||| text::occurs(r.body, "/_px/"@)
            ||| some_cookie_holds(r, "_px"@)
            ||| some_cookie_holds(r, "_pxhd"@)
        },
        shows(r, ChallengeKind::Akamai) ==> {
            ||| text::occurs(r.body, "ak_bmsc"@)
            ||| text::occurs(r.body, "akamaihd.net/sensor"@)
            ||| some_cookie_holds(r, "ak_bmsc="@)
            ||| some_cookie_holds(r, "bm_sv="@)
        },
        shows(r, ChallengeKind::Turnstile) ==> {
            ||| text::occurs(r.body, "cf-turnstile"@)
            ||| text::occurs(r.body, "challenges.cloudflare.com/turnstile/"@)
        },
        shows(r, ChallengeKind::Recaptcha) ==> {
            ||| text::occurs(r.body, "www.google.com/recaptcha/"@)
            ||| text::occurs(r.body, "g-recaptcha"@)
            ||| text::occurs(r.body, "recaptcha/api.js"@)
        },
        shows(r, ChallengeKind::Cloudflare) ==> {
            ||| r.seen.cf_mitigated
            ||| r.seen.cf_chl_bypass
            ||| text::occurs(r.body, "Just a moment"@)
            ||| text::occurs(r.body, "__cf_chl_"@)
            ||| text::occurs(r.body, "/cdn-cgi/challenge-platform/"@)
            ||| text::occurs(r.body, "cf_chl_opt"@)
            ||| (r.status == 403 || r.status == 503) && r.seen.server is Some && r.seen.server->0 is Some
                && text::ascii_lower(r.seen.server->0->0) == "cloudflare"@
        },
        shows(r, ChallengeKind::Imperva) ==> {
            ||| text::occurs(r.body, "Incapsula"@)
            ||| text::occurs(r.body, "_Incapsula_Resource"@)
            ||| r.seen.x_iinfo is Some && r.seen.x_iinfo->0 is Some && text::occurs(
                r.seen.x_iinfo->0->0,
                "incap"@,
            )
            ||| r.seen.x_iinfo is None && r.seen.x_cdn is Some && r.seen.x_cdn->0 is Some
                && text::occurs(r.seen.x_cdn->0->0, "incap"@)
        },
        !shows(r, ChallengeKind::Unknown),
{
    reveal_strlit("cloudflare");
    assert(text::ascii_lower("cloudflare"@) =~= "cloudflare"@);
    lemma_cookie_holds(r, "datadome="@);
    lemma_cookie_holds(r, "_px"@);
    lemma_cookie_holds(r, "_pxhd"@);
    lemma_cookie_holds(r, "ak_bmsc="@);
    lemma_cookie_holds(r, "bm_sv="@);
}

/// The headers of a response count, whatever its page: either of Cloudflare's own; a server of that
/// name, in any letter case, that refuses or is unavailable; and Imperva's, where the second counts
/// only without the first.
pub proof fn headers_give_challenges_away(
    input: InputView,
    t: Seq<char>,
    a: Seq<char>,
    b: Seq<char>,
)
    ensures
        ({
            let r = response_of(input);
            let with = |name: Seq<char>|
                input.headers.contains_key(name) && input.headers[name].len() > 0;
            let first = |name: Seq<char>, value: Seq<char>|
                input.headers.contains_key(name) && input.headers[name].len() > 0
                    && input.headers[name][0] == Some(value);
            &&& with("cf-mitigated"@) ==> shows(r, ChallengeKind::Cloudflare)
            &&& with("cf-chl-bypass"@) ==> shows(r, ChallengeKind::Cloudflare)
            &&& first("server"@, t) && text::ascii_lower(t) == "cloudflare"@ && (input.status == 403
                || input.status == 503) ==> shows(r, ChallengeKind::Cloudflare)
            &&& first("x-iinfo"@, a + "incap"@ + b) ==> shows(r, ChallengeKind::Imperva)
            &&& !with("x-iinfo"@) && first("x-cdn"@, a + "incap"@ + b) ==> shows(
                r,
                ChallengeKind::Imperva,
            )
        }),
{
    reveal_strlit("cf-mitigated");
    assert(text::ascii_lower("cf-mitigated"@) =~= "cf-mitigated"@);
    reveal_strlit("cf-chl-bypass");
    assert(text::ascii_lower("cf-chl-bypass"@) =~= "cf-chl-bypass"@);
    reveal_strlit("server");
    assert(text::ascii_lower("server"@) =~= "server"@);
    reveal_strlit("x-iinfo");
    assert(text::ascii_lower("x-iinfo"@) =~= "x-iinfo"@);
    reveal_strlit("x-cdn");
    assert(text::ascii_lower("x-cdn"@) =~= "x-cdn"@);
    reveal_strlit("set-cookie");
    assert(text::ascii_lower("set-cookie"@) =~= "set-cookie"@);
    reveal_strlit("cloudflare");
    assert(text::ascii_lower("cloudflare"@) =~= "cloudflare"@);
    text::text_occurs_where_it_stands(a, "incap"@, b);
}

/// What a response shows is its own status and page, and of its headers the values under each name,
/// all of them for cookies and the first for the others.
pub proof fn responses_show_their_own_headers(input: InputView)
    ensures
        ({
            let r = response_of(input);
            let of = |name: Seq<char>|
                if input.headers.contains_key(name) {
                    input.headers[name]
                } else {
                    Seq::empty()
                };
            &&& r.status == input.status
            &&& r.body == input.body
            &&& r.seen.set_cookie == of("set-cookie"@)
            &&& r.seen.cf_mitigated <==> of("cf-mitigated"@).len() > 0
            &&& r.seen.cf_chl_bypass <==> of("cf-chl-bypass"@).len() > 0
            &&& r.seen.server is Some <==> of("server"@).len() > 0
            &&& r.seen.server is Some ==> r.seen.server->0 == of("server"@)[0]
            &&& r.seen.x_iinfo is Some <==> of("x-iinfo"@).len() > 0
            &&& r.seen.x_iinfo is Some ==> r.seen.x_iinfo->0 == of("x-iinfo"@)[0]
            &&& r.seen.x_cdn is Some <==> of("x-cdn"@).len() > 0
            &&& r.seen.x_cdn is Some ==> r.seen.x_cdn->0 == of("x-cdn"@)[0]
        }),
{
    reveal_strlit("cf-mitigated");
    assert(text::ascii_lower("cf-mitigated"@) =~= "cf-mitigated"@);
    reveal_strlit("cf-chl-bypass");
    assert(text::ascii_lower("cf-chl-bypass"@) =~= "cf-chl-bypass"@);
    reveal_strlit("server");
    assert(text::ascii_lower("server"@) =~= "server"@);
    reveal_strlit("x-iinfo");
    assert(text::ascii_lower("x-iinfo"@) =~= "x-iinfo"@);
    reveal_strlit("x-cdn");
    assert(text::ascii_lower("x-cdn"@) =~= "x-cdn"@);
    reveal_strlit("set-cookie");
    assert(text::ascii_lower("set-cookie"@) =~= "set-cookie"@);
    reveal_strlit("cloudflare");
    assert(text::ascii_lower("cloudflare"@) =~= "cloudflare"@);
}

/// How early a kind is looked for.
pub open spec fn turn(kind: ChallengeKind) -> int {
    match kind {
        ChallengeKind::Cloudflare => 0,
        ChallengeKind::DataDome => 1,
        ChallengeKind::PerimeterX => 2,
        ChallengeKind::Akamai => 3,
        ChallengeKind::Imperva => 4,
        ChallengeKind::Turnstile => 5,
        ChallengeKind::Recaptcha => 6,
        ChallengeKind::Unknown => 7,
    }
}

proof fn lemma_shown_in_turn(r: ResponseView, kinds: Seq<ChallengeKind>)
    requires
        forall|i: int, j: int|
            0 <= i < j < kinds.len() ==> turn(#[trigger] kinds[i]) < turn(#[trigger] kinds[j]),
    ensures
        forall|i: int, j: int|
            0 <= i < j < shown(r, kinds).len() ==> turn(#[trigger] shown(r, kinds)[i]) < turn(
                #[trigger] shown(r, kinds)[j],
            ),
    decreases kinds.len(),
{
    if kinds.len() > 0 {
        let rest = kinds.drop_first();
        let tail = shown(r, rest);
        let all = shown(r, kinds);
        lemma_shown_in_turn(r, rest);
        assert forall|i: int, j: int| 0 <= i < j < all.len() implies turn(#[trigger] all[i]) < turn(
            #[trigger] all[j],
        ) by {
            if shows(r, kinds[0]) {
                assert(all[j] == tail[j - 1]);
                if i > 0 {
                    assert(all[i] == tail[i - 1]);
                } else {
                    lemma_shown_contains(r, rest, tail[j - 1]);
                    assert(tail.contains(tail[j - 1]));
                    let k = choose|k: int| 0 <= k < rest.len() && rest[k] == tail[j - 1];
                    assert(kinds[k + 1] == tail[j - 1]);
                }
            }
        }
    }
}

/// A response is taken for the kind that it shows signs of and that is looked for first, and for
/// none if and only if it shows no signs of any; all the kinds that it shows are listed once each,
/// in the order in which they are looked for.
pub proof fn the_first_kind_that_shows_is_detected(r: ResponseView, kind: ChallengeKind)
    ensures
        detected(r) is None ==> !shows(r, kind),
        detected(r) is Some ==> shows(r, detected(r)->0),
        detected(r) is Some && shows(r, kind) ==> turn(detected(r)->0) <= turn(kind),
        detected(r) is Some ==> fingerprints(r).contains(detected(r)->0),
        forall|i: int, j: int|
            0 <= i < j < fingerprints(r).len() ==> turn(#[trigger] fingerprints(r)[i]) < turn(
                #[trigger] fingerprints(r)[j],
            ),
{
    let f = fingerprints(r);
    lemma_shown_in_turn(r, kinds_in_order());
    fingerprints_are_the_shown_kinds(r, kind);
    if f.len() > 0 {
        assert(f.contains(f[0]));
        fingerprints_are_the_shown_kinds(r, f[0]);
        if shows(r, kind) {
            let i = choose|i: int| 0 <= i < f.len() && f[i] == kind;
            assert(turn(f[0]) <= turn(f[i]));
        }
    }
}

/// Every kind has a name of its own.
pub proof fn kinds_have_names_of_their_own()
    ensures
        kind_name(ChallengeKind::Cloudflare) == "cloudflare"@,
        kind_name(ChallengeKind::DataDome) == "datadome"@,
        kind_name(ChallengeKind::PerimeterX) == "perimeterx"@,
        kind_name(ChallengeKind::Akamai) == "akamai"@,
        kind_name(ChallengeKind::Imperva) == "imperva"@,
        kind_name(ChallengeKind::Turnstile) == "turnstile"@,
        kind_name(ChallengeKind::Recaptcha) == "recaptcha"@,
        kind_name(ChallengeKind::Unknown) == "unknown"@,
{
}

/// The headers that are seen, and what is looked at of a response, say what they hold.
pub proof fn headers_say_what_they_hold(h: SeenHeaders, i: int)
    ensures
        h@.cf_mitigated == h.cf_mitigated,
        h@.cf_chl_bypass == h.cf_chl_bypass,
        h@.server is Some <==> h.server is Some,
        h.server is Some ==> h@.server->0 == text::opt_text(h.server->0),
        h@.x_iinfo is Some <==> h.x_iinfo is Some,
        h.x_iinfo is Some ==> h@.x_iinfo->0 == text::opt_text(h.x_iinfo->0),
        h@.x_cdn is Some <==> h.x_cdn is Some,
        h.x_cdn is Some ==> h@.x_cdn->0 == text::opt_text(h.x_cdn->0),
        h@.set_cookie.len() == h.set_cookie@.len(),
        0 <= i < h.set_cookie@.len() ==> h@.set_cookie[i] == text::opt_text(h.set_cookie@[i]),
{
}

} // verus!
