//! Request bodies for the FlareSolverr-compatible `/v1` endpoint.

use crate::cookie;
use crate::cookie::{Cookie, CookieView};
use crate::fields;
use crate::fields::FieldMap;
use crate::fingerprint;
use crate::fingerprint::Viewport;
use crate::proxy;
use crate::proxy::{ProxyConfig, ProxyView};
use crate::request::{BodyView, MethodView, PostBody, RequestView, SolveMethod, SolveRequest};
use crate::text;
use vstd::prelude::*;

verus! {

/// Timeout of the session lifecycle commands, in milliseconds.
pub const SESSION_TIMEOUT_MS: u64 = 60_000;

/// Request body sent to `/v1`.
#[derive(Debug)]
pub struct WireRequest {
    pub cmd: String,
    pub url: Option<String>,
    /// `maxTimeout`, in milliseconds.
    pub max_timeout: u64,
    /// `max_timeout`, in seconds, for providers that read that spelling.
    pub max_timeout_secs: u64,
    pub session: Option<String>,
    pub post_data: Option<String>,
    pub cookies: Option<Vec<Cookie>>,
    pub headers: Option<FieldMap>,
    pub proxy: Option<ProxyConfig>,
    pub user_agent: Option<String>,
    pub locale: Option<String>,
    pub viewport: Option<Viewport>,
    pub timezone: Option<String>,
    pub platform: Option<String>,
    /// `returnOnlyCookies`, sent only when set.
    pub return_only_cookies: bool,
}

/// What a [`WireRequest`] says.
pub struct WireView {
    pub cmd: Seq<char>,
    pub url: Option<Seq<char>>,
    pub max_timeout: u64,
    pub max_timeout_secs: u64,
    pub session: Option<Seq<char>>,
    pub post_data: Option<Seq<char>>,
    pub cookies: Option<Seq<CookieView>>,
    pub headers: Option<Map<Seq<char>, Seq<char>>>,
    pub proxy: Option<ProxyView>,
    pub user_agent: Option<Seq<char>>,
    pub locale: Option<Seq<char>>,
    pub viewport: Option<Viewport>,
    pub timezone: Option<Seq<char>>,
    pub platform: Option<Seq<char>>,
    pub return_only_cookies: bool,
}

impl View for WireRequest {
    type V = WireView;

    open spec fn view(&self) -> WireView {
        WireView {
            cmd: self.cmd@,
            url: text::opt_text(self.url),
            max_timeout: self.max_timeout,
            max_timeout_secs: self.max_timeout_secs,
            session: text::opt_text(self.session),
            post_data: text::opt_text(self.post_data),
            cookies: cookie::opt_views(self.cookies),
            headers: fields::opt_fields(self.headers),
            proxy: proxy::opt_proxy(self.proxy),
            user_agent: text::opt_text(self.user_agent),
            locale: text::opt_text(self.locale),
            viewport: self.viewport,
            timezone: text::opt_text(self.timezone),
            platform: text::opt_text(self.platform),
            return_only_cookies: self.return_only_cookies,
        }
    }
}

/// `ms` in whole seconds, rounded up.
pub open spec fn whole_seconds(ms: u64) -> u64 {
    if ms % 1000 == 0 {
        ms / 1000
    } else {
        (ms / 1000 + 1) as u64
    }
}

fn seconds_of(ms: u64) -> (s: u64)
    ensures
        s == whole_seconds(ms),
{
    if ms % 1000 == 0 {
        ms / 1000
    } else {
        ms / 1000 + 1
    }
}

/// The compact JSON text of a document, as `serde_json` writes it.
pub uninterp spec fn json_text(value: serde_json::Value) -> Seq<char>;

/// `serde_json::Value::to_string`: the compact JSON text, a function of the document alone.
#[verifier::external_body]
fn json_to_string(value: &serde_json::Value) -> (s: String)
    ensures
        s@ == json_text(*value),
{
    value.to_string()
}

/// The bytes that percent-encoding leaves as they are.
pub open spec fn unreserved(b: u8) -> bool {
    ||| 65 <= b <= 90
    ||| 97 <= b <= 122
    ||| 48 <= b <= 57
    ||| b == 45
    ||| b == 95
    ||| b == 46
    ||| b == 126
}

/// The upper-case hexadecimal digit of `n`.
pub open spec fn hex_digit(n: int) -> char {
    if n < 10 {
        (48 + n) as char
    } else {
        (55 + n) as char
    }
}

/// The percent-encoded form of one byte.
pub open spec fn encoded_byte(b: u8) -> Seq<char> {
    if unreserved(b) {
        seq![b as char]
    } else {
        seq!['%', hex_digit(b as int / 16), hex_digit(b as int % 16)]
    }
}

/// The percent-encoded form of `bytes`.
pub open spec fn encoded_bytes(bytes: Seq<u8>) -> Seq<char>
    decreases bytes.len(),
{
    if bytes.len() == 0 {
        seq![]
    } else {
        encoded_byte(bytes[0]) + encoded_bytes(bytes.drop_first())
    }
}

/// The percent-encoded form of the UTF-8 bytes of `s`.
pub open spec fn percent_encoded(s: Seq<char>) -> Seq<char> {
    encoded_bytes(vstd::utf8::encode_utf8(s))
}

fn hex_char(n: u8) -> (c: char)
    requires
        n < 16,
    ensures
        c == hex_digit(n as int),
{
    if n < 10 {
        (48 + n) as char
    } else {
        (55 + n) as char
    }
}

pub fn percent_encode(s: &str) -> (out: String)
    ensures
        out@ == percent_encoded(s@),
{
    let bytes = s.as_bytes();
    let mut out = String::new();
    let mut i: usize = 0;
    assert(bytes@.skip(0) =~= bytes@);
    while i < bytes.len()
        invariant
            i <= bytes.len(),
            bytes@ == vstd::utf8::encode_utf8(s@),
            percent_encoded(s@) == out@ + encoded_bytes(bytes@.skip(i as int)),
        decreases bytes.len() - i,
    {
        let b: u8 = bytes[i];
        let ghost before = out@;
        if (65 <= b && b <= 90) || (97 <= b && b <= 122) || (48 <= b && b <= 57) || b == 45 || b
            == 95 || b == 46 || b == 126 {
            out.push(b as char);
        } else {
            out.push('%');
            out.push(hex_char(b / 16));
            out.push(hex_char(b % 16));
        }
        proof {
            assert(out@ =~= before + encoded_byte(b));
            assert(bytes@.skip(i as int).drop_first() =~= bytes@.skip(i + 1));
            assert(before + (encoded_byte(b) + encoded_bytes(bytes@.skip(i + 1))) =~= (before
                + encoded_byte(b)) + encoded_bytes(bytes@.skip(i + 1)));
        }
        i = i + 1;
    }
    assert(out@ + encoded_bytes(bytes@.skip(i as int)) =~= out@);
    out
}

/// `name=value` of each field, both percent-encoded.
pub open spec fn encoded_fields(pairs: Seq<(Seq<char>, Seq<char>)>) -> Seq<Seq<char>> {
    pairs.map_values(
        |p: (Seq<char>, Seq<char>)| percent_encoded(p.0) + "="@ + percent_encoded(p.1),
    )
}

/// The `application/x-www-form-urlencoded` text of `form`, its fields in text order of their names.
pub open spec fn form_text(form: Map<Seq<char>, Seq<char>>) -> Seq<char> {
    text::joined(encoded_fields(fields::listing(form)), "&"@)
}

pub fn url_encode_form(form: &FieldMap) -> (s: String)
    ensures
        s@ == form_text(form@),
{
    let mut parts: Vec<String> = Vec::new();
    let mut i: usize = 0;
    let n = form.len();
    while i < n
        invariant
            i <= n,
            n == fields::listing(form@).len(),
            text::texts(parts@) == encoded_fields(fields::listing(form@)).take(i as int),
        decreases n - i,
    {
        let (name, value) = form.entry(i);
        let mut part = percent_encode(name);
        part.append("=");
        part.append(percent_encode(value).as_str());
        let ghost view = part@;
        let ghost before = text::texts(parts@);
        parts.push(part);
        assert(text::texts(parts@) =~= before.push(view));
        assert(text::texts(parts@) =~= encoded_fields(fields::listing(form@)).take(i + 1));
        i = i + 1;
    }
    assert(text::texts(parts@) =~= encoded_fields(fields::listing(form@)));
    text::join(&parts, "&")
}

/// What goes over the wire for a POST body.
pub open spec fn body_text(body: BodyView) -> Seq<char> {
    match body {
        BodyView::Form(form) => form_text(form),
        BodyView::Json(value) => json_text(value),
        BodyView::Raw { body, .. } => body,
    }
}

pub fn encode_post_body(body: &PostBody) -> (s: String)
    ensures
        s@ == body_text(body@),
{
    match body {
        PostBody::Form(map) => url_encode_form(map),
        PostBody::Json(value) => json_to_string(value),
        PostBody::Raw { body, .. } => body.clone(),
    }
}

/// The content type that goes with a POST body.
pub open spec fn content_type_of(body: BodyView) -> Seq<char> {
    match body {
        BodyView::Form(_) => "application/x-www-form-urlencoded"@,
        BodyView::Json(_) => "application/json"@,
        BodyView::Raw { content_type, .. } => content_type,
    }
}

/// The headers sent for a request: its own, and for a POST a `Content-Type` unless it has one.
pub open spec fn sent_headers(
    headers: Option<Map<Seq<char>, Seq<char>>>,
    method: MethodView,
) -> Option<Map<Seq<char>, Seq<char>>> {
    match method {
        MethodView::Get => headers,
        MethodView::Post { body } => {
            let own = match headers {
                Some(h) => h,
                None => Map::empty(),
            };
            if own.contains_key("Content-Type"@) {
                Some(own)
            } else {
                Some(own.insert("Content-Type"@, content_type_of(body)))
            }
        },
    }
}

/// The wire form of a solve request.
pub open spec fn solve_wire(req: RequestView, default_timeout_ms: u64) -> WireView {
    let timeout = match req.max_timeout_ms {
        Some(ms) => ms,
        None => default_timeout_ms,
    };
    let hints = match req.fingerprint {
        Some(f) => f,
        None => fingerprint::no_hints(),
    };
    WireView {
        cmd: match req.method {
            MethodView::Get => "request.get"@,
            MethodView::Post { .. } => "request.post"@,
        },
        url: Some(req.url),
        max_timeout: timeout,
        max_timeout_secs: whole_seconds(timeout),
        session: req.session_id,
        post_data: match req.method {
            MethodView::Get => None,
            MethodView::Post { body } => Some(body_text(body)),
        },
        cookies: req.cookies,
        headers: sent_headers(req.headers, req.method),
        proxy: req.proxy,
        user_agent: hints.user_agent,
        locale: hints.locale,
        viewport: hints.viewport,
        timezone: hints.timezone,
        platform: hints.platform,
        return_only_cookies: req.return_only_cookies,
    }
}

/// A session lifecycle command.
pub open spec fn session_wire(
    cmd: Seq<char>,
    session: Option<Seq<char>>,
    proxy: Option<ProxyView>,
) -> WireView {
    WireView {
        cmd,
        url: None,
        max_timeout: SESSION_TIMEOUT_MS,
        max_timeout_secs: whole_seconds(SESSION_TIMEOUT_MS),
        session,
        post_data: None,
        cookies: None,
        headers: None,
        proxy,
        user_agent: None,
        locale: None,
        viewport: None,
        timezone: None,
        platform: None,
        return_only_cookies: false,
    }
}

impl WireRequest {
    /// The wire shape of a public [`SolveRequest`], falling back to
    /// `default_timeout_ms` if the request didn't set its own timeout.
    pub fn from_solve(req: &SolveRequest, default_timeout_ms: u64) -> (w: Self)
        ensures
            w@ == solve_wire(req@, default_timeout_ms),
    {
        let cmd = match &req.method {
            SolveMethod::Get => "request.get".to_string(),
            SolveMethod::Post { .. } => "request.post".to_string(),
        };
        let post_data = match &req.method {
            SolveMethod::Get => None,
            SolveMethod::Post { body } => Some(encode_post_body(body)),
        };
        let own = match &req.headers {
            Some(h) => Some(h.clone()),
            None => None,
        };
        let headers = match &req.method {
            SolveMethod::Get => own,
            SolveMethod::Post { body } => {
                let content_type: &str = match body {
                    PostBody::Form(_) => "application/x-www-form-urlencoded",
                    PostBody::Json(_) => "application/json",
                    PostBody::Raw { content_type, .. } => content_type.as_str(),
                };
                let mut h = match own {
                    Some(h) => h,
                    None => FieldMap::new(),
                };
                h.insert_if_absent("Content-Type", content_type);
                Some(h)
            },
        };
        let hints = match &req.fingerprint {
            Some(f) => f.clone(),
            None => Default::default(),
        };
        let max_timeout: u64 = match req.max_timeout_ms {
            Some(ms) => ms,
            None => default_timeout_ms,
        };
        WireRequest {
            cmd,
            url: Some(req.url.clone()),
            max_timeout,
            max_timeout_secs: seconds_of(max_timeout),
            session: req.session_id.clone(),
            post_data,
            cookies: match &req.cookies {
                Some(c) => Some(cookie::clone_all(c)),
                None => None,
            },
            headers,
            proxy: match &req.proxy {
                Some(p) => Some(p.clone()),
                None => None,
            },
            user_agent: hints.user_agent,
            locale: hints.locale,
            viewport: hints.viewport,
            timezone: hints.timezone,
            platform: hints.platform,
            return_only_cookies: req.return_only_cookies,
        }
    }

    fn session_command(cmd: &str, session: Option<String>, proxy: Option<ProxyConfig>) -> (w: Self)
        ensures
            w@ == session_wire(cmd@, text::opt_text(session), proxy::opt_proxy(proxy)),
    {
        WireRequest {
            cmd: cmd.to_string(),
            url: None,
            max_timeout: SESSION_TIMEOUT_MS,
            max_timeout_secs: seconds_of(SESSION_TIMEOUT_MS),
            session,
            post_data: None,
            cookies: None,
            headers: None,
            proxy,
            user_agent: None,
            locale: None,
            viewport: None,
            timezone: None,
            platform: None,
            return_only_cookies: false,
        }
    }

    /// `sessions.create` body.
    pub fn sessions_create(session_id: Option<String>, proxy: Option<ProxyConfig>) -> (w: Self)
        ensures
            w@ == session_wire(
                "sessions.create"@,
                text::opt_text(session_id),
                proxy::opt_proxy(proxy),
            ),
    {
        Self::session_command("sessions.create", session_id, proxy)
    }

    /// `sessions.destroy` body.
    pub fn sessions_destroy(session_id: String) -> (w: Self)
        ensures
            w@ == session_wire("sessions.destroy"@, Some(session_id@), None),
    {
        Self::session_command("sessions.destroy", Some(session_id), None)
    }
}

/// The value of a hexadecimal digit.
pub open spec fn hex_value(c: char) -> int {
    if c <= '9' {
        c as int - 48
    } else {
        c as int - 55
    }
}

/// The bytes that a percent-encoded text stands for.
pub open spec fn decoded(s: Seq<char>) -> Seq<u8>
    decreases s.len(),
{
    if s.len() == 0 {
        Seq::empty()
    } else if s[0] == '%' && s.len() >= 3 {
        seq![(16 * hex_value(s[1]) + hex_value(s[2])) as u8] + decoded(s.skip(3))
    } else {
        seq![s[0] as u8] + decoded(s.skip(1))
    }
}

/// Whether `c` may stand in a percent-encoded text.
pub open spec fn encoding_char(c: char) -> bool {
    ||| 'A' <= c <= 'Z'
    ||| 'a' <= c <= 'z'
    ||| '0' <= c <= '9'
    ||| c == '-'
    ||| c == '_'
    ||| c == '.'
    ||| c == '~'
    ||| c == '%'
}

proof fn encoding_is_reversible(bytes: Seq<u8>)
    ensures
        decoded(encoded_bytes(bytes)) == bytes,
        forall|i: int|
            0 <= i < encoded_bytes(bytes).len() ==> encoding_char(
                #[trigger] encoded_bytes(bytes)[i],
            ),
    decreases bytes.len(),
{
    let s = encoded_bytes(bytes);
    if bytes.len() > 0 {
        let b = bytes[0];
        let rest = bytes.drop_first();
        encoding_is_reversible(rest);
        if unreserved(b) {
            assert(s[0] == b as char);
            assert(s.skip(1) =~= encoded_bytes(rest));
            assert(s[0] as u8 == b);
        } else {
            let h = hex_digit(b as int / 16);
            let l = hex_digit(b as int % 16);
            assert(s[0] == '%' && s[1] == h && s[2] == l);
            assert(s.skip(3) =~= encoded_bytes(rest));
            assert(hex_value(h) == b as int / 16);
            assert(hex_value(l) == b as int % 16);
        }
        assert(decoded(s) =~= bytes);
    } else {
        assert(decoded(s) =~= bytes);
    }
}

/// Percent-encoding loses nothing: decoding gives the UTF-8 bytes of the text back. What comes out
/// holds letters, digits and `-`, `_`, `.`, `~`, `%` alone.
pub proof fn percent_encoding_is_reversible(s: Seq<char>)
    ensures
        decoded(percent_encoded(s)) == vstd::utf8::encode_utf8(s),
        vstd::utf8::decode_utf8(decoded(percent_encoded(s))) == s,
        forall|i: int|
            0 <= i < percent_encoded(s).len() ==> encoding_char(#[trigger] percent_encoded(s)[i]),
{
    encoding_is_reversible(vstd::utf8::encode_utf8(s));
    vstd::utf8::encode_utf8_decode_utf8(s);
}

spec fn lacks(s: Seq<char>, c: char) -> bool {
    forall|i: int| 0 <= i < s.len() ==> #[trigger] s[i] != c
}

/// A text is cut at its last `c` in one way only.
proof fn cut_at_last(a: Seq<char>, x: Seq<char>, b: Seq<char>, y: Seq<char>, c: char)
    requires
        lacks(x, c),
        lacks(y, c),
        a + seq![c] + x == b + seq![c] + y,
    ensures
        a == b,
        x == y,
{
    let l = a + seq![c] + x;
    let r = b + seq![c] + y;
    assert(l.len() == a.len() + 1 + x.len());
    assert(r.len() == b.len() + 1 + y.len());
    if a.len() < b.len() {
        assert(r[b.len() as int] == c);
        assert(l[b.len() as int] == x[b.len() - a.len() - 1]);
    } else if b.len() < a.len() {
        assert(l[a.len() as int] == c);
        assert(r[a.len() as int] == y[a.len() - b.len() - 1]);
    }
    assert(a =~= l.take(a.len() as int));
    assert(b =~= r.take(b.len() as int));
    assert(x =~= l.skip(a.len() as int + 1));
    assert(y =~= r.skip(b.len() as int + 1));
}

spec fn separable(parts: Seq<Seq<char>>) -> bool {
    forall|i: int| 0 <= i < parts.len() ==> lacks(#[trigger] parts[i], '&') && parts[i].len() > 0
}

proof fn joined_has_text(parts: Seq<Seq<char>>)
    requires
        separable(parts),
        parts.len() > 0,
    ensures
        text::joined(parts, seq!['&']).len() > 0,
        parts.len() >= 2 ==> !lacks(text::joined(parts, seq!['&']), '&'),
{
    let j = text::joined(parts, seq!['&']);
    if parts.len() >= 2 {
        let head = text::joined(parts.drop_last(), seq!['&']);
        assert(j =~= head + seq!['&'] + parts.last());
        assert(j[head.len() as int] == '&');
    }
}

/// Parts without an ampersand can be told apart after they have been joined with ampersands.
proof fn joined_parts_are_unique(p: Seq<Seq<char>>, q: Seq<Seq<char>>)
    requires
        separable(p),
        separable(q),
        text::joined(p, seq!['&']) == text::joined(q, seq!['&']),
    ensures
        p == q,
    decreases p.len(),
{
    if p.len() > 0 {
        joined_has_text(p);
    }
    if q.len() > 0 {
        joined_has_text(q);
    }
    if p.len() >= 2 && q.len() >= 2 {
        cut_at_last(
            text::joined(p.drop_last(), seq!['&']),
            p.last(),
            text::joined(q.drop_last(), seq!['&']),
            q.last(),
            '&',
        );
        joined_parts_are_unique(p.drop_last(), q.drop_last());
        assert(p =~= p.drop_last().push(p.last()));
        assert(q =~= q.drop_last().push(q.last()));
    } else {
        assert(p =~= q);
    }
}

/// A form loses nothing on its way: two forms that give the same text hold the same fields, whatever
/// their names and values.
pub proof fn forms_can_be_told_apart(
    p: Seq<(Seq<char>, Seq<char>)>,
    q: Seq<(Seq<char>, Seq<char>)>,
)
    requires
        fields::ascending(p),
        fields::ascending(q),
        form_text(fields::pairs_map(p)) == form_text(fields::pairs_map(q)),
    ensures
        p == q,
{
    fields::listing_is_unique(p, fields::listing(fields::pairs_map(p)));
    fields::listing_is_unique(q, fields::listing(fields::pairs_map(q)));
    reveal_strlit("&");
    reveal_strlit("=");
    assert("&"@ =~= seq!['&']);
    assert("="@ =~= seq!['=']);
    fields_are_separable(p);
    fields_are_separable(q);
    joined_parts_are_unique(encoded_fields(p), encoded_fields(q));
    assert(p.len() == encoded_fields(p).len());
    assert forall|i: int| 0 <= i < p.len() implies p[i] == q[i] by {
        let (a, x) = p[i];
        let (b, y) = q[i];
        assert(encoded_fields(p)[i] == encoded_fields(q)[i]);
        percent_encoding_is_reversible(a);
        percent_encoding_is_reversible(b);
        percent_encoding_is_reversible(x);
        percent_encoding_is_reversible(y);
        cut_at_last(
            percent_encoded(a),
            percent_encoded(x),
            percent_encoded(b),
            percent_encoded(y),
            '=',
        );
    }
    assert(p =~= q);
}

proof fn fields_are_separable(p: Seq<(Seq<char>, Seq<char>)>)
    ensures
        separable(encoded_fields(p)),
{
    reveal_strlit("=");
    assert forall|i: int| 0 <= i < encoded_fields(p).len() implies lacks(
        #[trigger] encoded_fields(p)[i],
        '&',
    ) && encoded_fields(p)[i].len() > 0 by {
        percent_encoding_is_reversible(p[i].0);
        percent_encoding_is_reversible(p[i].1);
        let part = percent_encoded(p[i].0) + "="@ + percent_encoded(p[i].1);
        assert(encoded_fields(p)[i] == part);
        assert forall|j: int| 0 <= j < part.len() implies #[trigger] part[j] != '&' by {
            let k = percent_encoded(p[i].0).len() as int;
            if j < k {
                assert(part[j] == percent_encoded(p[i].0)[j]);
            } else if j > k {
                assert(part[j] == percent_encoded(p[i].1)[j - k - 1]);
            }
        }
    }
}

/// A POST always names its content type, and a content type that the caller has named is kept.
pub proof fn posts_name_their_content_type(
    headers: Option<Map<Seq<char>, Seq<char>>>,
    body: BodyView,
)
    ensures
        ({
            let sent = sent_headers(headers, MethodView::Post { body });
            &&& sent is Some
            &&& sent->0.contains_key("Content-Type"@)
            &&& headers is Some && headers->0.contains_key("Content-Type"@) ==> sent
                == headers
            &&& (headers is None || !headers->0.contains_key("Content-Type"@))
                ==> sent->0["Content-Type"@] == content_type_of(body)
            &&& headers is Some ==> headers->0.submap_of(sent->0)
        }),
{
}

/// Both timeouts of a request allow at least the time asked for, and the one in seconds less than a
/// second more.
pub proof fn timeouts_agree(req: RequestView, default_timeout_ms: u64)
    ensures
        ({
            let w = solve_wire(req, default_timeout_ms);
            &&& req.max_timeout_ms is Some ==> w.max_timeout == req.max_timeout_ms->0
            &&& req.max_timeout_ms is None ==> w.max_timeout == default_timeout_ms
            &&& w.max_timeout <= w.max_timeout_secs * 1000 < w.max_timeout + 1000
        }),
{
}

/// Whatever the method, what goes over the wire is the request's own: URL, session, cookies, proxy,
/// and whether only the cookies are wanted. A GET has the request's headers as they are and no body;
/// a POST has its body.
pub proof fn requests_are_sent_as_they_are(req: RequestView, default_timeout_ms: u64)
    ensures
        ({
            let w = solve_wire(req, default_timeout_ms);
            &&& w.url == Some(req.url)
            &&& w.proxy == req.proxy
            &&& w.cookies == req.cookies
            &&& w.session == req.session_id
            &&& w.return_only_cookies == req.return_only_cookies
            &&& req.method is Get ==> w.headers == req.headers && w.post_data is None && w.cmd
                == "request.get"@
            &&& req.method is Post ==> w.post_data is Some && w.cmd == "request.post"@
        }),
{
}

/// Two requests that differ in URL, session, cookies, proxy, fingerprint, in what they want back, or
/// as GETs in their headers, are sent differently.
pub proof fn different_requests_are_sent_differently(a: RequestView, b: RequestView, ms: u64)
    requires
        solve_wire(a, ms) == solve_wire(b, ms),
    ensures
        a.url == b.url,
        a.session_id == b.session_id,
        a.cookies == b.cookies,
        a.proxy == b.proxy,
        a.return_only_cookies == b.return_only_cookies,
        a.fingerprint is Some && b.fingerprint is Some ==> a.fingerprint == b.fingerprint,
        a.max_timeout_ms is Some && b.max_timeout_ms is Some ==> a.max_timeout_ms
            == b.max_timeout_ms,
        a.method is Get <==> b.method is Get,
        a.method is Get ==> a.headers == b.headers,
{
    reveal_strlit("request.get");
    reveal_strlit("request.post");
    assert("request.get"@.len() != "request.post"@.len());
}

/// The hints of a fingerprint are passed on one by one; a request without one passes none.
pub proof fn hints_are_passed_on(req: RequestView, default_timeout_ms: u64)
    ensures
        ({
            let w = solve_wire(req, default_timeout_ms);
            &&& req.fingerprint is Some ==> {
                &&& w.user_agent == req.fingerprint->0.user_agent
                &&& w.locale == req.fingerprint->0.locale
                &&& w.viewport == req.fingerprint->0.viewport
                &&& w.timezone == req.fingerprint->0.timezone
                &&& w.platform == req.fingerprint->0.platform
            }
            &&& req.fingerprint is None ==> {
                &&& w.user_agent is None
                &&& w.locale is None
                &&& w.viewport is None
                &&& w.timezone is None
                &&& w.platform is None
            }
        }),
{
}

/// A raw body is sent as it is under the content type that came with it, a JSON document as its
/// text, a form in the encoding of web forms, and each under its own content type.
pub proof fn bodies_are_sent_as_their_kind(
    req: RequestView,
    ms: u64,
    raw: Seq<char>,
    content_type: Seq<char>,
    value: serde_json::Value,
    form: Map<Seq<char>, Seq<char>>,
    name: Seq<char>,
)
    ensures
        ({
            let body = |b: BodyView|
                solve_wire(RequestView { method: MethodView::Post { body: b }, ..req }, ms);
            let plain = |b: BodyView|
                solve_wire(
                    RequestView { method: MethodView::Post { body: b }, headers: None, ..req },
                    ms,
                );
            &&& body(BodyView::Raw { content_type, body: raw }).post_data == Some(raw)
            &&& body(BodyView::Json(value)).post_data == Some(json_text(value))
            &&& body(BodyView::Form(form)).post_data == Some(form_text(form))
            &&& plain(BodyView::Raw { content_type, body: raw }).headers == Some(
                map!["Content-Type"@ => content_type],
            )
            &&& plain(BodyView::Json(value)).headers == Some(
                map!["Content-Type"@ => "application/json"@],
            )
            &&& plain(BodyView::Form(form)).headers == Some(
                map!["Content-Type"@ => "application/x-www-form-urlencoded"@],
            )
            &&& name != "Content-Type"@ && body(BodyView::Form(form)).headers->0.contains_key(name)
                ==> req.headers is Some && req.headers->0.contains_key(name)
        }),
{
}

/// Bytes are encoded one after the other: an unreserved one stands for itself, any other becomes a
/// percent sign and two digits, which are its value in upper-case hexadecimal.
pub proof fn bytes_are_encoded_one_by_one(a: Seq<u8>, b: Seq<u8>, byte: u8)
    ensures
        encoded_bytes(a + b) == encoded_bytes(a) + encoded_bytes(b),
        encoded_bytes(Seq::empty()) == Seq::<char>::empty(),
        ({
            let c = byte as char;
            let s = encoded_bytes(seq![byte]);
            let digit = |d: char| '0' <= d <= '9' || 'A' <= d <= 'F';
            let plain = 'A' <= c <= 'Z' || 'a' <= c <= 'z' || '0' <= c <= '9' || c == '-' || c == '_'
                || c == '.' || c == '~';
            &&& plain ==> s == seq![c]
            &&& !plain ==> {
                &&& s.len() == 3
                &&& s[0] == '%'
                &&& digit(s[1])
                &&& digit(s[2])
                &&& 16 * hex_value(s[1]) + hex_value(s[2]) == byte
            }
        }),
    decreases a.len(),
{
    reveal_with_fuel(encoded_bytes, 2);
    assert(seq![byte].drop_first() =~= Seq::<u8>::empty());
    assert(encoded_byte(byte) + Seq::<char>::empty() =~= encoded_byte(byte));
    if a.len() == 0 {
        assert(a + b =~= b);
        assert(encoded_bytes(a) + encoded_bytes(b) =~= encoded_bytes(b));
    } else {
        bytes_are_encoded_one_by_one(a.drop_first(), b, byte);
        assert((a + b).drop_first() =~= a.drop_first() + b);
        assert(encoded_byte(a[0]) + (encoded_bytes(a.drop_first()) + encoded_bytes(b))
            =~= encoded_bytes(a) + encoded_bytes(b));
    }
}

/// A text of letters, digits, hyphens, underscores, dots and tildes is encoded as itself.
pub proof fn plain_text_is_encoded_as_itself(s: Seq<char>)
    requires
        forall|i: int| 0 <= i < s.len() ==> encoding_char(#[trigger] s[i]) && s[i] != '%',
    ensures
        percent_encoded(s) == s,
{
    assert(vstd::utf8::is_ascii_chars(s));
    vstd::utf8::is_ascii_chars_encode_utf8(s);
    let bytes = vstd::utf8::encode_utf8(s);
    assert forall|i: int| 0 <= i < bytes.len() implies unreserved(#[trigger] bytes[i])
        && bytes[i] as char == s[i] by {
        assert(encoding_char(s[i]));
    }
    lemma_plain_bytes(bytes, s);
}

proof fn lemma_plain_bytes(bytes: Seq<u8>, s: Seq<char>)
    requires
        bytes.len() == s.len(),
        forall|i: int|
            0 <= i < bytes.len() ==> unreserved(#[trigger] bytes[i]) && bytes[i] as char == s[i],
    ensures
        encoded_bytes(bytes) == s,
    decreases bytes.len(),
{
    if bytes.len() > 0 {
        lemma_plain_bytes(bytes.drop_first(), s.drop_first());
        assert(s =~= seq![s[0]] + s.drop_first());
        assert(encoded_byte(bytes[0]) == seq![s[0]]);
    } else {
        assert(s =~= Seq::<char>::empty());
    }
}

/// The fields of a form are sent in text order of their names, each as its encoded name, an equals
/// sign and its encoded value, with an ampersand between one and the next.
pub proof fn forms_are_sent_field_by_field(
    p: Seq<(Seq<char>, Seq<char>)>,
    q: Seq<(Seq<char>, Seq<char>)>,
    name: Seq<char>,
    value: Seq<char>,
)
    requires
        fields::ascending(p + q),
        p.len() > 0,
        q.len() > 0,
    ensures
        form_text(fields::pairs_map(p + q)) == form_text(fields::pairs_map(p)) + "&"@ + form_text(
            fields::pairs_map(q),
        ),
        form_text(map![name => value]) == percent_encoded(name) + "="@ + percent_encoded(value),
        form_text(Map::empty()) == Seq::<char>::empty(),
{
    let all = p + q;
    assert(fields::ascending(p)) by {
        assert(forall|i: int| 0 <= i < p.len() ==> #[trigger] p[i] == all[i]);
    }
    assert(fields::ascending(q)) by {
        assert(forall|i: int| 0 <= i < q.len() ==> #[trigger] q[i] == all[i + p.len()]);
    }
    fields::listing_is_unique(all, fields::listing(fields::pairs_map(all)));
    fields::listing_is_unique(p, fields::listing(fields::pairs_map(p)));
    fields::listing_is_unique(q, fields::listing(fields::pairs_map(q)));
    assert(encoded_fields(all) =~= encoded_fields(p) + encoded_fields(q));
    text::joining_splits(encoded_fields(p), encoded_fields(q), Seq::empty(), "&"@);
    let one = seq![(name, value)];
    assert(fields::pairs_map(one) =~= map![name => value]) by {
        reveal_with_fuel(fields::pairs_map, 2);
        assert(one.drop_last() =~= Seq::<(Seq<char>, Seq<char>)>::empty());
    }
    fields::listing_is_unique(one, fields::listing(fields::pairs_map(one)));
    let part = percent_encoded(name) + "="@ + percent_encoded(value);
    assert(encoded_fields(one) =~= seq![part]);
    text::joining_splits(Seq::empty(), Seq::empty(), part, "&"@);
    let none = Seq::<(Seq<char>, Seq<char>)>::empty();
    assert(fields::pairs_map(none) =~= Map::empty());
    fields::listing_is_unique(none, fields::listing(fields::pairs_map(none)));
    assert(encoded_fields(none) =~= Seq::<Seq<char>>::empty());
}

/// A session command carries its name, session and proxy, and nothing of a solve; it is given a
/// minute.
pub proof fn session_commands_carry_nothing_else(
    cmd: Seq<char>,
    session: Option<Seq<char>>,
    proxy: Option<ProxyView>,
)
    ensures
        ({
            let w = session_wire(cmd, session, proxy);
            &&& w.cmd == cmd
            &&& w.session == session
            &&& w.proxy == proxy
            &&& w.url is None
            &&& w.post_data is None
            &&& w.cookies is None
            &&& w.headers is None
            &&& w.user_agent is None
            &&& w.locale is None
            &&& w.viewport is None
            &&& w.timezone is None
            &&& w.platform is None
            &&& !w.return_only_cookies
            &&& w.max_timeout == 60_000
            &&& w.max_timeout_secs == 60
        }),
{
}

/// A request on the wire says what it holds.
pub proof fn wire_requests_say_what_they_hold(w: WireRequest)
    ensures
        w@.cmd == w.cmd@,
        w@.url is Some <==> w.url is Some,
        w.url is Some ==> w@.url->0 == w.url->0@,
        w@.max_timeout == w.max_timeout,
        w@.max_timeout_secs == w.max_timeout_secs,
        w@.session is Some <==> w.session is Some,
        w.session is Some ==> w@.session->0 == w.session->0@,
        w@.post_data is Some <==> w.post_data is Some,
        w.post_data is Some ==> w@.post_data->0 == w.post_data->0@,
        w@.cookies is Some <==> w.cookies is Some,
        w.cookies is Some ==> w@.cookies->0 == cookie::views(w.cookies->0@),
        w@.headers is Some <==> w.headers is Some,
        w.headers is Some ==> w@.headers->0 == w.headers->0@,
        w@.proxy is Some <==> w.proxy is Some,
        w.proxy is Some ==> w@.proxy->0 == w.proxy->0@,
        w@.user_agent is Some <==> w.user_agent is Some,
        w.user_agent is Some ==> w@.user_agent->0 == w.user_agent->0@,
        w@.locale is Some <==> w.locale is Some,
        w.locale is Some ==> w@.locale->0 == w.locale->0@,
        w@.viewport == w.viewport,
        w@.timezone is Some <==> w.timezone is Some,
        w.timezone is Some ==> w@.timezone->0 == w.timezone->0@,
        w@.platform is Some <==> w.platform is Some,
        w.platform is Some ==> w@.platform->0 == w.platform->0@,
        w@.return_only_cookies == w.return_only_cookies,
{
}

} // verus!
