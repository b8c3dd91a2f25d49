//! Cookies, as sent with solve requests and returned in solutions.

use crate::text;
use crate::time::SystemTime;
use vstd::prelude::*;

verus! {

#[derive(Debug, Clone, Copy, PartialEq, Eq, Structural)]
pub enum SameSite {
    Strict,
    Lax,
    /// `SameSite=None`: sent with cross-site requests too.
    Unrestricted,
}

/// HTTP cookie used in solve requests and returned in solutions.
#[derive(Debug)]
pub struct Cookie {
    pub name: String,
    pub value: String,
    pub domain: String,
    pub path: String,
    /// When the cookie expires. Providers mark session cookies with a time that does not come
    /// after the epoch.
    pub expires: Option<SystemTime>,
    pub http_only: bool,
    pub secure: bool,
    pub same_site: Option<SameSite>,
}

/// What a [`Cookie`] says.
pub struct CookieView {
    pub name: Seq<char>,
    pub value: Seq<char>,
    pub domain: Seq<char>,
    pub path: Seq<char>,
    pub expires: Option<SystemTime>,
    pub http_only: bool,
    pub secure: bool,
    pub same_site: Option<SameSite>,
}

impl View for Cookie {
    type V = CookieView;

    open spec fn view(&self) -> CookieView {
        CookieView {
            name: self.name@,
            value: self.value@,
            domain: self.domain@,
            path: self.path@,
            expires: self.expires,
            http_only: self.http_only,
            secure: self.secure,
            same_site: self.same_site,
        }
    }
}

/// What each of `cookies` says.
pub open spec fn views(cookies: Seq<Cookie>) -> Seq<CookieView> {
    cookies.map_values(|c: Cookie| c@)
}

/// What each of an optional list of cookies says.
pub open spec fn opt_views(cookies: Option<Vec<Cookie>>) -> Option<Seq<CookieView>> {
    match cookies {
        Some(v) => Some(views(v@)),
        None => None,
    }
}

impl Clone for Cookie {
    fn clone(&self) -> (r: Self)
        ensures
            r@ == self@,
    {
        Cookie {
            name: self.name.clone(),
            value: self.value.clone(),
            domain: self.domain.clone(),
            path: self.path.clone(),
            expires: self.expires,
            http_only: self.http_only,
            secure: self.secure,
            same_site: self.same_site,
        }
    }
}

pub fn clone_all(cookies: &Vec<Cookie>) -> (r: Vec<Cookie>)
    ensures
        views(r@) == views(cookies@),
{
    let mut r: Vec<Cookie> = Vec::new();
    let mut i: usize = 0;
    while i < cookies.len()
        invariant
            i <= cookies.len(),
            r.len() == i,
            forall|j: int| 0 <= j < i ==> (#[trigger] r[j])@ == cookies[j]@,
        decreases cookies.len() - i,
    {
        r.push(cookies[i].clone());
        i = i + 1;
    }
    assert(views(r@) =~= views(cookies@));
    r
}

impl Cookie {
    pub fn new(name: &str, value: &str) -> (c: Self)
        ensures
            c@ == (CookieView {
                name: name@,
                value: value@,
                domain: Seq::empty(),
                path: Seq::empty(),
                expires: None,
                http_only: false,
                secure: false,
                same_site: None,
            }),
    {
        Cookie {
            name: name.to_string(),
            value: value.to_string(),
            domain: String::new(),
            path: String::new(),
            expires: None,
            http_only: false,
            secure: false,
            same_site: None,
        }
    }

    pub fn with_domain(self, domain: &str) -> (c: Self)
        ensures
            c@ == (CookieView { domain: domain@, ..self@ }),
    {
        let mut c = self;
        c.domain = domain.to_string();
        c
    }

    pub fn with_path(self, path: &str) -> (c: Self)
        ensures
            c@ == (CookieView { path: path@, ..self@ }),
    {
        let mut c = self;
        c.path = path.to_string();
        c
    }

    pub fn with_expires(self, expires: SystemTime) -> (c: Self)
        ensures
            c@ == (CookieView { expires: Some(expires), ..self@ }),
    {
        let mut c = self;
        c.expires = Some(expires);
        c
    }

    pub fn with_http_only(self, http_only: bool) -> (c: Self)
        ensures
            c@ == (CookieView { http_only, ..self@ }),
    {
        let mut c = self;
        c.http_only = http_only;
        c
    }

    pub fn with_secure(self, secure: bool) -> (c: Self)
        ensures
            c@ == (CookieView { secure, ..self@ }),
    {
        let mut c = self;
        c.secure = secure;
        c
    }

    pub fn with_same_site(self, same_site: SameSite) -> (c: Self)
        ensures
            c@ == (CookieView { same_site: Some(same_site), ..self@ }),
    {
        let mut c = self;
        c.same_site = Some(same_site);
        c
    }

    /// Whether the cookie's time to live is over at `now`. Session cookies, whose expiry is absent
    /// or not after the epoch, never count as expired.
    pub fn is_expired(&self, now: SystemTime) -> (b: bool)
        ensures
            b == expired(self@, now),
    {
        match self.expires {
            Some(e) => 0 < e.unix_nanos && e.unix_nanos <= now.unix_nanos,
            None => false,
        }
    }

    fn same_identity(&self, other: &Cookie) -> (b: bool)
        ensures
            b == (identity(self@) == identity(other@)),
    {
        self.name == other.name && self.domain == other.domain && self.path == other.path
    }
}

pub open spec fn expired(c: CookieView, now: SystemTime) -> bool {
    match c.expires {
        Some(e) => 0 < e.unix_nanos <= now.unix_nanos,
        None => false,
    }
}

/// `name=value` of each cookie that has not expired, in order.
pub open spec fn live_pairs(cookies: Seq<CookieView>, now: SystemTime) -> Seq<Seq<char>>
    decreases cookies.len(),
{
    if cookies.len() == 0 {
        seq![]
    } else {
        let before = live_pairs(cookies.drop_last(), now);
        let c = cookies.last();
        if expired(c, now) {
            before
        } else {
            before.push(c.name + "="@ + c.value)
        }
    }
}

/// The `Cookie` header for `cookies` at `now`.
pub fn header_value(cookies: &Vec<Cookie>, now: SystemTime) -> (s: String)
    ensures
        s@ == text::joined(live_pairs(views(cookies@), now), "; "@),
{
    let mut pairs: Vec<String> = Vec::new();
    let mut i: usize = 0;
    while i < cookies.len()
        invariant
            i <= cookies.len(),
            text::texts(pairs@) == live_pairs(views(cookies@).take(i as int), now),
        decreases cookies.len() - i,
    {
        let ghost all = views(cookies@);
        assert(all.take(i + 1).drop_last() =~= all.take(i as int));
        if !cookies[i].is_expired(now) {
            let mut pair = cookies[i].name.clone();
            pair.append("=");
            pair.append(cookies[i].value.as_str());
            pairs.push(pair);
        }
        assert(text::texts(pairs@) =~= live_pairs(all.take(i + 1), now));
        i = i + 1;
    }
    assert(views(cookies@).take(cookies.len() as int) =~= views(cookies@));
    text::join(&pairs, "; ")
}

/// What makes a cookie the same cookie: its name, domain and path.
pub open spec fn identity(c: CookieView) -> (Seq<char>, Seq<char>, Seq<char>) {
    (c.name, c.domain, c.path)
}

/// Index of the first of `cookies` with identity `id`, or their number when there is none.
pub open spec fn find(cookies: Seq<CookieView>, id: (Seq<char>, Seq<char>, Seq<char>)) -> int
    decreases cookies.len(),
{
    if cookies.len() == 0 || identity(cookies[0]) == id {
        0
    } else {
        1 + find(cookies.drop_first(), id)
    }
}

/// `cookies` with `c` in the place of the first cookie of its identity, or at the end.
pub open spec fn put(cookies: Seq<CookieView>, c: CookieView) -> Seq<CookieView> {
    let i = find(cookies, identity(c));
    if i < cookies.len() {
        cookies.update(i, c)
    } else {
        cookies.push(c)
    }
}

/// `base` after each of `extra` has been put into it, in order.
pub open spec fn merged(base: Seq<CookieView>, extra: Seq<CookieView>) -> Seq<CookieView>
    decreases extra.len(),
{
    if extra.len() == 0 {
        base
    } else {
        put(merged(base, extra.drop_last()), extra.last())
    }
}

fn put_cookie(base: &mut Vec<Cookie>, c: Cookie)
    ensures
        views(final(base)@) == put(views(old(base)@), c@),
{
    let ghost vs = views(base@);
    let mut i: usize = 0;
    assert(vs.skip(0) =~= vs);
    while i < base.len() && !base[i].same_identity(&c)
        invariant
            i <= base.len(),
            vs == views(base@),
            base@ == old(base)@,
            find(vs, identity(c@)) == i + find(vs.skip(i as int), identity(c@)),
        decreases base.len() - i,
    {
        assert(vs.skip(i as int).drop_first() =~= vs.skip(i + 1));
        i = i + 1;
    }
    assert(find(vs.skip(i as int), identity(c@)) == 0);
    let ghost view = c@;
    if i < base.len() {
        base.set(i, c);
        assert(views(base@) =~= vs.update(i as int, view));
    } else {
        base.push(c);
        assert(views(base@) =~= vs.push(view));
    }
}

/// Apply additional cookies to an existing solution. Cookies are matched by
/// the RFC 6265 identity tuple (name, domain, path) so `/` and `/api` cookies
/// of the same name coexist instead of clobbering each other.
pub fn merge_cookies(base: &mut Vec<Cookie>, extra: Vec<Cookie>)
    ensures
        views(final(base)@) == merged(views(old(base)@), views(extra@)),
{
    let mut i: usize = 0;
    while i < extra.len()
        invariant
            i <= extra.len(),
            views(base@) == merged(views(old(base)@), views(extra@).take(i as int)),
        decreases extra.len() - i,
    {
        put_cookie(base, extra[i].clone());
        assert(views(extra@).take(i + 1).drop_last() =~= views(extra@).take(i as int));
        i = i + 1;
    }
    assert(views(extra@).take(extra.len() as int) =~= views(extra@));
}

/// Whether no two of `cookies` have the same identity.
pub open spec fn distinct(cookies: Seq<CookieView>) -> bool {
    forall|i: int, j: int|
        0 <= i < j < cookies.len() ==> identity(#[trigger] cookies[i]) != identity(
            #[trigger] cookies[j],
        )
}

proof fn lemma_find(cookies: Seq<CookieView>, id: (Seq<char>, Seq<char>, Seq<char>))
    ensures
        0 <= find(cookies, id) <= cookies.len(),
        find(cookies, id) < cookies.len() ==> identity(cookies[find(cookies, id)]) == id,
        forall|i: int| 0 <= i < find(cookies, id) ==> identity(#[trigger] cookies[i]) != id,
    decreases cookies.len(),
{
    if cookies.len() > 0 && identity(cookies[0]) != id {
        let rest = cookies.drop_first();
        lemma_find(rest, id);
        assert forall|i: int| 0 <= i < find(cookies, id) implies identity(#[trigger] cookies[i])
            != id by {
            if i > 0 {
                assert(cookies[i] == rest[i - 1]);
            }
        }
    }
}

/// Merging into a list without duplicates leaves it without duplicates.
pub proof fn merge_keeps_cookies_distinct(base: Seq<CookieView>, extra: Seq<CookieView>)
    requires
        distinct(base),
    ensures
        distinct(merged(base, extra)),
    decreases extra.len(),
{
    if extra.len() > 0 {
        merge_keeps_cookies_distinct(base, extra.drop_last());
        lemma_find(merged(base, extra.drop_last()), identity(extra.last()));
    }
}

/// A cookie of the base list that no extra cookie matches keeps its place and its contents.
pub proof fn merge_keeps_unmatched(base: Seq<CookieView>, extra: Seq<CookieView>, i: int)
    requires
        0 <= i < base.len(),
        forall|j: int| 0 <= j < extra.len() ==> identity(#[trigger] extra[j]) != identity(base[i]),
    ensures
        i < merged(base, extra).len(),
        merged(base, extra)[i] == base[i],
    decreases extra.len(),
{
    if extra.len() > 0 {
        assert forall|j: int| 0 <= j < extra.drop_last().len() implies identity(
            #[trigger] extra.drop_last()[j],
        ) != identity(base[i]) by {
            assert(extra.drop_last()[j] == extra[j]);
        }
        merge_keeps_unmatched(base, extra.drop_last(), i);
        lemma_find(merged(base, extra.drop_last()), identity(extra.last()));
        assert(identity(extra[extra.len() - 1]) != identity(base[i]));
    }
}

/// After a merge, the first cookie with the identity of an extra cookie is the last such extra
/// cookie.
pub proof fn merge_takes_last_extra(base: Seq<CookieView>, extra: Seq<CookieView>, j: int)
    requires
        0 <= j < extra.len(),
        forall|k: int| j < k < extra.len() ==> identity(#[trigger] extra[k]) != identity(extra[j]),
    ensures
        ({
            let m = merged(base, extra);
            let i = find(m, identity(extra[j]));
            i < m.len() && m[i] == extra[j]
        }),
    decreases extra.len(),
{
    let before = merged(base, extra.drop_last());
    let m = merged(base, extra);
    let id = identity(extra[j]);
    lemma_find(before, identity(extra.last()));
    lemma_find(before, id);
    lemma_find(m, id);
    let i = find(m, id);
    if j == extra.len() - 1 {
        let at = find(before, id);
        assert(m[at] == extra[j]);
        assert(i <= at);
        if i < at {
            assert(m[i] == before[i]);
        }
    } else {
        merge_takes_last_extra(base, extra.drop_last(), j);
        let at = find(before, id);
        let put_at = find(before, identity(extra.last()));
        assert(identity(extra[extra.len() - 1]) != id);
        assert(put_at != at);
        assert(m[at] == before[at]);
        assert(i <= at);
        if i < at {
            if i != put_at {
                assert(m[i] == before[i]);
            }
        }
    }
}

/// A cookie with an expiry after the epoch is expired from that moment on and not before; one
/// without, a session cookie, never is.
pub proof fn cookies_expire_when_they_say(c: CookieView, e: SystemTime, now: SystemTime)
    ensures
        c.expires == Some(e) && e.unix_nanos > 0 ==> (expired(c, now) <==> now.unix_nanos
            >= e.unix_nanos),
        c.expires == Some(e) && e.unix_nanos <= 0 ==> !expired(c, now),
        c.expires is None ==> !expired(c, now),
{
}

/// The pairs of a list are those of its parts in turn; a live cookie gives `name=value`, an expired
/// one gives nothing.
pub proof fn pairs_come_from_live_cookies(
    a: Seq<CookieView>,
    b: Seq<CookieView>,
    c: CookieView,
    now: SystemTime,
)
    ensures
        live_pairs(a + b, now) == live_pairs(a, now) + live_pairs(b, now),
        !expired(c, now) ==> live_pairs(seq![c], now) == seq![c.name + "="@ + c.value],
        expired(c, now) ==> live_pairs(seq![c], now) == Seq::<Seq<char>>::empty(),
        live_pairs(Seq::empty(), now) == Seq::<Seq<char>>::empty(),
    decreases b.len(),
{
    reveal_with_fuel(live_pairs, 2);
    assert(seq![c].drop_last() =~= Seq::<CookieView>::empty());
    if b.len() == 0 {
        assert(a + b =~= a);
        assert(live_pairs(a, now) + live_pairs(b, now) =~= live_pairs(a, now));
    } else {
        pairs_come_from_live_cookies(a, b.drop_last(), c, now);
        assert((a + b).drop_last() =~= a + b.drop_last());
        assert((a + b).last() == b.last());
        if !expired(b.last(), now) {
            let pair = b.last().name + "="@ + b.last().value;
            assert((live_pairs(a, now) + live_pairs(b.drop_last(), now)).push(pair) =~= live_pairs(
                a,
                now,
            ) + live_pairs(b.drop_last(), now).push(pair));
        }
    }
}

/// Cookies are the same cookie if and only if name, domain and path are the same.
pub proof fn cookies_are_told_apart_by_name_domain_and_path(a: CookieView, b: CookieView)
    ensures
        identity(a) == identity(b) <==> a.name == b.name && a.domain == b.domain && a.path == b.path,
{
}

/// Merging one cookie replaces the first that is the same cookie and nothing else, or adds it at the
/// end where there is none; merging more is merging them one after the other.
pub proof fn merging_goes_cookie_by_cookie(
    base: Seq<CookieView>,
    c: CookieView,
    a: Seq<CookieView>,
    b: Seq<CookieView>,
    i: int,
)
    ensures
        0 <= i < base.len() && identity(base[i]) == identity(c) && (forall|j: int|
            0 <= j < i ==> identity(#[trigger] base[j]) != identity(c)) ==> merged(base, seq![c])
            == base.update(i, c),
        (forall|j: int| 0 <= j < base.len() ==> identity(#[trigger] base[j]) != identity(c))
            ==> merged(base, seq![c]) == base.push(c),
        merged(base, Seq::empty()) == base,
        merged(base, a + b) == merged(merged(base, a), b),
    decreases b.len(),
{
    reveal_with_fuel(merged, 2);
    assert(seq![c].drop_last() =~= Seq::<CookieView>::empty());
    lemma_find(base, identity(c));
    let f = find(base, identity(c));
    if 0 <= i < base.len() && identity(base[i]) == identity(c) && (forall|j: int|
        0 <= j < i ==> identity(#[trigger] base[j]) != identity(c)) {
        if f < i {
            assert(identity(base[f]) != identity(c));
        }
        assert(f == i);
    }
    if b.len() == 0 {
        assert(a + b =~= a);
    } else {
        merging_goes_cookie_by_cookie(base, c, a, b.drop_last(), i);
        assert((a + b).drop_last() =~= a + b.drop_last());
        assert((a + b).last() == b.last());
    }
}

/// What each of a list of cookies says, in order.
pub proof fn cookies_are_viewed_one_by_one(cookies: Seq<Cookie>, i: int)
    requires
        0 <= i < cookies.len(),
    ensures
        views(cookies).len() == cookies.len(),
        views(cookies)[i] == cookies[i]@,
{
}

/// A cookie says what it holds.
pub proof fn cookies_say_what_they_hold(c: Cookie, v: Vec<Cookie>)
    ensures
        c@.name == c.name@,
        c@.value == c.value@,
        c@.domain == c.domain@,
        c@.path == c.path@,
        c@.expires == c.expires,
        c@.http_only == c.http_only,
        c@.secure == c.secure,
        c@.same_site == c.same_site,
        opt_views(Some(v)) == Some(views(v@)),
        opt_views(None) is None,
{
}

} // verus!
