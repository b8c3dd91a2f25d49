//! Per-domain session cache so previously-solved cookies can be reused
//! without round-tripping through the (slow) solver.

use crate::cookie;
use crate::cookie::{Cookie, CookieView};
use crate::store::KeyedStore;
use crate::text;
use crate::time;
use crate::time::{Duration, Instant, SystemTime};
use vstd::prelude::*;

verus! {

#[derive(Debug)]
pub struct CachedSession {
    pub cookies: Vec<Cookie>,
    pub user_agent: String,
    /// HTTP status of the solve that produced this session.
    pub status: u16,
    pub solved_at: Instant,
    pub solved_at_system: SystemTime,
    pub expires_at: Option<Instant>,
}

/// What a [`CachedSession`] says.
pub struct SessionView {
    pub cookies: Seq<CookieView>,
    pub user_agent: Seq<char>,
    pub status: u16,
    pub solved_at: Instant,
    pub solved_at_system: SystemTime,
    pub expires_at: Option<Instant>,
}

impl View for CachedSession {
    type V = SessionView;

    open spec fn view(&self) -> SessionView {
        SessionView {
            cookies: cookie::views(self.cookies@),
            user_agent: self.user_agent@,
            status: self.status,
            solved_at: self.solved_at,
            solved_at_system: self.solved_at_system,
            expires_at: self.expires_at,
        }
    }
}

impl Clone for CachedSession {
    fn clone(&self) -> (r: Self)
        ensures
            r@ == self@,
    {
        CachedSession {
            cookies: cookie::clone_all(&self.cookies),
            user_agent: self.user_agent.clone(),
            status: self.status,
            solved_at: self.solved_at,
            solved_at_system: self.solved_at_system,
            expires_at: self.expires_at,
        }
    }
}

/// Whether a session is past its expiry at `now`.
pub open spec fn session_expired(s: SessionView, now: Instant) -> bool {
    match s.expires_at {
        Some(e) => now.nanos >= e.nanos,
        None => false,
    }
}

impl CachedSession {
    /// Time since the session was solved.
    pub fn age(&self, now: Instant) -> (d: Duration)
        ensures
            d == time::instant_since(now, self.solved_at),
    {
        now.since(self.solved_at)
    }

    pub fn is_expired(&self, now: Instant) -> (b: bool)
        ensures
            b == session_expired(self@, now),
    {
        match self.expires_at {
            Some(e) => now.nanos >= e.nanos,
            None => false,
        }
    }
}

#[derive(Debug, Clone, Copy)]
pub struct SessionCacheConfig {
    /// TTL applied when the underlying cookies have no usable expiry.
    pub default_ttl: Duration,
    /// Hard cap on cached domains. Once exceeded, entries are evicted in
    /// the index's iteration order (not LRU) until back under the cap.
    pub max_entries: usize,
    /// If `true`, derive `expires_at` from the soonest cookie expiry.
    pub respect_cookie_expiry: bool,
}

impl Default for SessionCacheConfig {
    fn default() -> (c: Self)
        ensures
            c.default_ttl.nanos == 30 * 60 * time::NANOS_PER_SEC,
            c.max_entries == 1000,
            c.respect_cookie_expiry,
    {
        SessionCacheConfig {
            default_ttl: Duration::from_secs(30 * 60),
            max_entries: 1000,
            respect_cookie_expiry: true,
        }
    }
}

/// The soonest of the cookies' expiries that still lie ahead at `now`.
pub open spec fn soonest_expiry(cookies: Seq<CookieView>, now: SystemTime) -> Option<SystemTime>
    decreases cookies.len(),
{
    if cookies.len() == 0 {
        None
    } else {
        let before = soonest_expiry(cookies.drop_last(), now);
        match cookies.last().expires {
            Some(e) => if e.unix_nanos <= now.unix_nanos {
                before
            } else {
                match before {
                    Some(b) => if e.unix_nanos < b.unix_nanos {
                        Some(e)
                    } else {
                        Some(b)
                    },
                    None => Some(e),
                }
            },
            None => before,
        }
    }
}

/// When a session with these cookies, solved at `now`, stops being served. A system clock that is
/// before the Unix epoch counts as being at it.
pub open spec fn expiry_of(
    config: SessionCacheConfig,
    cookies: Seq<CookieView>,
    now: Instant,
    now_system: SystemTime,
) -> Instant {
    let deadline = time::instant_after(now, config.default_ttl);
    let unix_now = time::epoch_or_later(now_system);
    match soonest_expiry(cookies, unix_now) {
        Some(e) if config.respect_cookie_expiry => {
            let from_cookie = time::instant_after(now, time::system_since(e, unix_now));
            if from_cookie.nanos < deadline.nanos {
                from_cookie
            } else {
                deadline
            }
        },
        _ => deadline,
    }
}

/// The session that a solve at `now` leaves behind.
pub open spec fn new_session(
    config: SessionCacheConfig,
    cookies: Seq<CookieView>,
    user_agent: Seq<char>,
    status: u16,
    now: Instant,
    now_system: SystemTime,
) -> SessionView {
    SessionView {
        cookies,
        user_agent,
        status,
        solved_at: now,
        solved_at_system: now_system,
        expires_at: Some(expiry_of(config, cookies, now, now_system)),
    }
}

/// The session that is served for `domain` at `now`, if any.
pub open spec fn served(
    sessions: Map<Seq<char>, SessionView>,
    domain: Seq<char>,
    now: Instant,
) -> Option<SessionView> {
    if sessions.contains_key(domain) && !session_expired(sessions[domain], now) {
        Some(sessions[domain])
    } else {
        None
    }
}

/// The sessions left after looking `domain` up at `now`: an expired one is dropped.
pub open spec fn after_lookup(
    sessions: Map<Seq<char>, SessionView>,
    domain: Seq<char>,
    now: Instant,
) -> Map<Seq<char>, SessionView> {
    if sessions.contains_key(domain) && session_expired(sessions[domain], now) {
        sessions.remove(domain)
    } else {
        sessions
    }
}

/// Whether `kept` is what eviction may leave of `full` under a cap of `max` entries: all of it
/// where it fits, else some `max` of its entries.
pub open spec fn evicted_to(
    full: Map<Seq<char>, SessionView>,
    kept: Map<Seq<char>, SessionView>,
    max: nat,
) -> bool {
    if full.dom().len() <= max {
        kept == full
    } else {
        kept.submap_of(full) && kept.dom().len() == max
    }
}

pub struct SessionCache {
    entries: KeyedStore<CachedSession>,
    config: SessionCacheConfig,
}

impl View for SessionCache {
    type V = Map<Seq<char>, SessionView>;

    /// The cached session of each domain, expired ones that were not looked up since included.
    closed spec fn view(&self) -> Map<Seq<char>, SessionView> {
        self.entries@.map_values(|s: CachedSession| s@)
    }
}

impl SessionCache {
    /// The limits that the cache was made with.
    pub closed spec fn limits(&self) -> SessionCacheConfig {
        self.config
    }

    pub closed spec fn wf(&self) -> bool {
        self.entries.wf()
    }

    pub fn new(config: SessionCacheConfig) -> (c: Self)
        ensures
            c.wf(),
            c@ == Map::<Seq<char>, SessionView>::empty(),
            c.limits() == config,
    {
        let c = SessionCache { entries: KeyedStore::new(), config };
        assert(c@ =~= Map::<Seq<char>, SessionView>::empty());
        c
    }

    /// The session to serve for `domain`. A session found to be expired is dropped.
    pub fn get(&mut self, domain: &str, now: Instant) -> (s: Option<CachedSession>)
        requires
            old(self).wf(),
        ensures
            final(self).wf(),
            final(self).limits() == old(self).limits(),
            final(self)@ == after_lookup(old(self)@, domain@, now),
            match s {
                Some(s) => served(old(self)@, domain@, now) == Some(s@),
                None => served(old(self)@, domain@, now) is None,
            },
    {
        let ghost before = self@;
        let expired = match self.entries.get(domain) {
            Some(session) => {
                if !session.is_expired(now) {
                    return Some(session.clone());
                }
                true
            },
            None => false,
        };
        if expired {
            self.entries.remove(domain);
            assert(self@ =~= before.remove(domain@));
        }
        None
    }

    /// Caches a fresh solve for `domain`, then evicts entries down to the cap.
    pub fn insert(
        &mut self,
        domain: String,
        cookies: Vec<Cookie>,
        user_agent: String,
        status: u16,
        now: Instant,
        now_system: SystemTime,
    )
        requires
            old(self).wf(),
        ensures
            final(self).wf(),
            final(self).limits() == old(self).limits(),
            evicted_to(
                old(self)@.insert(
                    domain@,
                    new_session(
                        old(self).limits(),
                        cookie::views(cookies@),
                        user_agent@,
                        status,
                        now,
                        now_system,
                    ),
                ),
                final(self)@,
                old(self).limits().max_entries as nat,
            ),
    {
        let ghost before = self@;
        let ghost key = domain@;
        let expires_at = Some(self.compute_expiry(&cookies, now, now_system));
        let session = CachedSession {
            cookies,
            user_agent,
            status,
            solved_at: now,
            solved_at_system: now_system,
            expires_at,
        };
        let ghost view = session@;
        self.entries.insert(domain, session);
        assert(self@ =~= before.insert(key, view));
        self.evict_if_needed();
    }

    pub fn invalidate(&mut self, domain: &str)
        requires
            old(self).wf(),
        ensures
            final(self).wf(),
            final(self).limits() == old(self).limits(),
            final(self)@ == old(self)@.remove(domain@),
    {
        let ghost before = self@;
        self.entries.remove(domain);
        assert(self@ =~= before.remove(domain@));
    }

    pub fn clear(&mut self)
        requires
            old(self).wf(),
        ensures
            final(self).wf(),
            final(self).limits() == old(self).limits(),
            final(self)@ == Map::<Seq<char>, SessionView>::empty(),
    {
        self.entries.clear();
        assert(self@ =~= Map::<Seq<char>, SessionView>::empty());
    }

    pub fn len(&self) -> (n: usize)
        requires
            self.wf(),
        ensures
            self@.dom().finite(),
            n == self@.dom().len(),
    {
        assert(self@.dom() =~= self.entries@.dom());
        self.entries.len()
    }

    fn compute_expiry(
        &self,
        cookies: &Vec<Cookie>,
        now: Instant,
        now_system: SystemTime,
    ) -> (e: Instant)
        ensures
            e == expiry_of(self.config, cookie::views(cookies@), now, now_system),
    {
        let deadline = now.after(self.config.default_ttl);
        if !self.config.respect_cookie_expiry {
            return deadline;
        }
        let unix_now = now_system.not_before_epoch();
        let mut soonest: Option<SystemTime> = None;
        let mut i: usize = 0;
        let ghost all = cookie::views(cookies@);
        while i < cookies.len()
            invariant
                i <= cookies.len(),
                all == cookie::views(cookies@),
                soonest == soonest_expiry(all.take(i as int), unix_now),
            decreases cookies.len() - i,
        {
            assert(all.take(i + 1).drop_last() =~= all.take(i as int));
            if let Some(e) = cookies[i].expires {
                if e.unix_nanos > unix_now.unix_nanos {
                    soonest = match soonest {
                        Some(b) => if e.unix_nanos < b.unix_nanos {
                            Some(e)
                        } else {
                            Some(b)
                        },
                        None => Some(e),
                    };
                }
            }
            i = i + 1;
        }
        assert(all.take(cookies.len() as int) =~= all);
        match soonest {
            Some(e) => {
                let from_cookie = now.after(e.since(unix_now));
                if from_cookie.nanos < deadline.nanos {
                    from_cookie
                } else {
                    deadline
                }
            },
            None => deadline,
        }
    }

    /// Drops entries, whichever the index yields first, until the cap is kept.
    fn evict_if_needed(&mut self)
        requires
            old(self).wf(),
        ensures
            final(self).wf(),
            final(self).limits() == old(self).limits(),
            evicted_to(old(self)@, final(self)@, old(self).limits().max_entries as nat),
    {
        let ghost full = self@;
        let max: usize = self.config.max_entries;
        let mut n: usize = self.len();
        let ghost total = n;
        while n > max
            invariant
                self.wf(),
                self.config == old(self).config,
                full == old(self)@,
                max == self.config.max_entries,
                self@.submap_of(full),
                self@.dom().finite(),
                n == self@.dom().len(),
                total == full.dom().len(),
                n == total ==> self@ == full,
                n <= total,
                total > max ==> n >= max,
                total <= max ==> n == total,
            decreases n,
        {
            let ghost before = self@;
            match self.entries.any_key() {
                Some(victim) => {
                    assert(self@.dom() =~= self.entries@.dom());
                    self.entries.remove(victim.as_str());
                    assert(self@ =~= before.remove(victim@));
                    assert(before.dom().contains(victim@));
                    n = self.len();
                },
                None => {
                    assert(self@.dom() =~= Set::<Seq<char>>::empty());
                    return ;
                },
            }
        }
    }
}

/// A host, as it stands in a URL.
pub enum UrlHost {
    /// A domain name.
    Domain(String),
    /// An IP address, in its URL form.
    Address(String),
}

/// What a [`UrlHost`] says.
pub enum HostView {
    Domain(Seq<char>),
    Address(Seq<char>),
}

impl View for UrlHost {
    type V = HostView;

    open spec fn view(&self) -> HostView {
        match self {
            UrlHost::Domain(d) => HostView::Domain(d@),
            UrlHost::Address(a) => HostView::Address(a@),
        }
    }
}

pub open spec fn opt_host(h: Option<UrlHost>) -> Option<HostView> {
    match h {
        Some(h) => Some(h@),
        None => None,
    }
}

/// The host of a URL, as the `url` crate parses it; `None` where the text is no URL or has no host.
pub uninterp spec fn url_host(url: Seq<char>) -> Option<HostView>;

/// `url::Url::parse` and `url::Url::host`: the host of the URL, a domain name as it is and an IP
/// address in its URL form. What comes out depends on the text alone.
#[verifier::external_body]
fn parse_host(url: &str) -> (host: Option<UrlHost>)
    ensures
        opt_host(host) == url_host(url@),
{
    let parsed = url::Url::parse(url).ok()?;
    match parsed.host()? {
        url::Host::Domain(d) => Some(UrlHost::Domain(d.to_string())),
        ip => Some(UrlHost::Address(ip.to_string())),
    }
}

/// The registrable domain (eTLD+1) of a host name, by the public suffix list of the `psl` crate.
pub uninterp spec fn registrable_domain(host: Seq<char>) -> Option<Seq<char>>;

/// `psl::domain_str`: looks the name up in the list compiled into the crate; depends on the name
/// alone.
#[verifier::external_body]
fn find_registrable(host: &str) -> (domain: Option<String>)
    ensures
        text::opt_text(domain) == registrable_domain(host@),
{
    psl::domain_str(host).map(|d| d.to_string())
}

/// The key under which sessions of a host are cached, given the registrable domain of its name.
pub open spec fn registrable_or_host(host: Seq<char>, registrable: Option<Seq<char>>) -> Seq<char> {
    match registrable {
        Some(d) => d,
        None => host,
    }
}

/// The key under which sessions of a host are cached.
pub open spec fn host_key(host: HostView) -> Seq<char> {
    match host {
        HostView::Domain(d) => registrable_or_host(
            text::ascii_lower(d),
            registrable_domain(text::ascii_lower(d)),
        ),
        HostView::Address(a) => text::ascii_lower(a),
    }
}

/// The key under which sessions of a URL are cached.
pub open spec fn url_key(url: Seq<char>) -> Option<Seq<char>> {
    match url_host(url) {
        Some(h) => Some(host_key(h)),
        None => None,
    }
}

/// The registrable domain where there is one, else the host itself.
pub fn domain_or_host(host: String, registrable: Option<String>) -> (key: String)
    ensures
        key@ == registrable_or_host(host@, text::opt_text(registrable)),
{
    match registrable {
        Some(d) => d,
        None => host,
    }
}

/// The cache key of a host. IP literals have no registrable domain; they are keyed on the address
/// itself.
pub fn key_of_host(host: UrlHost) -> (key: String)
    ensures
        key@ == host_key(host@),
{
    match host {
        UrlHost::Domain(d) => {
            let lower = text::to_ascii_lowercase(d.as_str());
            let registrable = find_registrable(lower.as_str());
            domain_or_host(lower, registrable)
        },
        UrlHost::Address(a) => text::to_ascii_lowercase(a.as_str()),
    }
}

/// Extract the registrable domain (eTLD+1, e.g. `walmart.com` for
/// `www.walmart.com`) from a URL, so cookies solved on one subdomain are
/// reused across siblings. Falls back to the full host for IPs, `localhost`,
/// and unknown suffixes. Returns `None` if `url` can't be parsed or has no
/// host.
pub fn extract_domain(url: &str) -> (key: Option<String>)
    ensures
        text::opt_text(key) == url_key(url@),
{
    match parse_host(url) {
        Some(host) => Some(key_of_host(host)),
        None => None,
    }
}

/// Hosts with the same registrable domain share one key, whatever their letter case and
/// subdomains.
pub proof fn siblings_share_a_key(a: Seq<char>, b: Seq<char>, site: Seq<char>)
    ensures
        registrable_domain(text::ascii_lower(a)) == Some(site) && registrable_domain(
            text::ascii_lower(b),
        ) == Some(site) ==> {
            &&& host_key(HostView::Domain(a)) == site
            &&& host_key(HostView::Domain(b)) == site
        },
{
}

/// A cached session is served, as it was written, from the moment of the solve until it expires,
/// and not from then on.
pub proof fn session_is_served_until_expiry(
    config: SessionCacheConfig,
    sessions: Map<Seq<char>, SessionView>,
    domain: Seq<char>,
    cookies: Seq<CookieView>,
    user_agent: Seq<char>,
    status: u16,
    solved: Instant,
    solved_system: SystemTime,
    now: Instant,
)
    ensures
        ({
            let session = new_session(config, cookies, user_agent, status, solved, solved_system);
            let after = sessions.insert(domain, session);
            if now.nanos < expiry_of(config, cookies, solved, solved_system).nanos {
                served(after, domain, now) == Some(session)
            } else {
                served(after, domain, now) is None
            }
        }),
{
}

/// Caching a session for one domain changes nothing for the others.
pub proof fn other_domains_are_untouched(
    sessions: Map<Seq<char>, SessionView>,
    domain: Seq<char>,
    session: SessionView,
    other: Seq<char>,
    now: Instant,
)
    requires
        other != domain,
    ensures
        served(sessions.insert(domain, session), other, now) == served(sessions, other, now),
        served(sessions.remove(domain), other, now) == served(sessions, other, now),
{
}

/// A session lives no longer than the default TTL, and, where cookie expiry is respected, no
/// longer than any of its cookies that had not expired yet.
pub proof fn sessions_expire_with_their_cookies(
    config: SessionCacheConfig,
    cookies: Seq<CookieView>,
    now: Instant,
    now_system: SystemTime,
    i: int,
)
    requires
        config.respect_cookie_expiry,
        0 <= i < cookies.len(),
        cookies[i].expires is Some,
        cookies[i].expires->0.unix_nanos > time::epoch_or_later(now_system).unix_nanos,
    ensures
        expiry_of(config, cookies, now, now_system).nanos <= time::instant_after(
            now,
            config.default_ttl,
        ).nanos,
        expiry_of(config, cookies, now, now_system).nanos <= time::instant_after(
            now,
            time::system_since(cookies[i].expires->0, time::epoch_or_later(now_system)),
        ).nanos,
{
    lemma_soonest(cookies, time::epoch_or_later(now_system), i);
}

proof fn lemma_soonest(cookies: Seq<CookieView>, now: SystemTime, i: int)
    requires
        0 <= i < cookies.len(),
        cookies[i].expires is Some,
        cookies[i].expires->0.unix_nanos > now.unix_nanos,
    ensures
        soonest_expiry(cookies, now) is Some,
        now.unix_nanos < soonest_expiry(cookies, now)->0.unix_nanos
            <= cookies[i].expires->0.unix_nanos,
    decreases cookies.len(),
{
    lemma_soonest_ahead(cookies.drop_last(), now);
    if i < cookies.len() - 1 {
        lemma_soonest(cookies.drop_last(), now, i);
    }
}

proof fn lemma_soonest_ahead(cookies: Seq<CookieView>, now: SystemTime)
    ensures
        soonest_expiry(cookies, now) is Some ==> now.unix_nanos < soonest_expiry(
            cookies,
            now,
        )->0.unix_nanos,
    decreases cookies.len(),
{
    if cookies.len() > 0 {
        lemma_soonest_ahead(cookies.drop_last(), now);
    }
}

/// The cache never holds more than its cap after an insert.
pub proof fn eviction_keeps_the_cap(
    full: Map<Seq<char>, SessionView>,
    kept: Map<Seq<char>, SessionView>,
    max: nat,
)
    requires
        evicted_to(full, kept, max),
    ensures
        kept.dom().len() <= max,
        forall|d: Seq<char>| #[trigger]
            kept.contains_key(d) ==> full.contains_key(d) && kept[d] == full[d],
{
    if full.dom().len() > max {
        assert forall|d: Seq<char>| #[trigger] kept.contains_key(d) implies full.contains_key(d)
            && kept[d] == full[d] by {
            assert(kept.dom().contains(d));
        }
    }
}

proof fn lemma_soonest_is_some_cookies(cookies: Seq<CookieView>, now: SystemTime) -> (i: int)
    requires
        soonest_expiry(cookies, now) is Some,
    ensures
        0 <= i < cookies.len(),
        cookies[i].expires == soonest_expiry(cookies, now),
        cookies[i].expires->0.unix_nanos > now.unix_nanos,
    decreases cookies.len(),
{
    let d = cookies.drop_last();
    if soonest_expiry(d, now) is Some && soonest_expiry(d, now) == soonest_expiry(cookies, now) {
        let i = lemma_soonest_is_some_cookies(d, now);
        assert(d[i] == cookies[i]);
        i
    } else {
        cookies.len() - 1
    }
}

/// A session is served as long as neither the default TTL nor, where cookie expiry is respected,
/// any of its cookies with an expiry ahead has run out: nothing else ends it.
pub proof fn nothing_else_ends_a_session(
    config: SessionCacheConfig,
    sessions: Map<Seq<char>, SessionView>,
    domain: Seq<char>,
    cookies: Seq<CookieView>,
    user_agent: Seq<char>,
    status: u16,
    now: Instant,
    now_system: SystemTime,
    t: Instant,
)
    requires
        t.nanos < time::instant_after(now, config.default_ttl).nanos,
        config.respect_cookie_expiry ==> forall|i: int|
            0 <= i < cookies.len() && (#[trigger] cookies[i]).expires is Some
                && cookies[i].expires->0.unix_nanos > time::epoch_or_later(now_system).unix_nanos
                ==> t.nanos < time::instant_after(
                now,
                time::system_since(cookies[i].expires->0, time::epoch_or_later(now_system)),
            ).nanos,
    ensures
        expiry_of(config, cookies, now, now_system).nanos > t.nanos,
        ({
            let session = new_session(config, cookies, user_agent, status, now, now_system);
            &&& !session_expired(session, t)
            &&& served(sessions.insert(domain, session), domain, t) == Some(session)
            &&& after_lookup(sessions.insert(domain, session), domain, t).contains_key(domain)
        }),
{
    let unix_now = time::epoch_or_later(now_system);
    if config.respect_cookie_expiry && soonest_expiry(cookies, unix_now) is Some {
        let i = lemma_soonest_is_some_cookies(cookies, unix_now);
        assert(cookies[i].expires is Some);
    }
}

/// A session whose cookies all outlive the default TTL, or have no expiry ahead, and any session
/// where cookie expiry is not respected, lasts for the default TTL exactly. In general a session
/// ends exactly with the TTL or with one of its cookies.
pub proof fn sessions_last_for_the_default_ttl(
    config: SessionCacheConfig,
    cookies: Seq<CookieView>,
    now: Instant,
    now_system: SystemTime,
)
    ensures
        !config.respect_cookie_expiry || (forall|i: int|
            0 <= i < cookies.len() && (#[trigger] cookies[i]).expires is Some
                && cookies[i].expires->0.unix_nanos > time::epoch_or_later(now_system).unix_nanos
                ==> time::instant_after(now, config.default_ttl).nanos <= time::instant_after(
                now,
                time::system_since(cookies[i].expires->0, time::epoch_or_later(now_system)),
            ).nanos) ==> expiry_of(config, cookies, now, now_system) == time::instant_after(
            now,
            config.default_ttl,
        ),
        expiry_of(config, cookies, now, now_system) == time::instant_after(now, config.default_ttl)
            || exists|i: int|
            0 <= i < cookies.len() && (#[trigger] cookies[i]).expires is Some
                && cookies[i].expires->0.unix_nanos > time::epoch_or_later(now_system).unix_nanos
                && expiry_of(config, cookies, now, now_system) == time::instant_after(
                now,
                time::system_since(cookies[i].expires->0, time::epoch_or_later(now_system)),
            ),
{
    let unix_now = time::epoch_or_later(now_system);
    if soonest_expiry(cookies, unix_now) is Some {
        let i = lemma_soonest_is_some_cookies(cookies, unix_now);
        assert(cookies[i].expires is Some);
    }
}

/// The session that a solve leaves behind holds what the solve brought and when, and has an expiry.
pub proof fn a_session_keeps_what_the_solve_brought(
    config: SessionCacheConfig,
    cookies: Seq<CookieView>,
    user_agent: Seq<char>,
    status: u16,
    now: Instant,
    now_system: SystemTime,
)
    ensures
        ({
            let s = new_session(config, cookies, user_agent, status, now, now_system);
            &&& s.cookies == cookies
            &&& s.user_agent == user_agent
            &&& s.status == status
            &&& s.solved_at == now
            &&& s.solved_at_system == now_system
            &&& s.expires_at is Some
        }),
{
}

/// A lookup finds the session of the domain unless there is none or its expiry has come; one that
/// has no expiry is always found. What it finds past its expiry is dropped, and nothing else is.
pub proof fn a_lookup_finds_what_has_not_expired(
    sessions: Map<Seq<char>, SessionView>,
    domain: Seq<char>,
    other: Seq<char>,
    now: Instant,
)
    ensures
        served(sessions, domain, now) is Some ==> sessions.contains_key(domain) && served(
            sessions,
            domain,
            now,
        )->0 == sessions[domain],
        sessions.contains_key(domain) && sessions[domain].expires_at is None ==> served(
            sessions,
            domain,
            now,
        ) is Some,
        sessions.contains_key(domain) && sessions[domain].expires_at is Some ==> (served(
            sessions,
            domain,
            now,
        ) is Some <==> now.nanos < sessions[domain].expires_at->0.nanos),
        after_lookup(sessions, domain, now).contains_key(domain) <==> served(
            sessions,
            domain,
            now,
        ) is Some,
        served(after_lookup(sessions, domain, now), domain, now) == served(sessions, domain, now),
        other != domain ==> {
            &&& after_lookup(sessions, domain, now).contains_key(other) == sessions.contains_key(
                other,
            )
            &&& sessions.contains_key(other) ==> after_lookup(sessions, domain, now)[other]
                == sessions[other]
        },
{
}

/// Eviction drops what is over the cap and not one entry more; nothing where all fits.
pub proof fn eviction_drops_only_the_excess(
    full: Map<Seq<char>, SessionView>,
    kept: Map<Seq<char>, SessionView>,
    max: nat,
)
    requires
        evicted_to(full, kept, max),
    ensures
        full.dom().len() <= max ==> kept == full,
        full.dom().len() > max ==> kept.dom().len() == max,
{
}

/// A URL has a key if and only if it has a host. The key of a host name is its registrable domain,
/// or the name in lower case where it has none; the key of an address is the address.
pub proof fn keys_fall_back_to_the_host(url: Seq<char>, host: Seq<char>)
    ensures
        url_key(url) is Some <==> url_host(url) is Some,
        url_host(url) is Some ==> url_key(url)->0 == host_key(url_host(url)->0),
        registrable_domain(text::ascii_lower(host)) is None ==> host_key(HostView::Domain(host))
            == text::ascii_lower(host),
        host_key(HostView::Address(host)) == text::ascii_lower(host),
{
}

/// A cached session says what it holds.
pub proof fn sessions_say_what_they_hold(s: CachedSession, i: int)
    ensures
        s@.cookies.len() == s.cookies@.len(),
        0 <= i < s.cookies@.len() ==> s@.cookies[i] == s.cookies@[i]@,
        s@.user_agent == s.user_agent@,
        s@.status == s.status,
        s@.solved_at == s.solved_at,
        s@.solved_at_system == s.solved_at_system,
        s@.expires_at == s.expires_at,
{
}

/// A host says what it holds.
pub proof fn hosts_say_what_they_hold(h: UrlHost)
    ensures
        h is Domain ==> h@ == HostView::Domain(h->Domain_0@),
        h is Address ==> h@ == HostView::Address(h->Address_0@),
        opt_host(Some(h)) == Some(h@),
        opt_host(None) is None,
{
}

} // verus!
