//! Provider-side persistent sessions.

use crate::client;
use crate::client::{Antibot, AntibotView, Start};
use crate::error::{AntibotError, ErrorView};
use crate::exchange;
use crate::exchange::{Dispatch, Exchange, ExchangeView, Reply, ReplyView};
use crate::pool;
use crate::provider::ProviderView;
use crate::proxy;
use crate::proxy::ProxyConfig;
use crate::request;
use crate::request::{MethodView, RequestView, SolveRequest};
use crate::session_cache;
use crate::text;
use crate::time::Instant;
use crate::wire;
use crate::wire::WireRequest;
use vstd::prelude::*;

verus! {

/// Handle to a provider-side persistent session.
///
/// All requests through the handle are pinned to the instance that created the
/// session — provider sessions are not shared across instances.
#[derive(Debug)]
pub struct SessionHandle {
    id: String,
    instance_url: String,
    destroyed: bool,
}

/// What a [`SessionHandle`] says.
pub struct HandleView {
    pub id: Seq<char>,
    pub instance_url: Seq<char>,
    pub destroyed: bool,
}

impl View for SessionHandle {
    type V = HandleView;

    closed spec fn view(&self) -> HandleView {
        HandleView {
            id: self.id@,
            instance_url: self.instance_url@,
            destroyed: self.destroyed,
        }
    }
}

/// What the outcome of creating a session says.
pub open spec fn handle_outcome(r: Result<SessionHandle, AntibotError>) -> Result<
    HandleView,
    ErrorView,
> {
    match r {
        Ok(h) => Ok(h@),
        Err(e) => Err(e@),
    }
}

/// What creating a session on the instance at `base` comes to, where `requested` is the id that
/// was asked for.
pub open spec fn created(
    base: Seq<char>,
    requested: Option<Seq<char>>,
    reply: ReplyView,
) -> Result<HandleView, ErrorView> {
    match exchange::answer_of(reply) {
        Err(e) => Err(e),
        Ok(r) => if r.status != "ok"@ {
            Err(ErrorView::ChallengeFailed { url: "<sessions.create>"@, reason: r.message })
        } else if r.session is Some {
            Ok(HandleView { id: r.session->0, instance_url: base, destroyed: false })
        } else if requested is Some {
            Ok(HandleView { id: requested->0, instance_url: base, destroyed: false })
        } else {
            Err(ErrorView::UnexpectedResponse("no session id returned"@))
        },
    }
}

/// What destroying a session comes to.
pub open spec fn destroyed(reply: ReplyView) -> Result<(), ErrorView> {
    match exchange::answer_of(reply) {
        Err(e) => Err(e),
        Ok(r) => if r.status != "ok"@ {
            Err(ErrorView::SessionNotFound(r.message))
        } else {
            Ok(())
        },
    }
}

/// The exchange that destroys the session `id` on the instance at `base`.
pub open spec fn destroy_exchange(base: Seq<char>, id: Seq<char>) -> ExchangeView {
    exchange::exchange_of(base, wire::session_wire("sessions.destroy"@, Some(id), None))
}

impl Antibot {
    /// Create a persistent browser session on the provider.
    pub fn create_session(&mut self) -> (r: Result<Dispatch, AntibotError>)
        requires
            old(self).wf(),
        ensures
            final(self).wf(),
            creation_began(old(self)@, None, None, r, final(self)@),
    {
        self.create_session_with(None, None)
    }

    /// Create a persistent browser session, under an id and through a proxy of the caller's
    /// choice: reserves an instance, and says what to send to it.
    pub fn create_session_with(
        &mut self,
        session_id: Option<String>,
        proxy: Option<ProxyConfig>,
    ) -> (r: Result<Dispatch, AntibotError>)
        requires
            old(self).wf(),
        ensures
            final(self).wf(),
            creation_began(
                old(self)@,
                text::opt_text(session_id),
                proxy::opt_proxy(proxy),
                r,
                final(self)@,
            ),
    {
        // Upstream Byparr has no sessions.create; it would solve its default
        // URL and return no session id. Fail fast with a clear error instead.
        if self.is_byparr() {
            return Err(
                AntibotError::UnsupportedFeature {
                    provider: "Byparr".to_string(),
                    feature: "sessions".to_string(),
                },
            );
        }
        let wire = WireRequest::sessions_create(session_id, proxy);
        let (instance, exchange) = self.lease_for(wire);
        Ok(Dispatch { instance, exchange, warning: None })
    }

    /// Reads the reply to the exchange that was to create a session on `instance`. `session_id` is
    /// the id that was asked for.
    ///
    /// Sessions live inside a single provider instance, so the handle pins
    /// every subsequent request to the instance that created it.
    pub fn session_created(
        &self,
        instance: usize,
        session_id: Option<String>,
        reply: Reply,
    ) -> (r: Result<SessionHandle, AntibotError>)
        requires
            instance < self@.pool.instances.len(),
        ensures
            handle_outcome(r) == created(
                self@.pool.instances[instance as int].base_url,
                text::opt_text(session_id),
                reply@,
            ),
    {
        let base = self.instance_url(instance).to_string();
        let api_resp = match exchange::post_v1(reply) {
            Ok(r) => r,
            Err(e) => return Err(e),
        };
        if !text::same(api_resp.status.as_str(), "ok") {
            return Err(
                AntibotError::ChallengeFailed {
                    url: "<sessions.create>".to_string(),
                    reason: api_resp.message,
                },
            );
        }
        let id = match api_resp.session {
            Some(id) => id,
            None => match session_id {
                Some(id) => id,
                None => return Err(
                    AntibotError::UnexpectedResponse("no session id returned".to_string()),
                ),
            },
        };
        Ok(SessionHandle { id, instance_url: base, destroyed: false })
    }

    /// Tear down a provider session by id: reserves an instance, and says what to send to it.
    ///
    /// Note: with multiple instances this picks one least-loaded; prefer
    /// [`SessionHandle::destroy`], which targets the instance that owns the
    /// session.
    pub fn destroy_session(&mut self, id: &str) -> (d: Dispatch)
        requires
            old(self).wf(),
        ensures
            final(self).wf(),
            d.instance < old(self)@.pool.instances.len(),
            pool::routes_to(old(self)@.pool, None, d.instance as int),
            d.exchange@ == destroy_exchange(
                old(self)@.pool.instances[d.instance as int].base_url,
                id@,
            ),
            d.warning is None,
            final(self)@ == (AntibotView {
                pool: pool::leased(old(self)@.pool, None, d.instance as int),
                ..old(self)@
            }),
    {
        let wire = WireRequest::sessions_destroy(id.to_string());
        let (instance, exchange) = self.lease_for(wire);
        Dispatch { instance, exchange, warning: None }
    }
}

/// Whether the client `a` begins to create a session with `r`, and becomes `b`.
pub open spec fn creation_began(
    a: AntibotView,
    session_id: Option<Seq<char>>,
    proxy: Option<crate::proxy::ProxyView>,
    r: Result<Dispatch, AntibotError>,
    b: AntibotView,
) -> bool {
    match r {
        Ok(d) => {
            &&& a.config.provider_hint != Some(ProviderView::Byparr)
            &&& d.instance < a.pool.instances.len()
            &&& pool::routes_to(a.pool, None, d.instance as int)
            &&& d.exchange@ == exchange::exchange_of(
                a.pool.instances[d.instance as int].base_url,
                wire::session_wire("sessions.create"@, session_id, proxy),
            )
            &&& d.warning is None
            &&& b == AntibotView { pool: pool::leased(a.pool, None, d.instance as int), ..a }
        },
        Err(e) => {
            &&& a.config.provider_hint == Some(ProviderView::Byparr)
            &&& e@ == client::unsupported_by_byparr("sessions"@)
            &&& b == a
        },
    }
}

/// Reads the reply to the exchange that was to destroy a session.
pub fn session_destroyed(reply: Reply) -> (r: Result<(), AntibotError>)
    ensures
        crate::docker::done_view(r) == destroyed(reply@),
{
    let api_resp = match exchange::post_v1(reply) {
        Ok(r) => r,
        Err(e) => return Err(e),
    };
    if !text::same(api_resp.status.as_str(), "ok") {
        return Err(AntibotError::SessionNotFound(api_resp.message));
    }
    Ok(())
}

/// A request as it is sent through the session `id`: part of the session, and past the cache.
pub open spec fn in_session(id: Seq<char>, req: RequestView) -> RequestView {
    RequestView { session_id: Some(id), bypass_cache: true, ..req }
}

impl SessionHandle {
    pub fn id(&self) -> (s: &str)
        ensures
            s@ == self@.id,
    {
        self.id.as_str()
    }

    /// Base URL of the instance that owns this session.
    pub fn instance_url(&self) -> (s: &str)
        ensures
            s@ == self@.instance_url,
    {
        self.instance_url.as_str()
    }

    pub fn execute(&self, antibot: &mut Antibot, request: SolveRequest, now: Instant) -> (r: Start)
        requires
            old(antibot).wf(),
        ensures
            final(antibot).wf(),
            client::started(
                old(antibot)@,
                in_session(self@.id, request@),
                Some(self@.instance_url),
                session_cache::url_key(request@.url),
                client::call_key(old(antibot)@, request@.url),
                now,
                r@,
                final(antibot)@,
            ),
    {
        let req = request.with_session(self.id.as_str()).bypass_cache();
        antibot.execute_pinned(req, Some(self.instance_url.as_str()), now)
    }

    pub fn solve(&self, antibot: &mut Antibot, url: &str, now: Instant) -> (r: Start)
        requires
            old(antibot).wf(),
        ensures
            final(antibot).wf(),
            client::started(
                old(antibot)@,
                in_session(self@.id, request::plain_request(url@, MethodView::Get)),
                Some(self@.instance_url),
                session_cache::url_key(url@),
                client::call_key(old(antibot)@, url@),
                now,
                r@,
                final(antibot)@,
            ),
    {
        self.execute(antibot, SolveRequest::get(url), now)
    }

    fn destroy_exchange(&self) -> (e: Exchange)
        ensures
            e@ == destroy_exchange(self@.instance_url, self@.id),
    {
        exchange::exchange(
            self.instance_url.as_str(),
            WireRequest::sessions_destroy(self.id.clone()),
        )
    }

    /// Tear down the session, on the instance that owns it.
    pub fn destroy(&mut self) -> (e: Exchange)
        ensures
            e@ == destroy_exchange(old(self)@.instance_url, old(self)@.id),
            final(self)@ == (HandleView { destroyed: true, ..old(self)@ }),
    {
        self.destroyed = true;
        self.destroy_exchange()
    }

    /// The handle is going away: the exchange that tears down the session, unless that has been
    /// done.
    pub fn abandon(&mut self) -> (e: Option<Exchange>)
        ensures
            match e {
                Some(e) => !old(self)@.destroyed && e@ == destroy_exchange(
                    old(self)@.instance_url,
                    old(self)@.id,
                ),
                None => old(self)@.destroyed,
            },
            final(self)@ == (HandleView { destroyed: true, ..old(self)@ }),
    {
        if self.destroyed {
            return None;
        }
        self.destroyed = true;
        Some(self.destroy_exchange())
    }
}

/// A request through a session is never answered from the cache, shared or cached, and goes to the
/// instance that owns the session.
pub proof fn sessions_are_private(
    a: AntibotView,
    h: HandleView,
    req: RequestView,
    domain: Option<Seq<char>>,
    key: Option<Seq<char>>,
    now: Instant,
    r: client::StartView,
    b: AntibotView,
    i: int,
)
    requires
        client::started(
            a,
            in_session(h.id, req),
            Some(h.instance_url),
            domain,
            key,
            now,
            r,
            b,
        ),
        !client::refused(a.config, req),
        pool::position(a.pool.instances, h.instance_url) < a.pool.instances.len(),
    ensures
        r is Run,
        !r->Run_0.cache_write,
        r->Run_0.call is None,
        r->Run_0.pinned == Some(h.instance_url),
        r->Run_0.request.session_id == Some(h.id),
        b == a,
        pool::routes_to(b.pool, r->Run_0.pinned, i) <==> i == pool::position(
            a.pool.instances,
            h.instance_url,
        ),
{
}

/// Requests through a session go to the instance that owns it, wherever in the pool that stands, as
/// long as the pool has an instance with its URL; they carry the id of the session and are
/// otherwise the caller's own, past the cache.
pub proof fn sessions_stay_on_their_instance(
    a: AntibotView,
    h: HandleView,
    req: RequestView,
    domain: Option<Seq<char>>,
    key: Option<Seq<char>>,
    now: Instant,
    r: client::StartView,
    b: AntibotView,
    home: int,
    i: int,
)
    requires
        client::started(
            a,
            in_session(h.id, req),
            Some(h.instance_url),
            domain,
            key,
            now,
            r,
            b,
        ),
        r is Run,
        0 <= home < a.pool.instances.len(),
        a.pool.instances[home].base_url == h.instance_url,
        pool::routes_to(b.pool, r->Run_0.pinned, i),
    ensures
        0 <= i <= home,
        b.pool.instances[i].base_url == h.instance_url,
        r->Run_0.request.session_id == Some(h.id),
        !r->Run_0.cache_write,
        r->Run_0.call is None,
        wire::solve_wire(r->Run_0.request, b.config.max_timeout_ms).session == Some(h.id),
        wire::solve_wire(r->Run_0.request, b.config.max_timeout_ms).url == Some(req.url),
{
    pool::pinned_requests_go_to_their_instance(a.pool, h.instance_url, home, i, home);
}

/// Only the session and the way past the cache are added to a request that goes through a session.
pub proof fn sessions_add_only_their_id(id: Seq<char>, req: RequestView)
    ensures
        ({
            let s = in_session(id, req);
            &&& s.session_id == Some(id)
            &&& s.bypass_cache
            &&& s.url == req.url
            &&& s.method == req.method
            &&& s.headers == req.headers
            &&& s.cookies == req.cookies
            &&& s.max_timeout_ms == req.max_timeout_ms
            &&& s.proxy == req.proxy
            &&& s.fingerprint == req.fingerprint
            &&& s.return_only_cookies == req.return_only_cookies
        }),
{
}

/// A session is created if and only if the provider answers `ok` and there is an id for it: the one
/// that the provider names, else the one that was asked for. It belongs to the instance that was
/// asked, and has not been destroyed. Any other reply says why there is none.
pub proof fn sessions_are_created_where_they_were_asked_for(
    base: Seq<char>,
    requested: Option<Seq<char>>,
    reply: ReplyView,
)
    ensures
        ({
            let r = created(base, requested, reply);
            let ok = reply is Answered && reply->Answered_0.status == "ok"@;
            &&& r is Ok <==> ok && (reply->Answered_0.session is Some || requested is Some)
            &&& r is Ok ==> r->Ok_0.instance_url == base && !r->Ok_0.destroyed
            &&& r is Ok && reply->Answered_0.session is Some ==> r->Ok_0.id
                == reply->Answered_0.session->0
            &&& r is Ok && reply->Answered_0.session is None ==> r->Ok_0.id == requested->0
            &&& reply is Failed ==> r == Err::<HandleView, ErrorView>(
                ErrorView::Http(reply->Failed_0),
            )
            &&& reply is Refused ==> r is Err && r->Err_0 is ProviderHttp
                && r->Err_0->ProviderHttp_status == reply->Refused_status
            &&& reply is Answered && !ok ==> r is Err && r->Err_0 is ChallengeFailed
                && r->Err_0->ChallengeFailed_reason == reply->Answered_0.message
            &&& ok && r is Err ==> r->Err_0 is UnexpectedResponse
        }),
{
}

/// A session is destroyed if and only if the provider answers `ok`; another answer means that it was
/// not found, and carries the provider's message.
pub proof fn sessions_are_destroyed_when_the_provider_says_so(reply: ReplyView)
    ensures
        destroyed(reply) is Ok <==> reply is Answered && reply->Answered_0.status == "ok"@,
        reply is Answered && reply->Answered_0.status != "ok"@ ==> destroyed(reply) == Err::<
            (),
            ErrorView,
        >(ErrorView::SessionNotFound(reply->Answered_0.message)),
        reply is Failed ==> destroyed(reply) == Err::<(), ErrorView>(
            ErrorView::Http(reply->Failed_0),
        ),
        reply is Refused ==> destroyed(reply) is Err && destroyed(reply)->Err_0 is ProviderHttp
            && destroyed(reply)->Err_0->ProviderHttp_status == reply->Refused_status,
{
}

/// The exchange that destroys a session goes to the instance given, names the session, and nothing
/// else.
pub proof fn destroying_names_the_session(base: Seq<char>, id: Seq<char>)
    ensures
        destroy_exchange(base, id).url == base + "/v1"@,
        destroy_exchange(base, id).wire.cmd == "sessions.destroy"@,
        destroy_exchange(base, id).wire.session == Some(id),
        destroy_exchange(base, id).wire.url is None,
        destroy_exchange(base, id).wire.proxy is None,
{
}

/// Byparr, which has no sessions, is never asked for one; any other provider is, with the id and the
/// proxy that were asked for, on a least-loaded instance, which is reserved for it.
pub proof fn byparr_is_never_asked_for_a_session(
    a: AntibotView,
    session_id: Option<Seq<char>>,
    proxy: Option<crate::proxy::ProxyView>,
    r: Result<Dispatch, AntibotError>,
    b: AntibotView,
    other: int,
)
    requires
        creation_began(a, session_id, proxy, r, b),
        0 <= other < a.pool.instances.len(),
    ensures
        r is Err <==> a.config.provider_hint == Some(ProviderView::Byparr),
        r is Err ==> b == a && r->Err_0@ is UnsupportedFeature && r->Err_0@->feature == "sessions"@
            && r->Err_0@->provider == "Byparr"@,
        r is Ok ==> {
            let d = r->Ok_0;
            &&& d.instance < a.pool.instances.len()
            &&& a.pool.instances[d.instance as int].inflight <= a.pool.instances[other].inflight
            &&& d.exchange@.url == a.pool.instances[d.instance as int].base_url + "/v1"@
            &&& d.exchange@.wire.cmd == "sessions.create"@
            &&& d.exchange@.wire.session == session_id
            &&& d.exchange@.wire.proxy == proxy
            &&& b == AntibotView { pool: b.pool, ..a }
            &&& a.pool.instances[d.instance as int].inflight < usize::MAX
                ==> b.pool.instances[d.instance as int].inflight
                == a.pool.instances[d.instance as int].inflight + 1
        },
{
    if r is Ok {
        pool::pinned_requests_go_to_their_instance(
            a.pool,
            Seq::empty(),
            other,
            r->Ok_0.instance as int,
            other,
        );
    }
}

} // verus!
