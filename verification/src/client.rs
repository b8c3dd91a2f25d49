//! The client: which requests may share a solve, what is cached, what is retried, and what is sent
//! to which instance.
//!
//! Nothing here talks to a provider or reads a clock. Each call takes what has happened and says
//! what to do next.

use crate::coalesce;
use crate::coalesce::{CallStep, CallView, CoalesceKey, CoalescerView, SolveCoalescer};
use crate::cookie;
use crate::debug_replay;
use crate::debug_replay::{Artifacts, ArtifactsView, DebugSink};
use crate::docker;
use crate::docker::{DockerManager, ManagerView};
use crate::error::{AntibotError, ErrorView};
use crate::exchange;
use crate::exchange::{Dispatch, Exchange};
use crate::metrics;
use crate::metrics::{Metrics, MetricsSnapshot};
use crate::pool;
use crate::pool::{InstancePool, PoolView};
use crate::provider;
use crate::provider::{Provider, ProviderView};
use crate::proxy;
use crate::proxy::{ProxyConfig, ProxyView};
use crate::request;
use crate::request::{MethodView, PostBody, RequestView, SolveMethod, SolveRequest};
use crate::retry;
use crate::retry::RetryPolicy;
use crate::session_cache;
use crate::session_cache::{SessionCache, SessionCacheConfig, SessionView};
use crate::text;
use crate::time;
use crate::time::{Instant, SystemTime};
use crate::types;
use crate::types::{Solution, SolutionSource, SolutionView};
use crate::wire;
use crate::wire::WireRequest;
use vstd::prelude::*;

verus! {

/// What a client was set up with.
pub struct ClientConfig {
    pub max_timeout_ms: u64,
    pub default_proxy: Option<ProxyConfig>,
    pub retry_policy: RetryPolicy,
    pub docker_manager: Option<DockerManager>,
    pub manage_lifecycle: bool,
    pub health_check_attempts_on_recovery: u32,
    /// The provider on the other end, where it is known.
    pub provider_hint: Option<Provider>,
}

/// What a [`ClientConfig`] says.
pub struct ConfigView {
    pub max_timeout_ms: u64,
    pub default_proxy: Option<ProxyView>,
    pub retry_policy: RetryPolicy,
    pub docker_manager: Option<ManagerView>,
    pub manage_lifecycle: bool,
    pub health_check_attempts_on_recovery: u32,
    pub provider_hint: Option<ProviderView>,
}

impl View for ClientConfig {
    type V = ConfigView;

    open spec fn view(&self) -> ConfigView {
        ConfigView {
            max_timeout_ms: self.max_timeout_ms,
            default_proxy: proxy::opt_proxy(self.default_proxy),
            retry_policy: self.retry_policy,
            docker_manager: opt_manager(self.docker_manager),
            manage_lifecycle: self.manage_lifecycle,
            health_check_attempts_on_recovery: self.health_check_attempts_on_recovery,
            provider_hint: provider::opt_provider(self.provider_hint),
        }
    }
}

pub open spec fn opt_manager(m: Option<DockerManager>) -> Option<ManagerView> {
    match m {
        Some(m) => Some(m@),
        None => None,
    }
}

/// The cached sessions of a client, and the limits of its cache.
pub struct SessionsView {
    pub entries: Map<Seq<char>, SessionView>,
    pub limits: SessionCacheConfig,
}

/// The coalesced calls of a client, and how it groups them.
pub struct CallsView {
    pub calls: CoalescerView,
    pub strategy: CoalesceKey,
}

/// The state of a client.
pub struct AntibotView {
    pub config: ConfigView,
    pub pool: PoolView,
    /// `None` where caching is off.
    pub sessions: Option<SessionsView>,
    /// `None` where coalescing is off.
    pub calls: Option<CallsView>,
    pub metrics: Metrics,
    pub sink: Option<DebugSink>,
    pub shutdown: bool,
    pub compat_warned: bool,
}

/// Client for solving bot-detection challenges via Byparr/FlareSolverr.
pub struct Antibot {
    config: ClientConfig,
    pool: InstancePool,
    session_cache: Option<SessionCache>,
    coalescer: Option<SolveCoalescer>,
    metrics: Metrics,
    debug_sink: Option<DebugSink>,
    shutdown: bool,
    provider_compat_warned: bool,
}

pub open spec fn sessions_of(c: Option<SessionCache>) -> Option<SessionsView> {
    match c {
        Some(c) => Some(SessionsView { entries: c@, limits: c.limits() }),
        None => None,
    }
}

pub open spec fn calls_of(c: Option<SolveCoalescer>) -> Option<CallsView> {
    match c {
        Some(c) => Some(CallsView { calls: c@, strategy: c.strategy() }),
        None => None,
    }
}

impl View for Antibot {
    type V = AntibotView;

    closed spec fn view(&self) -> AntibotView {
        AntibotView {
            config: self.config@,
            pool: self.pool@,
            sessions: sessions_of(self.session_cache),
            calls: calls_of(self.coalescer),
            metrics: self.metrics,
            sink: self.debug_sink,
            shutdown: self.shutdown,
            compat_warned: self.provider_compat_warned,
        }
    }
}

/// The key of a URL's coalesced call, where the client coalesces.
pub open spec fn call_key(a: AntibotView, url: Seq<char>) -> Option<Seq<char>> {
    match a.calls {
        Some(c) => coalesce::coalesce_key_of(c.strategy, url),
        None => None,
    }
}

/// Whether the request is refused because the provider would run it as something else: Byparr
/// silently runs a POST as a GET, so a submitted form would never actually be sent.
pub open spec fn refused(c: ConfigView, req: RequestView) -> bool {
    c.provider_hint == Some(ProviderView::Byparr) && req.method is Post
}

pub open spec fn unsupported_by_byparr(feature: Seq<char>) -> ErrorView {
    ErrorView::UnsupportedFeature { provider: "Byparr"@, feature }
}

/// The request with the client's proxy, unless it names its own.
pub open spec fn with_default_proxy(c: ConfigView, req: RequestView) -> RequestView {
    RequestView {
        proxy: match req.proxy {
            Some(p) => Some(p),
            None => c.default_proxy,
        },
        ..req
    }
}

/// Whether a request may share a solve with strangers: only when nothing about it is
/// caller-specific, that is a plain GET with no session, no pre-seeded cookies, and no proxy or
/// fingerprint of its own, that any instance may serve.
pub open spec fn shareable(req: RequestView, pinned: Option<Seq<char>>) -> bool {
    &&& req.session_id is None
    &&& req.method is Get
    &&& req.cookies is None
    &&& req.fingerprint is None
    &&& req.proxy is None
    &&& pinned is None
}

/// Whether the session cache is asked for `domain` before `req` is solved.
pub open spec fn reads_cache(
    a: AntibotView,
    req: RequestView,
    pinned: Option<Seq<char>>,
    domain: Option<Seq<char>>,
) -> bool {
    shareable(req, pinned) && !req.bypass_cache && a.sessions is Some && domain is Some
}

/// The cached session that answers `req`, if any.
pub open spec fn cached_answer(
    a: AntibotView,
    req: RequestView,
    pinned: Option<Seq<char>>,
    domain: Option<Seq<char>>,
    now: Instant,
) -> Option<SessionView> {
    if reads_cache(a, req, pinned, domain) {
        session_cache::served(a.sessions->0.entries, domain->0, now)
    } else {
        None
    }
}

/// The sessions left after `req` has looked for one.
pub open spec fn sessions_after_lookup(
    a: AntibotView,
    req: RequestView,
    pinned: Option<Seq<char>>,
    domain: Option<Seq<char>>,
    now: Instant,
) -> Option<SessionsView> {
    if reads_cache(a, req, pinned, domain) {
        Some(
            SessionsView {
                entries: session_cache::after_lookup(a.sessions->0.entries, domain->0, now),
                ..a.sessions->0
            },
        )
    } else {
        a.sessions
    }
}

/// The solution that a cached session stands for.
pub open spec fn cached_solution(url: Seq<char>, s: SessionView, now: Instant) -> SolutionView {
    SolutionView {
        url,
        status: s.status,
        cookies: s.cookies,
        user_agent: s.user_agent,
        response: None,
        solved_at: s.solved_at_system,
        source: SolutionSource::Cached { age: time::instant_since(now, s.solved_at) },
    }
}

/// A solve that is to be run.
pub struct SolveJob {
    pub request: SolveRequest,
    /// Whether the solution goes into the session cache. Bypassing the cache skips the read but not
    /// the write: a fresh solve must replace the (presumably stale) cached entry, otherwise the
    /// next plain solve would serve the very cookies the caller just rejected.
    pub cache_write: bool,
    /// The instance that the request must go to, if it must go to a particular one.
    pub pinned: Option<String>,
    /// The key of the session cache.
    pub domain: Option<String>,
    /// The coalesced call that this is, if it may be shared.
    pub call: Option<usize>,
}

/// What a [`SolveJob`] says.
pub struct JobView {
    pub request: RequestView,
    pub cache_write: bool,
    pub pinned: Option<Seq<char>>,
    pub domain: Option<Seq<char>>,
    pub call: Option<usize>,
}

impl View for SolveJob {
    type V = JobView;

    open spec fn view(&self) -> JobView {
        JobView {
            request: self.request@,
            cache_write: self.cache_write,
            pinned: text::opt_text(self.pinned),
            domain: text::opt_text(self.domain),
            call: self.call,
        }
    }
}

/// How a request begins.
pub enum Start {
    /// It is answered already.
    Done(Result<Solution, AntibotError>),
    /// It has to be solved.
    Run(SolveJob),
}

/// What a [`Start`] says.
pub enum StartView {
    Done(Result<SolutionView, ErrorView>),
    Run(JobView),
}

impl View for Start {
    type V = StartView;

    open spec fn view(&self) -> StartView {
        match self {
            Start::Done(r) => StartView::Done(types::outcome(*r)),
            Start::Run(job) => StartView::Run(job@),
        }
    }
}

/// Whether `call` is a new call of the coalescer for `key`, and `b` the client that has entered it.
pub open spec fn entered(a: AntibotView, key: Seq<char>, call: usize, b: AntibotView) -> bool {
    let c = a.calls->0;
    &&& !c.calls.calls.contains_key(call)
    &&& b == AntibotView {
        calls: Some(
            CallsView { calls: coalesce::joined_as(c.calls, call, key), strategy: c.strategy },
        ),
        metrics: if c.calls.inflight.contains_key(key) {
            metrics::with_coalesced_wait(a.metrics)
        } else {
            a.metrics
        },
        ..a
    }
}

/// Whether the client `a`, asked for `req`, begins with `r` and becomes `b`, where `domain` keys
/// the session cache and `key` the coalesced calls.
pub open spec fn started(
    a: AntibotView,
    req: RequestView,
    pinned: Option<Seq<char>>,
    domain: Option<Seq<char>>,
    key: Option<Seq<char>>,
    now: Instant,
    r: StartView,
    b: AntibotView,
) -> bool {
    if refused(a.config, req) {
        &&& r == StartView::Done(Err(unsupported_by_byparr("POST requests"@)))
        &&& b == a
    } else {
        match cached_answer(a, req, pinned, domain, now) {
            Some(s) => {
                &&& r == StartView::Done(Ok(cached_solution(req.url, s, now)))
                &&& b == AntibotView { metrics: metrics::with_cache_hit(a.metrics), ..a }
            },
            None => {
                let looked = AntibotView {
                    sessions: sessions_after_lookup(a, req, pinned, domain, now),
                    ..a
                };
                &&& r is Run
                &&& r->Run_0 == (JobView {
                    request: with_default_proxy(a.config, req),
                    cache_write: shareable(req, pinned),
                    pinned,
                    domain,
                    call: r->Run_0.call,
                })
                &&& if shareable(req, pinned) && a.calls is Some && key is Some {
                    r->Run_0.call is Some && entered(looked, key->0, r->Run_0.call->0, b)
                } else {
                    r->Run_0.call is None && b == looked
                }
            },
        }
    }
}

/// What to do next about a solve.
pub enum SolveStep {
    /// Send the request, for the time given (1-indexed).
    Dispatch { attempt: u32 },
    /// Let the backoff before this attempt pass.
    Backoff { attempt: u32 },
    /// The solve is over. The artifacts are to be written, as far as that works.
    Done { outcome: Result<Solution, AntibotError>, artifacts: Option<Artifacts> },
}

/// What a [`SolveStep`] says.
pub enum SolveStepView {
    Dispatch { attempt: u32 },
    Backoff { attempt: u32 },
    Done { outcome: Result<SolutionView, ErrorView>, artifacts: Option<ArtifactsView> },
}

pub open spec fn opt_artifacts(a: Option<Artifacts>) -> Option<ArtifactsView> {
    match a {
        Some(a) => Some(a@),
        None => None,
    }
}

impl View for SolveStep {
    type V = SolveStepView;

    open spec fn view(&self) -> SolveStepView {
        match self {
            SolveStep::Dispatch { attempt } => SolveStepView::Dispatch { attempt: *attempt },
            SolveStep::Backoff { attempt } => SolveStepView::Backoff { attempt: *attempt },
            SolveStep::Done { outcome, artifacts } => SolveStepView::Done {
                outcome: types::outcome(*outcome),
                artifacts: opt_artifacts(*artifacts),
            },
        }
    }
}

/// How a solve begins under `policy`.
pub open spec fn first_step(policy: RetryPolicy) -> SolveStepView {
    if policy.max_attempts == 0 {
        SolveStepView::Done {
            outcome: Err(ErrorView::UnexpectedResponse("retry loop exited without result"@)),
            artifacts: None,
        }
    } else {
        SolveStepView::Dispatch { attempt: 1 }
    }
}

/// Whether `after` is what may be left of the cached sessions `before` once the solution `s` of
/// `job` has come in.
pub open spec fn cached(
    before: Option<SessionsView>,
    job: JobView,
    s: SolutionView,
    now: Instant,
    now_system: SystemTime,
    after: Option<SessionsView>,
) -> bool {
    if job.cache_write && before is Some && job.domain is Some {
        &&& after is Some
        &&& after->0.limits == before->0.limits
        &&& session_cache::evicted_to(
            before->0.entries.insert(
                job.domain->0,
                session_cache::new_session(
                    before->0.limits,
                    s.cookies,
                    s.user_agent,
                    s.status,
                    now,
                    now_system,
                ),
            ),
            after->0.entries,
            before->0.limits.max_entries as nat,
        )
    } else {
        after == before
    }
}

pub open spec fn sink_after_write(k: Option<DebugSink>) -> Option<DebugSink> {
    match k {
        Some(k) => Some(DebugSink { counter: k.counter.wrapping_add(1), ..k }),
        None => None,
    }
}

/// Whether attempt `attempt`, failed with `e`, is followed by another one.
pub open spec fn retried(policy: RetryPolicy, attempt: u32, e: ErrorView) -> bool {
    retry::is_transient(e) && attempt < policy.max_attempts
}

/// Whether the client `a` goes on with `step` and becomes `b` when attempt `attempt` of `job` ends
/// with `outcome` after `elapsed_ms`.
pub open spec fn attempted(
    a: AntibotView,
    job: JobView,
    attempt: u32,
    outcome: Result<SolutionView, ErrorView>,
    elapsed_ms: u64,
    now: Instant,
    now_system: SystemTime,
    step: SolveStepView,
    b: AntibotView,
) -> bool {
    match outcome {
        Ok(s) => {
            &&& step == SolveStepView::Done {
                outcome: Ok(s),
                artifacts: match a.sink {
                    Some(k) => Some(debug_replay::artifacts_of(k, job.request.url, s)),
                    None => None,
                },
            }
            &&& cached(a.sessions, job, s, now, now_system, b.sessions)
            &&& b == AntibotView {
                sessions: b.sessions,
                metrics: metrics::with_success(a.metrics, elapsed_ms),
                sink: sink_after_write(a.sink),
                ..a
            }
        },
        Err(e) => if retried(a.config.retry_policy, attempt, e) {
            &&& step == SolveStepView::Backoff { attempt: (attempt + 1) as u32 }
            &&& b == AntibotView {
                metrics: metrics::with_retry(metrics::with_failure(a.metrics)),
                ..a
            }
        } else {
            &&& step == SolveStepView::Done { outcome: Err(e), artifacts: None }
            &&& b == AntibotView { metrics: metrics::with_failure(a.metrics), ..a }
        },
    }
}

/// A feature, where it is used.
pub open spec fn used(b: bool, feature: Seq<char>) -> Seq<Seq<char>> {
    if b {
        seq![feature]
    } else {
        Seq::empty()
    }
}

pub open spec fn is_form_post(m: MethodView) -> bool {
    m is Post && m->body is Form
}

/// The features of a request that the provider is known to ignore on its side.
pub open spec fn ignored_features(provider: Option<ProviderView>, req: RequestView) -> Seq<
    Seq<char>,
> {
    match provider {
        Some(ProviderView::FlareSolverr) => used(req.headers is Some, "custom headers"@) + used(
            req.method is Post && !is_form_post(req.method),
            "non-form POST bodies"@,
        ) + used(req.fingerprint is Some, "browser fingerprints"@),
        Some(ProviderView::Byparr) => used(req.headers is Some, "custom headers"@) + used(
            req.cookies is Some,
            "pre-seeded cookies"@,
        ) + used(req.proxy is Some, "proxies"@) + used(
            req.fingerprint is Some,
            "browser fingerprints"@,
        ) + used(req.session_id is Some, "sessions"@) + used(
            req.return_only_cookies,
            "returnOnlyCookies"@,
        ),
        _ => Seq::empty(),
    }
}

/// The warning about features that are ignored: given once per client.
pub open spec fn compat_warning(a: AntibotView, req: RequestView) -> Option<Seq<char>> {
    let features = ignored_features(a.config.provider_hint, req);
    if features.len() > 0 && !a.compat_warned {
        Some(
            provider::label_of(a.config.provider_hint->0) + " does not support: "@ + text::joined(
                features,
                ", "@,
            )
                + " — these request fields will be ignored by the server (warning logged once)"@,
        )
    } else {
        None
    }
}

/// Whether the client has given the warning once `req` has been sent.
pub open spec fn warned_after(a: AntibotView, req: RequestView) -> bool {
    a.compat_warned || ignored_features(a.config.provider_hint, req).len() > 0
}

fn push_if(features: &mut Vec<String>, b: bool, feature: &str)
    ensures
        text::texts(final(features)@) == text::texts(old(features)@) + used(b, feature@),
{
    let ghost before = features@;
    if b {
        features.push(feature.to_string());
    }
    assert(text::texts(features@) =~= text::texts(before) + used(b, feature@));
}

/// What to do next to find out whether a service is reachable.
pub enum AvailabilityStep {
    /// Probe this URL.
    Probe { url: String },
    Done { available: bool },
}

/// What an [`AvailabilityStep`] says.
pub enum AvailabilityView {
    Probe { url: Seq<char> },
    Done { available: bool },
}

impl View for AvailabilityStep {
    type V = AvailabilityView;

    open spec fn view(&self) -> AvailabilityView {
        match self {
            AvailabilityStep::Probe { url } => AvailabilityView::Probe { url: url@ },
            AvailabilityStep::Done { available } => AvailabilityView::Done {
                available: *available,
            },
        }
    }
}

/// What follows once `probed` instances have been probed, where the last answered with `status`.
pub open spec fn availability(
    p: PoolView,
    probed: nat,
    status: Option<u16>,
) -> AvailabilityView {
    if probed > 0 && docker::healthy_status(status) {
        AvailabilityView::Done { available: true }
    } else if probed < p.instances.len() {
        AvailabilityView::Probe { url: p.instances[probed as int].base_url }
    } else {
        AvailabilityView::Done { available: false }
    }
}

/// The URLs that are probed from `probed` on, where probe `i` is answered with `statuses(i)`, and
/// whether the service is found to be available.
pub open spec fn availability_run(
    p: PoolView,
    probed: nat,
    statuses: spec_fn(nat) -> Option<u16>,
) -> (Seq<Seq<char>>, bool)
    decreases p.instances.len() - probed,
{
    match availability(p, probed, statuses(probed)) {
        AvailabilityView::Probe { url } => if probed < p.instances.len() {
            let rest = availability_run(p, probed + 1, statuses);
            (seq![url] + rest.0, rest.1)
        } else {
            (seq![url], false)
        },
        AvailabilityView::Done { available } => (Seq::empty(), available),
    }
}

/// What a watchdog has learned.
pub enum WatchEvent {
    /// It has just been started.
    Begin,
    /// The interval between two probes has passed.
    Slept,
    /// The service was probed, and answered with the HTTP status given, if at all.
    Probed { status: Option<u16> },
    /// The restart of the container is over.
    Restarted { ok: bool },
    /// The wait for the service's health is over.
    Recovered,
}

/// What a watchdog does next.
pub enum WatchAction {
    Stop,
    /// Let the interval pass.
    Sleep,
    Probe { url: String },
    /// Restart the container. A hung container is still running, so starting it would do nothing.
    Restart,
    /// Wait for the service to become healthy.
    WaitHealthy { max_attempts: u32 },
}

/// What a [`WatchAction`] says.
pub enum WatchView {
    Stop,
    Sleep,
    Probe { url: Seq<char> },
    Restart,
    WaitHealthy { max_attempts: u32 },
}

impl View for WatchAction {
    type V = WatchView;

    open spec fn view(&self) -> WatchView {
        match self {
            WatchAction::Stop => WatchView::Stop,
            WatchAction::Sleep => WatchView::Sleep,
            WatchAction::Probe { url } => WatchView::Probe { url: url@ },
            WatchAction::Restart => WatchView::Restart,
            WatchAction::WaitHealthy { max_attempts } => WatchView::WaitHealthy {
                max_attempts: *max_attempts,
            },
        }
    }
}

/// Whether a watchdog that has learned `event` restarts the container. Only the instance that the
/// client's own container backs is probed; extra remote instances being down is no reason to
/// restart it. A client that has been shut down restarts nothing.
pub open spec fn restarts(a: AntibotView, event: WatchEvent) -> bool {
    &&& !a.shutdown
    &&& a.config.docker_manager is Some
    &&& event matches WatchEvent::Probed { status }
    &&& !docker::healthy_status(status)
}

/// What a watchdog does on `event`.
pub open spec fn watch_action(a: AntibotView, event: WatchEvent) -> WatchView {
    if a.shutdown {
        WatchView::Stop
    } else {
        match (event, a.config.docker_manager) {
            (WatchEvent::Begin, _) => WatchView::Sleep,
            (_, None) => WatchView::Stop,
            (WatchEvent::Slept, Some(m)) => WatchView::Probe { url: docker::local_url(m.port) },
            (WatchEvent::Probed { status }, Some(_)) => if docker::healthy_status(status) {
                WatchView::Sleep
            } else {
                WatchView::Restart
            },
            (WatchEvent::Restarted { ok }, Some(_)) => if ok {
                WatchView::WaitHealthy { max_attempts: a.config.health_check_attempts_on_recovery }
            } else {
                WatchView::Sleep
            },
            (WatchEvent::Recovered, Some(_)) => WatchView::Sleep,
        }
    }
}

/// The container to stop, where the client manages its life.
pub open spec fn managed_container(c: ConfigView) -> Option<ManagerView> {
    if c.manage_lifecycle {
        c.docker_manager
    } else {
        None
    }
}

/// The container to stop when the client goes away: none once it has been shut down.
pub open spec fn left_to_stop(a: AntibotView) -> Option<ManagerView> {
    if a.shutdown {
        None
    } else {
        managed_container(a.config)
    }
}

/// The client without the cached session of `domain`.
pub open spec fn without_session(a: AntibotView, domain: Seq<char>) -> AntibotView {
    AntibotView {
        sessions: match a.sessions {
            Some(s) => Some(SessionsView { entries: s.entries.remove(domain), ..s }),
            None => None,
        },
        ..a
    }
}

/// The client without any cached session.
pub open spec fn without_sessions(a: AntibotView) -> AntibotView {
    AntibotView {
        sessions: match a.sessions {
            Some(s) => Some(SessionsView { entries: Map::empty(), ..s }),
            None => None,
        },
        ..a
    }
}

/// The state of a client that has just been set up.
pub open spec fn fresh_client(
    config: ConfigView,
    urls: Seq<Seq<char>>,
    max_inflight: Option<usize>,
    cache: Option<SessionCacheConfig>,
    strategy: Option<CoalesceKey>,
    sink: Option<DebugSink>,
) -> AntibotView {
    AntibotView {
        config,
        pool: PoolView {
            instances: urls.map_values(|u: Seq<char>| pool::idle_instance(u, max_inflight)),
            cursor: 0,
        },
        sessions: match cache {
            Some(limits) => Some(SessionsView { entries: Map::empty(), limits }),
            None => None,
        },
        calls: match strategy {
            Some(strategy) => Some(
                CallsView {
                    calls: CoalescerView { inflight: Map::empty(), calls: Map::empty() },
                    strategy,
                },
            ),
            None => None,
        },
        metrics: metrics::no_activity(),
        sink,
        shutdown: false,
        compat_warned: false,
    }
}

/// A client that is merely connected to the instances at `urls`.
pub open spec fn connected(urls: Seq<Seq<char>>, provider: Option<ProviderView>) -> AntibotView {
    fresh_client(
        ConfigView {
            max_timeout_ms: 60000,
            default_proxy: None,
            retry_policy: RetryPolicy { max_attempts: 1, ..retry::default_policy() },
            docker_manager: None,
            manage_lifecycle: false,
            health_check_attempts_on_recovery: 15,
            provider_hint: provider,
        },
        urls,
        None,
        None,
        None,
        None,
    )
}

pub open spec fn without_slashes(urls: Seq<Seq<char>>) -> Seq<Seq<char>> {
    urls.map_values(|u: Seq<char>| text::without_trailing_slashes(u))
}

impl Antibot {
    pub closed spec fn wf(&self) -> bool {
        &&& self.pool.wf()
        &&& self.session_cache is Some ==> self.session_cache->0.wf()
        &&& self.coalescer is Some ==> self.coalescer->0.wf()
    }

    /// A client for the instances at `urls`.
    pub(crate) fn assemble(
        config: ClientConfig,
        urls: Vec<String>,
        max_inflight: Option<usize>,
        cache: Option<SessionCacheConfig>,
        strategy: Option<CoalesceKey>,
        debug_sink: Option<DebugSink>,
    ) -> (a: Self)
        requires
            urls.len() > 0,
        ensures
            a.wf(),
            a@ == fresh_client(
                config@,
                text::texts(urls@),
                max_inflight,
                cache,
                strategy,
                debug_sink,
            ),
    {
        let ghost texts = text::texts(urls@);
        let a = Antibot {
            config,
            pool: InstancePool::new(urls, max_inflight),
            session_cache: match cache {
                Some(limits) => Some(SessionCache::new(limits)),
                None => None,
            },
            coalescer: match strategy {
                Some(strategy) => Some(SolveCoalescer::new(strategy)),
                None => None,
            },
            metrics: Metrics::new(),
            debug_sink,
            shutdown: false,
            provider_compat_warned: false,
        };
        assert(a@.pool.instances =~= texts.map_values(
            |u: Seq<char>| pool::idle_instance(u, max_inflight),
        ));
        a
    }

    /// `instances` must be non-empty.
    fn from_instances(instances: Vec<String>, provider_hint: Option<Provider>) -> (a: Self)
        requires
            instances.len() > 0,
        ensures
            a.wf(),
            a@ == connected(text::texts(instances@), provider::opt_provider(provider_hint)),
    {
        let config = ClientConfig {
            max_timeout_ms: 60000,
            default_proxy: None,
            retry_policy: RetryPolicy::no_retries(),
            docker_manager: None,
            manage_lifecycle: false,
            health_check_attempts_on_recovery: 15,
            provider_hint,
        };
        Antibot::assemble(config, instances, None, None, None, None)
    }

    fn connect_one(base_url: &str, provider_hint: Option<Provider>) -> (a: Self)
        ensures
            a.wf(),
            a@ == connected(
                seq![text::without_trailing_slashes(base_url@)],
                provider::opt_provider(provider_hint),
            ),
    {
        let urls = vec![text::trim_end_slashes(base_url)];
        assert(text::texts(urls@) =~= seq![text::without_trailing_slashes(base_url@)]);
        Antibot::from_instances(urls, provider_hint)
    }

    /// Quick constructor that connects to an already-running instance.
    /// Does NOT auto-start Docker.
    ///
    /// No provider is assumed, so compatibility warnings are off. Use
    /// [`Antibot::connect_with`] to opt into per-provider checks when you know
    /// what's behind the URL.
    pub fn connect(base_url: &str) -> (a: Self)
        ensures
            a.wf(),
            a@ == connected(seq![text::without_trailing_slashes(base_url@)], None),
    {
        Antibot::connect_one(base_url, None)
    }

    /// Like [`Antibot::connect`], but declares which provider is behind the URL
    /// so per-provider compatibility checks (warnings and the Byparr feature
    /// errors) apply to a remote instance you didn't auto-start.
    pub fn connect_with(base_url: &str, provider: Provider) -> (a: Self)
        ensures
            a.wf(),
            a@ == connected(
                seq![text::without_trailing_slashes(base_url@)],
                Some(provider@),
            ),
    {
        Antibot::connect_one(base_url, Some(provider))
    }

    /// Connect to a pool of instances. Requests round-robin across them.
    ///
    /// Returns [`AntibotError::InvalidConfig`] when `base_urls` is empty.
    pub fn connect_many(base_urls: Vec<String>) -> (r: Result<Self, AntibotError>)
        ensures
            match r {
                Ok(a) => {
                    &&& base_urls.len() > 0
                    &&& a.wf()
                    &&& a@ == connected(without_slashes(text::texts(base_urls@)), None)
                },
                Err(e) => base_urls.len() == 0 && e@ == ErrorView::InvalidConfig(
                    "connect_many: empty instance list"@,
                ),
            },
    {
        Antibot::connect_many_inner(base_urls, None)
    }

    /// Like [`Antibot::connect_many`], but declares the provider behind the
    /// pool for per-provider compatibility checks.
    pub fn connect_many_with(base_urls: Vec<String>, provider: Provider) -> (r: Result<
        Self,
        AntibotError,
    >)
        ensures
            match r {
                Ok(a) => {
                    &&& base_urls.len() > 0
                    &&& a.wf()
                    &&& a@ == connected(
                        without_slashes(text::texts(base_urls@)),
                        Some(provider@),
                    )
                },
                Err(e) => base_urls.len() == 0 && e@ == ErrorView::InvalidConfig(
                    "connect_many: empty instance list"@,
                ),
            },
    {
        Antibot::connect_many_inner(base_urls, Some(provider))
    }

    fn connect_many_inner(base_urls: Vec<String>, provider_hint: Option<Provider>) -> (r: Result<
        Self,
        AntibotError,
    >)
        ensures
            match r {
                Ok(a) => {
                    &&& base_urls.len() > 0
                    &&& a.wf()
                    &&& a@ == connected(
                        without_slashes(text::texts(base_urls@)),
                        provider::opt_provider(provider_hint),
                    )
                },
                Err(e) => base_urls.len() == 0 && e@ == ErrorView::InvalidConfig(
                    "connect_many: empty instance list"@,
                ),
            },
    {
        let mut instances: Vec<String> = Vec::new();
        let mut i: usize = 0;
        while i < base_urls.len()
            invariant
                i <= base_urls.len(),
                instances.len() == i,
                forall|j: int|
                    0 <= j < i ==> instances@[j]@ == text::without_trailing_slashes(
                        base_urls@[j]@,
                    ),
            decreases base_urls.len() - i,
        {
            instances.push(text::trim_end_slashes(base_urls[i].as_str()));
            i = i + 1;
        }
        if instances.len() == 0 {
            return Err(
                AntibotError::InvalidConfig("connect_many: empty instance list".to_string()),
            );
        }
        assert(text::texts(instances@) =~= without_slashes(text::texts(base_urls@)));
        Ok(Antibot::from_instances(instances, provider_hint))
    }

    /// Check if the underlying service is reachable on at least one instance: the instances are
    /// probed in order until one answers with success. `probed` tells how many have been, and
    /// `status` how the last of them answered, if at all.
    pub fn is_available(&self, probed: usize, status: Option<u16>) -> (step: AvailabilityStep)
        ensures
            step@ == availability(self@.pool, probed as nat, status),
            if probed > 0 && docker::healthy_status(status) {
                step == (AvailabilityStep::Done { available: true })
            } else if probed < self@.pool.instances.len() {
                step is Probe && step->url@ == self@.pool.instances[probed as int].base_url
            } else {
                step == (AvailabilityStep::Done { available: false })
            },
    {
        if probed > 0 && docker::is_healthy(status) {
            AvailabilityStep::Done { available: true }
        } else if probed < self.pool.len() {
            AvailabilityStep::Probe { url: self.pool.instance(probed).base_url.clone() }
        } else {
            AvailabilityStep::Done { available: false }
        }
    }

    /// Manually drop the cached session for `domain`.
    pub fn invalidate_session(&mut self, domain: &str)
        requires
            old(self).wf(),
        ensures
            final(self).wf(),
            final(self)@ == without_session(old(self)@, domain@),
            final(self)@ == (AntibotView {
                sessions: match old(self)@.sessions {
                    Some(s) => Some(SessionsView { entries: s.entries.remove(domain@), ..s }),
                    None => None,
                },
                ..old(self)@
            }),
    {
        if let Some(cache) = &mut self.session_cache {
            cache.invalidate(domain);
        }
    }

    /// Drop every cached session.
    pub fn clear_session_cache(&mut self)
        requires
            old(self).wf(),
        ensures
            final(self).wf(),
            final(self)@ == without_sessions(old(self)@),
            final(self)@ == (AntibotView {
                sessions: match old(self)@.sessions {
                    Some(s) => Some(SessionsView { entries: Map::empty(), ..s }),
                    None => None,
                },
                ..old(self)@
            }),
    {
        if let Some(cache) = &mut self.session_cache {
            cache.clear();
        }
    }

    /// Number of cached sessions, or 0 if caching is disabled.
    pub fn session_cache_size(&self) -> (n: usize)
        requires
            self.wf(),
        ensures
            n == match self@.sessions {
                Some(s) => s.entries.dom().len(),
                None => 0,
            },
    {
        match &self.session_cache {
            Some(cache) => cache.len(),
            None => 0,
        }
    }

    /// Snapshot of all counters.
    pub fn metrics(&self) -> (s: MetricsSnapshot)
        ensures
            s == metrics::snapshot_of(self@.metrics),
    {
        self.metrics.snapshot()
    }

    /// The policy that says when and how often a solve is retried.
    pub fn retry_policy(&self) -> (p: RetryPolicy)
        ensures
            p == self@.config.retry_policy,
    {
        self.config.retry_policy
    }

    /// The directory of the debug sink, where there is one.
    pub fn debug_directory(&self) -> (d: Option<&str>)
        ensures
            text::opt_str(d) == match self@.sink {
                Some(k) => Some(k.config@.directory),
                None => None,
            },
    {
        match &self.debug_sink {
            Some(sink) => Some(sink.config.directory.as_str()),
            None => None,
        }
    }

    /// Convenience: solve a URL with a simple GET.
    pub fn solve(&mut self, url: &str, now: Instant) -> (r: Start)
        requires
            old(self).wf(),
        ensures
            final(self).wf(),
            started(
                old(self)@,
                request::plain_request(url@, MethodView::Get),
                None,
                session_cache::url_key(url@),
                call_key(old(self)@, url@),
                now,
                r@,
                final(self)@,
            ),
    {
        self.execute(SolveRequest::get(url), now)
    }

    /// Force a fresh solve, bypassing the session cache for this URL.
    pub fn solve_fresh(&mut self, url: &str, now: Instant) -> (r: Start)
        requires
            old(self).wf(),
        ensures
            final(self).wf(),
            started(
                old(self)@,
                RequestView {
                    bypass_cache: true,
                    ..request::plain_request(url@, MethodView::Get)
                },
                None,
                session_cache::url_key(url@),
                call_key(old(self)@, url@),
                now,
                r@,
                final(self)@,
            ),
    {
        self.execute(SolveRequest::get(url).bypass_cache(), now)
    }

    /// Unified entry point: cache check → coalesce → retry-wrapped dispatch → cache write.
    pub fn execute(&mut self, request: SolveRequest, now: Instant) -> (r: Start)
        requires
            old(self).wf(),
        ensures
            final(self).wf(),
            started(
                old(self)@,
                request@,
                None,
                session_cache::url_key(request@.url),
                call_key(old(self)@, request@.url),
                now,
                r@,
                final(self)@,
            ),
    {
        self.execute_pinned(request, None, now)
    }

    /// As [`Antibot::execute`], for a request that must go to the instance `pinned_instance`, if
    /// to any particular one.
    pub fn execute_pinned(
        &mut self,
        request: SolveRequest,
        pinned_instance: Option<&str>,
        now: Instant,
    ) -> (r: Start)
        requires
            old(self).wf(),
        ensures
            final(self).wf(),
            started(
                old(self)@,
                request@,
                text::opt_str(pinned_instance),
                session_cache::url_key(request@.url),
                call_key(old(self)@, request@.url),
                now,
                r@,
                final(self)@,
            ),
    {
        let domain = session_cache::extract_domain(request.url.as_str());
        let key = match &self.coalescer {
            Some(c) => c.key_for(request.url.as_str()),
            None => None,
        };
        self.execute_inner(request, pinned_instance, domain, key, now)
    }

    /// As [`Antibot::execute_pinned`], with the key of the session cache and that of the coalesced
    /// calls at hand.
    pub fn execute_inner(
        &mut self,
        request: SolveRequest,
        pinned_instance: Option<&str>,
        domain: Option<String>,
        coalesce_key: Option<String>,
        now: Instant,
    ) -> (r: Start)
        requires
            old(self).wf(),
        ensures
            final(self).wf(),
            started(
                old(self)@,
                request@,
                text::opt_str(pinned_instance),
                text::opt_text(domain),
                text::opt_text(coalesce_key),
                now,
                r@,
                final(self)@,
            ),
    {
        let ghost a = self@;
        let ghost req = request@;
        let ghost pin = text::opt_str(pinned_instance);
        let ghost dom = text::opt_text(domain);
        let is_post = match &request.method {
            SolveMethod::Get => false,
            SolveMethod::Post { .. } => true,
        };
        if self.is_byparr() && is_post {
            return Start::Done(
                Err(
                    AntibotError::UnsupportedFeature {
                        provider: "Byparr".to_string(),
                        feature: "POST requests".to_string(),
                    },
                ),
            );
        }
        let shareable = request.session_id.is_none() && !is_post && request.cookies.is_none()
            && request.fingerprint.is_none() && request.proxy.is_none()
            && pinned_instance.is_none();

        if shareable && !request.bypass_cache {
            if let Some(cache) = &mut self.session_cache {
                if let Some(domain) = &domain {
                    if let Some(hit) = cache.get(domain.as_str(), now) {
                        self.metrics.record_cache_hit();
                        let age = hit.age(now);
                        let solution = Solution {
                            url: request.url,
                            status: hit.status,
                            cookies: hit.cookies,
                            user_agent: hit.user_agent,
                            response: None,
                            solved_at: hit.solved_at_system,
                            source: SolutionSource::Cached { age },
                        };
                        return Start::Done(Ok(solution));
                    }
                }
            }
        }
        assert(self@.sessions == sessions_after_lookup(a, req, pin, dom, now));
        let mut request = request;
        if request.proxy.is_none() {
            request.proxy = match &self.config.default_proxy {
                Some(p) => Some(p.clone()),
                None => None,
            };
        }
        let pinned = match pinned_instance {
            Some(url) => Some(url.to_string()),
            None => None,
        };
        let mut call: Option<usize> = None;
        if shareable {
            if let Some(coalescer) = &mut self.coalescer {
                if let Some(key) = coalesce_key {
                    call = Some(coalescer.join(key, &mut self.metrics));
                }
            }
        }
        Start::Run(SolveJob { request, cache_write: shareable, pinned, domain, call })
    }

    /// What the coalesced call `id` must do next: run the solve, wait, or end with what its leader
    /// has found.
    pub fn solve_or_wait(&mut self, id: usize, now: SystemTime) -> (step: CallStep)
        requires
            old(self).wf(),
            old(self)@.calls is Some,
            old(self)@.calls->0.calls.calls.contains_key(id),
        ensures
            final(self).wf(),
            call_went_on(old(self)@, id, now, step, final(self)@),
    {
        match &mut self.coalescer {
            Some(c) => c.solve_or_wait(id, now),
            None => vstd::pervasive::unreached(),
        }
    }

    /// The solve of `job` is over: those that waited for it share the outcome.
    pub fn settle(&mut self, job: &SolveJob, outcome: &Result<Solution, AntibotError>)
        requires
            old(self).wf(),
            job.call is Some ==> leads(old(self)@, job.call->0),
        ensures
            final(self).wf(),
            final(self)@ == match job.call {
                Some(id) => with_calls(
                    old(self)@,
                    coalesce::left_by(
                        old(self)@.calls->0.calls,
                        id,
                        old(self)@.calls->0.calls.calls[id]->Leading_key,
                        Some(coalesce::shared_outcome(types::outcome(*outcome))),
                    ),
                ),
                None => old(self)@,
            },
    {
        if let Some(id) = job.call {
            if let Some(c) = &mut self.coalescer {
                c.settle(id, outcome);
            }
        }
    }

    /// The call `id` is given up before its end. If it led, those that waited for it are on their
    /// own.
    pub fn cancel(&mut self, id: usize)
        requires
            old(self).wf(),
            old(self)@.calls is Some,
            old(self)@.calls->0.calls.calls.contains_key(id),
        ensures
            final(self).wf(),
            final(self)@ == with_calls(
                old(self)@,
                coalesce::cancelled(old(self)@.calls->0.calls, id),
            ),
    {
        if let Some(c) = &mut self.coalescer {
            c.cancel(id);
        }
    }

    /// Begins to hit the provider, with retries.
    pub fn execute_uncoalesced(&mut self) -> (step: SolveStep)
        requires
            old(self).wf(),
        ensures
            final(self).wf(),
            step@ == first_step(old(self)@.config.retry_policy),
            final(self)@ == (AntibotView {
                metrics: if old(self)@.config.retry_policy.max_attempts == 0 {
                    old(self)@.metrics
                } else {
                    metrics::with_attempt(old(self)@.metrics)
                },
                ..old(self)@
            }),
    {
        if self.config.retry_policy.max_attempts == 0 {
            return SolveStep::Done {
                outcome: Err(
                    AntibotError::UnexpectedResponse(
                        "retry loop exited without result".to_string(),
                    ),
                ),
                artifacts: None,
            };
        }
        self.metrics.record_attempt();
        SolveStep::Dispatch { attempt: 1 }
    }

    /// The backoff before `attempt` is over.
    pub fn after_backoff(&mut self, attempt: u32) -> (step: SolveStep)
        requires
            old(self).wf(),
        ensures
            final(self).wf(),
            step@ == (SolveStepView::Dispatch { attempt }),
            final(self)@ == (AntibotView {
                metrics: metrics::with_attempt(old(self)@.metrics),
                ..old(self)@
            }),
    {
        self.metrics.record_attempt();
        SolveStep::Dispatch { attempt }
    }

    /// Attempt `attempt` of `job` has ended with `outcome` after `elapsed_ms`: updates the session
    /// cache on success, and retries transient failures as long as the policy allows.
    pub fn after_attempt(
        &mut self,
        job: &SolveJob,
        attempt: u32,
        outcome: Result<Solution, AntibotError>,
        elapsed_ms: u64,
        now: Instant,
        now_system: SystemTime,
    ) -> (step: SolveStep)
        requires
            old(self).wf(),
        ensures
            final(self).wf(),
            attempted(
                old(self)@,
                job@,
                attempt,
                types::outcome(outcome),
                elapsed_ms,
                now,
                now_system,
                step@,
                final(self)@,
            ),
    {
        let solution = match outcome {
            Ok(solution) => solution,
            Err(e) => {
                self.metrics.record_failure();
                if self.config.retry_policy.is_retryable(&e) && attempt
                    < self.config.retry_policy.max_attempts {
                    self.metrics.record_retry();
                    return SolveStep::Backoff { attempt: attempt + 1 };
                }
                return SolveStep::Done { outcome: Err(e), artifacts: None };
            },
        };
        self.metrics.record_success(elapsed_ms);
        if job.cache_write {
            if let Some(cache) = &mut self.session_cache {
                if let Some(domain) = &job.domain {
                    cache.insert(
                        domain.clone(),
                        cookie::clone_all(&solution.cookies),
                        solution.user_agent.clone(),
                        solution.status,
                        now,
                        now_system,
                    );
                }
            }
        }
        let artifacts = match &mut self.debug_sink {
            Some(sink) => Some(sink.write(job.request.url.as_str(), &solution)),
            None => None,
        };
        SolveStep::Done { outcome: Ok(solution), artifacts }
    }

    /// Warn (once per client) when the request uses features the configured
    /// provider is known to ignore server-side.
    pub fn warn_provider_compat(&mut self, request: &SolveRequest) -> (warning: Option<String>)
        requires
            old(self).wf(),
        ensures
            final(self).wf(),
            text::opt_text(warning) == compat_warning(old(self)@, request@),
            final(self)@ == (AntibotView {
                compat_warned: warned_after(old(self)@, request@),
                ..old(self)@
            }),
    {
        let mut unsupported: Vec<String> = Vec::new();
        assert(text::texts(unsupported@) =~= Seq::<Seq<char>>::empty());
        let label = match &self.config.provider_hint {
            Some(p) => {
                match p {
                    Provider::FlareSolverr => {
                        let other_body = match &request.method {
                            SolveMethod::Post { body: PostBody::Form(_) } => false,
                            SolveMethod::Post { .. } => true,
                            SolveMethod::Get => false,
                        };
                        push_if(&mut unsupported, request.headers.is_some(), "custom headers");
                        push_if(&mut unsupported, other_body, "non-form POST bodies");
                        push_if(
                            &mut unsupported,
                            request.fingerprint.is_some(),
                            "browser fingerprints",
                        );
                    },
                    // Upstream Byparr's request model accepts only cmd/url/max_timeout
                    // ("currently only supports GET requests"); everything else is
                    // silently dropped by the server. (POST and sessions are hard
                    // errors handled before dispatch.)
                    Provider::Byparr => {
                        push_if(&mut unsupported, request.headers.is_some(), "custom headers");
                        push_if(&mut unsupported, request.cookies.is_some(), "pre-seeded cookies");
                        push_if(&mut unsupported, request.proxy.is_some(), "proxies");
                        push_if(
                            &mut unsupported,
                            request.fingerprint.is_some(),
                            "browser fingerprints",
                        );
                        push_if(&mut unsupported, request.session_id.is_some(), "sessions");
                        push_if(
                            &mut unsupported,
                            request.return_only_cookies,
                            "returnOnlyCookies",
                        );
                    },
                    Provider::Custom(_) => {},
                }
                p.label()
            },
            None => "provider",
        };
        proof {
            let features = ignored_features(self@.config.provider_hint, request@);
            assert(text::texts(unsupported@) =~= features);
        }
        if unsupported.len() == 0 {
            return None;
        }
        let mut warning = label.to_string();
        warning.append(" does not support: ");
        warning.append(text::join(&unsupported, ", ").as_str());
        warning.append(
            " — these request fields will be ignored by the server (warning logged once)",
        );
        if self.provider_compat_warned {
            return None;
        }
        self.provider_compat_warned = true;
        Some(warning)
    }

    /// Reserves an instance for the next attempt of `job`, and says what to send to it.
    pub fn dispatch(&mut self, job: &SolveJob) -> (d: Dispatch)
        requires
            old(self).wf(),
        ensures
            final(self).wf(),
            d.instance < old(self)@.pool.instances.len(),
            pool::routes_to(old(self)@.pool, job@.pinned, d.instance as int),
            d.exchange@ == exchange::exchange_of(
                old(self)@.pool.instances[d.instance as int].base_url,
                wire::solve_wire(job@.request, old(self)@.config.max_timeout_ms),
            ),
            text::opt_text(d.warning) == compat_warning(old(self)@, job@.request),
            final(self)@ == (AntibotView {
                pool: pool::leased(old(self)@.pool, job@.pinned, d.instance as int),
                compat_warned: warned_after(old(self)@, job@.request),
                ..old(self)@
            }),
    {
        let ghost before = self@;
        let wire = WireRequest::from_solve(&job.request, self.config.max_timeout_ms);
        let pinned = match &job.pinned {
            Some(url) => Some(url.as_str()),
            None => None,
        };
        let instance = self.pool.lease_instance(pinned);
        let warning = self.warn_provider_compat(&job.request);
        let exchange = exchange::exchange(self.pool.instance(instance).base_url.as_str(), wire);
        Dispatch { instance, exchange, warning }
    }

    /// Whether the provider on the other end is known to be Byparr.
    pub fn is_byparr(&self) -> (b: bool)
        ensures
            b == (self@.config.provider_hint == Some(ProviderView::Byparr)),
    {
        match &self.config.provider_hint {
            Some(Provider::Byparr) => true,
            _ => false,
        }
    }

    /// Reserves the least-loaded instance for `wire`, and says what to send to it.
    pub(crate) fn lease_for(&mut self, wire: WireRequest) -> (r: (usize, Exchange))
        requires
            old(self).wf(),
        ensures
            final(self).wf(),
            r.0 < old(self)@.pool.instances.len(),
            pool::routes_to(old(self)@.pool, None, r.0 as int),
            r.1@ == exchange::exchange_of(old(self)@.pool.instances[r.0 as int].base_url, wire@),
            final(self)@ == (AntibotView {
                pool: pool::leased(old(self)@.pool, None, r.0 as int),
                ..old(self)@
            }),
    {
        let instance = self.pool.lease_instance(None);
        let exchange = exchange::exchange(self.pool.instance(instance).base_url.as_str(), wire);
        (instance, exchange)
    }

    /// Asks for a permit of the reserved `instance`. Without one the request must wait until
    /// another one to the instance is over.
    pub fn take_permit(&mut self, instance: usize) -> (admitted: bool)
        requires
            old(self).wf(),
            instance < old(self)@.pool.instances.len(),
        ensures
            final(self).wf(),
            admitted == pool::has_room(old(self)@.pool, instance as int),
            final(self)@ == (AntibotView {
                pool: pool::after_admission(old(self)@.pool, instance as int),
                ..old(self)@
            }),
    {
        self.pool.take_permit(instance)
    }

    /// Ends the reservation of `instance`, which had been given a permit or not.
    pub fn release(&mut self, instance: usize, admitted: bool)
        requires
            old(self).wf(),
            instance < old(self)@.pool.instances.len(),
        ensures
            final(self).wf(),
            final(self)@ == (AntibotView {
                pool: pool::after_release(old(self)@.pool, instance as int, admitted),
                ..old(self)@
            }),
    {
        self.pool.release_instance(instance, admitted);
    }

    /// Number of instances.
    pub fn instance_count(&self) -> (n: usize)
        ensures
            n == self@.pool.instances.len(),
    {
        self.pool.len()
    }

    /// Base URL of an instance.
    pub fn instance_url(&self, instance: usize) -> (url: &str)
        requires
            instance < self@.pool.instances.len(),
        ensures
            url@ == self@.pool.instances[instance as int].base_url,
    {
        self.pool.instance(instance).base_url.as_str()
    }

    /// What a watchdog over the client's container does on `event`.
    pub fn watch(&mut self, event: WatchEvent) -> (action: WatchAction)
        requires
            old(self).wf(),
        ensures
            final(self).wf(),
            action@ == watch_action(old(self)@, event),
            final(self)@ == (AntibotView {
                metrics: if restarts(old(self)@, event) {
                    metrics::with_container_restart(old(self)@.metrics)
                } else {
                    old(self)@.metrics
                },
                ..old(self)@
            }),
    {
        if self.shutdown {
            return WatchAction::Stop;
        }
        if let WatchEvent::Begin = event {
            return WatchAction::Sleep;
        }
        let manager = match &self.config.docker_manager {
            Some(m) => m,
            None => return WatchAction::Stop,
        };
        match event {
            WatchEvent::Begin => WatchAction::Sleep,
            WatchEvent::Slept => WatchAction::Probe { url: manager.base_url() },
            WatchEvent::Probed { status } => if docker::is_healthy(status) {
                WatchAction::Sleep
            } else {
                self.metrics.record_container_restart();
                WatchAction::Restart
            },
            WatchEvent::Restarted { ok } => if ok {
                WatchAction::WaitHealthy {
                    max_attempts: self.config.health_check_attempts_on_recovery,
                }
            } else {
                WatchAction::Sleep
            },
            WatchEvent::Recovered => WatchAction::Sleep,
        }
    }

    /// The manager of the client's container, where it has one.
    pub fn docker_manager(&self) -> (m: Option<&DockerManager>)
        ensures
            match m {
                Some(m) => self@.config.docker_manager == Some(m@),
                None => self@.config.docker_manager is None,
            },
    {
        match &self.config.docker_manager {
            Some(m) => Some(m),
            None => None,
        }
    }

    fn container_to_stop(&self) -> (m: Option<DockerManager>)
        ensures
            opt_manager(m) == managed_container(self@.config),
    {
        if !self.config.manage_lifecycle {
            return None;
        }
        match &self.config.docker_manager {
            Some(m) => Some(m.clone()),
            None => None,
        }
    }

    /// Gracefully shut down: stops the health watchdog and, when this client manages the container
    /// lifecycle, returns the container to be stopped.
    pub fn shutdown(&mut self) -> (container: Option<DockerManager>)
        requires
            old(self).wf(),
        ensures
            final(self).wf(),
            opt_manager(container) == managed_container(old(self)@.config),
            final(self)@ == (AntibotView { shutdown: true, ..old(self)@ }),
    {
        self.shutdown = true;
        self.container_to_stop()
    }

    /// The client is going away: as [`Antibot::shutdown`], but once it has been shut down there is
    /// nothing left to stop.
    pub fn close(&mut self) -> (container: Option<DockerManager>)
        requires
            old(self).wf(),
        ensures
            final(self).wf(),
            opt_manager(container) == left_to_stop(old(self)@),
            opt_manager(container) == if old(self)@.shutdown {
                None
            } else {
                managed_container(old(self)@.config)
            },
            final(self)@ == (AntibotView { shutdown: true, ..old(self)@ }),
    {
        let already_shut_down = self.shutdown;
        self.shutdown = true;
        if already_shut_down {
            None
        } else {
            self.container_to_stop()
        }
    }
}

/// Whether the coalesced call `id` of the client runs its solve.
pub open spec fn leads(a: AntibotView, id: usize) -> bool {
    a.calls is Some && a.calls->0.calls.calls.contains_key(id) && a.calls->0.calls.calls[id] is Leading
}

pub open spec fn with_calls(a: AntibotView, calls: CoalescerView) -> AntibotView {
    AntibotView { calls: Some(CallsView { calls, strategy: a.calls->0.strategy }), ..a }
}

/// Whether the call `id` goes on with `step`, and the client becomes `b`.
pub open spec fn call_went_on(
    a: AntibotView,
    id: usize,
    now: SystemTime,
    step: CallStep,
    b: AntibotView,
) -> bool {
    let c = a.calls->0.calls;
    match c.calls[id] {
        CallView::Leading { .. } => step is Lead && b == a,
        CallView::Waiting { .. } => step is Wait && b == a,
        CallView::Ready { outcome } => {
            &&& step is Done
            &&& types::outcome(step->Done_0) == coalesce::waiter_result(outcome, now)
            &&& b == with_calls(a, coalesce::cancelled(c, id))
        },
        CallView::Orphaned { key } => {
            &&& step is Wait <==> c.inflight.contains_key(key)
            &&& step is Lead <==> !c.inflight.contains_key(key)
            &&& b == with_calls(a, coalesce::joined_as(c, id, key))
        },
    }
}

/// Anything caller-specific makes a request private: it is neither answered from the cache, nor
/// shared with other callers, nor cached, and the client is as it was before.
pub proof fn private_requests_are_not_shared(
    a: AntibotView,
    req: RequestView,
    pinned: Option<Seq<char>>,
    domain: Option<Seq<char>>,
    key: Option<Seq<char>>,
    now: Instant,
    r: StartView,
    b: AntibotView,
)
    requires
        started(a, req, pinned, domain, key, now, r, b),
        req.method is Post || req.session_id is Some || req.cookies is Some || req.proxy is Some
            || req.fingerprint is Some || pinned is Some,
    ensures
        b == a,
        r is Done ==> r == StartView::Done(Err(unsupported_by_byparr("POST requests"@))),
        r is Run ==> !r->Run_0.cache_write && r->Run_0.call is None,
{
}

/// Byparr is never sent a POST.
pub proof fn byparr_is_never_sent_a_post(
    a: AntibotView,
    req: RequestView,
    pinned: Option<Seq<char>>,
    domain: Option<Seq<char>>,
    key: Option<Seq<char>>,
    now: Instant,
    r: StartView,
    b: AntibotView,
)
    requires
        started(a, req, pinned, domain, key, now, r, b),
        a.config.provider_hint == Some(ProviderView::Byparr),
    ensures
        r is Run ==> r->Run_0.request.method is Get,
{
}

/// Bypassing the cache skips the read, not the write.
pub proof fn bypassing_the_cache_writes_through(
    a: AntibotView,
    req: RequestView,
    domain: Option<Seq<char>>,
    key: Option<Seq<char>>,
    now: Instant,
    r: StartView,
    b: AntibotView,
)
    requires
        started(a, req, None, domain, key, now, r, b),
        shareable(req, None),
        req.bypass_cache,
    ensures
        r is Run,
        r->Run_0.cache_write,
        r->Run_0.domain == domain,
        b.sessions == a.sessions,
{
}

/// Of two requests that may be shared, the second one, made under the same key while the first is
/// being solved, does not reach the provider: the first leads, the second waits for it, and ends
/// with what the first comes to, marked as not solved for it.
pub proof fn concurrent_solves_share_one_call(
    a: AntibotView,
    first: RequestView,
    domain1: Option<Seq<char>>,
    now1: Instant,
    r1: StartView,
    b: AntibotView,
    second: RequestView,
    domain2: Option<Seq<char>>,
    now2: Instant,
    r2: StartView,
    c: AntibotView,
    key: Seq<char>,
    outcome: Result<SolutionView, ErrorView>,
    now: SystemTime,
)
    requires
        a.calls is Some,
        coalesce::coherent(a.calls->0.calls),
        !a.calls->0.calls.inflight.contains_key(key),
        shareable(first, None),
        shareable(second, None),
        started(a, first, None, domain1, Some(key), now1, r1, b),
        r1 is Run,
        started(b, second, None, domain2, Some(key), now2, r2, c),
        r2 is Run,
    ensures
        r1->Run_0.call is Some,
        r2->Run_0.call is Some,
        ({
            let lead = r1->Run_0.call->0;
            let wait = r2->Run_0.call->0;
            let calls = c.calls->0.calls;
            let shared = coalesce::shared_outcome(outcome);
            let ended = coalesce::left_by(calls, lead, key, Some(shared));
            &&& leads(c, lead)
            &&& calls.calls[wait] == (CallView::Waiting { key, leader: lead })
            &&& c.metrics == metrics::with_coalesced_wait(b.metrics)
            &&& ended.calls[wait] == (CallView::Ready { outcome: shared })
            &&& !ended.inflight.contains_key(key)
            &&& coalesce::waiter_result(shared, now) == match outcome {
                Ok(s) => Ok::<SolutionView, ErrorView>(
                    SolutionView {
                        source: SolutionSource::Cached {
                            age: time::system_since(now, s.solved_at),
                        },
                        ..s
                    },
                ),
                Err(e) => Err(ErrorView::CoalescedFailure(crate::error::message_of(e))),
            }
        }),
{
    let lead = r1->Run_0.call->0;
    let wait = r2->Run_0.call->0;
    assert(b.calls->0.calls.calls.contains_key(lead));
    assert(wait != lead);
}

/// Once a solve that may be shared has succeeded, plain requests under the same key are answered
/// from the cache until the session expires, with the cookies, user agent and status of that solve,
/// whatever was cached before. The cache must have room for the session; otherwise it may be
/// evicted at once.
pub proof fn repeat_solves_are_cache_hits(
    a: AntibotView,
    job: JobView,
    attempt: u32,
    s: SolutionView,
    elapsed_ms: u64,
    solved: Instant,
    solved_system: SystemTime,
    step: SolveStepView,
    b: AntibotView,
    req: RequestView,
    key: Option<Seq<char>>,
    now: Instant,
    r: StartView,
    c: AntibotView,
)
    requires
        attempted(a, job, attempt, Ok(s), elapsed_ms, solved, solved_system, step, b),
        job.cache_write,
        job.domain is Some,
        a.sessions is Some,
        a.sessions->0.entries.dom().insert(job.domain->0).len() <= a.sessions->0.limits.max_entries,
        now.nanos < session_cache::expiry_of(
            a.sessions->0.limits,
            s.cookies,
            solved,
            solved_system,
        ).nanos,
        started(b, req, None, job.domain, key, now, r, c),
        shareable(req, None),
        !req.bypass_cache,
    ensures
        r == StartView::Done(
            Ok(
                SolutionView {
                    url: req.url,
                    response: None,
                    solved_at: solved_system,
                    source: SolutionSource::Cached { age: time::instant_since(now, solved) },
                    ..s
                },
            ),
        ),
        c == (AntibotView { metrics: metrics::with_cache_hit(b.metrics), ..b }),
{
    let session = session_cache::new_session(
        a.sessions->0.limits,
        s.cookies,
        s.user_agent,
        s.status,
        solved,
        solved_system,
    );
    let full = a.sessions->0.entries.insert(job.domain->0, session);
    assert(full.dom() =~= a.sessions->0.entries.dom().insert(job.domain->0));
    assert(b.sessions->0.entries == full);
}

/// Attempts that are made from `attempt` on, and the outcome of the solve, where attempt `i` comes
/// to `outcomes(i)`.
pub open spec fn solve_run(
    policy: RetryPolicy,
    attempt: u32,
    outcomes: spec_fn(u32) -> Result<SolutionView, ErrorView>,
) -> (nat, Result<SolutionView, ErrorView>)
    decreases policy.max_attempts - attempt,
{
    match outcomes(attempt) {
        Ok(s) => (1, Ok(s)),
        Err(e) => if retried(policy, attempt, e) {
            let rest = solve_run(policy, (attempt + 1) as u32, outcomes);
            (rest.0 + 1, rest.1)
        } else {
            (1, Err(e))
        },
    }
}

/// A solve makes no more attempts than the policy allows, goes on after transient failures only,
/// and ends with the outcome of its last attempt: the first that succeeds or fails for good, unless
/// the attempts run out.
pub proof fn attempts_are_bounded(
    policy: RetryPolicy,
    attempt: u32,
    outcomes: spec_fn(u32) -> Result<SolutionView, ErrorView>,
)
    requires
        1 <= attempt <= policy.max_attempts,
    ensures
        ({
            let (n, end) = solve_run(policy, attempt, outcomes);
            let last = (attempt + n - 1) as u32;
            &&& 1 <= n <= policy.max_attempts - attempt + 1
            &&& end == outcomes(last)
            &&& forall|i: u32|
                attempt <= i < last ==> (#[trigger] outcomes(i)) is Err && retry::is_transient(
                    outcomes(i)->Err_0,
                )
            &&& end is Err && retry::is_transient(end->Err_0) ==> last == policy.max_attempts
        }),
    decreases policy.max_attempts - attempt,
{
    match outcomes(attempt) {
        Ok(_) => {},
        Err(e) => if retried(policy, attempt, e) {
            attempts_are_bounded(policy, (attempt + 1) as u32, outcomes);
        },
    }
}

/// A failure that is not transient ends the solve at once: 4xx other than 429 in particular.
pub proof fn deterministic_failures_are_not_retried(
    a: AntibotView,
    job: JobView,
    attempt: u32,
    status: u16,
    body: Seq<char>,
    elapsed_ms: u64,
    now: Instant,
    now_system: SystemTime,
    step: SolveStepView,
    b: AntibotView,
)
    requires
        400 <= status < 500,
        status != 429,
        attempted(
            a,
            job,
            attempt,
            Err(ErrorView::ProviderHttp { status, body }),
            elapsed_ms,
            now,
            now_system,
            step,
            b,
        ),
    ensures
        step == (SolveStepView::Done {
            outcome: Err(ErrorView::ProviderHttp { status, body }),
            artifacts: None,
        }),
        b.metrics.retries == a.metrics.retries,
{
}

/// The counters after the attempts from `attempt` on, where attempt `i` comes to `outcomes(i)` after
/// `elapsed_ms(i)`.
pub open spec fn counted(
    m: Metrics,
    policy: RetryPolicy,
    attempt: u32,
    outcomes: spec_fn(u32) -> Result<SolutionView, ErrorView>,
    elapsed_ms: spec_fn(u32) -> u64,
) -> Metrics
    decreases policy.max_attempts - attempt,
{
    let tried = metrics::with_attempt(m);
    match outcomes(attempt) {
        Ok(_) => metrics::with_success(tried, elapsed_ms(attempt)),
        Err(e) => if retried(policy, attempt, e) {
            counted(
                metrics::with_retry(metrics::with_failure(tried)),
                policy,
                (attempt + 1) as u32,
                outcomes,
                elapsed_ms,
            )
        } else {
            metrics::with_failure(tried)
        },
    }
}

/// However a solve goes, it leaves no attempt that is neither a success nor a failure, and one
/// retry is counted for each attempt but the first.
pub proof fn solves_are_fully_counted(
    m: Metrics,
    policy: RetryPolicy,
    attempt: u32,
    outcomes: spec_fn(u32) -> Result<SolutionView, ErrorView>,
    elapsed_ms: spec_fn(u32) -> u64,
)
    requires
        1 <= attempt <= policy.max_attempts,
    ensures
        ({
            let end = counted(m, policy, attempt, outcomes, elapsed_ms);
            let n = solve_run(policy, attempt, outcomes).0;
            &&& metrics::pending_attempts(end) == metrics::pending_attempts(m)
            &&& (end.solves_attempted - m.solves_attempted - n) % 0x1_0000_0000_0000_0000 == 0
            &&& (end.retries - m.retries - (n - 1)) % 0x1_0000_0000_0000_0000 == 0
        }),
    decreases policy.max_attempts - attempt,
{
    let tried = metrics::with_attempt(m);
    metrics::attempts_are_settled_once(m, elapsed_ms(attempt));
    match outcomes(attempt) {
        Ok(_) => {},
        Err(e) => if retried(policy, attempt, e) {
            let next = metrics::with_retry(metrics::with_failure(tried));
            metrics::attempts_are_settled_once(metrics::with_failure(tried), 0);
            solves_are_fully_counted(next, policy, (attempt + 1) as u32, outcomes, elapsed_ms);
        },
    }
}

/// A client warns of ignored features once.
pub proof fn compatibility_is_warned_about_once(
    a: AntibotView,
    first: RequestView,
    second: RequestView,
)
    ensures
        compat_warning(a, first) is Some ==> compat_warning(
            AntibotView { compat_warned: warned_after(a, first), ..a },
            second,
        ) is None,
        a.config.provider_hint is None ==> compat_warning(a, first) is None,
{
}

/// The watchdog of a client that has been shut down ends at its next turn, whatever it learns: it
/// neither probes nor restarts anything, and counts no restart.
pub proof fn shutdown_ends_the_watch(a: AntibotView, event: WatchEvent)
    requires
        a.shutdown,
    ensures
        watch_action(a, event) == WatchView::Stop,
        !restarts(a, event),
{
}

/// Until the client is shut down, a failed probe of its own service restarts the container, and a
/// successful one does not. Whatever the watchdog learns, it counts a restart if and only if it
/// makes one.
pub proof fn the_watchdog_restarts_what_is_down(
    a: AntibotView,
    status: Option<u16>,
    event: WatchEvent,
)
    requires
        a.config.docker_manager is Some,
        !a.shutdown,
    ensures
        watch_action(a, WatchEvent::Probed { status }) == WatchView::Restart
            <==> !docker::healthy_status(status),
        restarts(a, event) <==> watch_action(a, event) == WatchView::Restart,
{
}

/// A request is refused if and only if it is a POST and the provider is known to be Byparr; nothing
/// else fails before it is sent.
pub proof fn only_posts_to_byparr_are_refused(
    a: AntibotView,
    req: RequestView,
    pinned: Option<Seq<char>>,
    domain: Option<Seq<char>>,
    key: Option<Seq<char>>,
    now: Instant,
    r: StartView,
    b: AntibotView,
)
    requires
        started(a, req, pinned, domain, key, now, r, b),
    ensures
        r is Done && r->Done_0 is Err <==> req.method is Post && a.config.provider_hint == Some(
            ProviderView::Byparr,
        ),
        r is Done && r->Done_0 is Err ==> {
            &&& b == a
            &&& r->Done_0->Err_0 is UnsupportedFeature
            &&& r->Done_0->Err_0->provider == "Byparr"@
            &&& r->Done_0->Err_0->feature == "POST requests"@
        },
{
}

/// A request that is to be solved is the one that was asked for, in everything but the proxy, which
/// is its own or, where it has none, the client's; it goes where it is pinned to.
pub proof fn requests_are_solved_as_they_were_asked_for(
    a: AntibotView,
    req: RequestView,
    pinned: Option<Seq<char>>,
    domain: Option<Seq<char>>,
    key: Option<Seq<char>>,
    now: Instant,
    r: StartView,
    b: AntibotView,
)
    requires
        started(a, req, pinned, domain, key, now, r, b),
        r is Run,
    ensures
        ({
            let sent = r->Run_0.request;
            &&& sent.url == req.url
            &&& sent.method == req.method
            &&& sent.headers == req.headers
            &&& sent.cookies == req.cookies
            &&& sent.max_timeout_ms == req.max_timeout_ms
            &&& sent.session_id == req.session_id
            &&& sent.bypass_cache == req.bypass_cache
            &&& sent.fingerprint == req.fingerprint
            &&& sent.return_only_cookies == req.return_only_cookies
            &&& req.proxy is Some ==> sent.proxy == req.proxy
            &&& req.proxy is None ==> sent.proxy == a.config.default_proxy
        }),
        r->Run_0.pinned == pinned,
        r->Run_0.domain == domain,
        b.config == a.config,
        b.pool == a.pool,
        b.sink == a.sink,
        b.shutdown == a.shutdown,
        b.compat_warned == a.compat_warned,
{
}

/// From the request to the provider: the exchange that is dispatched for a request that was started
/// carries its URL, session, cookies and timeout, its headers where it is a GET, and its proxy, or
/// the client's where it has none.
pub proof fn the_provider_is_sent_what_was_asked_for(
    a: AntibotView,
    req: RequestView,
    pinned: Option<Seq<char>>,
    domain: Option<Seq<char>>,
    key: Option<Seq<char>>,
    now: Instant,
    r: StartView,
    b: AntibotView,
    base: Seq<char>,
)
    requires
        started(a, req, pinned, domain, key, now, r, b),
        r is Run,
    ensures
        ({
            let e = exchange::exchange_of(
                base,
                wire::solve_wire(r->Run_0.request, b.config.max_timeout_ms),
            );
            &&& e.url == base + "/v1"@
            &&& e.wire.url == Some(req.url)
            &&& e.wire.session == req.session_id
            &&& e.wire.cookies == req.cookies
            &&& e.wire.return_only_cookies == req.return_only_cookies
            &&& req.proxy is Some ==> e.wire.proxy == req.proxy
            &&& req.proxy is None ==> e.wire.proxy == a.config.default_proxy
            &&& req.max_timeout_ms is Some ==> e.wire.max_timeout == req.max_timeout_ms->0
            &&& req.max_timeout_ms is None ==> e.wire.max_timeout == a.config.max_timeout_ms
            &&& req.method is Get ==> e.wire.cmd == "request.get"@ && e.wire.headers == req.headers
                && e.wire.post_data is None
            &&& req.method is Post ==> e.wire.cmd == "request.post"@ && e.wire.post_data is Some
            &&& req.fingerprint is Some ==> e.wire.user_agent == req.fingerprint->0.user_agent
                && e.wire.locale == req.fingerprint->0.locale && e.wire.viewport
                == req.fingerprint->0.viewport && e.wire.timezone == req.fingerprint->0.timezone
                && e.wire.platform == req.fingerprint->0.platform
        }),
{
}

/// A plain GET, with nothing of the caller's own about it, is answered from the cache or solved in
/// a way that others share: its solution is cached, and where calls are coalesced it is one of
/// them, whatever its headers, timeout and wish for cookies alone.
pub proof fn plain_requests_are_shared(
    a: AntibotView,
    req: RequestView,
    domain: Option<Seq<char>>,
    key: Option<Seq<char>>,
    now: Instant,
    r: StartView,
    b: AntibotView,
)
    requires
        started(a, req, None, domain, key, now, r, b),
        req.method is Get,
        req.session_id is None,
        req.cookies is None,
        req.proxy is None,
        req.fingerprint is None,
    ensures
        r is Run ==> r->Run_0.cache_write,
        r is Run ==> (r->Run_0.call is Some <==> a.calls is Some && key is Some),
        r is Run && r->Run_0.call is Some ==> {
            let id = r->Run_0.call->0;
            let calls = b.calls->0.calls.calls;
            &&& !a.calls->0.calls.calls.contains_key(id)
            &&& calls.contains_key(id)
            &&& a.calls->0.calls.inflight.contains_key(key->0) ==> calls[id] == (
            CallView::Waiting { key: key->0, leader: a.calls->0.calls.inflight[key->0] })
                && b.metrics == metrics::with_coalesced_wait(a.metrics)
            &&& !a.calls->0.calls.inflight.contains_key(key->0) ==> calls[id] == (
            CallView::Leading { key: key->0 }) && b.metrics == a.metrics
        },
        req.bypass_cache || a.sessions is None || domain is None ==> r is Run && b.sessions
            == a.sessions,
{
}

/// A plain GET is answered from the cache if and only if the cache holds a session of its domain
/// that has not expired; the answer is that session's, for the URL asked for, without a page, and
/// tells its age. Otherwise the request is solved, and a session that has expired is dropped.
pub proof fn cached_sessions_answer_plain_requests(
    a: AntibotView,
    req: RequestView,
    domain: Seq<char>,
    key: Option<Seq<char>>,
    now: Instant,
    r: StartView,
    b: AntibotView,
    other: Seq<char>,
)
    requires
        started(a, req, None, Some(domain), key, now, r, b),
        req.method is Get,
        req.session_id is None,
        req.cookies is None,
        req.proxy is None,
        req.fingerprint is None,
        !req.bypass_cache,
        a.sessions is Some,
    ensures
        ({
            let entries = a.sessions->0.entries;
            let s = entries[domain];
            let fresh = entries.contains_key(domain) && (s.expires_at is None || now.nanos
                < s.expires_at->0.nanos);
            &&& r is Done <==> fresh
            &&& fresh ==> {
                &&& r->Done_0 is Ok
                &&& r->Done_0->Ok_0.url == req.url
                &&& r->Done_0->Ok_0.status == s.status
                &&& r->Done_0->Ok_0.cookies == s.cookies
                &&& r->Done_0->Ok_0.user_agent == s.user_agent
                &&& r->Done_0->Ok_0.response is None
                &&& r->Done_0->Ok_0.solved_at == s.solved_at_system
                &&& r->Done_0->Ok_0.source == (SolutionSource::Cached {
                    age: time::instant_since(now, s.solved_at),
                })
                &&& b == AntibotView { metrics: metrics::with_cache_hit(a.metrics), ..a }
            }
            &&& !fresh ==> {
                &&& b.sessions is Some
                &&& b.sessions->0.limits == a.sessions->0.limits
                &&& !b.sessions->0.entries.contains_key(domain)
                &&& other != domain && entries.contains_key(other)
                    ==> b.sessions->0.entries.contains_key(other) && b.sessions->0.entries[other]
                    == entries[other]
            }
        }),
{
}

/// A success ends the solve with that very solution, leaves artifacts if and only if there is a
/// debug sink, is counted with its time, and changes the cache only for a request that may be
/// shared. Nothing else of the client changes.
pub proof fn a_success_ends_the_solve(
    a: AntibotView,
    job: JobView,
    attempt: u32,
    s: SolutionView,
    elapsed_ms: u64,
    now: Instant,
    now_system: SystemTime,
    step: SolveStepView,
    b: AntibotView,
)
    requires
        attempted(a, job, attempt, Ok(s), elapsed_ms, now, now_system, step, b),
    ensures
        step is Done,
        step->outcome == Ok::<SolutionView, ErrorView>(s),
        step->artifacts is Some <==> a.sink is Some,
        a.sink is Some ==> step->artifacts->0 == debug_replay::artifacts_of(
            a.sink->0,
            job.request.url,
            s,
        ),
        b.metrics == metrics::with_success(a.metrics, elapsed_ms),
        b.sink is Some <==> a.sink is Some,
        a.sink is Some && a.sink->0.counter < u64::MAX ==> b.sink->0 == (DebugSink {
            counter: (a.sink->0.counter + 1) as u64,
            ..a.sink->0
        }),
        !job.cache_write || job.domain is None ==> b.sessions == a.sessions,
        a.sessions is None ==> b.sessions is None,
        b.config == a.config,
        b.pool == a.pool,
        b.calls == a.calls,
        b.shutdown == a.shutdown,
        b.compat_warned == a.compat_warned,
{
}

/// The solution of a request that may be shared is cached under its domain, with its cookies, user
/// agent and status, and the sessions of other domains stay, as long as all of them fit.
pub proof fn shared_solutions_are_cached(
    a: AntibotView,
    job: JobView,
    attempt: u32,
    s: SolutionView,
    elapsed_ms: u64,
    now: Instant,
    now_system: SystemTime,
    step: SolveStepView,
    b: AntibotView,
    other: Seq<char>,
)
    requires
        attempted(a, job, attempt, Ok(s), elapsed_ms, now, now_system, step, b),
        job.cache_write,
        job.domain is Some,
        a.sessions is Some,
        a.sessions->0.entries.dom().insert(job.domain->0).len() <= a.sessions->0.limits.max_entries,
    ensures
        b.sessions is Some,
        b.sessions->0.limits == a.sessions->0.limits,
        b.sessions->0.entries.contains_key(job.domain->0),
        ({
            let kept = b.sessions->0.entries[job.domain->0];
            &&& kept.cookies == s.cookies
            &&& kept.user_agent == s.user_agent
            &&& kept.status == s.status
            &&& kept.solved_at == now
            &&& kept.solved_at_system == now_system
            &&& kept.expires_at == Some(
                session_cache::expiry_of(a.sessions->0.limits, s.cookies, now, now_system),
            )
        }),
        other != job.domain->0 ==> {
            &&& b.sessions->0.entries.contains_key(other) == a.sessions->0.entries.contains_key(
                other,
            )
            &&& a.sessions->0.entries.contains_key(other) ==> b.sessions->0.entries[other]
                == a.sessions->0.entries[other]
        },
{
    let session = session_cache::new_session(
        a.sessions->0.limits,
        s.cookies,
        s.user_agent,
        s.status,
        now,
        now_system,
    );
    let full = a.sessions->0.entries.insert(job.domain->0, session);
    assert(full.dom() =~= a.sessions->0.entries.dom().insert(job.domain->0));
    assert(b.sessions->0.entries == full);
}

/// A failure that may go away is followed by the next attempt as long as the policy has one left;
/// any other failure, and the last, ends the solve with that very error. A failure touches nothing
/// but the counters: it is counted, and so is the retry that follows it.
pub proof fn a_failure_is_retried_or_ends_the_solve(
    a: AntibotView,
    job: JobView,
    attempt: u32,
    e: ErrorView,
    elapsed_ms: u64,
    now: Instant,
    now_system: SystemTime,
    step: SolveStepView,
    b: AntibotView,
)
    requires
        attempted(a, job, attempt, Err(e), elapsed_ms, now, now_system, step, b),
    ensures
        retry::is_transient(e) && attempt < a.config.retry_policy.max_attempts ==> step == (
        SolveStepView::Backoff { attempt: (attempt + 1) as u32 }) && b.metrics
            == metrics::with_retry(metrics::with_failure(a.metrics)),
        !retry::is_transient(e) || attempt >= a.config.retry_policy.max_attempts ==> step == (
        SolveStepView::Done { outcome: Err(e), artifacts: None }) && b.metrics
            == metrics::with_failure(a.metrics),
        b == (AntibotView { metrics: b.metrics, ..a }),
{
}

/// A solve begins with its first attempt, unless the policy allows none.
pub proof fn solves_begin_with_the_first_attempt(policy: RetryPolicy)
    ensures
        policy.max_attempts > 0 ==> first_step(policy) == (SolveStepView::Dispatch { attempt: 1 }),
        policy.max_attempts == 0 ==> first_step(policy) is Done && first_step(policy)->outcome is Err
            && first_step(policy)->artifacts is None,
{
}

/// A coalesced call goes on as it stands: one that leads solves, one that waits waits, one whose
/// leader has finished is over with the result, and one whose leader went away leads, or waits for
/// whoever leads now. Only the calls change, and only that call.
pub proof fn calls_lead_wait_or_end(
    a: AntibotView,
    id: usize,
    now: SystemTime,
    step: CallStep,
    b: AntibotView,
    other: usize,
)
    requires
        a.calls is Some,
        coalesce::coherent(a.calls->0.calls),
        a.calls->0.calls.calls.contains_key(id),
        call_went_on(a, id, now, step, b),
        other != id,
    ensures
        a.calls->0.calls.calls[id] is Ready <==> step is Done,
        step is Lead ==> leads(b, id),
        step is Wait ==> b.calls is Some && b.calls->0.calls.calls[id] is Waiting && leads(
            b,
            b.calls->0.calls.calls[id]->Waiting_leader,
        ),
        a.calls->0.calls.calls[id] is Leading ==> step is Lead,
        a.calls->0.calls.calls[id] is Waiting ==> step is Wait,
        b.calls is Some,
        b.calls->0.strategy == a.calls->0.strategy,
        b == (AntibotView { calls: b.calls, ..a }),
        a.calls->0.calls.calls.contains_key(other) ==> b.calls->0.calls.calls.contains_key(other)
            && b.calls->0.calls.calls[other] == a.calls->0.calls.calls[other],
{
    let c = a.calls->0.calls;
    if c.calls[id] is Waiting {
        assert(c.inflight.contains_key(c.calls[id]->Waiting_key));
    }
    if c.calls[id] is Orphaned {
        let key = c.calls[id]->Orphaned_key;
        if c.inflight.contains_key(key) {
            assert(c.calls.contains_key(c.inflight[key]));
            assert(c.inflight[key] != id);
        }
    }
}

/// A call is keyed by its URL or its domain, as the client groups them, and not at all where it
/// does not coalesce.
pub proof fn calls_are_keyed_as_the_client_groups_them(
    a: AntibotView,
    u: Seq<char>,
    v: Seq<char>,
)
    ensures
        a.calls is None ==> call_key(a, u) is None,
        a.calls is Some && a.calls->0.strategy == CoalesceKey::Url ==> call_key(a, u) == Some(u)
            && (call_key(a, u) == call_key(a, v) <==> u == v),
        a.calls is Some && a.calls->0.strategy == CoalesceKey::Domain ==> call_key(a, u)
            == session_cache::url_key(u),
{
}

proof fn lemma_listed(s: Seq<Seq<char>>, b: bool, feature: Seq<char>)
    ensures
        (s + used(b, feature)).len() == s.len() + if b {
            1int
        } else {
            0int
        },
        b ==> (s + used(b, feature)).contains(feature),
        forall|x: Seq<char>| s.contains(x) ==> #[trigger] (s + used(b, feature)).contains(x),
{
    let t = s + used(b, feature);
    if b {
        assert(t[s.len() as int] == feature);
    }
    assert forall|x: Seq<char>| s.contains(x) implies #[trigger] t.contains(x) by {
        let i = choose|i: int| 0 <= i < s.len() && s[i] == x;
        assert(t[i] == x);
    }
}

/// One for a yes, zero for a no.
pub open spec fn one_if(b: bool) -> int {
    if b {
        1
    } else {
        0
    }
}

/// FlareSolverr ignores headers, bodies other than forms, and fingerprints: those that a request
/// uses are its ignored features, each once.
pub proof fn what_flaresolverr_ignores(req: RequestView)
    ensures
        ({
            let f = ignored_features(Some(ProviderView::FlareSolverr), req);
            let odd = req.method is Post && !(req.method->body is Form);
            &&& req.headers is Some ==> f.contains("custom headers"@)
            &&& odd ==> f.contains("non-form POST bodies"@)
            &&& req.fingerprint is Some ==> f.contains("browser fingerprints"@)
            &&& f.len() == one_if(req.headers is Some) + one_if(odd) + one_if(
                req.fingerprint is Some,
            )
        }),
{
    let odd = req.method is Post && !(req.method->body is Form);
    let a = used(req.headers is Some, "custom headers"@);
    let b = a + used(odd, "non-form POST bodies"@);
    lemma_listed(Seq::empty(), req.headers is Some, "custom headers"@);
    assert(Seq::<Seq<char>>::empty() + a =~= a);
    lemma_listed(a, odd, "non-form POST bodies"@);
    lemma_listed(b, req.fingerprint is Some, "browser fingerprints"@);
}

/// Byparr ignores headers, cookies, proxies, fingerprints, sessions and the wish for cookies alone:
/// those that a request uses are its ignored features, each once.
pub proof fn what_byparr_ignores(req: RequestView)
    ensures
        ({
            let f = ignored_features(Some(ProviderView::Byparr), req);
            &&& req.headers is Some ==> f.contains("custom headers"@)
            &&& req.cookies is Some ==> f.contains("pre-seeded cookies"@)
            &&& req.proxy is Some ==> f.contains("proxies"@)
            &&& req.fingerprint is Some ==> f.contains("browser fingerprints"@)
            &&& req.session_id is Some ==> f.contains("sessions"@)
            &&& req.return_only_cookies ==> f.contains("returnOnlyCookies"@)
            &&& f.len() == one_if(req.headers is Some) + one_if(req.cookies is Some) + one_if(
                req.proxy is Some,
            ) + one_if(req.fingerprint is Some) + one_if(req.session_id is Some) + one_if(
                req.return_only_cookies,
            )
        }),
{
    let a = used(req.headers is Some, "custom headers"@);
    let b = a + used(req.cookies is Some, "pre-seeded cookies"@);
    let c = b + used(req.proxy is Some, "proxies"@);
    let d = c + used(req.fingerprint is Some, "browser fingerprints"@);
    let e = d + used(req.session_id is Some, "sessions"@);
    lemma_listed(Seq::empty(), req.headers is Some, "custom headers"@);
    assert(Seq::<Seq<char>>::empty() + a =~= a);
    lemma_listed(a, req.cookies is Some, "pre-seeded cookies"@);
    lemma_listed(b, req.proxy is Some, "proxies"@);
    lemma_listed(c, req.fingerprint is Some, "browser fingerprints"@);
    lemma_listed(d, req.session_id is Some, "sessions"@);
    lemma_listed(e, req.return_only_cookies, "returnOnlyCookies"@);
}

/// Of a custom provider, and of one that is not known, nothing is known to be ignored.
pub proof fn nothing_is_known_of_other_providers(req: RequestView, image: Seq<char>)
    ensures
        ignored_features(None, req).len() == 0,
        ignored_features(Some(ProviderView::Custom(image)), req).len() == 0,
{
}

/// A warning comes with the first request that uses an ignored feature, and names the provider and
/// all of the features; a request that uses none brings no warning and does not use it up.
pub proof fn warnings_name_what_is_ignored(a: AntibotView, req: RequestView)
    ensures
        ({
            let f = ignored_features(a.config.provider_hint, req);
            let w = compat_warning(a, req);
            &&& w is Some <==> f.len() > 0 && !a.compat_warned
            &&& w is Some ==> text::occurs(w->0, text::joined(f, ", "@)) && text::occurs(
                w->0,
                provider::label_of(a.config.provider_hint->0),
            )
            &&& warned_after(a, req) <==> a.compat_warned || w is Some
        }),
{
    let f = ignored_features(a.config.provider_hint, req);
    let label = provider::label_of(a.config.provider_hint->0);
    let listed = text::joined(f, ", "@);
    let rest = " — these request fields will be ignored by the server (warning logged once)"@;
    text::text_occurs_where_it_stands(label + " does not support: "@, listed, rest);
    text::text_occurs_where_it_stands(
        Seq::empty(),
        label,
        " does not support: "@ + listed + rest,
    );
    assert(Seq::<char>::empty() + label + (" does not support: "@ + listed + rest) =~= label
        + " does not support: "@ + listed + rest);
}

/// The watchdog sleeps, then probes the service of the client's own container, and after a restart
/// that worked waits for it to become healthy, as often as it is told to try; after one that did
/// not, and after the wait, it sleeps again. Without a container it has nothing to do.
pub proof fn the_watchdog_keeps_its_round(a: AntibotView, status: Option<u16>)
    requires
        !a.shutdown,
    ensures
        watch_action(a, WatchEvent::Begin) == WatchView::Sleep,
        a.config.docker_manager is Some ==> {
            &&& watch_action(a, WatchEvent::Slept) == (WatchView::Probe {
                url: docker::local_url(a.config.docker_manager->0.port),
            })
            &&& watch_action(a, WatchEvent::Restarted { ok: true }) == (WatchView::WaitHealthy {
                max_attempts: a.config.health_check_attempts_on_recovery,
            })
            &&& watch_action(a, WatchEvent::Restarted { ok: false }) == WatchView::Sleep
            &&& watch_action(a, WatchEvent::Recovered) == WatchView::Sleep
            &&& docker::healthy_status(status) ==> watch_action(a, WatchEvent::Probed { status })
                == WatchView::Sleep
        },
        a.config.docker_manager is None ==> {
            &&& watch_action(a, WatchEvent::Slept) == WatchView::Stop
            &&& watch_action(a, WatchEvent::Probed { status }) == WatchView::Stop
            &&& !restarts(a, WatchEvent::Probed { status })
        },
{
}

/// The container of a client is stopped with it if and only if the client manages its life.
pub proof fn only_managed_containers_are_stopped(c: ConfigView)
    ensures
        managed_container(c) is Some <==> c.manage_lifecycle && c.docker_manager is Some,
        managed_container(c) is Some ==> managed_container(c) == c.docker_manager,
{
}

/// A client that has just been set up has one idle instance for each URL, in their order, an empty
/// cache and no calls where these are on, counters at zero, and has neither been shut down nor
/// given its warning.
pub proof fn clients_start_out_idle(
    config: ConfigView,
    urls: Seq<Seq<char>>,
    max_inflight: Option<usize>,
    cache: Option<SessionCacheConfig>,
    strategy: Option<CoalesceKey>,
    sink: Option<DebugSink>,
    i: int,
)
    ensures
        ({
            let a = fresh_client(config, urls, max_inflight, cache, strategy, sink);
            &&& a.config == config
            &&& a.pool.cursor == 0
            &&& a.pool.instances.len() == urls.len()
            &&& 0 <= i < urls.len() ==> {
                &&& a.pool.instances[i].base_url == urls[i]
                &&& a.pool.instances[i].inflight == 0
                &&& a.pool.instances[i].running == 0
                &&& a.pool.instances[i].permits is Some <==> max_inflight is Some
                &&& max_inflight is Some && max_inflight->0 > 0 ==> a.pool.instances[i].permits
                    == max_inflight
            }
            &&& a.sessions is Some <==> cache is Some
            &&& cache is Some ==> a.sessions->0.limits == cache->0 && a.sessions->0.entries.dom().len()
                == 0
            &&& a.calls is Some <==> strategy is Some
            &&& strategy is Some ==> a.calls->0.strategy == strategy->0
                && a.calls->0.calls.inflight.dom().len() == 0 && a.calls->0.calls.calls.dom().len()
                == 0
            &&& a.metrics.solves_attempted == 0
            &&& a.metrics.solves_succeeded == 0
            &&& a.metrics.solves_failed == 0
            &&& a.metrics.cache_hits == 0
            &&& a.metrics.coalesced_waits == 0
            &&& a.metrics.retries == 0
            &&& a.metrics.total_solve_time_ms == 0
            &&& a.metrics.container_restarts == 0
            &&& a.sink == sink
            &&& !a.shutdown
            &&& !a.compat_warned
        }),
{
}

/// A client that is merely connected caches, coalesces and retries nothing, has no proxy and no
/// container, gives each solve a minute, and knows of the provider what it was told. The URLs of
/// its instances lose their trailing slashes and nothing else.
pub proof fn connecting_adds_nothing(
    urls: Seq<Seq<char>>,
    provider: Option<ProviderView>,
    i: int,
)
    ensures
        ({
            let a = connected(urls, provider);
            &&& a.config.max_timeout_ms == 60_000
            &&& a.config.default_proxy is None
            &&& a.config.retry_policy.max_attempts == 1
            &&& a.config.docker_manager is None
            &&& !a.config.manage_lifecycle
            &&& a.config.provider_hint == provider
            &&& a.sessions is None
            &&& a.calls is None
            &&& a.sink is None
            &&& a.pool.instances.len() == urls.len()
            &&& 0 <= i < urls.len() ==> a.pool.instances[i].base_url == urls[i]
                && a.pool.instances[i].permits is None
        }),
        without_slashes(urls).len() == urls.len(),
        0 <= i < urls.len() ==> {
            let u = without_slashes(urls)[i];
            &&& u.len() <= urls[i].len()
            &&& u == urls[i].take(u.len() as int)
            &&& u.len() > 0 ==> u.last() != '/'
            &&& forall|j: int| u.len() <= j < urls[i].len() ==> #[trigger] urls[i][j] == '/'
        },
{
    if 0 <= i < urls.len() {
        text::only_trailing_slashes_go(urls[i]);
    }
}

/// What a client's settings and a solve that is to be run say is what their fields hold.
pub proof fn settings_say_what_they_hold(c: ClientConfig, j: SolveJob)
    ensures
        c@.max_timeout_ms == c.max_timeout_ms,
        c@.default_proxy is Some <==> c.default_proxy is Some,
        c.default_proxy is Some ==> c@.default_proxy->0 == c.default_proxy->0@,
        c@.retry_policy == c.retry_policy,
        c@.docker_manager is Some <==> c.docker_manager is Some,
        c.docker_manager is Some ==> c@.docker_manager->0 == c.docker_manager->0@,
        c@.manage_lifecycle == c.manage_lifecycle,
        c@.health_check_attempts_on_recovery == c.health_check_attempts_on_recovery,
        c@.provider_hint is Some <==> c.provider_hint is Some,
        c.provider_hint is Some ==> c@.provider_hint->0 == c.provider_hint->0@,
        j@.request == j.request@,
        j@.cache_write == j.cache_write,
        j@.pinned is Some <==> j.pinned is Some,
        j.pinned is Some ==> j@.pinned->0 == j.pinned->0@,
        j@.domain is Some <==> j.domain is Some,
        j.domain is Some ==> j@.domain->0 == j.domain->0@,
        j@.call == j.call,
{
}

/// The instances are probed in their order, each at most once, until one answers with success: the
/// service is available if and only if some instance does, and is not before all have been asked.
pub proof fn one_healthy_instance_is_enough(
    p: PoolView,
    probed: nat,
    statuses: spec_fn(nat) -> Option<u16>,
)
    requires
        probed <= p.instances.len(),
    ensures
        ({
            let (urls, available) = availability_run(p, probed, statuses);
            &&& available <==> exists|i: nat|
                probed <= i <= p.instances.len() && 0 < i && docker::healthy_status(
                    #[trigger] statuses(i),
                )
            &&& urls.len() <= p.instances.len() - probed
            &&& forall|i: int|
                0 <= i < urls.len() ==> #[trigger] urls[i] == p.instances[probed + i].base_url
            &&& !available ==> urls.len() == p.instances.len() - probed
        }),
    decreases p.instances.len() - probed,
{
    if probed > 0 && docker::healthy_status(statuses(probed)) {
    } else if probed < p.instances.len() {
        one_healthy_instance_is_enough(p, probed + 1, statuses);
        let (urls, available) = availability_run(p, probed, statuses);
        let rest = availability_run(p, probed + 1, statuses).0;
        assert forall|i: int| 0 <= i < urls.len() implies #[trigger] urls[i] == p.instances[probed
            + i].base_url by {
            if i > 0 {
                assert(urls[i] == rest[i - 1]);
            }
        }
        if exists|i: nat|
            probed <= i <= p.instances.len() && 0 < i && docker::healthy_status(
                #[trigger] statuses(i),
            ) {
            let i = choose|i: nat|
                probed <= i <= p.instances.len() && 0 < i && docker::healthy_status(
                    #[trigger] statuses(i),
                );
            assert(i != probed);
        }
    }
}

/// A managed container is stopped once: after a shutdown nothing is left to stop when the client
/// goes away, and without one, what a shutdown would have stopped is.
pub proof fn containers_are_stopped_once(a: AntibotView)
    ensures
        left_to_stop(AntibotView { shutdown: true, ..a }) is None,
        !a.shutdown ==> left_to_stop(a) == managed_container(a.config),
        left_to_stop(a) is Some ==> !a.shutdown && a.config.manage_lifecycle && left_to_stop(a)
            == a.config.docker_manager,
{
}

/// A session that has been dropped no longer answers anything, while the sessions of other domains
/// do as before; dropping them all leaves none. Nothing else of the client changes.
pub proof fn dropped_sessions_are_forgotten(
    a: AntibotView,
    domain: Seq<char>,
    other: Seq<char>,
    now: Instant,
)
    ensures
        ({
            let b = without_session(a, domain);
            let c = without_sessions(a);
            &&& b.sessions is Some <==> a.sessions is Some
            &&& c.sessions is Some <==> a.sessions is Some
            &&& b == AntibotView { sessions: b.sessions, ..a }
            &&& c == AntibotView { sessions: c.sessions, ..a }
            &&& a.sessions is Some ==> {
                &&& b.sessions->0.limits == a.sessions->0.limits
                &&& c.sessions->0.limits == a.sessions->0.limits
                &&& session_cache::served(b.sessions->0.entries, domain, now) is None
                &&& other != domain ==> session_cache::served(b.sessions->0.entries, other, now)
                    == session_cache::served(a.sessions->0.entries, other, now)
                &&& session_cache::served(c.sessions->0.entries, other, now) is None
                &&& c.sessions->0.entries.dom().len() == 0
            }
        }),
{
}

/// What a step of a solve, the beginning of one, and what a watchdog does say is what they hold.
pub proof fn steps_say_what_they_hold(s: Start, t: SolveStep, w: WatchAction, v: AvailabilityStep)
    ensures
        s is Done ==> s@ == StartView::Done(types::outcome(s->Done_0)),
        s is Run ==> s@ == StartView::Run(s->Run_0@),
        t is Dispatch ==> t@ == (SolveStepView::Dispatch { attempt: t->Dispatch_attempt }),
        t is Backoff ==> t@ == (SolveStepView::Backoff { attempt: t->Backoff_attempt }),
        t is Done ==> t@ is Done && t@->outcome == types::outcome(t->outcome) && (t@->artifacts is Some
            <==> t->artifacts is Some) && (t->artifacts is Some ==> t@->artifacts->0
            == t->artifacts->0@),
        w is Stop ==> w@ == WatchView::Stop,
        w is Sleep ==> w@ == WatchView::Sleep,
        w is Probe ==> w@ == (WatchView::Probe { url: w->url@ }),
        w is Restart ==> w@ == WatchView::Restart,
        w is WaitHealthy ==> w@ == (WatchView::WaitHealthy { max_attempts: w->max_attempts }),
        v is Probe ==> v@ == (AvailabilityView::Probe { url: v->url@ }),
        v is Done ==> v@ == (AvailabilityView::Done { available: v->available }),
{
}

} // verus!
