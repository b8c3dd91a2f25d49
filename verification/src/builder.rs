//! Setting up a client, with or without a container of its own.

use crate::client;
use crate::client::{Antibot, AntibotView, ClientConfig, ConfigView};
use crate::coalesce::CoalesceKey;
use crate::debug_replay;
use crate::debug_replay::{DebugConfig, DebugSink, DebugView};
use crate::docker;
use crate::docker::{
    CommandOutput, CommandView, DaemonEvent, DaemonStage, DaemonStep, DaemonStepView, DockerLimits,
    DockerManager, EventView, HealthStep, HealthStepView, HostOs, LimitsView, ManagerView,
    OutputView, StageView, StartPhase, StartStep, StartStepView,
};
use crate::error::{AntibotError, ErrorView};
use crate::provider::{Provider, ProviderView};
use crate::proxy;
use crate::proxy::{ProxyConfig, ProxyView};
use crate::retry;
use crate::retry::RetryPolicy;
use crate::session_cache::SessionCacheConfig;
use crate::text;
use crate::time;
use crate::time::{Duration, Instant, SystemTime};
use vstd::prelude::*;

verus! {

/// Builder for configuring and initializing an [`Antibot`] client.
pub struct AntibotBuilder {
    provider: Provider,
    port: u16,
    auto_start: bool,
    container_name: Option<String>,
    max_timeout_ms: u64,
    health_check_attempts: u32,
    default_proxy: Option<ProxyConfig>,
    session_cache_config: Option<SessionCacheConfig>,
    coalesce_key: Option<CoalesceKey>,
    retry_policy: RetryPolicy,
    debug_config: Option<DebugConfig>,
    docker_limits: DockerLimits,
    extra_instances: Vec<String>,
    manage_lifecycle: bool,
    health_watch_interval: Option<Duration>,
    max_inflight_per_instance: Option<usize>,
    start_docker_daemon: bool,
    daemon_start_override: Option<(String, Vec<String>)>,
    daemon_start_timeout: Duration,
    /// The operating system of this host.
    os: HostOs,
}

/// What an [`AntibotBuilder`] says.
pub struct BuilderView {
    pub provider: ProviderView,
    pub port: u16,
    pub auto_start: bool,
    pub container_name: Option<Seq<char>>,
    pub max_timeout_ms: u64,
    pub health_check_attempts: u32,
    pub default_proxy: Option<ProxyView>,
    pub session_cache_config: Option<SessionCacheConfig>,
    pub coalesce_key: Option<CoalesceKey>,
    pub retry_policy: RetryPolicy,
    pub debug_config: Option<DebugView>,
    pub docker_limits: LimitsView,
    pub extra_instances: Seq<Seq<char>>,
    pub manage_lifecycle: bool,
    pub health_watch_interval: Option<Duration>,
    pub max_inflight_per_instance: Option<usize>,
    pub start_docker_daemon: bool,
    pub daemon_start_override: Option<CommandView>,
    pub daemon_start_timeout: Duration,
    pub os: HostOs,
}

impl View for AntibotBuilder {
    type V = BuilderView;

    closed spec fn view(&self) -> BuilderView {
        BuilderView {
            provider: self.provider@,
            port: self.port,
            auto_start: self.auto_start,
            container_name: text::opt_text(self.container_name),
            max_timeout_ms: self.max_timeout_ms,
            health_check_attempts: self.health_check_attempts,
            default_proxy: proxy::opt_proxy(self.default_proxy),
            session_cache_config: self.session_cache_config,
            coalesce_key: self.coalesce_key,
            retry_policy: self.retry_policy,
            debug_config: debug_replay::opt_debug(self.debug_config),
            docker_limits: self.docker_limits@,
            extra_instances: text::texts(self.extra_instances@),
            manage_lifecycle: self.manage_lifecycle,
            health_watch_interval: self.health_watch_interval,
            max_inflight_per_instance: self.max_inflight_per_instance,
            start_docker_daemon: self.start_docker_daemon,
            daemon_start_override: docker::opt_command(self.daemon_start_override),
            daemon_start_timeout: self.daemon_start_timeout,
            os: self.os,
        }
    }
}

/// A builder that nothing has been asked of.
pub open spec fn plain_builder(os: HostOs) -> BuilderView {
    BuilderView {
        provider: ProviderView::Byparr,
        port: 8191,
        auto_start: false,
        container_name: None,
        max_timeout_ms: 60000,
        health_check_attempts: 15,
        default_proxy: None,
        session_cache_config: None,
        coalesce_key: None,
        retry_policy: RetryPolicy { max_attempts: 1, ..retry::default_policy() },
        debug_config: None,
        docker_limits: docker::no_limits(),
        extra_instances: Seq::empty(),
        manage_lifecycle: false,
        health_watch_interval: None,
        max_inflight_per_instance: None,
        start_docker_daemon: false,
        daemon_start_override: None,
        daemon_start_timeout: docker::usual_daemon_wait(os),
        os,
    }
}

/// The manager of the container that the client is to have.
pub open spec fn manager_of(b: BuilderView) -> ManagerView {
    ManagerView {
        provider: b.provider,
        port: b.port,
        container_name: match b.container_name {
            Some(name) => name,
            None => "antibot-solver"@,
        },
        limits: b.docker_limits,
    }
}

/// Where setting up a client stands: what is awaited.
pub enum BuildStage {
    /// The Docker daemon is being brought up.
    Daemon(DaemonStage),
    /// Is the Docker daemon running?
    DockerProbe,
    /// The container is being started.
    Start(StartPhase),
    /// The service is probed, for the time given.
    Health { attempt: u32 },
}

/// What happened.
pub enum BuildEvent {
    Daemon(DaemonEvent),
    DockerProbed { available: bool },
    /// What came back from the command of the phase; `None` where it could not be run.
    Command(Option<CommandOutput>),
    /// The HTTP status that the service answered with, if it answered.
    HealthProbed { status: Option<u16> },
}

/// What to do next.
pub enum BuildStep {
    /// Go on with this stage.
    Next(BuildStage),
    /// Let the poll interval pass, then go on with this stage.
    Pause { stage: BuildStage, heartbeat: Option<Duration> },
    Failed(AntibotError),
    /// Everything the client needs is up.
    Ready,
}

/// What a [`BuildStage`] says.
pub enum BuildStageView {
    Daemon(StageView),
    DockerProbe,
    Start(StartPhase),
    Health { attempt: u32 },
}

/// What a [`BuildEvent`] says.
pub enum BuildEventView {
    Daemon(EventView),
    DockerProbed { available: bool },
    Command(Option<OutputView>),
    HealthProbed { status: Option<u16> },
}

/// What a [`BuildStep`] says.
pub enum BuildStepView {
    Next(BuildStageView),
    Pause { stage: BuildStageView, heartbeat: Option<Duration> },
    Failed(ErrorView),
    Ready,
}

impl View for BuildStage {
    type V = BuildStageView;

    open spec fn view(&self) -> BuildStageView {
        match self {
            BuildStage::Daemon(s) => BuildStageView::Daemon(s@),
            BuildStage::DockerProbe => BuildStageView::DockerProbe,
            BuildStage::Start(p) => BuildStageView::Start(*p),
            BuildStage::Health { attempt } => BuildStageView::Health { attempt: *attempt },
        }
    }
}

impl View for BuildEvent {
    type V = BuildEventView;

    open spec fn view(&self) -> BuildEventView {
        match self {
            BuildEvent::Daemon(e) => BuildEventView::Daemon(e@),
            BuildEvent::DockerProbed { available } => BuildEventView::DockerProbed {
                available: *available,
            },
            BuildEvent::Command(r) => BuildEventView::Command(docker::reply_view(*r)),
            BuildEvent::HealthProbed { status } => BuildEventView::HealthProbed { status: *status },
        }
    }
}

impl View for BuildStep {
    type V = BuildStepView;

    open spec fn view(&self) -> BuildStepView {
        match self {
            BuildStep::Next(s) => BuildStepView::Next(s@),
            BuildStep::Pause { stage, heartbeat } => BuildStepView::Pause {
                stage: stage@,
                heartbeat: *heartbeat,
            },
            BuildStep::Failed(e) => BuildStepView::Failed(e@),
            BuildStep::Ready => BuildStepView::Ready,
        }
    }
}

/// How setting up begins.
pub open spec fn build_start(b: BuilderView) -> BuildStepView {
    if !b.auto_start {
        BuildStepView::Ready
    } else if b.start_docker_daemon {
        BuildStepView::Next(BuildStageView::Daemon(StageView::FirstProbe))
    } else {
        BuildStepView::Next(BuildStageView::DockerProbe)
    }
}

/// What the wait for the service's health goes on with.
pub open spec fn health_goes_on(s: HealthStepView) -> BuildStepView {
    match s {
        HealthStepView::Probe { attempt } => if attempt == 1 {
            BuildStepView::Next(BuildStageView::Health { attempt })
        } else {
            BuildStepView::Pause { stage: BuildStageView::Health { attempt }, heartbeat: None }
        },
        HealthStepView::Done(Ok(_)) => BuildStepView::Ready,
        HealthStepView::Done(Err(e)) => BuildStepView::Failed(e),
    }
}

/// What follows `event` in `stage`, at `now`: daemon, container and service come up in this order.
/// An event that the stage does not await changes nothing.
pub open spec fn build_step(
    b: BuilderView,
    stage: BuildStageView,
    event: BuildEventView,
    now: Instant,
) -> BuildStepView {
    match (stage, event) {
        (BuildStageView::Daemon(s), BuildEventView::Daemon(e)) => match docker::daemon_step(
            b.daemon_start_override,
            b.os,
            b.daemon_start_timeout,
            s,
            e,
            now,
        ) {
            DaemonStepView::Next(s) => BuildStepView::Next(BuildStageView::Daemon(s)),
            DaemonStepView::Pause { stage, heartbeat } => BuildStepView::Pause {
                stage: BuildStageView::Daemon(stage),
                heartbeat,
            },
            DaemonStepView::Done(Ok(_)) => BuildStepView::Next(
                BuildStageView::Start(StartPhase::CheckExists),
            ),
            DaemonStepView::Done(Err(e)) => BuildStepView::Failed(e),
        },
        (BuildStageView::DockerProbe, BuildEventView::DockerProbed { available }) => {
            if available {
                BuildStepView::Next(BuildStageView::Start(StartPhase::CheckExists))
            } else {
                BuildStepView::Failed(ErrorView::DockerNotAvailable)
            }
        },
        (BuildStageView::Start(p), BuildEventView::Command(r)) => match docker::start_step(
            manager_of(b),
            p,
            r,
        ) {
            StartStepView::Next(p) => BuildStepView::Next(BuildStageView::Start(p)),
            StartStepView::Done(Ok(_)) => health_goes_on(
                docker::health_step(manager_of(b), b.health_check_attempts, 0, None),
            ),
            StartStepView::Done(Err(e)) => BuildStepView::Failed(e),
        },
        (BuildStageView::Health { attempt }, BuildEventView::HealthProbed { status }) => {
            health_goes_on(
                docker::health_step(manager_of(b), b.health_check_attempts, attempt, status),
            )
        },
        _ => BuildStepView::Next(stage),
    }
}

/// What the client is set up with.
pub open spec fn config_of(b: BuilderView) -> ConfigView {
    ConfigView {
        max_timeout_ms: b.max_timeout_ms,
        default_proxy: b.default_proxy,
        retry_policy: b.retry_policy,
        docker_manager: if b.auto_start {
            Some(manager_of(b))
        } else {
            None
        },
        manage_lifecycle: b.manage_lifecycle,
        health_check_attempts_on_recovery: b.health_check_attempts,
        provider_hint: if b.auto_start {
            Some(b.provider)
        } else {
            None
        },
    }
}

/// The client that comes out of setting up, where `sink` is its debug sink.
pub open spec fn built(b: BuilderView, sink: Option<DebugSink>) -> AntibotView {
    client::fresh_client(
        config_of(b),
        seq![docker::local_url(b.port)] + b.extra_instances,
        b.max_inflight_per_instance,
        b.session_cache_config,
        b.coalesce_key,
        sink,
    )
}

/// How often the client's container is to be watched, if at all: there must be a container.
pub open spec fn watch_interval(b: BuilderView) -> Option<Duration> {
    if b.auto_start {
        b.health_watch_interval
    } else {
        None
    }
}

impl Antibot {
    /// Create a builder for configuring the client on a host with the operating system `os`.
    pub fn builder(os: HostOs) -> (b: AntibotBuilder)
        ensures
            b@ == plain_builder(os),
    {
        let b = AntibotBuilder {
            provider: Provider::Byparr,
            port: 8191,
            auto_start: false,
            container_name: None,
            max_timeout_ms: 60000,
            health_check_attempts: 15,
            default_proxy: None,
            session_cache_config: None,
            coalesce_key: None,
            retry_policy: RetryPolicy::no_retries(),
            debug_config: None,
            docker_limits: Default::default(),
            extra_instances: Vec::new(),
            manage_lifecycle: false,
            health_watch_interval: None,
            max_inflight_per_instance: None,
            start_docker_daemon: false,
            daemon_start_override: None,
            daemon_start_timeout: docker::default_daemon_wait(os),
            os,
        };
        assert(b@.extra_instances =~= Seq::<Seq<char>>::empty());
        b
    }
}

impl AntibotBuilder {
    pub fn provider(self, provider: Provider) -> (b: Self)
        ensures
            b@ == (BuilderView { provider: provider@, ..self@ }),
    {
        let mut b = self;
        b.provider = provider;
        b
    }

    pub fn port(self, port: u16) -> (b: Self)
        ensures
            b@ == (BuilderView { port, ..self@ }),
    {
        let mut b = self;
        b.port = port;
        b
    }

    pub fn auto_start(self, enabled: bool) -> (b: Self)
        ensures
            b@ == (BuilderView { auto_start: enabled, ..self@ }),
    {
        let mut b = self;
        b.auto_start = enabled;
        b
    }

    pub fn container_name(self, name: &str) -> (b: Self)
        ensures
            b@ == (BuilderView { container_name: Some(name@), ..self@ }),
    {
        let mut b = self;
        b.container_name = Some(name.to_string());
        b
    }

    pub fn max_timeout_ms(self, ms: u64) -> (b: Self)
        ensures
            b@ == (BuilderView { max_timeout_ms: ms, ..self@ }),
    {
        let mut b = self;
        b.max_timeout_ms = ms;
        b
    }

    /// Number of health-check polls (2s apart) to wait for the service on
    /// startup. Clamped to a minimum of 1.
    pub fn health_check_attempts(self, attempts: u32) -> (b: Self)
        ensures
            b@ == (BuilderView {
                health_check_attempts: if attempts < 1 {
                    1
                } else {
                    attempts
                },
                ..self@
            }),
    {
        let mut b = self;
        b.health_check_attempts = if attempts < 1 {
            1
        } else {
            attempts
        };
        b
    }

    pub fn default_proxy(self, proxy: ProxyConfig) -> (b: Self)
        ensures
            b@ == (BuilderView { default_proxy: Some(proxy@), ..self@ }),
    {
        let mut b = self;
        b.default_proxy = Some(proxy);
        b
    }

    /// Enable session caching with default config (30 min TTL, 1000 entries).
    pub fn enable_session_cache(self) -> (b: Self)
        ensures
            b@.session_cache_config is Some,
            b@.session_cache_config->0.default_ttl.nanos == 30 * 60 * time::NANOS_PER_SEC,
            b@.session_cache_config->0.max_entries == 1000,
            b@.session_cache_config->0.respect_cookie_expiry,
            b@ == (BuilderView { session_cache_config: b@.session_cache_config, ..self@ }),
    {
        let mut b = self;
        b.session_cache_config = Some(Default::default());
        b
    }

    pub fn session_cache(self, config: SessionCacheConfig) -> (b: Self)
        ensures
            b@ == (BuilderView { session_cache_config: Some(config), ..self@ }),
    {
        let mut b = self;
        b.session_cache_config = Some(config);
        b
    }

    /// Coalesce concurrent solves that share the same key.
    pub fn coalesce_solves(self, key: CoalesceKey) -> (b: Self)
        ensures
            b@ == (BuilderView { coalesce_key: Some(key), ..self@ }),
    {
        let mut b = self;
        b.coalesce_key = Some(key);
        b
    }

    /// Wrap each provider call in a retry policy.
    pub fn retry(self, policy: RetryPolicy) -> (b: Self)
        ensures
            b@ == (BuilderView { retry_policy: policy, ..self@ }),
    {
        let mut b = self;
        b.retry_policy = policy;
        b
    }

    /// Enable disk dumps of every solved page.
    pub fn debug(self, config: DebugConfig) -> (b: Self)
        ensures
            b@ == (BuilderView { debug_config: Some(config@), ..self@ }),
    {
        let mut b = self;
        b.debug_config = Some(config);
        b
    }

    /// Apply Docker resource caps when creating a managed container.
    pub fn docker_limits(self, limits: DockerLimits) -> (b: Self)
        ensures
            b@ == (BuilderView { docker_limits: limits@, ..self@ }),
    {
        let mut b = self;
        b.docker_limits = limits;
        b
    }

    /// When `auto_start` is on and the Docker daemon isn't running, attempt to
    /// start it (and wait for it to become ready) before creating the
    /// container. Off by default.
    ///
    /// Uses a per-OS default: Docker Desktop on macOS/Windows, `systemctl start
    /// docker` on Linux. The Linux default needs privileges — for rootless
    /// Docker, Colima, OrbStack, etc. supply your own command with
    /// [`docker_daemon_start_command`](Self::docker_daemon_start_command). Has
    /// no effect without `auto_start`.
    pub fn start_docker_daemon(self, enabled: bool) -> (b: Self)
        ensures
            b@ == (BuilderView { start_docker_daemon: enabled, ..self@ }),
    {
        let mut b = self;
        b.start_docker_daemon = enabled;
        b
    }

    /// Override the command used to start the Docker daemon (implies
    /// [`start_docker_daemon(true)`](Self::start_docker_daemon)). For example,
    /// `("colima", ["start"])` or `("sudo", ["systemctl", "start", "docker"])`.
    pub fn docker_daemon_start_command(self, program: &str, args: Vec<String>) -> (b: Self)
        ensures
            b@ == (BuilderView {
                start_docker_daemon: true,
                daemon_start_override: Some((program@, text::texts(args@))),
                ..self@
            }),
    {
        let mut b = self;
        b.start_docker_daemon = true;
        b.daemon_start_override = Some((program.to_string(), args));
        b
    }

    /// How long to wait for the daemon to become ready after starting it
    /// (by default 240s on Windows and macOS, where Docker Desktop boots a VM,
    /// and 60s elsewhere).
    pub fn daemon_start_timeout(self, timeout: Duration) -> (b: Self)
        ensures
            b@ == (BuilderView { daemon_start_timeout: timeout, ..self@ }),
    {
        let mut b = self;
        b.daemon_start_timeout = timeout;
        b
    }

    /// Add an additional pre-existing instance URL. Combined with the
    /// `auto_start`/`port` instance, requests are routed least-loaded-first
    /// across all of them.
    pub fn add_instance(self, base_url: &str) -> (b: Self)
        ensures
            b@ == (BuilderView {
                extra_instances: self@.extra_instances.push(
                    text::without_trailing_slashes(base_url@),
                ),
                ..self@
            }),
    {
        let ghost before = self@.extra_instances;
        let mut b = self;
        b.extra_instances.push(text::trim_end_slashes(base_url));
        assert(b@.extra_instances =~= before.push(text::without_trailing_slashes(base_url@)));
        b
    }

    /// Cap the number of solves dispatched concurrently to any single instance.
    /// Since each solver runs one headless browser, a low value (1–2) keeps the
    /// browser busy without thrashing; excess solves wait (backpressure) rather
    /// than piling onto the server's internal queue. Unset = no client-side cap.
    pub fn max_inflight_per_instance(self, max: usize) -> (b: Self)
        ensures
            b@ == (BuilderView {
                max_inflight_per_instance: Some(
                    if max < 1 {
                        1
                    } else {
                        max
                    },
                ),
                ..self@
            }),
    {
        let mut b = self;
        b.max_inflight_per_instance = Some(
            if max < 1 {
                1
            } else {
                max
            },
        );
        b
    }

    /// Stop the spawned container when the client goes away (best-effort;
    /// prefer [`Antibot::shutdown`] for deterministic teardown).
    ///
    /// Caution: if two clients `auto_start` with the same container name,
    /// dropping one with this enabled stops the container out from under the
    /// other. Give each client a distinct
    /// [`container_name`](AntibotBuilder::container_name) (and port) instead.
    pub fn manage_lifecycle(self, enabled: bool) -> (b: Self)
        ensures
            b@ == (BuilderView { manage_lifecycle: enabled, ..self@ }),
    {
        let mut b = self;
        b.manage_lifecycle = enabled;
        b
    }

    /// Run a background watchdog that restarts the container if a health check
    /// fails. Only takes effect when `auto_start` is on. The interval is
    /// clamped to a minimum of 1s to avoid a hot poll loop.
    pub fn health_watch(self, interval: Duration) -> (b: Self)
        ensures
            b@ == (BuilderView {
                health_watch_interval: Some(
                    if interval.nanos < time::NANOS_PER_SEC {
                        Duration { nanos: time::NANOS_PER_SEC }
                    } else {
                        interval
                    },
                ),
                ..self@
            }),
    {
        let mut b = self;
        b.health_watch_interval = Some(interval.max(Duration::from_secs(1)));
        b
    }

    /// The manager of the container that the client is to have.
    pub fn docker_manager(&self) -> (m: DockerManager)
        ensures
            m@ == manager_of(self@),
    {
        let mut manager = DockerManager::new(self.provider.clone(), self.port);
        if let Some(name) = &self.container_name {
            manager = manager.with_container_name(name.clone());
        }
        manager.with_limits(self.docker_limits.clone())
    }

    /// How setting up the client begins.
    pub fn begin(&self) -> (step: BuildStep)
        ensures
            step@ == build_start(self@),
    {
        if !self.auto_start {
            BuildStep::Ready
        } else if self.start_docker_daemon {
            BuildStep::Next(BuildStage::Daemon(DaemonStage::FirstProbe))
        } else {
            BuildStep::Next(BuildStage::DockerProbe)
        }
    }

    fn health_goes_on(s: HealthStep) -> (step: BuildStep)
        ensures
            step@ == health_goes_on(s@),
    {
        match s {
            HealthStep::Probe { attempt } => if attempt == 1 {
                BuildStep::Next(BuildStage::Health { attempt })
            } else {
                BuildStep::Pause { stage: BuildStage::Health { attempt }, heartbeat: None }
            },
            HealthStep::Done(Ok(_)) => BuildStep::Ready,
            HealthStep::Done(Err(e)) => BuildStep::Failed(e),
        }
    }

    /// What follows `event` in `stage`, at `now`.
    pub fn advance(&self, stage: BuildStage, event: BuildEvent, now: Instant) -> (step: BuildStep)
        ensures
            step@ == build_step(self@, stage@, event@, now),
    {
        match (stage, event) {
            (BuildStage::Daemon(s), BuildEvent::Daemon(e)) => {
                let custom = match &self.daemon_start_override {
                    Some(c) => Some(c),
                    None => None,
                };
                match DockerManager::ensure_running(
                    custom,
                    self.os,
                    self.daemon_start_timeout,
                    s,
                    e,
                    now,
                ) {
                    DaemonStep::Next(s) => BuildStep::Next(BuildStage::Daemon(s)),
                    DaemonStep::Pause { stage, heartbeat } => BuildStep::Pause {
                        stage: BuildStage::Daemon(stage),
                        heartbeat,
                    },
                    DaemonStep::Done(Ok(_)) => BuildStep::Next(
                        BuildStage::Start(StartPhase::CheckExists),
                    ),
                    DaemonStep::Done(Err(e)) => BuildStep::Failed(e),
                }
            },
            (BuildStage::DockerProbe, BuildEvent::DockerProbed { available }) => {
                if available {
                    BuildStep::Next(BuildStage::Start(StartPhase::CheckExists))
                } else {
                    BuildStep::Failed(AntibotError::DockerNotAvailable)
                }
            },
            (BuildStage::Start(p), BuildEvent::Command(r)) => {
                let manager = self.docker_manager();
                match manager.start(p, r) {
                    StartStep::Next(p) => BuildStep::Next(BuildStage::Start(p)),
                    StartStep::Done(Ok(_)) => Self::health_goes_on(
                        manager.wait_healthy(self.health_check_attempts, 0, None),
                    ),
                    StartStep::Done(Err(e)) => BuildStep::Failed(e),
                }
            },
            (BuildStage::Health { attempt }, BuildEvent::HealthProbed { status }) => {
                Self::health_goes_on(
                    self.docker_manager().wait_healthy(
                        self.health_check_attempts,
                        attempt,
                        status,
                    ),
                )
            },
            (stage, _) => BuildStep::Next(stage),
        }
    }

    /// The client, once everything it needs is up, and how often its container is to be watched.
    /// `now` is when the client's run begins.
    pub fn build(self, now: SystemTime) -> (r: (Antibot, Option<Duration>))
        ensures
            r.0.wf(),
            r.0@ == built(self@, r.0@.sink),
            match r.0@.sink {
                Some(k) => self@.debug_config == Some(k.config@) && k.counter == 0 && k.run
                    == if now.unix_nanos >= 0 {
                    now.unix_nanos as int / time::NANOS_PER_MILLI as int
                } else {
                    0
                },
                None => self@.debug_config is None,
            },
            r.1 == watch_interval(self@),
    {
        let ghost b = self@;
        let docker_manager = if self.auto_start {
            Some(self.docker_manager())
        } else {
            None
        };
        // The client has started the container, so it is known what's behind the URL.
        let provider_hint = if self.auto_start {
            Some(self.provider)
        } else {
            None
        };
        let interval = if self.auto_start {
            self.health_watch_interval
        } else {
            None
        };
        let config = ClientConfig {
            max_timeout_ms: self.max_timeout_ms,
            default_proxy: self.default_proxy,
            retry_policy: self.retry_policy,
            docker_manager,
            manage_lifecycle: self.manage_lifecycle,
            health_check_attempts_on_recovery: self.health_check_attempts,
            provider_hint,
        };
        let mut urls: Vec<String> = vec![docker::url_on_localhost(self.port)];
        let mut extra = self.extra_instances;
        urls.append(&mut extra);
        assert(text::texts(urls@) =~= seq![docker::local_url(b.port)] + b.extra_instances);
        let sink = match self.debug_config {
            Some(config) => Some(DebugSink::new(config, now)),
            None => None,
        };
        let client = Antibot::assemble(
            config,
            urls,
            self.max_inflight_per_instance,
            self.session_cache_config,
            self.coalesce_key,
            sink,
        );
        (client, interval)
    }
}

/// Without `auto_start` setting up runs nothing: it is ready at once, the provider on the other end
/// is unknown, there is no container, and none is watched.
pub proof fn nothing_is_started_unasked(b: BuilderView, sink: Option<DebugSink>)
    requires
        !b.auto_start,
    ensures
        build_start(b) == BuildStepView::Ready,
        built(b, sink).config.docker_manager is None,
        built(b, sink).config.provider_hint is None,
        watch_interval(b) is None,
        client::managed_container(built(b, sink).config) is None,
{
}

/// The container is not touched before Docker has been found running.
pub proof fn the_container_waits_for_docker(
    b: BuilderView,
    stage: BuildStageView,
    event: BuildEventView,
    now: Instant,
    p: StartPhase,
)
    requires
        build_step(b, stage, event, now) == BuildStepView::Next(BuildStageView::Start(p)),
        stage !is Start,
    ensures
        p == StartPhase::CheckExists,
        event == (BuildEventView::DockerProbed { available: true }) || event
            == BuildEventView::Daemon(EventView::Probed { available: true }),
        !(build_start(b) matches BuildStepView::Next(BuildStageView::Start(_))),
{
}

/// With `auto_start` a client is ready only once a probe has found its service healthy.
pub proof fn ready_means_healthy(
    b: BuilderView,
    stage: BuildStageView,
    event: BuildEventView,
    now: Instant,
)
    requires
        b.auto_start,
        build_step(b, stage, event, now) == BuildStepView::Ready,
    ensures
        build_start(b) != BuildStepView::Ready,
        stage is Health,
        event matches BuildEventView::HealthProbed { status } && docker::healthy_status(status),
{
}

/// A builder asks for nothing until it is told to: no container and no daemon are started or
/// managed, nothing is cached, coalesced, retried, limited, watched or recorded, and the provider is
/// Byparr on its usual port, with a minute for a solve.
pub proof fn builders_start_out_plain(os: HostOs)
    ensures
        ({
            let b = plain_builder(os);
            &&& b.provider == ProviderView::Byparr
            &&& b.port == docker::SOLVER_PORT
            &&& !b.auto_start
            &&& !b.start_docker_daemon
            &&& !b.manage_lifecycle
            &&& b.container_name is None
            &&& b.max_timeout_ms == 60_000
            &&& b.health_check_attempts == 15
            &&& b.default_proxy is None
            &&& b.session_cache_config is None
            &&& b.coalesce_key is None
            &&& b.retry_policy.max_attempts == 1
            &&& b.debug_config is None
            &&& b.docker_limits.memory is None
            &&& b.docker_limits.cpus is None
            &&& b.docker_limits.shm_size is None
            &&& b.extra_instances.len() == 0
            &&& b.health_watch_interval is None
            &&& b.max_inflight_per_instance is None
            &&& b.daemon_start_override is None
            &&& b.daemon_start_timeout == docker::usual_daemon_wait(os)
            &&& b.os == os
        }),
{
}

/// The container that is started has the builder's provider, port and limits, and its name, or the
/// usual one where it was given none.
pub proof fn the_container_is_the_one_asked_for(b: BuilderView)
    ensures
        manager_of(b).provider == b.provider,
        manager_of(b).port == b.port,
        manager_of(b).limits == b.docker_limits,
        b.container_name is Some ==> manager_of(b).container_name == b.container_name->0,
        b.container_name is None ==> manager_of(b).container_name == "antibot-solver"@,
{
}

/// The client that comes out is the one that was asked for: its own instance first, then the extra
/// ones in their order, each with the cap given; its timeout, proxy, retries, cache, coalescing and
/// debug sink are the builder's. It has a container, and knows its provider, if and only if the
/// container was to be started, and watches it as often as it was told to.
pub proof fn clients_are_built_as_asked_for(b: BuilderView, sink: Option<DebugSink>, i: int)
    ensures
        ({
            let a = built(b, sink);
            &&& a.config.max_timeout_ms == b.max_timeout_ms
            &&& a.config.default_proxy == b.default_proxy
            &&& a.config.retry_policy == b.retry_policy
            &&& a.config.manage_lifecycle == b.manage_lifecycle
            &&& a.config.health_check_attempts_on_recovery == b.health_check_attempts
            &&& b.auto_start ==> {
                &&& a.config.docker_manager == Some(manager_of(b))
                &&& a.config.provider_hint == Some(b.provider)
                &&& watch_interval(b) == b.health_watch_interval
                &&& b.manage_lifecycle ==> client::managed_container(a.config) == Some(
                    manager_of(b),
                )
            }
            &&& a.pool.instances.len() == b.extra_instances.len() + 1
            &&& a.pool.instances[0].base_url == docker::local_url(b.port)
            &&& 0 <= i < b.extra_instances.len() ==> a.pool.instances[i + 1].base_url
                == b.extra_instances[i]
            &&& 0 <= i <= b.extra_instances.len() ==> a.pool.instances[i].permits
                == crate::pool::permits_for(b.max_inflight_per_instance)
                && a.pool.instances[i].inflight == 0
            &&& a.sessions is Some <==> b.session_cache_config is Some
            &&& a.sessions is Some ==> a.sessions->0.limits == b.session_cache_config->0
            &&& a.calls is Some <==> b.coalesce_key is Some
            &&& a.calls is Some ==> a.calls->0.strategy == b.coalesce_key->0
            &&& a.sink == sink
        }),
{
}

/// With `auto_start`, setting up looks for Docker first, and brings its daemon up only if told to;
/// where Docker is not running and is not to be started, that is the end of it.
pub proof fn the_daemon_is_started_only_if_asked_for(b: BuilderView, now: Instant)
    requires
        b.auto_start,
    ensures
        b.start_docker_daemon ==> build_start(b) == BuildStepView::Next(
            BuildStageView::Daemon(StageView::FirstProbe),
        ),
        !b.start_docker_daemon ==> build_start(b) == BuildStepView::Next(
            BuildStageView::DockerProbe,
        ),
        build_step(
            b,
            BuildStageView::DockerProbe,
            BuildEventView::DockerProbed { available: false },
            now,
        ) == BuildStepView::Failed(ErrorView::DockerNotAvailable),
        build_step(
            b,
            BuildStageView::DockerProbe,
            BuildEventView::DockerProbed { available: true },
            now,
        ) == BuildStepView::Next(BuildStageView::Start(StartPhase::CheckExists)),
{
}

/// Daemon, container and service come up one after the other, each by its own steps: the end of one
/// is the beginning of the next, and the failure of any is the failure of the whole.
pub proof fn setting_up_goes_step_by_step(
    b: BuilderView,
    s: StageView,
    e: EventView,
    p: StartPhase,
    reply: Option<OutputView>,
    attempt: u32,
    status: Option<u16>,
    now: Instant,
)
    ensures
        ({
            let d = docker::daemon_step(
                b.daemon_start_override,
                b.os,
                b.daemon_start_timeout,
                s,
                e,
                now,
            );
            let step = build_step(b, BuildStageView::Daemon(s), BuildEventView::Daemon(e), now);
            &&& d is Next ==> step == BuildStepView::Next(BuildStageView::Daemon(d->Next_0))
            &&& d is Pause ==> step == (BuildStepView::Pause {
                stage: BuildStageView::Daemon(d->stage),
                heartbeat: d->heartbeat,
            })
            &&& d is Done && d->Done_0 is Ok ==> step == BuildStepView::Next(
                BuildStageView::Start(StartPhase::CheckExists),
            )
            &&& d is Done && d->Done_0 is Err ==> step == BuildStepView::Failed(d->Done_0->Err_0)
        }),
        ({
            let d = docker::start_step(manager_of(b), p, reply);
            let step = build_step(b, BuildStageView::Start(p), BuildEventView::Command(reply), now);
            &&& d is Next ==> step == BuildStepView::Next(BuildStageView::Start(d->Next_0))
            &&& d is Done && d->Done_0 is Ok && b.health_check_attempts > 0 ==> step
                == BuildStepView::Next(BuildStageView::Health { attempt: 1 })
            &&& d is Done && d->Done_0 is Err ==> step == BuildStepView::Failed(d->Done_0->Err_0)
        }),
        ({
            let step = build_step(
                b,
                BuildStageView::Health { attempt },
                BuildEventView::HealthProbed { status },
                now,
            );
            let healthy = docker::healthy_status(status);
            &&& attempt > 0 && healthy ==> step == BuildStepView::Ready
            &&& 0 < attempt < b.health_check_attempts && !healthy ==> step == (BuildStepView::Pause {
                stage: BuildStageView::Health { attempt: (attempt + 1) as u32 },
                heartbeat: None,
            })
            &&& attempt >= b.health_check_attempts && !healthy ==> step == BuildStepView::Failed(
                ErrorView::HealthCheckFailed {
                    url: docker::local_url(b.port),
                    attempts: b.health_check_attempts,
                },
            )
        }),
{
}

/// The stages, events and steps of setting up say what they hold.
pub proof fn setting_up_says_what_it_holds(s: BuildStage, e: BuildEvent, t: BuildStep)
    ensures
        s is Daemon ==> s@ == BuildStageView::Daemon(s->Daemon_0@),
        s is DockerProbe ==> s@ == BuildStageView::DockerProbe,
        s is Start ==> s@ == BuildStageView::Start(s->Start_0),
        s is Health ==> s@ == (BuildStageView::Health { attempt: s->attempt }),
        e is Daemon ==> e@ == BuildEventView::Daemon(e->Daemon_0@),
        e is DockerProbed ==> e@ == (BuildEventView::DockerProbed { available: e->available }),
        e is Command ==> e@ == BuildEventView::Command(docker::reply_view(e->Command_0)),
        e is HealthProbed ==> e@ == (BuildEventView::HealthProbed { status: e->status }),
        t is Next ==> t@ == BuildStepView::Next(t->Next_0@),
        t is Pause ==> t@ == (BuildStepView::Pause { stage: t->stage@, heartbeat: t->heartbeat }),
        t is Failed ==> t@ == BuildStepView::Failed(t->Failed_0@),
        t is Ready ==> t@ == BuildStepView::Ready,
{
}

} // verus!
