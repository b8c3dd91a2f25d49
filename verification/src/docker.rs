//! The life of the solver's Docker container: which commands to run, and what their results mean.
//!
//! Nothing here runs a command. Each function takes what came back from the last one and says what
//! to do next.

use crate::error::{AntibotError, ErrorView};
use crate::provider;
use crate::provider::{Provider, ProviderView};
use crate::text;
use crate::time;
use crate::time::{Duration, Instant};
use vstd::prelude::*;

verus! {

/// Port that the solver listens on inside its container.
pub const SOLVER_PORT: u16 = 8191;

/// Seconds between two probes of something that is coming up.
pub const POLL_INTERVAL_SECS: u64 = 2;

/// Seconds after which a single probe counts as failed.
pub const PROBE_TIMEOUT_SECS: u64 = 5;

/// Seconds between two signs of life while the daemon is coming up.
pub const HEARTBEAT_SECS: u64 = 10;

/// Operating systems that differ in how Docker is run.
#[derive(Debug, Clone, Copy, PartialEq, Eq, Structural)]
pub enum HostOs {
    MacOs,
    Windows,
    Linux,
    Other,
}

/// A program and its arguments.
pub type CommandView = (Seq<char>, Seq<Seq<char>>);

pub open spec fn command_view(c: (String, Vec<String>)) -> CommandView {
    (c.0@, text::texts(c.1@))
}

pub open spec fn opt_command(c: Option<(String, Vec<String>)>) -> Option<CommandView> {
    match c {
        Some(c) => Some(command_view(c)),
        None => None,
    }
}

/// The command that starts the Docker daemon, where there is a usual one.
pub open spec fn usual_daemon_start(os: HostOs) -> Option<CommandView> {
    match os {
        HostOs::MacOs => Some(("open"@, seq!["-a"@, "Docker"@])),
        HostOs::Windows => Some(
            (
                "cmd"@,
                seq![
                    "/C"@,
                    "start"@,
                    ""@,
                    "C:\\Program Files\\Docker\\Docker\\Docker Desktop.exe"@,
                ],
            ),
        ),
        HostOs::Linux => Some(("systemctl"@, seq!["start"@, "docker"@])),
        HostOs::Other => None,
    }
}

/// Best-effort command to start the Docker daemon. `None` if there is no sensible default for the
/// platform.
pub fn default_daemon_start(os: HostOs) -> (c: Option<(String, Vec<String>)>)
    ensures
        opt_command(c) == usual_daemon_start(os),
{
    match os {
        HostOs::MacOs => {
            // Launches Docker Desktop; returns immediately while the VM boots.
            let args = vec!["-a".to_string(), "Docker".to_string()];
            assert(text::texts(args@) =~= seq!["-a"@, "Docker"@]);
            Some(("open".to_string(), args))
        },
        HostOs::Windows => {
            let args = vec![
                "/C".to_string(),
                "start".to_string(),
                "".to_string(),
                "C:\\Program Files\\Docker\\Docker\\Docker Desktop.exe".to_string(),
            ];
            assert(text::texts(args@) =~= seq![
                "/C"@,
                "start"@,
                ""@,
                "C:\\Program Files\\Docker\\Docker\\Docker Desktop.exe"@,
            ]);
            Some(("cmd".to_string(), args))
        },
        HostOs::Linux => {
            // Assumes systemd-managed system Docker; needs privileges. Rootless,
            // Colima, OrbStack, etc. should pass a custom start command.
            let args = vec!["start".to_string(), "docker".to_string()];
            assert(text::texts(args@) =~= seq!["start"@, "docker"@]);
            Some(("systemctl".to_string(), args))
        },
        HostOs::Other => None,
    }
}

/// How long the daemon may take to come up by default.
pub open spec fn usual_daemon_wait(os: HostOs) -> Duration {
    match os {
        HostOs::MacOs | HostOs::Windows => Duration { nanos: 240_000_000_000 },
        HostOs::Linux | HostOs::Other => Duration { nanos: 60_000_000_000 },
    }
}

/// Docker Desktop cold-boots a VM; a native daemon starts in seconds.
pub fn default_daemon_wait(os: HostOs) -> (d: Duration)
    ensures
        d == usual_daemon_wait(os),
{
    match os {
        HostOs::MacOs | HostOs::Windows => Duration::from_secs(240),
        HostOs::Linux | HostOs::Other => Duration::from_secs(60),
    }
}

/// Resource caps applied to the spawned container.
///
/// Values are passed verbatim to `docker run --memory=<...> --cpus=<...>`.
#[derive(Debug)]
pub struct DockerLimits {
    /// e.g. `"2g"`, `"512m"`. `None` for unlimited (Docker default).
    pub memory: Option<String>,
    /// e.g. `"1.5"`. `None` for unlimited.
    pub cpus: Option<String>,
    /// Optional `--shm-size` (Chrome benefits from `1g`). `None` skips it.
    pub shm_size: Option<String>,
}

/// What [`DockerLimits`] say.
pub struct LimitsView {
    pub memory: Option<Seq<char>>,
    pub cpus: Option<Seq<char>>,
    pub shm_size: Option<Seq<char>>,
}

impl View for DockerLimits {
    type V = LimitsView;

    open spec fn view(&self) -> LimitsView {
        LimitsView {
            memory: text::opt_text(self.memory),
            cpus: text::opt_text(self.cpus),
            shm_size: text::opt_text(self.shm_size),
        }
    }
}

pub open spec fn no_limits() -> LimitsView {
    LimitsView { memory: None, cpus: None, shm_size: None }
}

impl Clone for DockerLimits {
    fn clone(&self) -> (r: Self)
        ensures
            r@ == self@,
    {
        DockerLimits {
            memory: self.memory.clone(),
            cpus: self.cpus.clone(),
            shm_size: self.shm_size.clone(),
        }
    }
}

impl Default for DockerLimits {
    fn default() -> (l: Self)
        ensures
            l@ == no_limits(),
    {
        DockerLimits { memory: None, cpus: None, shm_size: None }
    }
}

impl DockerLimits {
    pub fn memory(self, memory: &str) -> (l: Self)
        ensures
            l@ == (LimitsView { memory: Some(memory@), ..self@ }),
    {
        let mut l = self;
        l.memory = Some(memory.to_string());
        l
    }

    pub fn cpus(self, cpus: &str) -> (l: Self)
        ensures
            l@ == (LimitsView { cpus: Some(cpus@), ..self@ }),
    {
        let mut l = self;
        l.cpus = Some(cpus.to_string());
        l
    }

    pub fn shm_size(self, shm_size: &str) -> (l: Self)
        ensures
            l@ == (LimitsView { shm_size: Some(shm_size@), ..self@ }),
    {
        let mut l = self;
        l.shm_size = Some(shm_size.to_string());
        l
    }
}

/// What a command printed, and how it ended.
#[derive(Debug)]
pub struct CommandOutput {
    pub success: bool,
    /// The exit status in words.
    pub status: String,
    pub stdout: String,
    pub stderr: String,
}

/// What a [`CommandOutput`] says.
pub struct OutputView {
    pub success: bool,
    pub status: Seq<char>,
    pub stdout: Seq<char>,
    pub stderr: Seq<char>,
}

impl View for CommandOutput {
    type V = OutputView;

    open spec fn view(&self) -> OutputView {
        OutputView {
            success: self.success,
            status: self.status@,
            stdout: self.stdout@,
            stderr: self.stderr@,
        }
    }
}

/// What came back from a command; `None` where it could not be run at all.
pub open spec fn reply_view(r: Option<CommandOutput>) -> Option<OutputView> {
    match r {
        Some(out) => Some(out@),
        None => None,
    }
}

/// What the outcome of an operation on the container says.
pub open spec fn done_view(r: Result<(), AntibotError>) -> Result<(), ErrorView> {
    match r {
        Ok(_) => Ok(()),
        Err(e) => Err(e@),
    }
}

/// Manages the Docker container lifecycle for the solver service.
#[derive(Debug)]
pub struct DockerManager {
    pub provider: Provider,
    pub port: u16,
    pub container_name: String,
    pub limits: DockerLimits,
}

/// What a [`DockerManager`] says.
pub struct ManagerView {
    pub provider: ProviderView,
    pub port: u16,
    pub container_name: Seq<char>,
    pub limits: LimitsView,
}

impl View for DockerManager {
    type V = ManagerView;

    open spec fn view(&self) -> ManagerView {
        ManagerView {
            provider: self.provider@,
            port: self.port,
            container_name: self.container_name@,
            limits: self.limits@,
        }
    }
}

impl Clone for DockerManager {
    fn clone(&self) -> (r: Self)
        ensures
            r@ == self@,
    {
        DockerManager {
            provider: self.provider.clone(),
            port: self.port,
            container_name: self.container_name.clone(),
            limits: self.limits.clone(),
        }
    }
}

/// Base URL of a service on `port` of this host.
pub open spec fn local_url(port: u16) -> Seq<char> {
    "http://localhost:"@ + text::decimal(port as nat)
}

pub fn url_on_localhost(port: u16) -> (s: String)
    ensures
        s@ == local_url(port),
{
    let mut s = "http://localhost:".to_string();
    s.append(text::decimal_text(port as u128).as_str());
    s
}

/// A filter on the exact name of the container.
pub open spec fn name_filter(name: Seq<char>) -> Seq<char> {
    "name=^"@ + name + "$"@
}

/// Where starting the container stands: the step whose result is awaited.
#[derive(Debug, Clone, Copy, PartialEq, Eq, Structural)]
pub enum StartPhase {
    /// Is there a container of this name, running or stopped?
    CheckExists,
    /// Was it made from this image, and does it publish this port?
    CheckConfig,
    CheckRunning,
    StartStopped,
    Remove,
    CheckImage,
    Pull,
    Create,
}

/// Arguments of `docker` for a step of starting the container.
pub open spec fn start_args_of(m: ManagerView, phase: StartPhase) -> Seq<Seq<char>> {
    let name = m.container_name;
    let image = provider::image_of(m.provider);
    match phase {
        StartPhase::CheckExists => seq![
            "ps"@,
            "-a"@,
            "--filter"@,
            name_filter(name),
            "--format"@,
            "{{.Names}}"@,
        ],
        StartPhase::CheckConfig => seq!["inspect"@, "--format"@, inspect_format(), name],
        StartPhase::CheckRunning => seq![
            "ps"@,
            "--filter"@,
            name_filter(name),
            "--filter"@,
            "status=running"@,
            "--format"@,
            "{{.Names}}"@,
        ],
        StartPhase::StartStopped => seq!["start"@, name],
        StartPhase::Remove => seq!["rm"@, "-f"@, name],
        StartPhase::CheckImage => seq!["image"@, "inspect"@, image],
        StartPhase::Pull => seq!["pull"@, image],
        StartPhase::Create => seq![
            "run"@,
            "-d"@,
            "--name"@,
            name,
            "-p"@,
            text::decimal(m.port as nat) + ":"@ + text::decimal(SOLVER_PORT as nat),
        ] + limit_args(m.limits) + seq![image],
    }
}

/// Template that prints the image, a bar, and every published port with its host port.
pub open spec fn inspect_format() -> Seq<char> {
    "{{.Config.Image}}|{{range $p, $b := .HostConfig.PortBindings}}{{$p}}={{(index $b 0).HostPort}};{{end}}"@
}

/// `--<flag>=<value>`, where there is a value.
pub open spec fn limit_arg(prefix: Seq<char>, value: Option<Seq<char>>) -> Seq<Seq<char>> {
    match value {
        Some(v) => seq![prefix + v],
        None => Seq::empty(),
    }
}

pub open spec fn limit_args(l: LimitsView) -> Seq<Seq<char>> {
    limit_arg("--memory="@, l.memory) + limit_arg("--cpus="@, l.cpus) + limit_arg(
        "--shm-size="@,
        l.shm_size,
    )
}

/// Whether the output of `docker ps` is the name of the container.
pub open spec fn names_container(m: ManagerView, out: OutputView) -> bool {
    text::trimmed(out.stdout) == m.container_name
}

/// What stands between the first bar and the end, where there is a bar.
pub open spec fn after_bar(s: Seq<char>) -> Option<Seq<char>> {
    if text::find_char(s, '|') < s.len() {
        Some(s.skip(text::find_char(s, '|') + 1))
    } else {
        None
    }
}

/// The entry of a published port in the list that [`inspect_format`] prints.
pub open spec fn port_entry(port: u16) -> Seq<char> {
    text::decimal(SOLVER_PORT as nat) + "/tcp="@ + text::decimal(port as nat) + ";"@
}

/// Whether the output of `docker inspect` shows this image and this port.
pub open spec fn shows_config(m: ManagerView, out: OutputView) -> bool {
    let line = text::trimmed(out.stdout);
    &&& out.success
    &&& line.take(text::find_char(line, '|')) == provider::image_of(m.provider)
    &&& after_bar(line) is Some
    &&& text::occurs(after_bar(line)->0, port_entry(m.port))
}

/// Success, or a failure that quotes what the command wrote to standard error.
pub open spec fn started_or_stderr(out: OutputView) -> Result<(), ErrorView> {
    if out.success {
        Ok(())
    } else {
        Err(ErrorView::StartFailed(text::trimmed(out.stderr)))
    }
}

/// How pulling `image` ended.
pub open spec fn pulled(m: ManagerView, out: OutputView) -> Result<(), ErrorView> {
    if out.success {
        Ok(())
    } else {
        Err(
            ErrorView::PullFailed {
                image: provider::image_of(m.provider),
                reason: "`docker pull` exited with "@ + out.status
                    + " (see streamed output above)"@,
            },
        )
    }
}

/// What to do after a step of starting the container.
pub enum StartStep {
    Next(StartPhase),
    Done(Result<(), AntibotError>),
}

/// What a [`StartStep`] says.
pub enum StartStepView {
    Next(StartPhase),
    Done(Result<(), ErrorView>),
}

impl View for StartStep {
    type V = StartStepView;

    open spec fn view(&self) -> StartStepView {
        match self {
            StartStep::Next(p) => StartStepView::Next(*p),
            StartStep::Done(r) => StartStepView::Done(done_view(*r)),
        }
    }
}

/// Goes on to `next` after a success, and ends with the failure otherwise.
pub open spec fn go_on(r: Result<(), ErrorView>, next: StartPhase) -> StartStepView {
    match r {
        Ok(_) => StartStepView::Next(next),
        Err(e) => StartStepView::Done(Err(e)),
    }
}

/// What follows the step `phase` of starting the container, given what came back from it.
pub open spec fn start_step(
    m: ManagerView,
    phase: StartPhase,
    reply: Option<OutputView>,
) -> StartStepView {
    match reply {
        None => StartStepView::Done(Err(ErrorView::DockerNotAvailable)),
        Some(out) => match phase {
            StartPhase::CheckExists => StartStepView::Next(
                if names_container(m, out) {
                    StartPhase::CheckConfig
                } else {
                    StartPhase::CheckImage
                },
            ),
            StartPhase::CheckConfig => StartStepView::Next(
                if shows_config(m, out) {
                    StartPhase::CheckRunning
                } else {
                    StartPhase::Remove
                },
            ),
            StartPhase::CheckRunning => if names_container(m, out) {
                StartStepView::Done(Ok(()))
            } else {
                StartStepView::Next(StartPhase::StartStopped)
            },
            StartPhase::StartStopped => StartStepView::Done(started_or_stderr(out)),
            StartPhase::Remove => go_on(started_or_stderr(out), StartPhase::CheckImage),
            StartPhase::CheckImage => StartStepView::Next(
                if out.success {
                    StartPhase::Create
                } else {
                    StartPhase::Pull
                },
            ),
            StartPhase::Pull => go_on(pulled(m, out), StartPhase::Create),
            StartPhase::Create => StartStepView::Done(started_or_stderr(out)),
        },
    }
}

/// Steps that are left after `phase`, at most.
pub open spec fn start_rank(phase: StartPhase) -> nat {
    match phase {
        StartPhase::CheckExists => 5,
        StartPhase::CheckConfig => 4,
        StartPhase::CheckRunning => 1,
        StartPhase::StartStopped => 0,
        StartPhase::Remove => 3,
        StartPhase::CheckImage => 2,
        StartPhase::Pull => 1,
        StartPhase::Create => 0,
    }
}

/// The steps that are taken from `phase` on, in order, and how starting ends, where the command of
/// each step `p` brings back `replies(p)`.
pub open spec fn start_run(
    m: ManagerView,
    replies: spec_fn(StartPhase) -> Option<OutputView>,
    phase: StartPhase,
) -> (Seq<StartPhase>, Result<(), ErrorView>)
    decreases start_rank(phase),
{
    match start_step(m, phase, replies(phase)) {
        StartStepView::Next(p) => {
            let rest = start_run(m, replies, p);
            (seq![phase] + rest.0, rest.1)
        },
        StartStepView::Done(r) => (seq![phase], r),
    }
}

/// Where restarting the container stands.
#[derive(Debug, Clone, Copy, PartialEq, Eq, Structural)]
pub enum RestartPhase {
    CheckExists,
    CheckConfig,
    Bounce,
    /// There is nothing to restart; the container is being started instead.
    Start(StartPhase),
}

pub open spec fn restart_args_of(m: ManagerView, phase: RestartPhase) -> Seq<Seq<char>> {
    match phase {
        RestartPhase::CheckExists => start_args_of(m, StartPhase::CheckExists),
        RestartPhase::CheckConfig => start_args_of(m, StartPhase::CheckConfig),
        RestartPhase::Bounce => seq!["restart"@, "-t"@, "10"@, m.container_name],
        RestartPhase::Start(p) => start_args_of(m, p),
    }
}

/// What to do after a step of restarting the container.
pub enum RestartStep {
    Next(RestartPhase),
    Done(Result<(), AntibotError>),
}

/// What a [`RestartStep`] says.
pub enum RestartStepView {
    Next(RestartPhase),
    Done(Result<(), ErrorView>),
}

impl View for RestartStep {
    type V = RestartStepView;

    open spec fn view(&self) -> RestartStepView {
        match self {
            RestartStep::Next(p) => RestartStepView::Next(*p),
            RestartStep::Done(r) => RestartStepView::Done(done_view(*r)),
        }
    }
}

/// What follows the step `phase` of restarting the container, given what came back from it.
pub open spec fn restart_step(
    m: ManagerView,
    phase: RestartPhase,
    reply: Option<OutputView>,
) -> RestartStepView {
    match (phase, reply) {
        (RestartPhase::Start(p), _) => match start_step(m, p, reply) {
            StartStepView::Next(p) => RestartStepView::Next(RestartPhase::Start(p)),
            StartStepView::Done(r) => RestartStepView::Done(r),
        },
        (_, None) => RestartStepView::Done(Err(ErrorView::DockerNotAvailable)),
        (RestartPhase::CheckExists, Some(out)) => RestartStepView::Next(
            if names_container(m, out) {
                RestartPhase::CheckConfig
            } else {
                RestartPhase::Start(StartPhase::CheckExists)
            },
        ),
        (RestartPhase::CheckConfig, Some(out)) => RestartStepView::Next(
            if shows_config(m, out) {
                RestartPhase::Bounce
            } else {
                RestartPhase::Start(StartPhase::CheckExists)
            },
        ),
        (RestartPhase::Bounce, Some(out)) => RestartStepView::Done(started_or_stderr(out)),
    }
}

fn push_limit(args: &mut Vec<String>, prefix: &str, value: &Option<String>)
    ensures
        text::texts(final(args)@) == text::texts(old(args)@) + limit_arg(
            prefix@,
            text::opt_text(*value),
        ),
{
    let ghost before = args@;
    if let Some(v) = value {
        args.push(text::prefixed(prefix, v.as_str()));
    }
    assert(text::texts(args@) =~= text::texts(before) + limit_arg(prefix@, text::opt_text(*value)));
}

impl DockerManager {
    pub fn new(provider: Provider, port: u16) -> (m: Self)
        ensures
            m@ == (ManagerView {
                provider: provider@,
                port,
                container_name: "antibot-solver"@,
                limits: no_limits(),
            }),
    {
        DockerManager {
            provider,
            port,
            container_name: "antibot-solver".to_string(),
            limits: Default::default(),
        }
    }

    pub fn with_container_name(self, name: String) -> (m: Self)
        ensures
            m@ == (ManagerView { container_name: name@, ..self@ }),
    {
        let mut m = self;
        m.container_name = name;
        m
    }

    pub fn with_limits(self, limits: DockerLimits) -> (m: Self)
        ensures
            m@ == (ManagerView { limits: limits@, ..self@ }),
    {
        let mut m = self;
        m.limits = limits;
        m
    }

    pub fn container_name(&self) -> (s: &str)
        ensures
            s@ == self@.container_name,
    {
        self.container_name.as_str()
    }

    /// Base URL of the service this manager's container exposes.
    pub fn base_url(&self) -> (s: String)
        ensures
            s@ == local_url(self@.port),
    {
        url_on_localhost(self.port)
    }

    fn name_filter_text(&self) -> (s: String)
        ensures
            s@ == name_filter(self@.container_name),
    {
        let mut s = text::prefixed("name=^", self.container_name.as_str());
        s.append("$");
        s
    }

    /// Arguments of `docker` for a step of starting the container.
    pub fn start_args(&self, phase: StartPhase) -> (args: Vec<String>)
        ensures
            text::texts(args@) == start_args_of(self@, phase),
    {
        let name = self.container_name.clone();
        let args = match phase {
            StartPhase::CheckExists => vec![
                "ps".to_string(),
                "-a".to_string(),
                "--filter".to_string(),
                self.name_filter_text(),
                "--format".to_string(),
                "{{.Names}}".to_string(),
            ],
            StartPhase::CheckConfig => vec![
                "inspect".to_string(),
                "--format".to_string(),
                "{{.Config.Image}}|{{range $p, $b := .HostConfig.PortBindings}}{{$p}}={{(index $b 0).HostPort}};{{end}}".to_string(),
                name,
            ],
            StartPhase::CheckRunning => vec![
                "ps".to_string(),
                "--filter".to_string(),
                self.name_filter_text(),
                "--filter".to_string(),
                "status=running".to_string(),
                "--format".to_string(),
                "{{.Names}}".to_string(),
            ],
            StartPhase::StartStopped => vec!["start".to_string(), name],
            StartPhase::Remove => vec!["rm".to_string(), "-f".to_string(), name],
            StartPhase::CheckImage => vec![
                "image".to_string(),
                "inspect".to_string(),
                self.provider.image().to_string(),
            ],
            StartPhase::Pull => vec!["pull".to_string(), self.provider.image().to_string()],
            StartPhase::Create => return self.create_args(),
        };
        assert(text::texts(args@) =~= start_args_of(self@, phase));
        args
    }

    /// Arguments of the `docker run` that creates the container.
    fn create_args(&self) -> (args: Vec<String>)
        ensures
            text::texts(args@) == start_args_of(self@, StartPhase::Create),
    {
        let mut mapping = text::decimal_text(self.port as u128);
        mapping.append(":");
        mapping.append(text::decimal_text(SOLVER_PORT as u128).as_str());
        let ghost port_mapping = mapping@;
        let mut args = vec![
            "run".to_string(),
            "-d".to_string(),
            "--name".to_string(),
            self.container_name.clone(),
            "-p".to_string(),
            mapping,
        ];
        assert(text::texts(args@) =~= seq![
            "run"@,
            "-d"@,
            "--name"@,
            self@.container_name,
            "-p"@,
            port_mapping,
        ]);
        push_limit(&mut args, "--memory=", &self.limits.memory);
        push_limit(&mut args, "--cpus=", &self.limits.cpus);
        push_limit(&mut args, "--shm-size=", &self.limits.shm_size);
        let ghost before = text::texts(args@);
        args.push(self.provider.image().to_string());
        assert(text::texts(args@) =~= before.push(provider::image_of(self@.provider)));
        assert(text::texts(args@) =~= start_args_of(self@, StartPhase::Create));
        args
    }

    /// Whether the container exists (running or stopped), by the output of the step that asks.
    pub fn container_exists(&self, out: &CommandOutput) -> (b: bool)
        ensures
            b == names_container(self@, out@),
    {
        text::trim(out.stdout.as_str()) == self.container_name
    }

    /// Whether the container is running, by the output of the step that asks.
    pub fn container_running(&self, out: &CommandOutput) -> (b: bool)
        ensures
            b == names_container(self@, out@),
    {
        text::trim(out.stdout.as_str()) == self.container_name
    }

    /// Whether the image exists locally, by the output of the step that asks.
    pub fn image_exists(&self, out: &CommandOutput) -> (b: bool)
        ensures
            b == out@.success,
    {
        out.success
    }

    /// Whether an existing container was created from this manager's image and publishes the
    /// expected host port. A leftover container from an old configuration would otherwise be
    /// reused silently and fail health checks with no hint as to why.
    pub fn container_config_matches(&self, out: &CommandOutput) -> (b: bool)
        ensures
            b == shows_config(self@, out@),
    {
        if !out.success {
            return false;
        }
        let line = text::trim(out.stdout.as_str());
        let (image, ports) = text::split_at_char(line.as_str(), '|');
        if !text::same(image.as_str(), self.provider.image()) {
            return false;
        }
        match ports {
            Some(ports) => {
                let mut entry = text::decimal_text(SOLVER_PORT as u128);
                entry.append("/tcp=");
                entry.append(text::decimal_text(self.port as u128).as_str());
                entry.append(";");
                text::contains(ports.as_str(), entry.as_str())
            },
            None => false,
        }
    }

    /// How pulling the provider's image ended.
    pub fn pull_image(&self, out: &CommandOutput) -> (r: Result<(), AntibotError>)
        ensures
            done_view(r) == pulled(self@, out@),
    {
        if out.success {
            return Ok(());
        }
        let mut reason = text::prefixed("`docker pull` exited with ", out.status.as_str());
        reason.append(" (see streamed output above)");
        Err(AntibotError::PullFailed { image: self.provider.image().to_string(), reason })
    }

    fn started(out: &CommandOutput) -> (r: Result<(), AntibotError>)
        ensures
            done_view(r) == started_or_stderr(out@),
    {
        if out.success {
            Ok(())
        } else {
            Err(AntibotError::StartFailed(text::trim(out.stderr.as_str())))
        }
    }

    /// Start the container. Creates it if it doesn't exist, starts it if stopped, and recreates it
    /// if it exists with a different image or port.
    ///
    /// Begin with [`StartPhase::CheckExists`]; run the command of the phase and hand its result in
    /// to learn the next phase.
    pub fn start(&self, phase: StartPhase, reply: Option<CommandOutput>) -> (step: StartStep)
        ensures
            step@ == start_step(self@, phase, reply_view(reply)),
    {
        let out = match reply {
            Some(out) => out,
            None => return StartStep::Done(Err(AntibotError::DockerNotAvailable)),
        };
        match phase {
            StartPhase::CheckExists => StartStep::Next(
                if self.container_exists(&out) {
                    StartPhase::CheckConfig
                } else {
                    StartPhase::CheckImage
                },
            ),
            StartPhase::CheckConfig => StartStep::Next(
                if self.container_config_matches(&out) {
                    StartPhase::CheckRunning
                } else {
                    StartPhase::Remove
                },
            ),
            StartPhase::CheckRunning => if self.container_running(&out) {
                StartStep::Done(Ok(()))
            } else {
                StartStep::Next(StartPhase::StartStopped)
            },
            StartPhase::StartStopped => StartStep::Done(Self::started(&out)),
            StartPhase::Remove => match Self::started(&out) {
                Ok(_) => StartStep::Next(StartPhase::CheckImage),
                Err(e) => StartStep::Done(Err(e)),
            },
            StartPhase::CheckImage => StartStep::Next(
                if self.image_exists(&out) {
                    StartPhase::Create
                } else {
                    StartPhase::Pull
                },
            ),
            StartPhase::Pull => match self.pull_image(&out) {
                Ok(_) => StartStep::Next(StartPhase::Create),
                Err(e) => StartStep::Done(Err(e)),
            },
            StartPhase::Create => StartStep::Done(Self::started(&out)),
        }
    }

    /// Arguments of `docker` for a step of restarting the container.
    pub fn restart_args(&self, phase: RestartPhase) -> (args: Vec<String>)
        ensures
            text::texts(args@) == restart_args_of(self@, phase),
    {
        match phase {
            RestartPhase::CheckExists => self.start_args(StartPhase::CheckExists),
            RestartPhase::CheckConfig => self.start_args(StartPhase::CheckConfig),
            RestartPhase::Bounce => {
                let args = vec![
                    "restart".to_string(),
                    "-t".to_string(),
                    "10".to_string(),
                    self.container_name.clone(),
                ];
                assert(text::texts(args@) =~= restart_args_of(self@, phase));
                args
            },
            RestartPhase::Start(p) => self.start_args(p),
        }
    }

    /// Restart the container. Unlike [`DockerManager::start`], this bounces a container that is
    /// running but unresponsive (hung browser); `start` would see it running and do nothing. Falls
    /// back to `start` when the container is missing or its config no longer matches.
    ///
    /// Begin with [`RestartPhase::CheckExists`].
    pub fn restart(&self, phase: RestartPhase, reply: Option<CommandOutput>) -> (step: RestartStep)
        ensures
            step@ == restart_step(self@, phase, reply_view(reply)),
    {
        if let RestartPhase::Start(p) = phase {
            return match self.start(p, reply) {
                StartStep::Next(p) => RestartStep::Next(RestartPhase::Start(p)),
                StartStep::Done(r) => RestartStep::Done(r),
            };
        }
        let out = match reply {
            Some(out) => out,
            None => return RestartStep::Done(Err(AntibotError::DockerNotAvailable)),
        };
        match phase {
            RestartPhase::CheckExists => RestartStep::Next(
                if self.container_exists(&out) {
                    RestartPhase::CheckConfig
                } else {
                    RestartPhase::Start(StartPhase::CheckExists)
                },
            ),
            RestartPhase::CheckConfig => RestartStep::Next(
                if self.container_config_matches(&out) {
                    RestartPhase::Bounce
                } else {
                    RestartPhase::Start(StartPhase::CheckExists)
                },
            ),
            _ => RestartStep::Done(Self::started(&out)),
        }
    }

    /// Arguments of the `docker` command that stops the container.
    pub fn stop_args(&self) -> (args: Vec<String>)
        ensures
            text::texts(args@) == seq!["stop"@, "-t"@, "10"@, self@.container_name],
    {
        let args = vec![
            "stop".to_string(),
            "-t".to_string(),
            "10".to_string(),
            self.container_name.clone(),
        ];
        assert(text::texts(args@) =~= seq!["stop"@, "-t"@, "10"@, self@.container_name]);
        args
    }

    /// How stopping the container ended.
    pub fn stop(&self, reply: Option<CommandOutput>) -> (r: Result<(), AntibotError>)
        ensures
            done_view(r) == match reply_view(reply) {
                Some(out) => started_or_stderr(out),
                None => Err(ErrorView::DockerNotAvailable),
            },
    {
        match reply {
            Some(out) => Self::started(&out),
            None => Err(AntibotError::DockerNotAvailable),
        }
    }
}

/// Starting leaves a running container of the right image and port alone, starts such a container
/// where it is stopped, removes only a container of another image or port, pulls only a missing
/// image, and creates a container only where there is none or the old one has been removed.
pub proof fn starting_changes_only_what_it_must(
    m: ManagerView,
    replies: spec_fn(StartPhase) -> Option<OutputView>,
)
    ensures
        ({
            let (steps, end) = start_run(m, replies, StartPhase::CheckExists);
            let exists = replies(StartPhase::CheckExists);
            let config = replies(StartPhase::CheckConfig);
            let running = replies(StartPhase::CheckRunning);
            let image = replies(StartPhase::CheckImage);
            let matching = exists is Some && names_container(m, exists->0) && config is Some
                && shows_config(m, config->0);
            &&& matching && running is Some && names_container(m, running->0) ==> end == Ok::<
                (),
                ErrorView,
            >(()) && steps == seq![
                StartPhase::CheckExists,
                StartPhase::CheckConfig,
                StartPhase::CheckRunning,
            ]
            &&& matching && running is Some && !names_container(m, running->0) ==> steps == seq![
                StartPhase::CheckExists,
                StartPhase::CheckConfig,
                StartPhase::CheckRunning,
                StartPhase::StartStopped,
            ]
            &&& steps.contains(StartPhase::Remove) ==> config is Some && !shows_config(m, config->0)
            &&& steps.contains(StartPhase::Pull) ==> image is Some && !image->0.success
            &&& steps.contains(StartPhase::Create) ==> {
                ||| exists is Some && !names_container(m, exists->0)
                ||| steps.contains(StartPhase::Remove) && replies(StartPhase::Remove) is Some
                    && replies(StartPhase::Remove)->0.success
            }
        }),
{
    reveal_with_fuel(start_run, 6);
    let (steps, end) = start_run(m, replies, StartPhase::CheckExists);
    assert(steps[0] == StartPhase::CheckExists);
    match start_step(m, StartPhase::CheckExists, replies(StartPhase::CheckExists)) {
        StartStepView::Next(StartPhase::CheckConfig) => {
            match start_step(m, StartPhase::CheckConfig, replies(StartPhase::CheckConfig)) {
                StartStepView::Next(StartPhase::Remove) => {
                    assert(steps[2] == StartPhase::Remove);
                },
                _ => {},
            }
        },
        _ => {},
    }
}

/// Restarting bounces a container of the right image and port whether it runs or not, and starts
/// one in every other case.
pub proof fn restarting_bounces_a_matching_container(m: ManagerView, a: OutputView, b: OutputView)
    ensures
        names_container(m, a) && shows_config(m, b) ==> {
            &&& restart_step(m, RestartPhase::CheckExists, Some(a)) == RestartStepView::Next(
                RestartPhase::CheckConfig,
            )
            &&& restart_step(m, RestartPhase::CheckConfig, Some(b)) == RestartStepView::Next(
                RestartPhase::Bounce,
            )
        },
        !names_container(m, a) ==> restart_step(m, RestartPhase::CheckExists, Some(a))
            == RestartStepView::Next(RestartPhase::Start(StartPhase::CheckExists)),
        !shows_config(m, b) ==> restart_step(m, RestartPhase::CheckConfig, Some(b))
            == RestartStepView::Next(RestartPhase::Start(StartPhase::CheckExists)),
{
}

/// Where bringing up the Docker daemon stands: what is awaited.
#[derive(Debug)]
pub enum DaemonStage {
    /// Is the daemon running already?
    FirstProbe,
    /// Is the `docker` program installed?
    CheckCli,
    /// The end of the start command.
    Launch { program: String, args: Vec<String> },
    /// The daemon's readiness, since the start command came back.
    Waiting { started: Instant, last_heartbeat: Instant },
}

/// What happened.
#[derive(Debug)]
pub enum DaemonEvent {
    /// The daemon was probed.
    Probed { available: bool },
    CliChecked { present: bool },
    /// The start command could not be run.
    LaunchFailed { error: String },
    /// The start command came back.
    Launched { success: bool, status: String },
}

/// What to do next about the daemon.
pub enum DaemonStep {
    /// Go on with this stage at once.
    Next(DaemonStage),
    /// Let the poll interval pass, then probe again. A heartbeat tells how long the wait has
    /// lasted.
    Pause { stage: DaemonStage, heartbeat: Option<Duration> },
    Done(Result<(), AntibotError>),
}

/// What a [`DaemonStage`] says.
pub enum StageView {
    FirstProbe,
    CheckCli,
    Launch { command: CommandView },
    Waiting { started: Instant, last_heartbeat: Instant },
}

/// What a [`DaemonEvent`] says.
pub enum EventView {
    Probed { available: bool },
    CliChecked { present: bool },
    LaunchFailed { error: Seq<char> },
    Launched { success: bool, status: Seq<char> },
}

/// What a [`DaemonStep`] says.
pub enum DaemonStepView {
    Next(StageView),
    Pause { stage: StageView, heartbeat: Option<Duration> },
    Done(Result<(), ErrorView>),
}

impl View for DaemonStage {
    type V = StageView;

    open spec fn view(&self) -> StageView {
        match self {
            DaemonStage::FirstProbe => StageView::FirstProbe,
            DaemonStage::CheckCli => StageView::CheckCli,
            DaemonStage::Launch { program, args } => StageView::Launch {
                command: (program@, text::texts(args@)),
            },
            DaemonStage::Waiting { started, last_heartbeat } => StageView::Waiting {
                started: *started,
                last_heartbeat: *last_heartbeat,
            },
        }
    }
}

impl View for DaemonEvent {
    type V = EventView;

    open spec fn view(&self) -> EventView {
        match self {
            DaemonEvent::Probed { available } => EventView::Probed { available: *available },
            DaemonEvent::CliChecked { present } => EventView::CliChecked { present: *present },
            DaemonEvent::LaunchFailed { error } => EventView::LaunchFailed { error: error@ },
            DaemonEvent::Launched { success, status } => EventView::Launched {
                success: *success,
                status: status@,
            },
        }
    }
}

impl View for DaemonStep {
    type V = DaemonStepView;

    open spec fn view(&self) -> DaemonStepView {
        match self {
            DaemonStep::Next(s) => DaemonStepView::Next(s@),
            DaemonStep::Pause { stage, heartbeat } => DaemonStepView::Pause {
                stage: stage@,
                heartbeat: *heartbeat,
            },
            DaemonStep::Done(r) => DaemonStepView::Done(done_view(*r)),
        }
    }
}

/// The command that starts the daemon: the caller's own, else the platform's usual one.
pub open spec fn daemon_command(custom: Option<CommandView>, os: HostOs) -> Option<CommandView> {
    match custom {
        Some(c) => Some(c),
        None => usual_daemon_start(os),
    }
}

/// Why a daemon that does not come up within `max_wait` is given up.
pub open spec fn not_ready_within(max_wait: Duration) -> Seq<char> {
    "daemon did not become ready within "@ + text::decimal(
        (max_wait.nanos / time::NANOS_PER_SEC) as nat,
    ) + "s — Docker Desktop can take longer to cold-boot; increase the wait via `AntibotBuilder::daemon_start_timeout`, or start Docker before running so it is already warm"@
}

/// What follows `event` in `stage`, at `now`. An event that the stage does not await changes
/// nothing.
pub open spec fn daemon_step(
    custom: Option<CommandView>,
    os: HostOs,
    max_wait: Duration,
    stage: StageView,
    event: EventView,
    now: Instant,
) -> DaemonStepView {
    match (stage, event) {
        (StageView::FirstProbe, EventView::Probed { available }) => if available {
            DaemonStepView::Done(Ok(()))
        } else {
            DaemonStepView::Next(StageView::CheckCli)
        },
        (StageView::CheckCli, EventView::CliChecked { present }) => if !present {
            DaemonStepView::Done(Err(ErrorView::DockerNotAvailable))
        } else {
            match daemon_command(custom, os) {
                Some(command) => DaemonStepView::Next(StageView::Launch { command }),
                None => DaemonStepView::Done(
                    Err(
                        ErrorView::DaemonStartFailed(
                            "no default daemon-start command for this OS; pass a custom one"@,
                        ),
                    ),
                ),
            }
        },
        (StageView::Launch { command }, EventView::LaunchFailed { error }) => DaemonStepView::Done(
            Err(
                ErrorView::DaemonStartFailed(
                    "could not run `"@ + command.0 + "`: "@ + error,
                ),
            ),
        ),
        (StageView::Launch { command }, EventView::Launched { success, status }) => if success {
            DaemonStepView::Next(StageView::Waiting { started: now, last_heartbeat: now })
        } else {
            DaemonStepView::Done(
                Err(
                    ErrorView::DaemonStartFailed(
                        "`"@ + command.0 + "` failed with "@ + status,
                    ),
                ),
            )
        },
        (
            StageView::Waiting { started, last_heartbeat },
            EventView::Probed { available },
        ) => if available {
            DaemonStepView::Done(Ok(()))
        } else if now.nanos >= time::instant_after(started, max_wait).nanos {
            DaemonStepView::Done(Err(ErrorView::DaemonStartFailed(not_ready_within(max_wait))))
        } else if time::instant_since(now, last_heartbeat).nanos >= HEARTBEAT_SECS
            * time::NANOS_PER_SEC {
            DaemonStepView::Pause {
                stage: StageView::Waiting { started, last_heartbeat: now },
                heartbeat: Some(time::instant_since(now, started)),
            }
        } else {
            DaemonStepView::Pause {
                stage: StageView::Waiting { started, last_heartbeat },
                heartbeat: None,
            }
        },
        _ => DaemonStepView::Next(stage),
    }
}

fn clone_texts(v: &Vec<String>) -> (r: Vec<String>)
    ensures
        text::texts(r@) == text::texts(v@),
{
    let mut r: Vec<String> = Vec::new();
    let mut i: usize = 0;
    while i < v.len()
        invariant
            i <= v.len(),
            r.len() == i,
            forall|j: int| 0 <= j < i ==> r@[j]@ == v@[j]@,
        decreases v.len() - i,
    {
        r.push(v[i].clone());
        i = i + 1;
    }
    assert(text::texts(r@) =~= text::texts(v@));
    r
}

impl DockerManager {
    /// Ensure the Docker daemon is running, starting it if necessary and waiting up to `max_wait`
    /// for it to become ready. Begin with [`DaemonStage::FirstProbe`].
    ///
    /// If `custom_start` is `Some`, that command is used to start the daemon; otherwise a per-OS
    /// default is used (Docker Desktop on macOS/Windows, `systemctl start docker` on Linux). Ends
    /// with [`AntibotError::DockerNotAvailable`] when the `docker` CLI isn't installed (nothing to
    /// start), or [`AntibotError::DaemonStartFailed`] when the start command fails or the daemon
    /// doesn't come up in time.
    pub fn ensure_running(
        custom_start: Option<&(String, Vec<String>)>,
        os: HostOs,
        max_wait: Duration,
        stage: DaemonStage,
        event: DaemonEvent,
        now: Instant,
    ) -> (step: DaemonStep)
        ensures
            step@ == daemon_step(
                match custom_start {
                    Some(c) => Some(command_view(*c)),
                    None => None,
                },
                os,
                max_wait,
                stage@,
                event@,
                now,
            ),
    {
        match (stage, event) {
            (DaemonStage::FirstProbe, DaemonEvent::Probed { available }) => if available {
                DaemonStep::Done(Ok(()))
            } else {
                DaemonStep::Next(DaemonStage::CheckCli)
            },
            (DaemonStage::CheckCli, DaemonEvent::CliChecked { present }) => {
                if !present {
                    return DaemonStep::Done(Err(AntibotError::DockerNotAvailable));
                }
                let command = match custom_start {
                    Some(c) => Some((c.0.clone(), clone_texts(&c.1))),
                    None => default_daemon_start(os),
                };
                match command {
                    Some((program, args)) => DaemonStep::Next(DaemonStage::Launch { program, args }),
                    None => DaemonStep::Done(
                        Err(
                            AntibotError::DaemonStartFailed(
                                "no default daemon-start command for this OS; pass a custom one".to_string(),
                            ),
                        ),
                    ),
                }
            },
            (DaemonStage::Launch { program, .. }, DaemonEvent::LaunchFailed { error }) => {
                let mut reason = text::prefixed("could not run `", program.as_str());
                reason.append("`: ");
                reason.append(error.as_str());
                DaemonStep::Done(Err(AntibotError::DaemonStartFailed(reason)))
            },
            (DaemonStage::Launch { program, .. }, DaemonEvent::Launched { success, status }) => {
                if success {
                    return DaemonStep::Next(
                        DaemonStage::Waiting { started: now, last_heartbeat: now },
                    );
                }
                let mut reason = text::prefixed("`", program.as_str());
                reason.append("` failed with ");
                reason.append(status.as_str());
                DaemonStep::Done(Err(AntibotError::DaemonStartFailed(reason)))
            },
            (
                DaemonStage::Waiting { started, last_heartbeat },
                DaemonEvent::Probed { available },
            ) => {
                if available {
                    return DaemonStep::Done(Ok(()));
                }
                if now.nanos >= started.after(max_wait).nanos {
                    let mut reason = text::prefixed(
                        "daemon did not become ready within ",
                        text::decimal_text(max_wait.as_secs()).as_str(),
                    );
                    reason.append(
                        "s — Docker Desktop can take longer to cold-boot; increase the wait via `AntibotBuilder::daemon_start_timeout`, or start Docker before running so it is already warm",
                    );
                    return DaemonStep::Done(Err(AntibotError::DaemonStartFailed(reason)));
                }
                if now.since(last_heartbeat).nanos >= Duration::from_secs(HEARTBEAT_SECS).nanos {
                    DaemonStep::Pause {
                        stage: DaemonStage::Waiting { started, last_heartbeat: now },
                        heartbeat: Some(now.since(started)),
                    }
                } else {
                    DaemonStep::Pause {
                        stage: DaemonStage::Waiting { started, last_heartbeat },
                        heartbeat: None,
                    }
                }
            },
            (stage, _) => DaemonStep::Next(stage),
        }
    }
}

/// The wait for the daemon honours its deadline: a failed probe at or after it ends the wait, and
/// one before it never does.
pub proof fn daemon_wait_ends_at_its_deadline(
    custom: Option<CommandView>,
    os: HostOs,
    max_wait: Duration,
    started: Instant,
    last_heartbeat: Instant,
    now: Instant,
)
    ensures
        ({
            let step = daemon_step(
                custom,
                os,
                max_wait,
                StageView::Waiting { started, last_heartbeat },
                EventView::Probed { available: false },
                now,
            );
            &&& now.nanos >= time::instant_after(started, max_wait).nanos ==> step
                == DaemonStepView::Done(
                Err(ErrorView::DaemonStartFailed(not_ready_within(max_wait))),
            )
            &&& now.nanos < time::instant_after(started, max_wait).nanos ==> step is Pause
        }),
{
}

/// Whether a probe of a service, answered with the HTTP status `status` if at all, found it
/// healthy.
pub open spec fn healthy_status(status: Option<u16>) -> bool {
    status is Some && 200 <= status->0 < 300
}

pub fn is_healthy(status: Option<u16>) -> (b: bool)
    ensures
        b == healthy_status(status),
{
    match status {
        Some(code) => 200 <= code && code < 300,
        None => false,
    }
}

/// What to do next about the service's health.
pub enum HealthStep {
    /// Probe the service, for the time given (1-indexed). Before every probe but the first, let
    /// the poll interval pass.
    Probe { attempt: u32 },
    Done(Result<(), AntibotError>),
}

/// What a [`HealthStep`] says.
pub enum HealthStepView {
    Probe { attempt: u32 },
    Done(Result<(), ErrorView>),
}

impl View for HealthStep {
    type V = HealthStepView;

    open spec fn view(&self) -> HealthStepView {
        match self {
            HealthStep::Probe { attempt } => HealthStepView::Probe { attempt: *attempt },
            HealthStep::Done(r) => HealthStepView::Done(done_view(*r)),
        }
    }
}

/// What follows the probe `attempt` of at most `max_attempts`; attempt zero stands for the state
/// before the first probe.
pub open spec fn health_step(
    m: ManagerView,
    max_attempts: u32,
    attempt: u32,
    status: Option<u16>,
) -> HealthStepView {
    if attempt > 0 && healthy_status(status) {
        HealthStepView::Done(Ok(()))
    } else if attempt < max_attempts {
        HealthStepView::Probe { attempt: (attempt + 1) as u32 }
    } else {
        HealthStepView::Done(
            Err(ErrorView::HealthCheckFailed { url: local_url(m.port), attempts: max_attempts }),
        )
    }
}

impl DockerManager {
    /// Wait for the service to become healthy (respond to HTTP). `attempt` is the number of the
    /// probe that `status` answers, zero before the first one.
    pub fn wait_healthy(&self, max_attempts: u32, attempt: u32, status: Option<u16>) -> (step:
        HealthStep)
        ensures
            step@ == health_step(self@, max_attempts, attempt, status),
    {
        if attempt > 0 && is_healthy(status) {
            HealthStep::Done(Ok(()))
        } else if attempt < max_attempts {
            HealthStep::Probe { attempt: attempt + 1 }
        } else {
            HealthStep::Done(
                Err(
                    AntibotError::HealthCheckFailed {
                        url: self.base_url(),
                        attempts: max_attempts,
                    },
                ),
            )
        }
    }
}

/// How many probes are made from `attempt` on, where probe `i` is answered with `statuses(i)`, and
/// how the wait ends.
pub open spec fn health_run(
    m: ManagerView,
    max_attempts: u32,
    attempt: u32,
    statuses: spec_fn(u32) -> Option<u16>,
) -> (nat, Result<(), ErrorView>)
    decreases max_attempts - attempt,
{
    match health_step(m, max_attempts, attempt, statuses(attempt)) {
        HealthStepView::Probe { attempt: next } => {
            let rest = health_run(m, max_attempts, next, statuses);
            (rest.0 + 1, rest.1)
        },
        HealthStepView::Done(r) => (0, r),
    }
}

/// The service is found healthy if and only if one of the allowed probes finds it so, and no more
/// probes than allowed are made.
pub proof fn health_checks_are_bounded(
    m: ManagerView,
    max_attempts: u32,
    attempt: u32,
    statuses: spec_fn(u32) -> Option<u16>,
)
    requires
        attempt <= max_attempts,
    ensures
        health_run(m, max_attempts, attempt, statuses).0 <= max_attempts - attempt,
        health_run(m, max_attempts, attempt, statuses).1 == if exists|i: u32|
            attempt <= i <= max_attempts && 0 < i && healthy_status(#[trigger] statuses(i)) {
            Ok::<(), ErrorView>(())
        } else {
            Err(ErrorView::HealthCheckFailed { url: local_url(m.port), attempts: max_attempts })
        },
    decreases max_attempts - attempt,
{
    if attempt > 0 && healthy_status(statuses(attempt)) {
    } else if attempt < max_attempts {
        let next = (attempt + 1) as u32;
        health_checks_are_bounded(m, max_attempts, next, statuses);
        if exists|i: u32|
            attempt <= i <= max_attempts && 0 < i && healthy_status(#[trigger] statuses(i)) {
            let i = choose|i: u32|
                attempt <= i <= max_attempts && 0 < i && healthy_status(#[trigger] statuses(i));
            assert(i != attempt);
        }
    }
}

/// How starting ends: well, if and only if its last command found the container running, or was the
/// start or creation of it and succeeded. A command that cannot be run at all ends it with Docker
/// not being available, one that fails with what it wrote to standard error, and a failed pull with
/// the name of the image.
pub proof fn starting_ends_as_its_last_command_did(
    m: ManagerView,
    replies: spec_fn(StartPhase) -> Option<OutputView>,
)
    ensures
        ({
            let (steps, end) = start_run(m, replies, StartPhase::CheckExists);
            let last = steps.last();
            let reply = replies(last);
            &&& steps.len() > 0
            &&& last == StartPhase::StartStopped || last == StartPhase::Create ==> (end is Ok
                <==> reply is Some && reply->0.success)
            &&& end is Ok <==> {
                ||| last == StartPhase::CheckRunning && reply is Some && text::trimmed(
                    reply->0.stdout,
                ) == m.container_name
                ||| (last == StartPhase::StartStopped || last == StartPhase::Create) && reply is Some
                    && reply->0.success
            }
            &&& reply is None ==> end == Err::<(), ErrorView>(ErrorView::DockerNotAvailable)
            &&& end is Err && reply is Some ==> !reply->0.success && (last == StartPhase::Pull
                || last == StartPhase::StartStopped || last == StartPhase::Create || last
                == StartPhase::Remove)
            &&& end is Err && reply is Some && last != StartPhase::Pull ==> end == Err::<
                (),
                ErrorView,
            >(ErrorView::StartFailed(text::trimmed(reply->0.stderr)))
            &&& end is Err && reply is Some && last == StartPhase::Pull ==> end->Err_0 is PullFailed
                && end->Err_0->image == provider::image_of(m.provider) && text::occurs(
                end->Err_0->PullFailed_reason,
                reply->0.status,
            )
        }),
{
    reveal_with_fuel(start_run, 6);
    let (steps, end) = start_run(m, replies, StartPhase::CheckExists);
    assert(steps.len() > 0);
    let reply = replies(StartPhase::Pull);
    if reply is Some {
        text::text_occurs_where_it_stands(
            "`docker pull` exited with "@,
            reply->0.status,
            " (see streamed output above)"@,
        );
    }
    let e = replies(StartPhase::CheckExists);
    if e is Some && names_container(m, e->0) {
        let c = replies(StartPhase::CheckConfig);
        if c is Some && shows_config(m, c->0) {
            let r = replies(StartPhase::CheckRunning);
            if r is Some && !names_container(m, r->0) {
                assert(steps.last() == StartPhase::StartStopped);
            } else {
                assert(steps.last() == StartPhase::CheckRunning);
            }
        } else if c is Some {
            lemma_creating(m, replies);
        } else {
            assert(steps.last() == StartPhase::CheckConfig);
        }
    } else if e is Some {
        lemma_creating(m, replies);
    } else {
        assert(steps.last() == StartPhase::CheckExists);
    }
}

proof fn lemma_creating(m: ManagerView, replies: spec_fn(StartPhase) -> Option<OutputView>)
    ensures
        ({
            let (steps, end) = start_run(m, replies, StartPhase::CheckImage);
            &&& steps.len() > 0
            &&& steps.last() == if replies(StartPhase::CheckImage) is None {
                StartPhase::CheckImage
            } else if replies(StartPhase::CheckImage)->0.success || (replies(StartPhase::Pull) is Some
                && replies(StartPhase::Pull)->0.success) {
                StartPhase::Create
            } else {
                StartPhase::Pull
            }
        }),
{
    reveal_with_fuel(start_run, 4);
}

/// A container of the right image and port that is not running is started, and starting ends well if
/// and only if that succeeds; a missing container is created, its image pulled only if it is missing
/// too, and that ends well if and only if the creation succeeds; a container of another image or
/// port is first removed.
pub proof fn starting_takes_the_steps_that_are_needed(
    m: ManagerView,
    replies: spec_fn(StartPhase) -> Option<OutputView>,
)
    requires
        forall|p: StartPhase| #[trigger] replies(p) is Some,
    ensures
        ({
            let (steps, end) = start_run(m, replies, StartPhase::CheckExists);
            let found = names_container(m, replies(StartPhase::CheckExists)->0);
            let matching = found && shows_config(m, replies(StartPhase::CheckConfig)->0);
            let running = names_container(m, replies(StartPhase::CheckRunning)->0);
            let there = replies(StartPhase::CheckImage)->0.success;
            let pull = replies(StartPhase::Pull)->0.success;
            let started = replies(StartPhase::StartStopped)->0.success;
            let removed = replies(StartPhase::Remove)->0.success;
            let made = replies(StartPhase::Create)->0.success;
            &&& matching && running ==> end is Ok
            &&& matching && !running ==> (end is Ok <==> started)
            &&& !found && there ==> steps == seq![
                StartPhase::CheckExists,
                StartPhase::CheckImage,
                StartPhase::Create,
            ] && (end is Ok <==> made)
            &&& !found && !there && pull ==> steps == seq![
                StartPhase::CheckExists,
                StartPhase::CheckImage,
                StartPhase::Pull,
                StartPhase::Create,
            ] && (end is Ok <==> made)
            &&& !found && !there && !pull ==> end is Err && !steps.contains(StartPhase::Create)
            &&& found && !matching && !removed ==> end is Err && steps == seq![
                StartPhase::CheckExists,
                StartPhase::CheckConfig,
                StartPhase::Remove,
            ]
            &&& found && !matching && removed && there ==> steps == seq![
                StartPhase::CheckExists,
                StartPhase::CheckConfig,
                StartPhase::Remove,
                StartPhase::CheckImage,
                StartPhase::Create,
            ] && (end is Ok <==> made)
            &&& found && !matching && removed && !there && pull ==> steps == seq![
                StartPhase::CheckExists,
                StartPhase::CheckConfig,
                StartPhase::Remove,
                StartPhase::CheckImage,
                StartPhase::Pull,
                StartPhase::Create,
            ] && (end is Ok <==> made)
        }),
{
    reveal_with_fuel(start_run, 6);
    let (steps, end) = start_run(m, replies, StartPhase::CheckExists);
    assert(replies(StartPhase::CheckExists) is Some);
    assert(replies(StartPhase::CheckConfig) is Some);
    assert(replies(StartPhase::CheckRunning) is Some);
    assert(replies(StartPhase::StartStopped) is Some);
    assert(replies(StartPhase::Remove) is Some);
    assert(replies(StartPhase::CheckImage) is Some);
    assert(replies(StartPhase::Pull) is Some);
    assert(replies(StartPhase::Create) is Some);
}

/// The bounce of a container ends a restart, well if and only if the command succeeds; a command
/// that cannot be run ends it with Docker not being available, whatever the step; once there is
/// nothing to restart, the steps and the end are those of starting.
pub proof fn restarting_ends_as_its_last_command_did(
    m: ManagerView,
    phase: RestartPhase,
    p: StartPhase,
    reply: Option<OutputView>,
    out: OutputView,
)
    ensures
        out.success ==> restart_step(m, RestartPhase::Bounce, Some(out)) == RestartStepView::Done(
            Ok(()),
        ),
        !out.success ==> restart_step(m, RestartPhase::Bounce, Some(out)) == RestartStepView::Done(
            Err(ErrorView::StartFailed(text::trimmed(out.stderr))),
        ),
        restart_step(m, phase, None) == RestartStepView::Done(Err(ErrorView::DockerNotAvailable)),
        start_step(m, p, reply) is Next <==> restart_step(m, RestartPhase::Start(p), reply) is Next,
        start_step(m, p, reply) is Next ==> restart_step(m, RestartPhase::Start(p), reply)
            == RestartStepView::Next(RestartPhase::Start(start_step(m, p, reply)->Next_0)),
        start_step(m, p, reply) is Done ==> restart_step(m, RestartPhase::Start(p), reply)
            == RestartStepView::Done(start_step(m, p, reply)->Done_0),
{
}

/// The output of `docker ps` names the container if and only if it is the name with nothing but
/// whitespace around it.
pub proof fn containers_are_known_by_their_exact_name(
    m: ManagerView,
    out: OutputView,
    a: Seq<char>,
    b: Seq<char>,
)
    requires
        text::blank(a),
        text::blank(b),
        m.container_name.len() > 0,
        !text::is_whitespace(m.container_name[0]),
        !text::is_whitespace(m.container_name.last()),
    ensures
        out.stdout == a + m.container_name + b ==> names_container(m, out),
        names_container(m, out) ==> exists|x: Seq<char>, y: Seq<char>|
            out.stdout == #[trigger] (x + m.container_name + y) && text::blank(x) && text::blank(y),
{
    text::trimming_finds_the_text(a, m.container_name, b);
    text::trimming_takes_whitespace_off_the_ends(out.stdout);
}

/// A container is taken to match if `docker inspect` succeeds and prints the image, a bar, and a
/// list of ports in which the solver's port is published under the manager's; and a container that
/// is taken to match has printed just that.
pub proof fn a_matching_container_has_image_and_port(
    m: ManagerView,
    out: OutputView,
    a: Seq<char>,
    b: Seq<char>,
)
    ensures
        ({
            let image = provider::image_of(m.provider);
            let port = text::decimal(8191) + "/tcp="@ + text::decimal(m.port as nat) + ";"@;
            let line = image + "|"@ + (a + port + b);
            &&& out.success && text::trimmed(out.stdout) == line && (forall|i: int|
                0 <= i < image.len() ==> #[trigger] image[i] != '|') ==> shows_config(m, out)
            &&& shows_config(m, out) ==> out.success && exists|x: Seq<char>, y: Seq<char>|
                text::trimmed(out.stdout) == image + "|"@ + #[trigger] (x + port + y)
        }),
{
    reveal_strlit("|");
    let image = provider::image_of(m.provider);
    let port = text::decimal(8191) + "/tcp="@ + text::decimal(m.port as nat) + ";"@;
    let line = text::trimmed(out.stdout);
    let f = text::find_char(line, '|');
    text::the_first_place_of_a_character(line, '|');
    if line == image + "|"@ + (a + port + b) && (forall|i: int|
        0 <= i < image.len() ==> #[trigger] image[i] != '|') {
        assert(line[image.len() as int] == '|');
        if f < image.len() {
            assert(line[f] == image[f]);
        }
        assert(f == image.len());
        assert(line.take(f) =~= image);
        assert(line.skip(f + 1) =~= a + port + b);
        text::text_occurs_where_it_stands(a, port, b);
    }
    if shows_config(m, out) {
        let rest = line.skip(f + 1);
        text::what_occurs_can_be_cut_out(rest, port);
        let (x, y) = choose|x: Seq<char>, y: Seq<char>| rest == #[trigger] (x + port + y);
        assert(line =~= image + "|"@ + (x + port + y)) by {
            assert(line =~= line.take(f) + seq!['|'] + rest);
            assert("|"@ =~= seq!['|']);
        }
    }
}

/// Every command names the container or the image it is about; a creation gives the container its
/// name, publishes the solver's port under the manager's, ends with the image, and passes each limit
/// that is set, and only those.
pub proof fn commands_say_what_they_are_about(m: ManagerView, phase: StartPhase)
    ensures
        SOLVER_PORT == 8191,
        start_args_of(m, StartPhase::CheckExists)[3] == "name=^"@ + m.container_name + "$"@,
        start_args_of(m, StartPhase::CheckRunning)[2] == "name=^"@ + m.container_name + "$"@,
        phase == StartPhase::CheckConfig || phase == StartPhase::StartStopped || phase
            == StartPhase::Remove ==> start_args_of(m, phase).last() == m.container_name,
        phase == StartPhase::CheckImage || phase == StartPhase::Pull || phase == StartPhase::Create
            ==> start_args_of(m, phase).last() == provider::image_of(m.provider),
        restart_args_of(m, RestartPhase::Bounce).last() == m.container_name,
        restart_args_of(m, RestartPhase::Start(phase)) == start_args_of(m, phase),
        ({
            let args = start_args_of(m, StartPhase::Create);
            let set = |v: Option<Seq<char>>|
                if v is Some {
                    1int
                } else {
                    0int
                };
            &&& args[2] == "--name"@
            &&& args[3] == m.container_name
            &&& args[4] == "-p"@
            &&& args[5] == text::decimal(m.port as nat) + ":"@ + text::decimal(8191)
            &&& m.limits.memory is Some ==> args.contains("--memory="@ + m.limits.memory->0)
            &&& m.limits.cpus is Some ==> args.contains("--cpus="@ + m.limits.cpus->0)
            &&& m.limits.shm_size is Some ==> args.contains("--shm-size="@ + m.limits.shm_size->0)
            &&& args.len() == 7 + set(m.limits.memory) + set(m.limits.cpus) + set(
                m.limits.shm_size,
            )
        }),
{
    let args = start_args_of(m, StartPhase::Create);
    let k = limit_arg("--memory="@, m.limits.memory).len() as int;
    let l = limit_arg("--cpus="@, m.limits.cpus).len() as int;
    if m.limits.memory is Some {
        assert(args[6] == "--memory="@ + m.limits.memory->0);
    }
    if m.limits.cpus is Some {
        assert(args[6 + k] == "--cpus="@ + m.limits.cpus->0);
    }
    if m.limits.shm_size is Some {
        assert(args[6 + k + l] == "--shm-size="@ + m.limits.shm_size->0);
    }
}

/// The service is reached on this host under the manager's port, whose number ends the URL.
pub proof fn the_local_url_ends_with_the_port(port: u16)
    ensures
        exists|d: Seq<char>|
            local_url(port) == #[trigger] ("http://localhost:"@ + d) && text::number(d) == port
                && text::all_digits(d) && d == text::decimal(port as nat),
{
    text::decimal_is_its_number(port as nat);
    let d = text::decimal(port as nat);
    assert(local_url(port) == "http://localhost:"@ + d);
}

/// A daemon that is found running, at the first probe or after its start, is all that is asked for;
/// one that is not running is started only where the `docker` program is installed, by the caller's
/// command if there is one, else by the platform's. A start command that cannot be run, or fails,
/// is the end of it; the wait begins when the command has succeeded.
pub proof fn the_daemon_is_started_where_it_can_be(
    custom: Option<CommandView>,
    os: HostOs,
    max_wait: Duration,
    command: CommandView,
    started: Instant,
    last_heartbeat: Instant,
    message: Seq<char>,
    now: Instant,
)
    ensures
        ({
            let step = |s: StageView, e: EventView| daemon_step(custom, os, max_wait, s, e, now);
            let waiting = StageView::Waiting { started, last_heartbeat };
            let launch = StageView::Launch { command };
            &&& step(StageView::FirstProbe, EventView::Probed { available: true })
                == DaemonStepView::Done(Ok(()))
            &&& step(waiting, EventView::Probed { available: true }) == DaemonStepView::Done(Ok(()))
            &&& step(StageView::FirstProbe, EventView::Probed { available: false })
                == DaemonStepView::Next(StageView::CheckCli)
            &&& step(StageView::CheckCli, EventView::CliChecked { present: false })
                == DaemonStepView::Done(Err(ErrorView::DockerNotAvailable))
            &&& custom is Some ==> step(
                StageView::CheckCli,
                EventView::CliChecked { present: true },
            ) == DaemonStepView::Next(StageView::Launch { command: custom->0 })
            &&& custom is None && usual_daemon_start(os) is Some ==> step(
                StageView::CheckCli,
                EventView::CliChecked { present: true },
            ) == DaemonStepView::Next(StageView::Launch { command: usual_daemon_start(os)->0 })
            &&& custom is None && os == HostOs::Other ==> {
                let s = step(StageView::CheckCli, EventView::CliChecked { present: true });
                s is Done && s->Done_0 is Err && s->Done_0->Err_0 is DaemonStartFailed
            }
            &&& step(launch, EventView::Launched { success: true, status: message })
                == DaemonStepView::Next(
                StageView::Waiting { started: now, last_heartbeat: now },
            )
            &&& {
                let s = step(launch, EventView::Launched { success: false, status: message });
                s is Done && s->Done_0 is Err && s->Done_0->Err_0 is DaemonStartFailed
                    && text::occurs(s->Done_0->Err_0->DaemonStartFailed_0, message)
                    && text::occurs(s->Done_0->Err_0->DaemonStartFailed_0, command.0)
            }
            &&& {
                let s = step(launch, EventView::LaunchFailed { error: message });
                s is Done && s->Done_0 is Err && s->Done_0->Err_0 is DaemonStartFailed
                    && text::occurs(s->Done_0->Err_0->DaemonStartFailed_0, message)
                    && text::occurs(s->Done_0->Err_0->DaemonStartFailed_0, command.0)
            }
        }),
{
    let failed = "`"@ + command.0 + "` failed with "@ + message;
    text::text_occurs_where_it_stands("`"@, command.0, "` failed with "@ + message);
    assert(failed =~= "`"@ + command.0 + ("` failed with "@ + message));
    text::text_occurs_where_it_stands(
        "`"@ + command.0 + "` failed with "@,
        message,
        Seq::empty(),
    );
    assert(failed =~= "`"@ + command.0 + "` failed with "@ + message + Seq::<char>::empty());
    let unrun = "could not run `"@ + command.0 + "`: "@ + message;
    text::text_occurs_where_it_stands("could not run `"@, command.0, "`: "@ + message);
    assert(unrun =~= "could not run `"@ + command.0 + ("`: "@ + message));
    text::text_occurs_where_it_stands("could not run `"@ + command.0 + "`: "@, message, Seq::empty());
    assert(unrun =~= "could not run `"@ + command.0 + "`: "@ + message + Seq::<char>::empty());
}

/// While the daemon is awaited, the start of the wait never moves, and a heartbeat, which tells how
/// long the wait has lasted, comes if and only if the time between heartbeats has passed since the
/// last; the next is then counted from it.
pub proof fn heartbeats_come_at_their_interval(
    custom: Option<CommandView>,
    os: HostOs,
    max_wait: Duration,
    started: Instant,
    last: Instant,
    now: Instant,
)
    requires
        started.nanos <= last.nanos <= now.nanos < time::instant_after(started, max_wait).nanos,
    ensures
        ({
            let step = daemon_step(
                custom,
                os,
                max_wait,
                StageView::Waiting { started, last_heartbeat: last },
                EventView::Probed { available: false },
                now,
            );
            let due = now.nanos - last.nanos >= HEARTBEAT_SECS * 1_000_000_000;
            &&& step is Pause
            &&& step->heartbeat is Some <==> due
            &&& due ==> started.nanos + step->heartbeat->0.nanos == now.nanos
            &&& step->stage == (StageView::Waiting {
                started,
                last_heartbeat: if due {
                    now
                } else {
                    last
                },
            })
        }),
{
}

/// An answer counts as healthy if and only if its status is in the two hundreds; a healthy answer
/// to any probe ends the wait well, and the probes are made one after the other, from the first.
pub proof fn a_healthy_answer_ends_the_wait(
    m: ManagerView,
    max_attempts: u32,
    attempt: u32,
    status: u16,
    earlier: Option<u16>,
)
    ensures
        healthy_status(Some(status)) <==> status / 100 == 2,
        !healthy_status(None),
        attempt > 0 && status / 100 == 2 ==> health_step(m, max_attempts, attempt, Some(status))
            == HealthStepView::Done(Ok(())),
        max_attempts > 0 ==> health_step(m, max_attempts, 0, earlier) == (HealthStepView::Probe {
            attempt: 1,
        }),
        attempt < max_attempts && status / 100 != 2 ==> health_step(
            m,
            max_attempts,
            attempt,
            Some(status),
        ) == (HealthStepView::Probe { attempt: (attempt + 1) as u32 }),
        attempt >= max_attempts && (attempt == 0 || status / 100 != 2) ==> health_step(
            m,
            max_attempts,
            attempt,
            Some(status),
        ) is Done && health_step(m, max_attempts, attempt, Some(status))->Done_0 is Err,
{
}

/// The manager of a container, its limits, and the output of a command say what they hold.
pub proof fn managers_say_what_they_hold(m: DockerManager, l: DockerLimits, o: CommandOutput)
    ensures
        m@.provider == m.provider@,
        m@.port == m.port,
        m@.container_name == m.container_name@,
        m@.limits == m.limits@,
        l@.memory is Some <==> l.memory is Some,
        l.memory is Some ==> l@.memory->0 == l.memory->0@,
        l@.cpus is Some <==> l.cpus is Some,
        l.cpus is Some ==> l@.cpus->0 == l.cpus->0@,
        l@.shm_size is Some <==> l.shm_size is Some,
        l.shm_size is Some ==> l@.shm_size->0 == l.shm_size->0@,
        o@.success == o.success,
        o@.status == o.status@,
        o@.stdout == o.stdout@,
        o@.stderr == o.stderr@,
        reply_view(Some(o)) == Some(o@),
        reply_view(None) is None,
{
}

/// The steps of starting, restarting, bringing the daemon up and awaiting health, and what they end
/// with, say what they hold.
pub proof fn steps_say_what_they_hold(
    s: StartStep,
    r: RestartStep,
    d: DaemonStep,
    h: HealthStep,
    e: AntibotError,
)
    ensures
        done_view(Ok(())) == Ok::<(), ErrorView>(()),
        done_view(Err(e)) == Err::<(), ErrorView>(e@),
        s is Next ==> s@ == StartStepView::Next(s->Next_0),
        s is Done ==> s@ == StartStepView::Done(done_view(s->Done_0)),
        r is Next ==> r@ == RestartStepView::Next(r->Next_0),
        r is Done ==> r@ == RestartStepView::Done(done_view(r->Done_0)),
        d is Next ==> d@ == DaemonStepView::Next(d->Next_0@),
        d is Pause ==> d@ == (DaemonStepView::Pause { stage: d->stage@, heartbeat: d->heartbeat }),
        d is Done ==> d@ == DaemonStepView::Done(done_view(d->Done_0)),
        h is Probe ==> h@ == (HealthStepView::Probe { attempt: h->attempt }),
        h is Done ==> h@ == HealthStepView::Done(done_view(h->Done_0)),
{
}

/// The stages of bringing the daemon up, and what happens on the way, say what they hold.
pub proof fn stages_say_what_they_hold(s: DaemonStage, e: DaemonEvent, c: (String, Vec<String>))
    ensures
        s is FirstProbe ==> s@ == StageView::FirstProbe,
        s is CheckCli ==> s@ == StageView::CheckCli,
        s is Launch ==> s@ == (StageView::Launch { command: (s->program@, text::texts(s->args@)) }),
        s is Waiting ==> s@ == (StageView::Waiting {
            started: s->started,
            last_heartbeat: s->last_heartbeat,
        }),
        e is Probed ==> e@ == (EventView::Probed { available: e->available }),
        e is CliChecked ==> e@ == (EventView::CliChecked { present: e->present }),
        e is LaunchFailed ==> e@ == (EventView::LaunchFailed { error: e->error@ }),
        e is Launched ==> e@ == (EventView::Launched { success: e->success, status: e->status@ }),
        opt_command(Some(c)) == Some((c.0@, text::texts(c.1@))),
        opt_command(None) is None,
{
}

/// A container is looked for among all there are, running or not, and a running one among those that
/// run; containers are listed by name alone, created in the background, and removed even while they
/// run.
pub proof fn commands_ask_for_what_they_need(m: ManagerView)
    ensures
        start_args_of(m, StartPhase::CheckExists)[0] == "ps"@,
        start_args_of(m, StartPhase::CheckExists)[1] == "-a"@,
        start_args_of(m, StartPhase::CheckExists)[2] == "--filter"@,
        start_args_of(m, StartPhase::CheckExists)[4] == "--format"@,
        start_args_of(m, StartPhase::CheckExists)[5] == "{{.Names}}"@,
        start_args_of(m, StartPhase::CheckExists).len() == 6,
        start_args_of(m, StartPhase::CheckRunning)[0] == "ps"@,
        start_args_of(m, StartPhase::CheckRunning)[1] == "--filter"@,
        start_args_of(m, StartPhase::CheckRunning)[3] == "--filter"@,
        start_args_of(m, StartPhase::CheckRunning)[4] == "status=running"@,
        start_args_of(m, StartPhase::CheckRunning)[5] == "--format"@,
        start_args_of(m, StartPhase::CheckRunning)[6] == "{{.Names}}"@,
        start_args_of(m, StartPhase::CheckRunning).len() == 7,
        start_args_of(m, StartPhase::CheckConfig).len() == 4,
        start_args_of(m, StartPhase::CheckConfig)[0] == "inspect"@,
        start_args_of(m, StartPhase::CheckConfig)[1] == "--format"@,
        start_args_of(m, StartPhase::StartStopped) == seq!["start"@, m.container_name],
        start_args_of(m, StartPhase::Remove) == seq!["rm"@, "-f"@, m.container_name],
        start_args_of(m, StartPhase::CheckImage) == seq![
            "image"@,
            "inspect"@,
            provider::image_of(m.provider),
        ],
        start_args_of(m, StartPhase::Pull) == seq!["pull"@, provider::image_of(m.provider)],
        start_args_of(m, StartPhase::Create)[0] == "run"@,
        start_args_of(m, StartPhase::Create)[1] == "-d"@,
        restart_args_of(m, RestartPhase::Bounce)[0] == "restart"@,
        restart_args_of(m, RestartPhase::CheckExists) == start_args_of(m, StartPhase::CheckExists),
        restart_args_of(m, RestartPhase::CheckConfig) == start_args_of(m, StartPhase::CheckConfig),
{
}

/// A daemon that is given up is said to have had the time that it had, in whole seconds.
pub proof fn giving_up_tells_the_time_allowed(max_wait: Duration)
    ensures
        text::occurs(
            not_ready_within(max_wait),
            text::decimal((max_wait.nanos / 1_000_000_000) as nat),
        ),
{
    text::text_occurs_where_it_stands(
        "daemon did not become ready within "@,
        text::decimal((max_wait.nanos / 1_000_000_000) as nat),
        "s — Docker Desktop can take longer to cold-boot; increase the wait via `AntibotBuilder::daemon_start_timeout`, or start Docker before running so it is already warm"@,
    );
}

} // verus!
