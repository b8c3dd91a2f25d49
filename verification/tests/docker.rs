//! Container, daemon and health.

use antibot_rs::builder::{AntibotBuilder, BuildEvent, BuildStage, BuildStep};
use antibot_rs::docker::{
    default_daemon_start, default_daemon_wait, is_healthy, CommandOutput, DaemonEvent, DaemonStage,
    DaemonStep, DockerManager, HealthStep, HostOs, RestartPhase, RestartStep, StartPhase,
    StartStep,
};
use antibot_rs::time::{Duration, Instant, SystemTime};
use antibot_rs::{Antibot, AntibotError, DockerLimits, Provider};

fn at(secs: u128) -> Instant {
    Instant { nanos: secs * 1_000_000_000 }
}

fn out(success: bool, stdout: &str, stderr: &str) -> Option<CommandOutput> {
    Some(CommandOutput {
        success,
        status: "exit status: 1".to_string(),
        stdout: stdout.to_string(),
        stderr: stderr.to_string(),
    })
}

fn manager() -> DockerManager {
    DockerManager::new(Provider::Byparr, 9000)
}

const MATCHING: &str = "ghcr.io/thephaseless/byparr:latest|8191/tcp=9000;\n";

/// The steps that starting takes under the replies given, and whether it ends well.
fn start_trace(m: &DockerManager, reply: fn(StartPhase) -> Option<CommandOutput>) -> (Vec<StartPhase>, Result<(), AntibotError>) {
    let mut phase = StartPhase::CheckExists;
    let mut steps = Vec::new();
    loop {
        steps.push(phase);
        match m.start(phase, reply(phase)) {
            StartStep::Next(p) => phase = p,
            StartStep::Done(r) => return (steps, r),
        }
    }
}

#[test]
fn a_running_container_is_left_alone() {
    let (steps, r) = start_trace(&manager(), |p| match p {
        StartPhase::CheckConfig => out(true, MATCHING, ""),
        _ => out(true, " antibot-solver\n", ""),
    });
    assert_eq!(
        steps,
        vec![StartPhase::CheckExists, StartPhase::CheckConfig, StartPhase::CheckRunning]
    );
    assert!(r.is_ok());
}

#[test]
fn a_stopped_container_is_started() {
    let (steps, r) = start_trace(&manager(), |p| match p {
        StartPhase::CheckExists => out(true, "antibot-solver", ""),
        StartPhase::CheckConfig => out(true, MATCHING, ""),
        StartPhase::CheckRunning => out(true, "", ""),
        _ => out(false, "", " no space \n"),
    });
    assert_eq!(steps.last(), Some(&StartPhase::StartStopped));
    assert_eq!(steps.len(), 4);
    assert_eq!(r.unwrap_err().message(), "failed to start container: no space");
}

#[test]
fn a_container_of_another_port_is_recreated() {
    let (steps, r) = start_trace(&manager(), |p| match p {
        StartPhase::CheckExists => out(true, "antibot-solver", ""),
        StartPhase::CheckConfig => {
            out(true, "ghcr.io/thephaseless/byparr:latest|8191/tcp=90001;", "")
        }
        StartPhase::CheckImage => out(false, "", ""),
        _ => out(true, "", ""),
    });
    assert_eq!(
        steps,
        vec![
            StartPhase::CheckExists,
            StartPhase::CheckConfig,
            StartPhase::Remove,
            StartPhase::CheckImage,
            StartPhase::Pull,
            StartPhase::Create
        ]
    );
    assert!(r.is_ok());
}

#[test]
fn a_missing_container_is_created() {
    let (steps, r) = start_trace(&manager(), |p| match p {
        // Another container whose name merely begins alike.
        StartPhase::CheckExists => out(true, "antibot-solver-2", ""),
        _ => out(true, "", ""),
    });
    assert_eq!(
        steps,
        vec![StartPhase::CheckExists, StartPhase::CheckImage, StartPhase::Create]
    );
    assert!(r.is_ok());
}

#[test]
fn failures_of_starting() {
    let (_, r) = start_trace(&manager(), |_| None);
    assert!(matches!(r, Err(AntibotError::DockerNotAvailable)));
    let (steps, r) = start_trace(&manager(), |p| match p {
        StartPhase::CheckExists => out(true, "", ""),
        _ => out(false, "", "e"),
    });
    assert_eq!(steps.last(), Some(&StartPhase::Pull));
    assert_eq!(
        r.unwrap_err().message(),
        "failed to pull image ghcr.io/thephaseless/byparr:latest: `docker pull` exited with exit \
         status: 1 (see streamed output above)"
    );
}

#[test]
fn config_matches_image_and_port() {
    let m = manager();
    let matches = |success: bool, stdout: &str| {
        m.container_config_matches(&out(success, stdout, "").unwrap())
    };
    assert!(matches(true, MATCHING));
    assert!(matches(true, "ghcr.io/thephaseless/byparr:latest|80/tcp=1;8191/tcp=9000;"));
    assert!(!matches(false, MATCHING));
    assert!(!matches(true, "ghcr.io/thephaseless/byparr:latest"));
    assert!(!matches(true, "other|8191/tcp=9000;"));
    assert!(!matches(true, "ghcr.io/thephaseless/byparr:latest|8191/tcp=9001;"));
    assert!(!matches(true, ""));
}

#[test]
fn commands_of_each_step() {
    let m = DockerManager::new(Provider::Custom("img:1".to_string()), 9000)
        .with_container_name("box".to_string())
        .with_limits(DockerLimits::default().memory("2g").cpus("1.5").shm_size("1g"));
    assert_eq!(
        m.start_args(StartPhase::CheckExists),
        ["ps", "-a", "--filter", "name=^box$", "--format", "{{.Names}}"]
    );
    assert_eq!(
        m.start_args(StartPhase::CheckRunning),
        ["ps", "--filter", "name=^box$", "--filter", "status=running", "--format", "{{.Names}}"]
    );
    assert_eq!(
        m.start_args(StartPhase::CheckConfig),
        [
            "inspect",
            "--format",
            "{{.Config.Image}}|{{range $p, $b := .HostConfig.PortBindings}}{{$p}}={{(index $b 0).HostPort}};{{end}}",
            "box"
        ]
    );
    assert_eq!(m.start_args(StartPhase::StartStopped), ["start", "box"]);
    assert_eq!(m.start_args(StartPhase::Remove), ["rm", "-f", "box"]);
    assert_eq!(m.start_args(StartPhase::CheckImage), ["image", "inspect", "img:1"]);
    assert_eq!(m.start_args(StartPhase::Pull), ["pull", "img:1"]);
    assert_eq!(
        m.start_args(StartPhase::Create),
        [
            "run", "-d", "--name", "box", "-p", "9000:8191", "--memory=2g", "--cpus=1.5",
            "--shm-size=1g", "img:1"
        ]
    );
    assert_eq!(
        manager().start_args(StartPhase::Create),
        [
            "run", "-d", "--name", "antibot-solver", "-p", "9000:8191",
            "ghcr.io/thephaseless/byparr:latest"
        ]
    );
    assert_eq!(m.restart_args(RestartPhase::Bounce), ["restart", "-t", "10", "box"]);
    assert_eq!(m.restart_args(RestartPhase::Start(StartPhase::Pull)), ["pull", "img:1"]);
    assert_eq!(m.stop_args(), ["stop", "-t", "10", "box"]);
    assert_eq!(m.base_url(), "http://localhost:9000");
    assert_eq!(m.container_name(), "box");
}

#[test]
fn restarting_bounces_or_starts() {
    let m = manager();
    let named = || out(true, "antibot-solver", "");
    assert!(matches!(
        m.restart(RestartPhase::CheckExists, named()),
        RestartStep::Next(RestartPhase::CheckConfig)
    ));
    assert!(matches!(
        m.restart(RestartPhase::CheckConfig, out(true, MATCHING, "")),
        RestartStep::Next(RestartPhase::Bounce)
    ));
    assert!(matches!(
        m.restart(RestartPhase::Bounce, out(true, "", "")),
        RestartStep::Done(Ok(()))
    ));
    assert!(matches!(
        m.restart(RestartPhase::Bounce, out(false, "", "x")),
        RestartStep::Done(Err(AntibotError::StartFailed(_)))
    ));
    assert!(matches!(
        m.restart(RestartPhase::CheckExists, out(true, "", "")),
        RestartStep::Next(RestartPhase::Start(StartPhase::CheckExists))
    ));
    assert!(matches!(
        m.restart(RestartPhase::CheckConfig, out(true, "x", "")),
        RestartStep::Next(RestartPhase::Start(StartPhase::CheckExists))
    ));
    assert!(matches!(
        m.restart(RestartPhase::Start(StartPhase::Create), out(true, "", "")),
        RestartStep::Done(Ok(()))
    ));
    assert!(matches!(
        m.restart(RestartPhase::Bounce, None),
        RestartStep::Done(Err(AntibotError::DockerNotAvailable))
    ));
}

#[test]
fn stopping_reports_what_docker_said() {
    let m = manager();
    assert!(m.stop(out(true, "", "")).is_ok());
    assert!(matches!(m.stop(None), Err(AntibotError::DockerNotAvailable)));
    assert_eq!(
        m.stop(out(false, "", "no such container\n")).unwrap_err().message(),
        "failed to start container: no such container"
    );
}

fn daemon(
    custom: Option<&(String, Vec<String>)>,
    os: HostOs,
    stage: DaemonStage,
    event: DaemonEvent,
    secs: u128,
) -> DaemonStep {
    DockerManager::ensure_running(custom, os, Duration::from_secs(60), stage, event, at(secs))
}

#[test]
fn a_running_daemon_needs_no_start() {
    assert!(matches!(
        daemon(None, HostOs::Linux, DaemonStage::FirstProbe, DaemonEvent::Probed { available: true }, 0),
        DaemonStep::Done(Ok(()))
    ));
    assert!(matches!(
        daemon(None, HostOs::Linux, DaemonStage::FirstProbe, DaemonEvent::Probed { available: false }, 0),
        DaemonStep::Next(DaemonStage::CheckCli)
    ));
    assert!(matches!(
        daemon(None, HostOs::Linux, DaemonStage::CheckCli, DaemonEvent::CliChecked { present: false }, 0),
        DaemonStep::Done(Err(AntibotError::DockerNotAvailable))
    ));
}

#[test]
fn the_daemon_is_launched_by_the_usual_or_a_custom_command() {
    let present = || DaemonEvent::CliChecked { present: true };
    match daemon(None, HostOs::MacOs, DaemonStage::CheckCli, present(), 0) {
        DaemonStep::Next(DaemonStage::Launch { program, args }) => {
            assert_eq!(program, "open");
            assert_eq!(args, ["-a", "Docker"]);
        }
        _ => panic!("expected a launch"),
    }
    let custom = ("colima".to_string(), vec!["start".to_string()]);
    match daemon(Some(&custom), HostOs::Other, DaemonStage::CheckCli, present(), 0) {
        DaemonStep::Next(DaemonStage::Launch { program, args }) => {
            assert_eq!(program, "colima");
            assert_eq!(args, ["start"]);
        }
        _ => panic!("expected a launch"),
    }
    match daemon(None, HostOs::Other, DaemonStage::CheckCli, present(), 0) {
        DaemonStep::Done(Err(e)) => assert_eq!(
            e.message(),
            "failed to start the Docker daemon: no default daemon-start command for this OS; pass \
             a custom one"
        ),
        _ => panic!("expected a failure"),
    }
    assert_eq!(
        default_daemon_start(HostOs::Linux),
        Some(("systemctl".to_string(), vec!["start".to_string(), "docker".to_string()]))
    );
    let (program, args) = default_daemon_start(HostOs::Windows).unwrap();
    assert_eq!(program, "cmd");
    assert_eq!(args, ["/C", "start", "", r"C:\Program Files\Docker\Docker\Docker Desktop.exe"]);
    assert_eq!(default_daemon_wait(HostOs::Windows), Duration::from_secs(240));
    assert_eq!(default_daemon_wait(HostOs::MacOs), Duration::from_secs(240));
    assert_eq!(default_daemon_wait(HostOs::Linux), Duration::from_secs(60));
    assert_eq!(default_daemon_wait(HostOs::Other), Duration::from_secs(60));
}

#[test]
fn launch_failures_end_the_wait() {
    let launch = || DaemonStage::Launch { program: "p".to_string(), args: Vec::new() };
    match daemon(None, HostOs::Linux, launch(), DaemonEvent::LaunchFailed { error: "nope".to_string() }, 0) {
        DaemonStep::Done(Err(AntibotError::DaemonStartFailed(m))) => {
            assert_eq!(m, "could not run `p`: nope");
        }
        _ => panic!("expected a failure"),
    }
    let ended = DaemonEvent::Launched { success: false, status: "exit status: 3".to_string() };
    match daemon(None, HostOs::Linux, launch(), ended, 0) {
        DaemonStep::Done(Err(AntibotError::DaemonStartFailed(m))) => {
            assert_eq!(m, "`p` failed with exit status: 3");
        }
        _ => panic!("expected a failure"),
    }
    let ok = DaemonEvent::Launched { success: true, status: String::new() };
    assert!(matches!(
        daemon(None, HostOs::Linux, launch(), ok, 5),
        DaemonStep::Next(DaemonStage::Waiting { started: Instant { nanos: 5_000_000_000 }, .. })
    ));
}

#[test]
fn the_daemon_wait_honours_its_deadline() {
    let waiting = |beat: u128| DaemonStage::Waiting { started: at(100), last_heartbeat: at(beat) };
    let no = || DaemonEvent::Probed { available: false };
    assert!(matches!(
        daemon(None, HostOs::Linux, waiting(100), DaemonEvent::Probed { available: true }, 500),
        DaemonStep::Done(Ok(()))
    ));
    assert!(matches!(
        daemon(None, HostOs::Linux, waiting(100), no(), 109),
        DaemonStep::Pause { heartbeat: None, .. }
    ));
    match daemon(None, HostOs::Linux, waiting(105), no(), 115) {
        DaemonStep::Pause { stage: DaemonStage::Waiting { last_heartbeat, .. }, heartbeat } => {
            assert_eq!(last_heartbeat, at(115));
            assert_eq!(heartbeat, Some(Duration::from_secs(15)));
        }
        _ => panic!("expected a heartbeat"),
    }
    assert!(matches!(
        daemon(None, HostOs::Linux, waiting(155), no(), 159),
        DaemonStep::Pause { .. }
    ));
    match daemon(None, HostOs::Linux, waiting(155), no(), 160) {
        DaemonStep::Done(Err(AntibotError::DaemonStartFailed(m))) => {
            assert!(m.starts_with("daemon did not become ready within 60s — Docker Desktop can"));
            assert!(m.contains("`AntibotBuilder::daemon_start_timeout`"));
        }
        _ => panic!("expected a failure"),
    }
    // An event that is not awaited changes nothing.
    assert!(matches!(
        daemon(None, HostOs::Linux, DaemonStage::CheckCli, no(), 0),
        DaemonStep::Next(DaemonStage::CheckCli)
    ));
}

#[test]
fn health_is_probed_a_bounded_number_of_times() {
    let m = manager();
    assert!(matches!(m.wait_healthy(2, 0, None), HealthStep::Probe { attempt: 1 }));
    assert!(matches!(m.wait_healthy(2, 1, Some(503)), HealthStep::Probe { attempt: 2 }));
    assert!(matches!(m.wait_healthy(2, 2, Some(200)), HealthStep::Done(Ok(()))));
    match m.wait_healthy(2, 2, None) {
        HealthStep::Done(Err(e)) => assert_eq!(
            e.message(),
            "service not reachable at http://localhost:9000 after 2 attempts"
        ),
        _ => panic!("expected a failure"),
    }
    assert!(matches!(
        m.wait_healthy(0, 0, Some(200)),
        HealthStep::Done(Err(AntibotError::HealthCheckFailed { attempts: 0, .. }))
    ));
    assert!(is_healthy(Some(200)));
    assert!(is_healthy(Some(299)));
    assert!(!is_healthy(Some(199)));
    assert!(!is_healthy(Some(300)));
    assert!(!is_healthy(None));
}

#[test]
fn building_brings_everything_up_in_order() {
    let b: AntibotBuilder = Antibot::builder(HostOs::Linux)
        .auto_start(true)
        .port(9000)
        .health_check_attempts(0);
    assert!(matches!(b.begin(), BuildStep::Next(BuildStage::DockerProbe)));
    assert!(matches!(
        b.advance(BuildStage::DockerProbe, BuildEvent::DockerProbed { available: false }, at(0)),
        BuildStep::Failed(AntibotError::DockerNotAvailable)
    ));
    assert!(matches!(
        b.advance(BuildStage::DockerProbe, BuildEvent::DockerProbed { available: true }, at(0)),
        BuildStep::Next(BuildStage::Start(StartPhase::CheckExists))
    ));
    assert!(matches!(
        b.advance(BuildStage::Start(StartPhase::Create), BuildEvent::Command(out(true, "", "")), at(0)),
        BuildStep::Next(BuildStage::Health { attempt: 1 })
    ));
    assert!(matches!(
        b.advance(BuildStage::Start(StartPhase::Create), BuildEvent::Command(out(false, "", "e")), at(0)),
        BuildStep::Failed(AntibotError::StartFailed(_))
    ));
    assert!(matches!(
        b.advance(BuildStage::Health { attempt: 1 }, BuildEvent::HealthProbed { status: Some(200) }, at(0)),
        BuildStep::Ready
    ));
    assert!(matches!(
        b.advance(BuildStage::Health { attempt: 1 }, BuildEvent::HealthProbed { status: None }, at(0)),
        BuildStep::Failed(AntibotError::HealthCheckFailed { attempts: 1, .. })
    ));
    let patient = Antibot::builder(HostOs::Linux).auto_start(true);
    assert!(matches!(
        patient.advance(BuildStage::Health { attempt: 1 }, BuildEvent::HealthProbed { status: None }, at(0)),
        BuildStep::Pause { stage: BuildStage::Health { attempt: 2 }, .. }
    ));
}

#[test]
fn building_may_start_the_daemon() {
    let b = Antibot::builder(HostOs::MacOs)
        .auto_start(true)
        .docker_daemon_start_command("colima", vec!["start".to_string()])
        .daemon_start_timeout(Duration::from_secs(9));
    assert!(matches!(b.begin(), BuildStep::Next(BuildStage::Daemon(DaemonStage::FirstProbe))));
    assert!(matches!(
        b.advance(
            BuildStage::Daemon(DaemonStage::FirstProbe),
            BuildEvent::Daemon(DaemonEvent::Probed { available: true }),
            at(0)
        ),
        BuildStep::Next(BuildStage::Start(StartPhase::CheckExists))
    ));
    match b.advance(
        BuildStage::Daemon(DaemonStage::CheckCli),
        BuildEvent::Daemon(DaemonEvent::CliChecked { present: true }),
        at(0),
    ) {
        BuildStep::Next(BuildStage::Daemon(DaemonStage::Launch { program, .. })) => {
            assert_eq!(program, "colima");
        }
        _ => panic!("expected a launch"),
    }
    let waiting = || BuildStage::Daemon(DaemonStage::Waiting { started: at(0), last_heartbeat: at(0) });
    let no = || BuildEvent::Daemon(DaemonEvent::Probed { available: false });
    assert!(matches!(b.advance(waiting(), no(), at(8)), BuildStep::Pause { .. }));
    assert!(matches!(
        b.advance(waiting(), no(), at(9)),
        BuildStep::Failed(AntibotError::DaemonStartFailed(_))
    ));
}

#[test]
fn a_client_without_a_container_runs_nothing() {
    let b = Antibot::builder(HostOs::Linux)
        .start_docker_daemon(true)
        .add_instance("http://other:8191//")
        .manage_lifecycle(true);
    assert!(matches!(b.begin(), BuildStep::Ready));
    let (mut client, watch) = b.build(SystemTime { unix_nanos: 0 });
    assert!(watch.is_none());
    assert!(client.docker_manager().is_none());
    assert!(!client.is_byparr());
    assert!(client.shutdown().is_none());
    assert_eq!(client.instance_count(), 2);
    assert_eq!(client.instance_url(0), "http://localhost:8191");
    assert_eq!(client.instance_url(1), "http://other:8191");

    let (started, _) = Antibot::builder(HostOs::Linux)
        .auto_start(true)
        .provider(Provider::Byparr)
        .container_name("mine")
        .docker_limits(DockerLimits::default().memory("1g"))
        .build(SystemTime { unix_nanos: 0 });
    assert!(started.is_byparr());
    let m = started.docker_manager().unwrap();
    assert_eq!(m.container_name(), "mine");
    assert_eq!(m.limits.memory.as_deref(), Some("1g"));
}
