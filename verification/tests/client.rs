//! The client, run against a provider that answers from memory.

use antibot_rs::client::{AvailabilityStep, SolveJob, SolveStep, Start, WatchAction, WatchEvent};
use antibot_rs::coalesce::CallStep;
use antibot_rs::debug_replay::Artifacts;
use antibot_rs::exchange::{post_v1, read_solution, Exchange, Reply};
use antibot_rs::session::session_destroyed;
use antibot_rs::time::{Duration, Instant, SystemTime};
use antibot_rs::types::{ApiResponse, WireSolution};
use antibot_rs::{
    Antibot, AntibotError, BrowserFingerprint, CoalesceKey, Cookie, DebugConfig, HostOs, Provider,
    ProxyConfig, RetryPolicy, Solution, SolutionSource, SolveRequest,
};

const SEC: u128 = 1_000_000_000;

fn at(secs: u128) -> Instant {
    Instant { nanos: secs * SEC }
}

fn wall(secs: i128) -> SystemTime {
    SystemTime { unix_nanos: secs * SEC as i128 }
}

fn ok_solution(url: &str) -> Reply {
    Reply::Answered(ApiResponse {
        status: "ok".to_string(),
        message: String::new(),
        solution: Some(WireSolution {
            url: url.to_string(),
            status: 200,
            cookies: vec![Cookie::new("cf_clearance", "abc123")
                .with_domain("example.com")
                .with_path("/")
                .with_expires(wall(-1))
                .with_secure(true)],
            user_agent: "Mozilla/5.0 (X11; Linux x86_64) Chrome/120".to_string(),
            response: Some("<html>solved</html>".to_string()),
        }),
        session: None,
    })
}

/// A provider that answers from memory, and remembers what it was sent.
struct Server {
    base: String,
    hits: Vec<(String, String)>,
    /// Replies that come before the usual one, first one first.
    first: Vec<Reply>,
    usual: String,
}

impl Server {
    fn new(url: &str) -> Server {
        Server {
            base: "http://localhost:9999".to_string(),
            hits: Vec::new(),
            first: Vec::new(),
            usual: url.to_string(),
        }
    }

    fn answer(&mut self, e: &Exchange) -> Reply {
        assert!(e.url.ends_with("/v1"));
        self.hits.push((e.wire.cmd.clone(), e.url.clone()));
        if self.first.is_empty() {
            ok_solution(&self.usual)
        } else {
            self.first.remove(0)
        }
    }
}

/// Runs a solve that leads, or stands alone, to its end.
fn run_job(
    client: &mut Antibot,
    job: &SolveJob,
    server: &mut Server,
    now: Instant,
) -> (Result<Solution, AntibotError>, Option<Artifacts>) {
    let mut step = client.execute_uncoalesced();
    loop {
        step = match step {
            SolveStep::Dispatch { attempt } => {
                let d = client.dispatch(job);
                assert!(client.take_permit(d.instance));
                let reply = server.answer(&d.exchange);
                client.release(d.instance, true);
                let outcome = read_solution(&job.request.url, reply, wall(5_000));
                client.after_attempt(job, attempt, outcome, 7, now, wall(5_000))
            }
            SolveStep::Backoff { attempt } => client.after_backoff(attempt),
            SolveStep::Done { outcome, artifacts } => {
                client.settle(job, &outcome);
                return (outcome, artifacts);
            }
        };
    }
}

fn run(
    client: &mut Antibot,
    start: Start,
    server: &mut Server,
    now: Instant,
) -> Result<Solution, AntibotError> {
    match start {
        Start::Done(r) => r,
        Start::Run(job) => {
            if let Some(id) = job.call {
                assert!(matches!(client.solve_or_wait(id, wall(5_000)), CallStep::Lead));
            }
            run_job(client, &job, server, now).0
        }
    }
}

fn solve(client: &mut Antibot, url: &str, server: &mut Server, secs: u128) -> Result<Solution, AntibotError> {
    let start = client.solve(url, at(secs));
    run(client, start, server, at(secs))
}

fn execute(client: &mut Antibot, request: SolveRequest, server: &mut Server) -> Result<Solution, AntibotError> {
    let start = client.execute(request, at(1));
    run(client, start, server, at(1))
}

fn job_of(start: Start) -> SolveJob {
    match start {
        Start::Run(job) => job,
        Start::Done(_) => panic!("answered already"),
    }
}

fn cached_client() -> Antibot {
    Antibot::builder(HostOs::Linux)
        .port(9999)
        .enable_session_cache()
        .build(wall(0))
        .0
}

fn retrying(max_attempts: u32) -> Antibot {
    Antibot::builder(HostOs::Linux)
        .port(9999)
        .retry(RetryPolicy {
            max_attempts,
            initial_delay: Duration::from_millis(10),
            max_delay: Duration::from_millis(50),
            jitter: false,
        })
        .build(wall(0))
        .0
}

#[test]
fn execute_get_round_trips() {
    let mut server = Server::new("https://example.com");
    let mut client = Antibot::connect(&server.base.clone());
    let solution = solve(&mut client, "https://example.com", &mut server, 1).unwrap();

    assert_eq!(server.hits.len(), 1);
    assert_eq!(server.hits[0].0, "request.get");
    assert_eq!(server.hits[0].1, "http://localhost:9999/v1");
    assert_eq!(solution.status, 200);
    assert_eq!(solution.cookies.len(), 1);
    assert_eq!(solution.cookies[0].name, "cf_clearance");
    assert_eq!(solution.html(), "<html>solved</html>");
    assert_eq!(solution.source, SolutionSource::Fresh);
}

#[test]
fn post_with_json_body() {
    let mut server = Server::new("https://site.com/api/login");
    let mut client = Antibot::connect(&server.base.clone());
    let req = SolveRequest::post("https://site.com/api/login")
        .json(serde_json::from_str("{\"user\": \"alice\"}").unwrap())
        .with_header("X-Test", "value")
        .with_cookie(Cookie::new("session", "abc"));
    let job = job_of(client.execute(req, at(1)));
    let d = client.dispatch(&job);
    assert_eq!(d.exchange.wire.cmd, "request.post");
    assert_eq!(d.exchange.wire.url.as_deref(), Some("https://site.com/api/login"));
    assert_eq!(d.exchange.wire.post_data.as_deref(), Some("{\"user\":\"alice\"}"));
    let headers = d.exchange.wire.headers.as_ref().unwrap();
    assert_eq!(headers.get("X-Test"), Some("value"));
    assert_eq!(headers.get("Content-Type"), Some("application/json"));
    client.release(d.instance, false);
    let result = run_job(&mut client, &job, &mut server, at(1)).0;
    assert!(result.is_ok(), "post failed: {:?}", result);
}

#[test]
fn session_cache_hits_skip_provider_after_first_solve() {
    let mut server = Server::new("https://walmart.com");
    let mut client = cached_client();

    let first = solve(&mut client, "https://walmart.com", &mut server, 10).unwrap();
    assert_eq!(first.source, SolutionSource::Fresh);

    let second = solve(&mut client, "https://walmart.com", &mut server, 13).unwrap();
    assert!(matches!(second.source, SolutionSource::Cached { .. }));
    assert_eq!(second.source, SolutionSource::Cached { age: Duration::from_secs(3) });
    assert_eq!(second.cookies[0].value, "abc123");
    assert_eq!(second.user_agent, first.user_agent);
    assert_eq!(second.status, 200);
    assert_eq!(second.solved_at, wall(5_000));
    assert!(second.response.is_none());
    assert_eq!(second.html(), "");
    assert_eq!(server.hits.len(), 1);
    assert_eq!(client.session_cache_size(), 1);
}

#[test]
fn retry_recovers_after_transient_failure() {
    let mut server = Server::new("https://x.com");
    for _ in 0..2 {
        server.first.push(Reply::Refused { status: 503, body: "upstream down".to_string() });
    }
    let mut client = retrying(4);

    let solution = solve(&mut client, "https://x.com", &mut server, 1).unwrap();
    assert_eq!(solution.status, 200);

    let m = client.metrics();
    assert!(m.retries >= 2, "expected retries >= 2, got {}", m.retries);
    assert_eq!(m.solves_succeeded, 1);
    assert_eq!(m.solves_attempted, 3);
    assert_eq!(m.solves_failed, 2);
    assert_eq!(m.retries, 2);
    assert_eq!((m.success_rate.numerator, m.success_rate.denominator), (1, 3));
    assert_eq!((m.avg_solve_time_ms.numerator, m.avg_solve_time_ms.denominator), (7, 1));
}

#[test]
fn metrics_tracks_attempts_and_cache_hits() {
    let mut server = Server::new("https://m.com");
    let mut client = cached_client();

    let _ = solve(&mut client, "https://m.com", &mut server, 1).unwrap();
    let _ = solve(&mut client, "https://m.com", &mut server, 2).unwrap();

    let m = client.metrics();
    assert_eq!(m.solves_attempted, 1, "second call should hit cache");
    assert_eq!(m.cache_hits, 1);
}

#[test]
fn debug_sink_writes_html_and_metadata() {
    let mut server = Server::new("https://d.com/page");
    let mut client = Antibot::builder(HostOs::Linux)
        .port(9999)
        .debug(DebugConfig::new("dumps"))
        .build(wall(1_700_000_000))
        .0;
    assert_eq!(client.debug_directory(), Some("dumps"));

    let job = job_of(client.solve("https://d.com/page", at(1)));
    let (outcome, artifacts) = run_job(&mut client, &job, &mut server, at(1));
    assert!(outcome.is_ok());
    let artifacts = artifacts.unwrap();
    let (html_name, html) = artifacts.html.unwrap();
    assert!(html_name.ends_with(".html"), "expected an .html dump");
    assert_eq!(html_name, "1700000000000_000000_https___d_com_page.html");
    assert_eq!(html, "<html>solved</html>");
    let (json_name, meta) = artifacts.metadata.unwrap();
    assert!(json_name.ends_with(".json"), "expected a .json metadata file");
    assert_eq!(meta.url, "https://d.com/page");
    assert_eq!(meta.source, "fresh");
    assert_eq!(meta.solved_at, 5_000);
    assert_eq!(meta.cookies.len(), 1);
    assert_eq!(meta.cookies[0].domain, "example.com");

    // The next page of the run has another name.
    let job = job_of(client.solve("https://d.com/page", at(2)));
    let (_, artifacts) = run_job(&mut client, &job, &mut server, at(2));
    assert_eq!(
        artifacts.unwrap().html.unwrap().0,
        "1700000000000_000001_https___d_com_page.html"
    );
}

#[test]
fn coalescer_dedupes_concurrent_solves() {
    let mut server = Server::new("https://c.com");
    let mut client = Antibot::builder(HostOs::Linux)
        .port(9999)
        .coalesce_solves(CoalesceKey::Domain)
        .build(wall(0))
        .0;

    let mut jobs = Vec::new();
    for _ in 0..8 {
        jobs.push(job_of(client.solve_fresh("https://c.com/page", at(1))));
    }
    let mut leaders = 0;
    for job in &jobs {
        match client.solve_or_wait(job.call.unwrap(), wall(0)) {
            CallStep::Lead => leaders += 1,
            CallStep::Wait => {}
            CallStep::Done(_) => panic!("nothing is solved yet"),
        }
    }
    assert_eq!(leaders, 1);
    let (lead, _) = run_job(&mut client, &jobs[0], &mut server, at(1));
    assert_eq!(lead.unwrap().source, SolutionSource::Fresh);
    for job in &jobs[1..] {
        match client.solve_or_wait(job.call.unwrap(), wall(5_004)) {
            CallStep::Done(r) => {
                assert!(r.is_ok(), "{:?}", r);
                let s = r.unwrap();
                assert_eq!(s.source, SolutionSource::Cached { age: Duration::from_secs(4) });
                assert_eq!(s.html(), "<html>solved</html>");
            }
            _ => panic!("the leader has finished"),
        }
    }
    assert_eq!(server.hits.len(), 1);
    assert_eq!(client.metrics().coalesced_waits, 7);
}

#[test]
fn coalescer_recovers_when_leader_is_cancelled() {
    let mut server = Server::new("https://cancel.com");
    let mut client = Antibot::builder(HostOs::Linux)
        .port(9999)
        .coalesce_solves(CoalesceKey::Domain)
        .build(wall(0))
        .0;

    let leader = job_of(client.solve("https://cancel.com/a", at(1)));
    let waiter = job_of(client.solve("https://cancel.com/w", at(1)));
    assert!(matches!(client.solve_or_wait(leader.call.unwrap(), wall(0)), CallStep::Lead));
    assert!(matches!(client.solve_or_wait(waiter.call.unwrap(), wall(0)), CallStep::Wait));
    // Cancel the leader mid-solve; its entry must be cleaned up.
    client.cancel(leader.call.unwrap());

    // The waiter takes over instead of waiting for ever, and its wait is counted once.
    assert!(matches!(client.solve_or_wait(waiter.call.unwrap(), wall(0)), CallStep::Lead));
    let (r, _) = run_job(&mut client, &waiter, &mut server, at(2));
    assert_eq!(r.unwrap().status, 200);
    assert_eq!(client.metrics().coalesced_waits, 1);

    // A follow-up solve must not hang on the dead leader's entry.
    let second = solve(&mut client, "https://cancel.com/b", &mut server, 3).unwrap();
    assert_eq!(second.status, 200);
}

#[test]
fn a_failed_leader_fails_its_waiters() {
    let mut server = Server::new("https://f.com");
    server.first.push(Reply::Refused { status: 404, body: "gone".to_string() });
    let mut client = Antibot::builder(HostOs::Linux)
        .port(9999)
        .coalesce_solves(CoalesceKey::Url)
        .build(wall(0))
        .0;
    let leader = job_of(client.solve("https://f.com/a", at(1)));
    let waiter = job_of(client.solve("https://f.com/a", at(1)));
    // Another URL is another key.
    let other = job_of(client.solve("https://f.com/b", at(1)));
    assert!(matches!(client.solve_or_wait(other.call.unwrap(), wall(0)), CallStep::Lead));
    let (r, _) = run_job(&mut client, &leader, &mut server, at(1));
    assert!(matches!(r, Err(AntibotError::ProviderHttp { status: 404, .. })));
    match client.solve_or_wait(waiter.call.unwrap(), wall(0)) {
        CallStep::Done(Err(AntibotError::CoalescedFailure(m))) => {
            assert_eq!(m, "provider returned HTTP 404: gone");
        }
        _ => panic!("expected a coalesced failure"),
    }
}

#[test]
fn posts_are_never_coalesced() {
    let mut server = Server::new("https://p.com/submit");
    let mut client = Antibot::builder(HostOs::Linux)
        .port(9999)
        .coalesce_solves(CoalesceKey::Url)
        .build(wall(0))
        .0;

    // Two concurrent POSTs to the same URL must both reach the provider.
    let a = job_of(client.execute(SolveRequest::post("https://p.com/submit").form(&[("k", "1")]), at(1)));
    let b = job_of(client.execute(SolveRequest::post("https://p.com/submit").form(&[("k", "2")]), at(1)));
    assert!(a.call.is_none());
    assert!(b.call.is_none());
    let (ra, _) = run_job(&mut client, &a, &mut server, at(1));
    let (rb, _) = run_job(&mut client, &b, &mut server, at(1));
    assert!(ra.is_ok(), "{:?}", ra);
    assert!(rb.is_ok(), "{:?}", rb);
    assert_eq!(server.hits.len(), 2);
    assert!(server.hits.iter().all(|h| h.0 == "request.post"));
}

#[test]
fn connect_many_rejects_empty_list() {
    assert!(Antibot::connect_many(Vec::new()).is_err());
    match Antibot::connect_many_with(Vec::new(), Provider::Byparr) {
        Err(AntibotError::InvalidConfig(m)) => assert_eq!(m, "connect_many: empty instance list"),
        _ => panic!("expected InvalidConfig"),
    }
}

#[test]
fn byparr_post_is_rejected_without_hitting_provider() {
    let mut server = Server::new("https://b.com");
    let mut client = Antibot::connect_with(&server.base.clone(), Provider::Byparr);
    let err = execute(
        &mut client,
        SolveRequest::post("https://b.com/login").form(&[("u", "x")]),
        &mut server,
    )
    .unwrap_err();
    assert!(
        matches!(err, AntibotError::UnsupportedFeature { .. }),
        "expected UnsupportedFeature, got {:?}",
        err
    );
    assert_eq!(err.message(), "Byparr does not support POST requests");
    assert!(server.hits.is_empty());

    // A GET against the same Byparr-hinted client still works.
    assert!(solve(&mut client, "https://b.com", &mut server, 1).is_ok());
}

#[test]
fn solve_fresh_writes_through_to_cache() {
    let mut server = Server::new("https://wt.com");
    let mut client = cached_client();

    // Seed the cache, force a fresh solve, then confirm the *fresh* result
    // was cached (third call must not reach the provider).
    let _ = solve(&mut client, "https://wt.com", &mut server, 1).unwrap();
    let start = client.solve_fresh("https://wt.com", at(100));
    let fresh = run(&mut client, start, &mut server, at(100)).unwrap();
    assert_eq!(fresh.source, SolutionSource::Fresh);

    let third = solve(&mut client, "https://wt.com", &mut server, 101).unwrap();
    assert!(matches!(third.source, SolutionSource::Cached { .. }));
    assert_eq!(third.source, SolutionSource::Cached { age: Duration::from_secs(1) });
    assert_eq!(client.metrics().solves_attempted, 2);
    assert_eq!(server.hits.len(), 2);
}

#[test]
fn provider_4xx_is_not_retried() {
    let mut server = Server::new("https://bad.com");
    server.first.push(Reply::Refused { status: 400, body: "bad request".to_string() });
    let mut client = retrying(4);

    let err = solve(&mut client, "https://bad.com", &mut server, 1).unwrap_err();
    assert!(
        matches!(err, AntibotError::ProviderHttp { status: 400, .. }),
        "expected ProviderHttp 400, got {:?}",
        err
    );
    assert_eq!(
        client.metrics().solves_attempted,
        1,
        "deterministic 4xx must not be retried"
    );
}

#[test]
fn cache_is_shared_across_subdomains() {
    let mut server = Server::new("https://www.sd.com");
    let mut client = cached_client();

    let first = solve(&mut client, "https://www.sd.com/page", &mut server, 1).unwrap();
    assert_eq!(first.source, SolutionSource::Fresh);

    // Same registrable domain, different subdomain → cache hit.
    let second = solve(&mut client, "https://sd.com/other", &mut server, 2).unwrap();
    assert!(matches!(second.source, SolutionSource::Cached { .. }));
    assert_eq!(second.url, "https://sd.com/other");
    assert_eq!(server.hits.len(), 1);
}

#[test]
fn return_only_cookies_sends_flag_and_yields_no_html() {
    let mut client = Antibot::connect("http://localhost:9999");
    let job = job_of(client.execute(SolveRequest::get("https://roc.com").return_only_cookies(), at(1)));
    let d = client.dispatch(&job);
    assert!(d.exchange.wire.return_only_cookies);
    client.release(d.instance, false);
    let reply = Reply::Answered(ApiResponse {
        status: "ok".to_string(),
        message: String::new(),
        solution: Some(WireSolution {
            url: "https://roc.com".to_string(),
            status: 200,
            cookies: vec![Cookie::new("cf_clearance", "xyz")],
            user_agent: "Mozilla/5.0".to_string(),
            response: None,
        }),
        session: None,
    });
    let solution = read_solution("https://roc.com", reply, wall(0)).unwrap();
    assert!(solution.response.is_none());
    assert_eq!(solution.cookies.len(), 1);
}

#[test]
fn requests_spread_across_instances() {
    // Two separate instances; concurrent load should reach both, not pile onto one.
    let mut client =
        Antibot::connect_many(vec!["http://a:1/".to_string(), "http://b:2".to_string()]).unwrap();
    let mut hits = [0, 0];
    let mut leases = Vec::new();
    for i in 0..6 {
        let job = job_of(client.solve(&format!("https://spread.com/{}", i), at(1)));
        let d = client.dispatch(&job);
        assert_eq!(d.exchange.url, ["http://a:1/v1", "http://b:2/v1"][d.instance]);
        hits[d.instance] += 1;
        leases.push(d.instance);
    }
    assert_eq!(hits, [3, 3]);
    // An instance that has become idle takes the next one.
    for i in leases.iter().filter(|i| **i == 1) {
        client.release(*i, false);
    }
    let job = job_of(client.solve("https://spread.com/x", at(1)));
    assert_eq!(client.dispatch(&job).instance, 1);
}

#[test]
fn per_instance_cap_serializes_concurrent_solves() {
    let mut client = Antibot::builder(HostOs::Linux)
        .port(9999)
        .max_inflight_per_instance(1)
        .build(wall(0))
        .0;
    let job = job_of(client.solve("https://cap.com/0", at(1)));
    let a = client.dispatch(&job).instance;
    let b = client.dispatch(&job).instance;
    assert!(client.take_permit(a));
    // The second must wait until the first is over.
    assert!(!client.take_permit(b));
    assert!(!client.take_permit(b));
    client.release(a, true);
    assert!(client.take_permit(b));
    // One that gives up waiting frees nothing.
    let c = client.dispatch(&job).instance;
    client.release(c, false);
    let d = client.dispatch(&job).instance;
    assert!(!client.take_permit(d));
    client.release(b, true);
    assert!(client.take_permit(d));
}

#[test]
fn private_requests_bypass_cache_and_coalescer() {
    let mut server = Server::new("https://priv.com");
    let mut client = Antibot::builder(HostOs::Linux)
        .port(9999)
        .enable_session_cache()
        .coalesce_solves(CoalesceKey::Domain)
        .build(wall(0))
        .0;
    let url = "https://priv.com/";
    let private = vec![
        SolveRequest::post(url),
        SolveRequest::get(url).with_session("s"),
        SolveRequest::get(url).with_cookie(Cookie::new("a", "b")),
        SolveRequest::get(url).with_proxy(ProxyConfig::http("http://p:1")),
        SolveRequest::get(url).with_fingerprint(BrowserFingerprint::default()),
    ];
    for request in private {
        let job = job_of(client.execute(request, at(1)));
        assert!(job.call.is_none());
        assert!(!job.cache_write);
        assert!(run_job(&mut client, &job, &mut server, at(1)).0.is_ok());
    }
    assert_eq!(client.session_cache_size(), 0);
    assert_eq!(server.hits.len(), 5);
    // Headers of its own do not make a request private.
    let job = job_of(client.execute(SolveRequest::get(url).with_header("a", "b"), at(1)));
    assert!(job.cache_write);
    assert!(job.call.is_some());
}

#[test]
fn execution_with_keys_at_hand() {
    let mut client = Antibot::builder(HostOs::Linux)
        .enable_session_cache()
        .coalesce_solves(CoalesceKey::Domain)
        .build(wall(0))
        .0;
    let start = client.execute_inner(
        SolveRequest::get("u"),
        None,
        Some("d".to_string()),
        Some("k".to_string()),
        at(1),
    );
    let job = job_of(start);
    assert_eq!(job.domain.as_deref(), Some("d"));
    assert!(job.call.is_some());
    let without_key = client.execute_inner(SolveRequest::get("u"), None, None, None, at(1));
    assert!(job_of(without_key).call.is_none());
    let pinned = client.execute_inner(
        SolveRequest::get("u"),
        Some("http://x"),
        Some("d".to_string()),
        Some("k".to_string()),
        at(1),
    );
    let job = job_of(pinned);
    assert!(!job.cache_write);
    assert_eq!(job.pinned.as_deref(), Some("http://x"));
}

#[test]
fn the_default_proxy_is_used_and_keeps_a_request_shareable() {
    let mut client = Antibot::builder(HostOs::Linux)
        .default_proxy(ProxyConfig::http("http://proxy:8080").with_auth("u", "p"))
        .enable_session_cache()
        .build(wall(0))
        .0;
    let job = job_of(client.solve("https://a.com", at(1)));
    assert!(job.cache_write);
    let proxy = job.request.proxy.as_ref().unwrap();
    assert_eq!(proxy.url, "http://proxy:8080");
    assert_eq!(proxy.username.as_deref(), Some("u"));
    let own = job_of(client.execute(
        SolveRequest::get("https://a.com").with_proxy(ProxyConfig::new("socks5://o")),
        at(1),
    ));
    assert_eq!(own.request.proxy.unwrap().url, "socks5://o");
    assert!(!own.cache_write);
}

#[test]
fn the_exchange_outlasts_the_solver() {
    let mut client = Antibot::builder(HostOs::Linux).max_timeout_ms(90_500).build(wall(0)).0;
    let job = job_of(client.solve("https://a.com", at(1)));
    let d = client.dispatch(&job);
    assert_eq!(d.exchange.wire.max_timeout, 90_500);
    assert_eq!(d.exchange.wire.max_timeout_secs, 91);
    assert_eq!(d.exchange.timeout, Duration::from_millis(120_500));
    assert_eq!(d.exchange.url, "http://localhost:8191/v1");
    let job = job_of(client.execute(SolveRequest::get("https://a.com").with_timeout_ms(1_000), at(1)));
    assert_eq!(client.dispatch(&job).exchange.timeout, Duration::from_millis(31_000));
}

#[test]
fn replies_become_outcomes() {
    let refused = Reply::Refused { status: 502, body: "é".repeat(300) };
    match post_v1(refused) {
        Err(AntibotError::ProviderHttp { status: 502, body }) => assert_eq!(body, "é".repeat(250)),
        _ => panic!("expected ProviderHttp"),
    }
    let mut odd = "a".repeat(499);
    odd.push('é');
    match post_v1(Reply::Refused { status: 500, body: odd }) {
        Err(AntibotError::ProviderHttp { body, .. }) => assert_eq!(body, "a".repeat(499)),
        _ => panic!("expected ProviderHttp"),
    }
    match read_solution("u", Reply::Failed("timed out".to_string()), wall(0)) {
        Err(e) => assert_eq!(e.message(), "HTTP error: timed out"),
        Ok(_) => panic!("expected an error"),
    }
    let failed = Reply::Answered(ApiResponse {
        status: "error".to_string(),
        message: "captcha".to_string(),
        solution: None,
        session: None,
    });
    match read_solution("https://u", failed, wall(0)) {
        Err(AntibotError::ChallengeFailed { url, reason }) => {
            assert_eq!(url, "https://u");
            assert_eq!(reason, "captcha");
        }
        _ => panic!("expected ChallengeFailed"),
    }
    let empty = Reply::Answered(ApiResponse {
        status: "ok".to_string(),
        message: String::new(),
        solution: None,
        session: None,
    });
    match read_solution("u", empty, wall(0)) {
        Err(AntibotError::UnexpectedResponse(m)) => {
            assert_eq!(m, "status ok but no solution returned");
        }
        _ => panic!("expected UnexpectedResponse"),
    }
}

#[test]
fn retries_run_out() {
    let mut server = Server::new("https://r.com");
    for _ in 0..5 {
        server.first.push(Reply::Failed("reset".to_string()));
    }
    let mut client = retrying(3);
    let err = solve(&mut client, "https://r.com", &mut server, 1).unwrap_err();
    assert!(matches!(err, AntibotError::Http(_)));
    assert_eq!(server.hits.len(), 3);
    let m = client.metrics();
    assert_eq!((m.solves_attempted, m.solves_failed, m.retries), (3, 3, 2));

    // A policy of no attempts at all sends nothing.
    let mut none = retrying(0);
    let err = solve(&mut none, "https://r.com", &mut server, 1).unwrap_err();
    assert_eq!(err.message(), "unexpected response: retry loop exited without result");
    assert_eq!(server.hits.len(), 3);
    assert_eq!(none.metrics().solves_attempted, 0);
}

#[test]
fn compatibility_warnings_come_once() {
    let mut client = Antibot::connect_with("http://x", Provider::FlareSolverr);
    let plain = job_of(client.solve("https://a.com", at(1)));
    assert!(client.dispatch(&plain).warning.is_none());
    let odd = job_of(client.execute(
        SolveRequest::post("https://a.com")
            .raw_body("text/plain", "x")
            .with_header("a", "b")
            .with_fingerprint(BrowserFingerprint::default().locale("en")),
        at(1),
    ));
    assert_eq!(
        client.dispatch(&odd).warning.as_deref(),
        Some(
            "FlareSolverr does not support: custom headers, non-form POST bodies, browser \
             fingerprints — these request fields will be ignored by the server (warning logged \
             once)"
        )
    );
    assert!(client.dispatch(&odd).warning.is_none());

    let mut byparr = Antibot::connect_with("http://x", Provider::Byparr);
    let request = SolveRequest::get("https://a.com")
        .with_cookie(Cookie::new("a", "b"))
        .with_proxy(ProxyConfig::http("p"))
        .with_session("s")
        .return_only_cookies();
    assert_eq!(
        byparr.warn_provider_compat(&request).as_deref(),
        Some(
            "Byparr does not support: pre-seeded cookies, proxies, sessions, returnOnlyCookies — \
             these request fields will be ignored by the server (warning logged once)"
        )
    );
    let mut unknown = Antibot::connect("http://x");
    assert!(unknown.warn_provider_compat(&request).is_none());
    // A form is no other body.
    let mut flare = Antibot::connect_with("http://x", Provider::FlareSolverr);
    assert!(flare.warn_provider_compat(&SolveRequest::post("u").form(&[("a", "b")])).is_none());
}

#[test]
fn sessions_are_pinned_to_their_instance() {
    let mut client =
        Antibot::connect_many(vec!["http://a".to_string(), "http://b".to_string()]).unwrap();
    let d = client.create_session().unwrap();
    assert_eq!(d.instance, 0);
    assert_eq!(d.exchange.wire.cmd, "sessions.create");
    assert_eq!(d.exchange.timeout, Duration::from_secs(90));
    let reply = Reply::Answered(ApiResponse {
        status: "ok".to_string(),
        message: String::new(),
        solution: None,
        session: Some("s1".to_string()),
    });
    let mut handle = client.session_created(d.instance, None, reply).unwrap();
    client.release(d.instance, false);
    assert_eq!(handle.id(), "s1");
    assert_eq!(handle.instance_url(), "http://a");

    for _ in 0..3 {
        let job = job_of(handle.solve(&mut client, "https://x.com", at(1)));
        assert_eq!(job.request.session_id.as_deref(), Some("s1"));
        assert!(job.request.bypass_cache);
        assert!(!job.cache_write);
        let d = client.dispatch(&job);
        assert_eq!(d.instance, 0);
        assert_eq!(d.exchange.wire.session.as_deref(), Some("s1"));
    }
    let post = handle.execute(&mut client, SolveRequest::post("https://x.com"), at(1));
    assert_eq!(job_of(post).pinned.as_deref(), Some("http://a"));

    let e = handle.destroy();
    assert_eq!(e.url, "http://a/v1");
    assert_eq!(e.wire.cmd, "sessions.destroy");
    assert_eq!(e.wire.session.as_deref(), Some("s1"));
    assert!(handle.abandon().is_none());
}

#[test]
fn session_ids_come_from_the_reply_or_the_request() {
    let answer = |session: Option<&str>, status: &str| {
        Reply::Answered(ApiResponse {
            status: status.to_string(),
            message: "m".to_string(),
            solution: None,
            session: session.map(|s| s.to_string()),
        })
    };
    let mut client = Antibot::connect("http://a");
    let d = client
        .create_session_with(Some("mine".to_string()), Some(ProxyConfig::http("p")))
        .unwrap();
    assert_eq!(d.exchange.wire.session.as_deref(), Some("mine"));
    assert_eq!(d.exchange.wire.proxy.as_ref().unwrap().url, "p");
    let mine = Some("mine".to_string());
    let mut h = client.session_created(0, mine.clone(), answer(None, "ok")).unwrap();
    assert_eq!(h.id(), "mine");
    assert_eq!(h.abandon().unwrap().url, "http://a/v1");
    assert!(h.abandon().is_none());
    assert_eq!(client.session_created(0, mine, answer(Some("theirs"), "ok")).unwrap().id(), "theirs");
    match client.session_created(0, None, answer(None, "ok")) {
        Err(e) => assert_eq!(e.message(), "unexpected response: no session id returned"),
        Ok(_) => panic!("expected an error"),
    }
    match client.session_created(0, None, answer(None, "error")) {
        Err(e) => assert_eq!(e.message(), "challenge failed for <sessions.create>: m"),
        Ok(_) => panic!("expected an error"),
    }
    assert!(session_destroyed(answer(None, "ok")).is_ok());
    match session_destroyed(answer(None, "error")) {
        Err(AntibotError::SessionNotFound(m)) => assert_eq!(m, "m"),
        _ => panic!("expected SessionNotFound"),
    }
    let d = client.destroy_session("x");
    assert_eq!(d.exchange.wire.cmd, "sessions.destroy");

    let mut byparr = Antibot::connect_with("http://a", Provider::Byparr);
    match byparr.create_session() {
        Err(e) => assert_eq!(e.message(), "Byparr does not support sessions"),
        Ok(_) => panic!("expected an error"),
    }
}

#[test]
fn invalidated_sessions_are_solved_again() {
    let mut server = Server::new("https://i.com");
    let mut client = cached_client();
    let _ = solve(&mut client, "https://i.com", &mut server, 1).unwrap();
    client.invalidate_session("i.com");
    assert_eq!(client.session_cache_size(), 0);
    let again = solve(&mut client, "https://i.com", &mut server, 2).unwrap();
    assert_eq!(again.source, SolutionSource::Fresh);
    client.clear_session_cache();
    assert_eq!(client.session_cache_size(), 0);
    assert_eq!(Antibot::connect("http://x").session_cache_size(), 0);
    assert_eq!(server.hits.len(), 2);
}

#[test]
fn availability_asks_every_instance_until_one_answers() {
    let client =
        Antibot::connect_many(vec!["http://a".to_string(), "http://b".to_string()]).unwrap();
    match client.is_available(0, None) {
        AvailabilityStep::Probe { url } => assert_eq!(url, "http://a"),
        _ => panic!("expected a probe"),
    }
    match client.is_available(1, Some(500)) {
        AvailabilityStep::Probe { url } => assert_eq!(url, "http://b"),
        _ => panic!("expected a probe"),
    }
    assert!(matches!(client.is_available(1, Some(204)), AvailabilityStep::Done { available: true }));
    assert!(matches!(client.is_available(2, None), AvailabilityStep::Done { available: false }));
}

#[test]
fn the_watchdog_restarts_a_container_that_does_not_answer() {
    let (mut client, interval) = Antibot::builder(HostOs::Linux)
        .auto_start(true)
        .port(7000)
        .health_check_attempts(4)
        .health_watch(Duration::from_millis(10))
        .manage_lifecycle(true)
        .build(wall(0));
    assert_eq!(interval, Some(Duration::from_secs(1)));
    assert!(matches!(client.watch(WatchEvent::Begin), WatchAction::Sleep));
    match client.watch(WatchEvent::Slept) {
        WatchAction::Probe { url } => assert_eq!(url, "http://localhost:7000"),
        _ => panic!("expected a probe"),
    }
    assert!(matches!(client.watch(WatchEvent::Probed { status: Some(200) }), WatchAction::Sleep));
    assert!(matches!(client.watch(WatchEvent::Probed { status: Some(500) }), WatchAction::Restart));
    assert!(matches!(client.watch(WatchEvent::Probed { status: None }), WatchAction::Restart));
    assert_eq!(client.metrics().container_restarts, 2);
    assert!(matches!(client.watch(WatchEvent::Restarted { ok: false }), WatchAction::Sleep));
    assert!(matches!(
        client.watch(WatchEvent::Restarted { ok: true }),
        WatchAction::WaitHealthy { max_attempts: 4 }
    ));
    assert!(matches!(client.watch(WatchEvent::Recovered), WatchAction::Sleep));

    assert_eq!(client.shutdown().unwrap().container_name(), "antibot-solver");
    // From here on the watchdog stops at every turn, even with a failed probe in its hands.
    assert!(matches!(client.watch(WatchEvent::Begin), WatchAction::Stop));
    assert!(matches!(client.watch(WatchEvent::Slept), WatchAction::Stop));
    assert!(matches!(client.watch(WatchEvent::Probed { status: None }), WatchAction::Stop));
    assert!(matches!(client.watch(WatchEvent::Restarted { ok: true }), WatchAction::Stop));
    assert!(matches!(client.watch(WatchEvent::Recovered), WatchAction::Stop));
    assert_eq!(client.metrics().container_restarts, 2);
    // After an explicit shutdown there is nothing left to stop.
    assert!(client.close().is_none());

    let (mut dropped, _) = Antibot::builder(HostOs::Linux)
        .auto_start(true)
        .manage_lifecycle(true)
        .build(wall(0));
    assert!(dropped.close().is_some());
    let (mut unmanaged, _) = Antibot::builder(HostOs::Linux).auto_start(true).build(wall(0));
    assert!(unmanaged.docker_manager().is_some());
    assert!(unmanaged.shutdown().is_none());
    let (mut plain, interval) =
        Antibot::builder(HostOs::Linux).health_watch(Duration::from_secs(5)).build(wall(0));
    assert!(interval.is_none());
    assert!(matches!(plain.watch(WatchEvent::Slept), WatchAction::Stop));
}
