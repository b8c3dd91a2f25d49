//! Cookies, solutions, errors, metrics, names and texts.

use antibot_rs::cookie::merge_cookies;
use antibot_rs::debug_replay::{slug_from_url, DebugSink};
use antibot_rs::metrics::Metrics;
use antibot_rs::text;
use antibot_rs::time::{Duration, Instant, SystemTime};
use antibot_rs::{
    AntibotError, Cookie, DebugConfig, Provider, SameSite, Solution, SolutionSource,
};

fn wall(secs: i128) -> SystemTime {
    SystemTime { unix_nanos: secs * 1_000_000_000 }
}

fn solution(cookies: Vec<Cookie>) -> Solution {
    Solution {
        url: "u".to_string(),
        status: 200,
        cookies,
        user_agent: "UA".to_string(),
        response: None,
        solved_at: wall(7),
        source: SolutionSource::Cached { age: Duration::from_secs(1) },
    }
}

#[test]
fn cookie_headers_leave_expired_cookies_out() {
    let s = solution(vec![
        Cookie::new("a", "1"),
        Cookie::new("gone", "2").with_expires(wall(50)),
        Cookie::new("session", "3").with_expires(wall(-1)),
        Cookie::new("zero", "4").with_expires(wall(0)),
        Cookie::new("ahead", "5").with_expires(wall(51)),
    ]);
    assert_eq!(s.cookie_header(wall(50)), "a=1; session=3; zero=4; ahead=5");
    assert_eq!(solution(Vec::new()).cookie_header(wall(0)), "");
    assert!(Cookie::new("a", "b").with_expires(wall(50)).is_expired(wall(50)));
    assert!(!Cookie::new("a", "b").with_expires(wall(51)).is_expired(wall(50)));
}

#[test]
fn cookies_are_built_step_by_step() {
    let c = Cookie::new("n", "v")
        .with_domain("d")
        .with_path("/p")
        .with_http_only(true)
        .with_secure(true)
        .with_same_site(SameSite::Lax);
    assert_eq!((c.name.as_str(), c.value.as_str()), ("n", "v"));
    assert_eq!((c.domain.as_str(), c.path.as_str()), ("d", "/p"));
    assert!(c.http_only && c.secure);
    assert_eq!(c.clone().same_site, Some(SameSite::Lax));
    assert!(c.expires.is_none());
}

#[test]
fn merging_matches_name_domain_and_path() {
    let cookie = |name: &str, path: &str, value: &str| {
        Cookie::new(name, value).with_domain("d").with_path(path)
    };
    let mut base = vec![cookie("a", "/", "1"), cookie("b", "/", "2")];
    merge_cookies(
        &mut base,
        vec![
            cookie("a", "/", "new"),
            cookie("a", "/api", "other"),
            cookie("c", "/", "x"),
            cookie("c", "/", "last"),
        ],
    );
    let values: Vec<String> = base.iter().map(|c| c.value.clone()).collect();
    assert_eq!(values, ["new", "2", "other", "last"]);
    merge_cookies(&mut base, Vec::new());
    assert_eq!(base.len(), 4);
}

#[test]
fn sources_tell_whether_they_are_cached() {
    assert!(!SolutionSource::Fresh.is_cached());
    assert!(SolutionSource::Cached { age: Duration::from_secs(0) }.is_cached());
}

#[test]
fn errors_describe_themselves() {
    let s = |t: &str| t.to_string();
    let cases = vec![
        (AntibotError::DockerNotAvailable, "Docker is not installed or not running"),
        (AntibotError::DaemonStartFailed(s("x")), "failed to start the Docker daemon: x"),
        (
            AntibotError::PullFailed { image: s("i"), reason: s("r") },
            "failed to pull image i: r",
        ),
        (AntibotError::StartFailed(s("x")), "failed to start container: x"),
        (
            AntibotError::HealthCheckFailed { url: s("u"), attempts: 12 },
            "service not reachable at u after 12 attempts",
        ),
        (
            AntibotError::ChallengeFailed { url: s("u"), reason: s("r") },
            "challenge failed for u: r",
        ),
        (AntibotError::Http(s("x")), "HTTP error: x"),
        (
            AntibotError::ProviderHttp { status: 503, body: s("b") },
            "provider returned HTTP 503: b",
        ),
        (AntibotError::UnexpectedResponse(s("x")), "unexpected response: x"),
        (
            AntibotError::UnsupportedFeature { provider: s("p"), feature: s("f") },
            "p does not support f",
        ),
        (AntibotError::InvalidUrl(s("x")), "invalid URL: x"),
        (AntibotError::InvalidConfig(s("x")), "invalid configuration: x"),
        (AntibotError::CoalescedFailure(s("x")), "coalesced solve failed: x"),
        (AntibotError::SessionNotFound(s("x")), "session not found: x"),
    ];
    for (e, message) in cases {
        assert_eq!(e.message(), message);
    }
}

#[test]
fn providers_have_images_and_labels() {
    let p = Provider::default();
    assert_eq!(p.image(), "ghcr.io/thephaseless/byparr:latest");
    assert_eq!(p.label(), "Byparr");
    assert_eq!(p.describe(), "Byparr (ghcr.io/thephaseless/byparr:latest)");
    assert_eq!(
        Provider::FlareSolverr.describe(),
        "FlareSolverr (ghcr.io/flaresolverr/flaresolverr:latest)"
    );
    let custom = Provider::Custom("x/y:1".to_string());
    assert_eq!(custom.clone().image(), "x/y:1");
    assert_eq!(custom.label(), "Custom");
}

#[test]
fn metrics_count_and_settle() {
    let mut m = Metrics::new();
    m.record_attempt();
    m.record_failure();
    m.record_retry();
    m.record_attempt();
    m.record_success(30);
    m.record_cache_hit();
    m.record_coalesced_wait();
    m.record_container_restart();
    let s = m.snapshot();
    assert_eq!((s.solves_attempted, s.solves_succeeded, s.solves_failed), (2, 1, 1));
    assert_eq!((s.cache_hits, s.coalesced_waits, s.retries, s.container_restarts), (1, 1, 1, 1));
    assert_eq!((s.success_rate.numerator, s.success_rate.denominator), (1, 2));
    assert_eq!((s.avg_solve_time_ms.numerator, s.avg_solve_time_ms.denominator), (30, 1));
    let empty = Metrics::new().snapshot();
    assert_eq!((empty.success_rate.numerator, empty.success_rate.denominator), (0, 1));
    assert_eq!((empty.avg_solve_time_ms.numerator, empty.avg_solve_time_ms.denominator), (0, 1));
}

#[test]
fn slugs_are_plain_and_short() {
    assert_eq!(slug_from_url("https://a.b/c?d=é"), "https___a_b_c_d__");
    assert_eq!(slug_from_url(""), "page");
    assert_eq!(slug_from_url(&"x".repeat(200)).len(), 80);
}

#[test]
fn sinks_number_their_artifacts() {
    let mut sink = DebugSink::new(DebugConfig::new("dir"), wall(2));
    sink.config.include_metadata = false;
    let a = sink.write("u", &solution(Vec::new()));
    assert!(a.html.is_none());
    assert!(a.metadata.is_none());
    sink.config.include_metadata = true;
    let b = sink.write("u", &solution(vec![Cookie::new("a", "b").with_domain("d")]));
    let (name, meta) = b.metadata.unwrap();
    assert_eq!(name, "2000_000001_u.json");
    assert_eq!(meta.source, "cached");
    assert_eq!(meta.solved_at, 7);
    assert_eq!(meta.cookies[0].domain, "d");
    sink.counter = 1_234_567;
    assert_eq!(sink.write("u", &solution(Vec::new())).metadata.unwrap().0, "2000_1234567_u.json");
    // Another run writes under other names.
    let mut other = DebugSink::new(DebugConfig::new("dir"), wall(3));
    assert_eq!(other.write("u", &solution(Vec::new())).metadata.unwrap().0, "3000_000000_u.json");
    assert_eq!(DebugSink::new(DebugConfig::new("dir"), wall(-5)).run, 0);
}

#[test]
fn texts_are_cut_and_trimmed() {
    assert_eq!(text::truncate_utf8("héllo", 2), "h");
    assert_eq!(text::truncate_utf8("héllo", 3), "hé");
    assert_eq!(text::truncate_utf8("héllo", 6), "héllo");
    assert_eq!(text::truncate_utf8("😀x", 3), "");
    assert_eq!(text::truncate_utf8("😀x", 4), "😀");
    assert_eq!(text::truncate_utf8("", 0), "");
    assert_eq!(text::trim(" \t\u{a0}a b\n\u{3000}"), "a b");
    assert_eq!(text::trim_end_slashes("http://a///"), "http://a");
    assert_eq!(text::decimal_text(0), "0");
    assert_eq!(text::decimal_text(120_345), "120345");
    assert_eq!(text::zero_padded_text(42, 6), "000042");
    assert_eq!(text::split_at_char("a|b|c", '|'), ("a".to_string(), Some("b|c".to_string())));
    assert_eq!(text::split_at_char("abc", '|'), ("abc".to_string(), None));
    assert!(text::eq_ignore_ascii_case("CloudFlare", "cloudflare"));
    assert!(text::contains("xaab", "aab"));
    assert!(text::contains("aé", "é"));
    assert!(text::contains("ab", ""));
    assert!(text::contains("", ""));
    assert!(!text::contains("ab", "abc"));
    assert!(!text::contains("a-b", "ab"));
    assert!(text::comes_before("a", "ab"));
    assert!(!text::comes_before("b", "a"));
}

#[test]
fn times_add_up() {
    let i = Instant { nanos: 5 };
    assert_eq!(i.after(Duration { nanos: 7 }), Instant { nanos: 12 });
    assert_eq!(i.after(Duration { nanos: u128::MAX }), Instant { nanos: u128::MAX });
    assert_eq!(i.since(Instant { nanos: 9 }), Duration { nanos: 0 });
    assert_eq!(wall(3).since(wall(-2)), Duration::from_secs(5));
    assert_eq!(wall(-2).since(wall(3)), Duration::from_secs(0));
    assert_eq!(wall(12).unix_secs(), 12);
    assert_eq!(wall(-12).unix_secs(), 0);
    let widest = SystemTime { unix_nanos: i128::MAX }.since(SystemTime { unix_nanos: i128::MIN });
    assert_eq!(widest.nanos, u128::MAX);
}
