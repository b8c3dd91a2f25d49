//! Coalesced calls on their own.

use antibot_rs::coalesce::{waiter_outcome, CallStep, CoalesceKey, SolveCoalescer};
use antibot_rs::metrics::Metrics;
use antibot_rs::time::{Duration, SystemTime};
use antibot_rs::{AntibotError, Cookie, Solution, SolutionSource};

fn wall(secs: i128) -> SystemTime {
    SystemTime { unix_nanos: secs * 1_000_000_000 }
}

fn solution() -> Solution {
    Solution {
        url: "u".to_string(),
        status: 200,
        cookies: vec![Cookie::new("a", "b")],
        user_agent: "UA".to_string(),
        response: Some("html".to_string()),
        solved_at: wall(100),
        source: SolutionSource::Fresh,
    }
}

#[test]
fn keys_follow_the_strategy() {
    let by_domain = SolveCoalescer::new(CoalesceKey::Domain);
    assert_eq!(by_domain.key_for("https://www.a.com/x").as_deref(), Some("a.com"));
    assert_eq!(by_domain.key_for("no url"), None);
    let by_url = SolveCoalescer::new(CoalesceKey::Url);
    assert_eq!(by_url.key_for("no url").as_deref(), Some("no url"));
}

#[test]
fn one_call_leads_and_the_rest_share_its_result() {
    let mut c = SolveCoalescer::new(CoalesceKey::Url);
    let mut m = Metrics::new();
    let lead = c.join("k".to_string(), &mut m);
    let wait = c.join("k".to_string(), &mut m);
    let other = c.join("x".to_string(), &mut m);
    assert_eq!(m.coalesced_waits, 1);
    assert!(matches!(c.solve_or_wait(lead, wall(0)), CallStep::Lead));
    assert!(matches!(c.solve_or_wait(wait, wall(0)), CallStep::Wait));
    assert!(matches!(c.solve_or_wait(other, wall(0)), CallStep::Lead));
    c.settle(lead, &Ok(solution()));
    match c.solve_or_wait(wait, wall(107)) {
        CallStep::Done(Ok(s)) => {
            assert_eq!(s.source, SolutionSource::Cached { age: Duration::from_secs(7) });
            assert_eq!(s.cookies[0].name, "a");
            assert_eq!(s.html(), "html");
        }
        _ => panic!("the leader has finished"),
    }
    assert!(matches!(c.solve_or_wait(other, wall(0)), CallStep::Lead));
    // The key is free again.
    let next = c.join("k".to_string(), &mut m);
    assert!(matches!(c.solve_or_wait(next, wall(0)), CallStep::Lead));
    assert_eq!(m.coalesced_waits, 1);
}

#[test]
fn the_first_orphan_to_ask_again_leads() {
    let mut c = SolveCoalescer::new(CoalesceKey::Url);
    let mut m = Metrics::new();
    let lead = c.join("k".to_string(), &mut m);
    let a = c.join("k".to_string(), &mut m);
    let b = c.join("k".to_string(), &mut m);
    c.cancel(lead);
    assert!(matches!(c.solve_or_wait(b, wall(0)), CallStep::Lead));
    assert!(matches!(c.solve_or_wait(a, wall(0)), CallStep::Wait));
    c.settle(b, &Err(AntibotError::DockerNotAvailable));
    match c.solve_or_wait(a, wall(0)) {
        CallStep::Done(Err(e)) => assert_eq!(
            e.message(),
            "coalesced solve failed: Docker is not installed or not running"
        ),
        _ => panic!("the leader has finished"),
    }
    assert_eq!(m.coalesced_waits, 2);
}

#[test]
fn a_waiter_that_gives_up_changes_nothing_for_the_others() {
    let mut c = SolveCoalescer::new(CoalesceKey::Url);
    let mut m = Metrics::new();
    let lead = c.join("k".to_string(), &mut m);
    let a = c.join("k".to_string(), &mut m);
    let b = c.join("k".to_string(), &mut m);
    c.cancel(a);
    assert!(matches!(c.solve_or_wait(lead, wall(0)), CallStep::Lead));
    assert!(matches!(c.solve_or_wait(b, wall(0)), CallStep::Wait));
    c.settle(lead, &Ok(solution()));
    assert!(matches!(c.solve_or_wait(b, wall(0)), CallStep::Done(Ok(_))));
}

#[test]
fn waiters_turn_the_shared_result_into_their_own() {
    match waiter_outcome(Ok(solution()), wall(50)) {
        // A clock that went backwards makes no negative age.
        Ok(s) => assert_eq!(s.source, SolutionSource::Cached { age: Duration::from_secs(0) }),
        Err(_) => panic!("expected a solution"),
    }
    match waiter_outcome(Err("boom".to_string()), wall(0)) {
        Err(AntibotError::CoalescedFailure(m)) => assert_eq!(m, "boom"),
        _ => panic!("expected a coalesced failure"),
    }
}
