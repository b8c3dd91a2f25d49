//! Counters of what a client has done.

use vstd::prelude::*;

verus! {

/// Running counters. They wrap around at the top of their range.
///
/// A client owns its counters; they are shared by sharing the client.
#[derive(Debug)]
pub struct Metrics {
    pub solves_attempted: u64,
    pub solves_succeeded: u64,
    pub solves_failed: u64,
    pub cache_hits: u64,
    pub coalesced_waits: u64,
    pub retries: u64,
    pub total_solve_time_ms: u64,
    pub container_restarts: u64,
}

/// The counters of a client that has done nothing.
pub open spec fn no_activity() -> Metrics {
    Metrics {
        solves_attempted: 0,
        solves_succeeded: 0,
        solves_failed: 0,
        cache_hits: 0,
        coalesced_waits: 0,
        retries: 0,
        total_solve_time_ms: 0,
        container_restarts: 0,
    }
}

pub open spec fn with_attempt(m: Metrics) -> Metrics {
    Metrics { solves_attempted: m.solves_attempted.wrapping_add(1), ..m }
}

pub open spec fn with_success(m: Metrics, elapsed_ms: u64) -> Metrics {
    Metrics {
        solves_succeeded: m.solves_succeeded.wrapping_add(1),
        total_solve_time_ms: m.total_solve_time_ms.wrapping_add(elapsed_ms),
        ..m
    }
}

pub open spec fn with_failure(m: Metrics) -> Metrics {
    Metrics { solves_failed: m.solves_failed.wrapping_add(1), ..m }
}

pub open spec fn with_cache_hit(m: Metrics) -> Metrics {
    Metrics { cache_hits: m.cache_hits.wrapping_add(1), ..m }
}

pub open spec fn with_coalesced_wait(m: Metrics) -> Metrics {
    Metrics { coalesced_waits: m.coalesced_waits.wrapping_add(1), ..m }
}

pub open spec fn with_retry(m: Metrics) -> Metrics {
    Metrics { retries: m.retries.wrapping_add(1), ..m }
}

pub open spec fn with_container_restart(m: Metrics) -> Metrics {
    Metrics { container_restarts: m.container_restarts.wrapping_add(1), ..m }
}

/// Attempts that have neither succeeded nor failed yet, up to wrap-around of the counters.
pub open spec fn pending_attempts(m: Metrics) -> int {
    (m.solves_attempted - m.solves_succeeded - m.solves_failed) % 0x1_0000_0000_0000_0000
}

impl Metrics {
    pub fn new() -> (m: Self)
        ensures
            m == no_activity(),
    {
        Metrics {
            solves_attempted: 0,
            solves_succeeded: 0,
            solves_failed: 0,
            cache_hits: 0,
            coalesced_waits: 0,
            retries: 0,
            total_solve_time_ms: 0,
            container_restarts: 0,
        }
    }

    pub fn record_attempt(&mut self)
        ensures
            *final(self) == with_attempt(*old(self)),
    {
        self.solves_attempted = self.solves_attempted.wrapping_add(1);
    }

    pub fn record_success(&mut self, elapsed_ms: u64)
        ensures
            *final(self) == with_success(*old(self), elapsed_ms),
    {
        self.solves_succeeded = self.solves_succeeded.wrapping_add(1);
        self.total_solve_time_ms = self.total_solve_time_ms.wrapping_add(elapsed_ms);
    }

    pub fn record_failure(&mut self)
        ensures
            *final(self) == with_failure(*old(self)),
    {
        self.solves_failed = self.solves_failed.wrapping_add(1);
    }

    pub fn record_cache_hit(&mut self)
        ensures
            *final(self) == with_cache_hit(*old(self)),
    {
        self.cache_hits = self.cache_hits.wrapping_add(1);
    }

    pub fn record_coalesced_wait(&mut self)
        ensures
            *final(self) == with_coalesced_wait(*old(self)),
    {
        self.coalesced_waits = self.coalesced_waits.wrapping_add(1);
    }

    pub fn record_retry(&mut self)
        ensures
            *final(self) == with_retry(*old(self)),
    {
        self.retries = self.retries.wrapping_add(1);
    }

    pub fn record_container_restart(&mut self)
        ensures
            *final(self) == with_container_restart(*old(self)),
    {
        self.container_restarts = self.container_restarts.wrapping_add(1);
    }

    pub fn snapshot(&self) -> (s: MetricsSnapshot)
        ensures
            s == snapshot_of(*self),
    {
        let success_rate = if self.solves_attempted == 0 {
            Ratio { numerator: 0, denominator: 1 }
        } else {
            Ratio { numerator: self.solves_succeeded, denominator: self.solves_attempted }
        };
        let avg_solve_time_ms = if self.solves_succeeded == 0 {
            Ratio { numerator: 0, denominator: 1 }
        } else {
            Ratio { numerator: self.total_solve_time_ms, denominator: self.solves_succeeded }
        };
        MetricsSnapshot {
            solves_attempted: self.solves_attempted,
            solves_succeeded: self.solves_succeeded,
            solves_failed: self.solves_failed,
            cache_hits: self.cache_hits,
            coalesced_waits: self.coalesced_waits,
            retries: self.retries,
            container_restarts: self.container_restarts,
            success_rate,
            avg_solve_time_ms,
        }
    }
}

/// A fraction; its denominator is never zero in a snapshot.
#[derive(Debug, Clone, Copy, PartialEq, Eq, Structural)]
pub struct Ratio {
    pub numerator: u64,
    pub denominator: u64,
}

/// Read-only point-in-time view of the client's metrics.
#[derive(Debug, Clone, Copy)]
pub struct MetricsSnapshot {
    pub solves_attempted: u64,
    pub solves_succeeded: u64,
    pub solves_failed: u64,
    pub cache_hits: u64,
    pub coalesced_waits: u64,
    pub retries: u64,
    pub container_restarts: u64,
    /// Successes per attempt; zero before the first attempt.
    pub success_rate: Ratio,
    /// Milliseconds per success; zero before the first success.
    pub avg_solve_time_ms: Ratio,
}

/// `a / b`, or zero where `b` is zero.
pub open spec fn ratio_or_zero(a: u64, b: u64) -> Ratio {
    if b == 0 {
        Ratio { numerator: 0, denominator: 1 }
    } else {
        Ratio { numerator: a, denominator: b }
    }
}

pub open spec fn snapshot_of(m: Metrics) -> MetricsSnapshot {
    MetricsSnapshot {
        solves_attempted: m.solves_attempted,
        solves_succeeded: m.solves_succeeded,
        solves_failed: m.solves_failed,
        cache_hits: m.cache_hits,
        coalesced_waits: m.coalesced_waits,
        retries: m.retries,
        container_restarts: m.container_restarts,
        success_rate: ratio_or_zero(m.solves_succeeded, m.solves_attempted),
        avg_solve_time_ms: ratio_or_zero(m.total_solve_time_ms, m.solves_succeeded),
    }
}

/// Every attempt is settled once: an attempt adds one pending solve, a success or a failure takes
/// one away, and nothing else changes their number.
pub proof fn attempts_are_settled_once(m: Metrics, elapsed_ms: u64)
    ensures
        pending_attempts(no_activity()) == 0,
        pending_attempts(with_success(with_attempt(m), elapsed_ms)) == pending_attempts(m),
        pending_attempts(with_failure(with_attempt(m))) == pending_attempts(m),
        pending_attempts(with_retry(m)) == pending_attempts(m),
        pending_attempts(with_cache_hit(m)) == pending_attempts(m),
        pending_attempts(with_coalesced_wait(m)) == pending_attempts(m),
        pending_attempts(with_container_restart(m)) == pending_attempts(m),
{
}

/// Each event moves its own counter on by one, a success the solve time too, and nothing else: what
/// is counted can be read off, until a counter is full.
pub proof fn each_event_has_its_counter(m: Metrics, elapsed_ms: u64)
    requires
        m.solves_attempted < u64::MAX,
        m.solves_succeeded < u64::MAX,
        m.solves_failed < u64::MAX,
        m.cache_hits < u64::MAX,
        m.coalesced_waits < u64::MAX,
        m.retries < u64::MAX,
        m.container_restarts < u64::MAX,
        m.total_solve_time_ms + elapsed_ms <= u64::MAX,
    ensures
        with_attempt(m) == (Metrics {
            solves_attempted: (m.solves_attempted + 1) as u64,
            ..m
        }),
        with_success(m, elapsed_ms) == (Metrics {
            solves_succeeded: (m.solves_succeeded + 1) as u64,
            total_solve_time_ms: (m.total_solve_time_ms + elapsed_ms) as u64,
            ..m
        }),
        with_failure(m) == (Metrics { solves_failed: (m.solves_failed + 1) as u64, ..m }),
        with_cache_hit(m) == (Metrics { cache_hits: (m.cache_hits + 1) as u64, ..m }),
        with_coalesced_wait(m) == (Metrics {
            coalesced_waits: (m.coalesced_waits + 1) as u64,
            ..m
        }),
        with_retry(m) == (Metrics { retries: (m.retries + 1) as u64, ..m }),
        with_container_restart(m) == (Metrics {
            container_restarts: (m.container_restarts + 1) as u64,
            ..m
        }),
{
}

/// A counter that is full starts again at zero, and the others do not notice.
pub proof fn full_counters_start_again(m: Metrics, elapsed_ms: u64)
    ensures
        ({
            let s = with_success(m, elapsed_ms);
            &&& (s.solves_succeeded - m.solves_succeeded - 1) % 0x1_0000_0000_0000_0000 == 0
            &&& (s.total_solve_time_ms - m.total_solve_time_ms - elapsed_ms)
                % 0x1_0000_0000_0000_0000 == 0
            &&& s == Metrics {
                solves_succeeded: s.solves_succeeded,
                total_solve_time_ms: s.total_solve_time_ms,
                ..m
            }
        }),
        m.solves_attempted == u64::MAX ==> with_attempt(m) == (Metrics { solves_attempted: 0, ..m }),
        m.solves_failed == u64::MAX ==> with_failure(m) == (Metrics { solves_failed: 0, ..m }),
        m.cache_hits == u64::MAX ==> with_cache_hit(m) == (Metrics { cache_hits: 0, ..m }),
        m.coalesced_waits == u64::MAX ==> with_coalesced_wait(m) == (Metrics {
            coalesced_waits: 0,
            ..m
        }),
        m.retries == u64::MAX ==> with_retry(m) == (Metrics { retries: 0, ..m }),
        m.container_restarts == u64::MAX ==> with_container_restart(m) == (Metrics {
            container_restarts: 0,
            ..m
        }),
{
}

/// A snapshot shows every counter as it stands; its success rate is successes over attempts and its
/// average is the time over the successes, each zero where there is nothing to divide by, and
/// neither ever divides by zero.
pub proof fn snapshots_show_the_counters(m: Metrics)
    ensures
        ({
            let s = snapshot_of(m);
            &&& s.solves_attempted == m.solves_attempted
            &&& s.solves_succeeded == m.solves_succeeded
            &&& s.solves_failed == m.solves_failed
            &&& s.cache_hits == m.cache_hits
            &&& s.coalesced_waits == m.coalesced_waits
            &&& s.retries == m.retries
            &&& s.container_restarts == m.container_restarts
            &&& s.success_rate.denominator != 0
            &&& s.avg_solve_time_ms.denominator != 0
            &&& m.solves_attempted > 0 ==> s.success_rate.numerator * m.solves_attempted
                == m.solves_succeeded * s.success_rate.denominator
            &&& m.solves_attempted == 0 ==> s.success_rate.numerator == 0
            &&& m.solves_succeeded > 0 ==> s.avg_solve_time_ms.numerator * m.solves_succeeded
                == m.total_solve_time_ms * s.avg_solve_time_ms.denominator
            &&& m.solves_succeeded == 0 ==> s.avg_solve_time_ms.numerator == 0
        }),
{
}

} // verus!
