//! Retry policy for the solve dispatch.
//!
//! Configure once on the builder; applies to every solve. Retries do not re-run the cache or
//! coalescer — they retry only the provider round-trip.

use crate::error::{AntibotError, ErrorView};
use crate::time::Duration;
use vstd::prelude::*;

verus! {

#[derive(Debug, Clone, Copy)]
pub struct RetryPolicy {
    /// Total attempts including the first try. `1` disables retries.
    pub max_attempts: u32,
    pub initial_delay: Duration,
    pub max_delay: Duration,
    /// Add ±25% jitter to the computed backoff.
    pub jitter: bool,
}

pub open spec fn default_policy() -> RetryPolicy {
    RetryPolicy {
        max_attempts: 3,
        initial_delay: Duration { nanos: 500_000_000 },
        max_delay: Duration { nanos: 10_000_000_000 },
        jitter: true,
    }
}

impl Default for RetryPolicy {
    fn default() -> (p: Self)
        ensures
            p == default_policy(),
    {
        RetryPolicy {
            max_attempts: 3,
            initial_delay: Duration::from_millis(500),
            max_delay: Duration::from_secs(10),
            jitter: true,
        }
    }
}

/// One round of the splitmix64 generator.
pub open spec fn splitmix64(seed: u64) -> u64 {
    let a = seed.wrapping_add(0x9E37_79B9_7F4A_7C15);
    let b = (a ^ (a >> 30)).wrapping_mul(0xBF58_476D_1CE4_E5B9);
    let c = (b ^ (b >> 27)).wrapping_mul(0x94D0_49BB_1331_11EB);
    c ^ (c >> 31)
}

pub fn mix(seed: u64) -> (r: u64)
    ensures
        r == splitmix64(seed),
{
    let a: u64 = seed.wrapping_add(0x9E37_79B9_7F4A_7C15);
    let b: u64 = (a ^ (a >> 30)).wrapping_mul(0xBF58_476D_1CE4_E5B9);
    let c: u64 = (b ^ (b >> 27)).wrapping_mul(0x94D0_49BB_1331_11EB);
    c ^ (c >> 31)
}

/// `d` scaled by a factor between 0.75 and 1.25 drawn from `seed`, in steps of 0.0005, as far as
/// 64 bits of nanoseconds can hold it.
pub open spec fn jittered(d: Duration, seed: u64) -> Duration {
    let scaled = d.nanos * (1500 + splitmix64(seed) % 1000) / 2000;
    if scaled <= u64::MAX {
        Duration { nanos: scaled as u128 }
    } else {
        Duration { nanos: u64::MAX as u128 }
    }
}

pub fn apply_jitter(d: Duration, seed: u64) -> (r: Duration)
    ensures
        r == jittered(d, seed),
{
    let k: u128 = 1500 + (mix(seed) % 1000) as u128;
    if d.nanos > 0x1_FFFF_FFFF_FFFF_FFFF {
        assert(d.nanos * k >= d.nanos * 1500) by (nonlinear_arith)
            requires
                k >= 1500,
        ;
        Duration { nanos: u64::MAX as u128 }
    } else {
        assert(d.nanos * k <= 0x1_FFFF_FFFF_FFFF_FFFF * 2500) by (nonlinear_arith)
            requires
                k <= 2500,
                d.nanos <= 0x1_FFFF_FFFF_FFFF_FFFF,
        ;
        let scaled: u128 = d.nanos * k / 2000;
        if scaled <= u64::MAX as u128 {
            Duration { nanos: scaled }
        } else {
            Duration { nanos: u64::MAX as u128 }
        }
    }
}

/// Jitter changes a delay by at most a quarter (rounding down to whole nanoseconds).
pub proof fn jitter_is_at_most_a_quarter(d: Duration, seed: u64)
    requires
        d.nanos * 5 / 4 <= u64::MAX,
    ensures
        d.nanos * 3 / 4 <= jittered(d, seed).nanos <= d.nanos * 5 / 4,
{
    let k = 1500 + splitmix64(seed) % 1000;
    assert(d.nanos * 1500 <= d.nanos * k <= d.nanos * 2500) by (nonlinear_arith)
        requires
            1500 <= k <= 2500,
    ;
}

/// Whether a failure may go away on another attempt: transport errors, replies that make no sense,
/// failed challenges, and HTTP 429 and 5xx from the provider.
pub open spec fn is_transient(e: ErrorView) -> bool {
    match e {
        ErrorView::Http(_) => true,
        ErrorView::UnexpectedResponse(_) => true,
        ErrorView::ChallengeFailed { .. } => true,
        ErrorView::ProviderHttp { status, .. } => status == 429 || 500 <= status <= 599,
        _ => false,
    }
}

/// Exponent of the multiplier in the backoff before `attempt`.
pub open spec fn exponent_of(attempt: u32) -> int {
    if attempt <= 1 {
        0
    } else if attempt - 2 > i32::MAX {
        i32::MAX as int
    } else {
        attempt - 2
    }
}

/// The backoff before `attempt`, where the initial delay times the power of the multiplier comes
/// to `scaled_nanos`.
pub open spec fn backoff_of(
    policy: RetryPolicy,
    attempt: u32,
    scaled_nanos: u64,
    seed: u64,
) -> Duration {
    if attempt <= 1 {
        Duration { nanos: 0 }
    } else {
        let capped = if policy.max_delay.nanos < scaled_nanos {
            policy.max_delay
        } else {
            Duration { nanos: scaled_nanos as u128 }
        };
        if policy.jitter {
            jittered(capped, seed)
        } else {
            capped
        }
    }
}

impl RetryPolicy {
    pub fn no_retries() -> (p: Self)
        ensures
            p == (RetryPolicy { max_attempts: 1, ..default_policy() }),
    {
        let mut p: RetryPolicy = Default::default();
        p.max_attempts = 1;
        p
    }

    /// Exponent of the multiplier in the backoff before `attempt` (1-indexed).
    pub fn backoff_exponent(&self, attempt: u32) -> (e: i32)
        ensures
            e == exponent_of(attempt),
    {
        if attempt <= 1 {
            0
        } else if attempt - 2 > i32::MAX as u32 {
            i32::MAX
        } else {
            (attempt - 2) as i32
        }
    }

    /// Backoff before attempt `n` (1-indexed), zero for n=1. `scaled_nanos` is the initial delay
    /// times the multiplier's power, and `seed` picks the jitter.
    pub fn backoff_for_attempt(&self, attempt: u32, scaled_nanos: u64, seed: u64) -> (d: Duration)
        ensures
            d == backoff_of(*self, attempt, scaled_nanos, seed),
    {
        if attempt <= 1 {
            return Duration::from_nanos(0);
        }
        let delay = Duration::from_nanos(scaled_nanos).min(self.max_delay);
        if self.jitter {
            apply_jitter(delay, seed)
        } else {
            delay
        }
    }

    /// Whether `err` should trigger a retry.
    pub fn is_retryable(&self, err: &AntibotError) -> (b: bool)
        ensures
            b == is_transient(err@),
    {
        match err {
            AntibotError::Http(_) => true,
            AntibotError::UnexpectedResponse(_) => true,
            AntibotError::ChallengeFailed { .. } => true,
            AntibotError::ProviderHttp { status, .. } => *status == 429 || (500 <= *status
                && *status <= 599),
            _ => false,
        }
    }
}

/// No backoff is longer than the cap by more than the jitter's quarter, and without jitter none is
/// longer than the cap at all.
pub proof fn backoff_is_capped(policy: RetryPolicy, attempt: u32, scaled_nanos: u64, seed: u64)
    requires
        policy.max_delay.nanos * 5 / 4 <= u64::MAX,
    ensures
        backoff_of(policy, attempt, scaled_nanos, seed).nanos <= policy.max_delay.nanos * 5 / 4,
        !policy.jitter ==> backoff_of(policy, attempt, scaled_nanos, seed).nanos
            <= policy.max_delay.nanos,
        backoff_of(policy, 1, scaled_nanos, seed).nanos == 0,
{
    let capped = if policy.max_delay.nanos < scaled_nanos {
        policy.max_delay
    } else {
        Duration { nanos: scaled_nanos as u128 }
    };
    jitter_is_at_most_a_quarter(capped, seed);
}

proof fn lemma_times_odd_is_injective(a: u64, b: u64, c: u64, inverse: int)
    requires
        (c * inverse) % 0x1_0000_0000_0000_0000 == 1,
        a.wrapping_mul(c) == b.wrapping_mul(c),
    ensures
        a == b,
{
    lemma_undo_times(a, c, inverse);
    lemma_undo_times(b, c, inverse);
}

proof fn lemma_undo_times(a: u64, c: u64, inverse: int)
    requires
        (c * inverse) % 0x1_0000_0000_0000_0000 == 1,
    ensures
        (a.wrapping_mul(c) * inverse) % 0x1_0000_0000_0000_0000 == a,
{
    let m: int = 0x1_0000_0000_0000_0000;
    assert(a.wrapping_mul(c) == (a * c) % m);
    vstd::arithmetic::div_mod::lemma_mul_mod_noop_left(a * c, inverse, m);
    assert((a * c) * inverse == a * (c * inverse)) by (nonlinear_arith);
    vstd::arithmetic::div_mod::lemma_mul_mod_noop_right(a as int, c * inverse, m);
    assert(a * 1 == a) by (nonlinear_arith);
}

/// Mixing loses nothing of the seed: different seeds are mixed to different numbers, so that clients
/// with seeds of their own draw their jitter independently.
pub proof fn mixing_tells_seeds_apart(a: u64, b: u64)
    ensures
        splitmix64(a) == splitmix64(b) <==> a == b,
{
    if splitmix64(a) == splitmix64(b) {
        let a1 = a.wrapping_add(0x9E37_79B9_7F4A_7C15);
        let b1 = b.wrapping_add(0x9E37_79B9_7F4A_7C15);
        let a2 = (a1 ^ (a1 >> 30)).wrapping_mul(0xBF58_476D_1CE4_E5B9);
        let b2 = (b1 ^ (b1 >> 30)).wrapping_mul(0xBF58_476D_1CE4_E5B9);
        let a3 = (a2 ^ (a2 >> 27)).wrapping_mul(0x94D0_49BB_1331_11EB);
        let b3 = (b2 ^ (b2 >> 27)).wrapping_mul(0x94D0_49BB_1331_11EB);
        assert(a3 == b3) by (bit_vector)
            requires
                a3 ^ (a3 >> 31) == b3 ^ (b3 >> 31),
        ;
        lemma_times_odd_is_injective(
            a2 ^ (a2 >> 27),
            b2 ^ (b2 >> 27),
            0x94D0_49BB_1331_11EB,
            0x3196_42B2_D24D_8EC3,
        );
        assert(a2 == b2) by (bit_vector)
            requires
                a2 ^ (a2 >> 27) == b2 ^ (b2 >> 27),
        ;
        lemma_times_odd_is_injective(
            a1 ^ (a1 >> 30),
            b1 ^ (b1 >> 30),
            0xBF58_476D_1CE4_E5B9,
            0x96DE_1B17_3F11_9089,
        );
        assert(a1 == b1) by (bit_vector)
            requires
                a1 ^ (a1 >> 30) == b1 ^ (b1 >> 30),
        ;
    }
}

/// Jitter multiplies a delay by 0.75 and as many steps of 0.0005, up to 999, as the mixed seed says,
/// rounds down, and stops at what 64 bits can hold; a longer delay never becomes the shorter one
/// under the same seed.
pub proof fn jitter_scales_in_fine_steps(d: Duration, e: Duration, seed: u64)
    ensures
        ({
            let step = splitmix64(seed) % 1000;
            let r = jittered(d, seed).nanos;
            let wanted = d.nanos * 1500 + d.nanos * step;
            &&& r <= u64::MAX
            &&& wanted < (u64::MAX + 1) * 2000 ==> r * 2000 <= wanted < r * 2000 + 2000
            &&& wanted >= (u64::MAX + 1) * 2000 ==> r == u64::MAX
            &&& d.nanos <= e.nanos ==> r <= jittered(e, seed).nanos
        }),
{
    let step = splitmix64(seed) % 1000;
    assert(d.nanos * (1500 + step) == d.nanos * 1500 + d.nanos * step) by (nonlinear_arith);
    if d.nanos <= e.nanos {
        assert(d.nanos * (1500 + step) <= e.nanos * (1500 + step)) by (nonlinear_arith)
            requires
                d.nanos <= e.nanos,
        ;
    }
}

/// Another attempt is worth making after a transport error, a failed challenge or a reply that makes
/// no sense, and after a refusal with status 429 or in the five hundreds. No other refusal, and no
/// error about Docker, the configuration, sessions or what a provider supports, goes away by itself.
pub proof fn what_may_go_away_is_retried(
    m: Seq<char>,
    other: Seq<char>,
    status: u16,
    n: u32,
)
    ensures
        is_transient(ErrorView::Http(m)),
        is_transient(ErrorView::UnexpectedResponse(m)),
        is_transient(ErrorView::ChallengeFailed { url: m, reason: other }),
        is_transient(ErrorView::ProviderHttp { status, body: m }) <==> status == 429 || status / 100
            == 5,
        !is_transient(ErrorView::DockerNotAvailable),
        !is_transient(ErrorView::DaemonStartFailed(m)),
        !is_transient(ErrorView::PullFailed { image: m, reason: other }),
        !is_transient(ErrorView::StartFailed(m)),
        !is_transient(ErrorView::HealthCheckFailed { url: m, attempts: n }),
        !is_transient(ErrorView::UnsupportedFeature { provider: m, feature: other }),
        !is_transient(ErrorView::InvalidUrl(m)),
        !is_transient(ErrorView::InvalidConfig(m)),
        !is_transient(ErrorView::CoalescedFailure(m)),
        !is_transient(ErrorView::SessionNotFound(m)),
{
}

/// The second attempt waits for the initial delay itself, and every further attempt for one more
/// power of the multiplier.
pub proof fn each_attempt_adds_a_power(attempt: u32)
    ensures
        exponent_of(1) == 0,
        exponent_of(2) == 0,
        2 <= attempt < i32::MAX ==> exponent_of((attempt + 1) as u32) == exponent_of(attempt) + 1,
        0 <= exponent_of(attempt) <= i32::MAX,
{
}

/// Before the first attempt there is no wait. Before any other it is the scaled delay, or the cap
/// where that is less, and with jitter on, the jittered form of that.
pub proof fn backoff_is_the_scaled_delay_up_to_the_cap(
    policy: RetryPolicy,
    attempt: u32,
    scaled_nanos: u64,
    seed: u64,
)
    ensures
        attempt <= 1 ==> backoff_of(policy, attempt, scaled_nanos, seed).nanos == 0,
        attempt > 1 && !policy.jitter && scaled_nanos <= policy.max_delay.nanos ==> backoff_of(
            policy,
            attempt,
            scaled_nanos,
            seed,
        ).nanos == scaled_nanos,
        attempt > 1 && !policy.jitter && scaled_nanos >= policy.max_delay.nanos ==> backoff_of(
            policy,
            attempt,
            scaled_nanos,
            seed,
        ) == policy.max_delay,
        attempt > 1 && policy.jitter && scaled_nanos <= policy.max_delay.nanos ==> backoff_of(
            policy,
            attempt,
            scaled_nanos,
            seed,
        ) == jittered(Duration { nanos: scaled_nanos as u128 }, seed),
        attempt > 1 && policy.jitter && scaled_nanos >= policy.max_delay.nanos ==> backoff_of(
            policy,
            attempt,
            scaled_nanos,
            seed,
        ) == jittered(policy.max_delay, seed),
{
}

} // verus!
