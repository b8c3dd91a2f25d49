//! Auto-managed Byparr/FlareSolverr client for bypassing bot detection.
//!
//! Provides the logic of a unified client for the FlareSolverr-compatible API used by both
//! [Byparr](https://github.com/thephaseless/byparr) and
//! [FlareSolverr](https://github.com/FlareSolverr/FlareSolverr), with contracts that Verus proves:
//!
//! - [`SolveRequest`] with GET/POST, headers, cookies, proxy, sessions, fingerprint, and its wire
//!   form ([`wire`])
//! - per-domain session/cookie cache ([`session_cache`])
//! - concurrent-solve coalescer ([`coalesce`])
//! - retry policy with exponential backoff and jitter ([`retry`])
//! - routing across a pool of instances ([`pool`])
//! - Docker container lifecycle ([`docker`], [`builder`])
//! - metrics, debug/replay sink, and standalone challenge detection ([`metrics`],
//!   [`debug_replay`], [`detect`])
//! - the client that ties them together ([`client`], [`session`], [`exchange`])
//!
//! The library performs no I/O and reads no clock. Calls that stand for something that takes time
//! return what to do next; the caller does it and hands the outcome back.

pub mod builder;
pub mod client;
pub mod coalesce;
pub mod cookie;
pub mod debug_replay;
pub mod detect;
pub mod docker;
pub mod error;
pub mod exchange;
pub mod fields;
pub mod fingerprint;
pub mod metrics;
pub mod pool;
pub mod provider;
pub mod proxy;
pub mod request;
pub mod retry;
pub mod session;
pub mod session_cache;
pub mod store;
pub mod text;
pub mod time;
pub mod types;
pub mod wire;

pub use builder::AntibotBuilder;
pub use client::Antibot;
pub use coalesce::CoalesceKey;
pub use cookie::{merge_cookies, Cookie, SameSite};
pub use debug_replay::DebugConfig;
pub use detect::{detect_challenge, ChallengeKind, DetectionInput};
pub use docker::{DockerLimits, HostOs};
pub use error::AntibotError;
pub use fields::FieldMap;
pub use fingerprint::{BrowserFingerprint, Viewport};
pub use metrics::MetricsSnapshot;
pub use provider::Provider;
pub use proxy::ProxyConfig;
pub use request::{PostBody, SolveMethod, SolveRequest};
pub use retry::RetryPolicy;
pub use session::SessionHandle;
pub use session_cache::{CachedSession, SessionCacheConfig};
pub use types::{Solution, SolutionSource};
