//! Exchanges with a provider: what is sent, and what the reply comes to.

use crate::error::{AntibotError, ErrorView};
use crate::text;
use crate::time;
use crate::time::{Duration, SystemTime};
use crate::types;
use crate::types::{ApiResponse, ApiResponseView, Solution, SolutionView};
use crate::wire::{WireRequest, WireView};
use vstd::prelude::*;

verus! {

/// Extra slack, in seconds, on top of the solver's own `maxTimeout` before the HTTP call to the
/// provider is abandoned.
pub const PROVIDER_TIMEOUT_MARGIN_SECS: u64 = 30;

/// Bytes of a provider's error body that are kept.
pub const ERROR_BODY_BYTES: usize = 500;

/// A request to be POSTed as JSON to a provider.
pub struct Exchange {
    pub url: String,
    pub wire: WireRequest,
    /// After which the exchange is abandoned.
    pub timeout: Duration,
}

/// What an [`Exchange`] says.
pub struct ExchangeView {
    pub url: Seq<char>,
    pub wire: WireView,
    pub timeout: Duration,
}

impl View for Exchange {
    type V = ExchangeView;

    open spec fn view(&self) -> ExchangeView {
        ExchangeView { url: self.url@, wire: self.wire@, timeout: self.timeout }
    }
}

/// The exchange that sends `w` to the instance at `base`. Its timeout leaves the solver's own one
/// room to fire first.
pub open spec fn exchange_of(base: Seq<char>, w: WireView) -> ExchangeView {
    ExchangeView {
        url: base + "/v1"@,
        wire: w,
        timeout: Duration {
            nanos: (w.max_timeout * time::NANOS_PER_MILLI + PROVIDER_TIMEOUT_MARGIN_SECS
                * time::NANOS_PER_SEC) as u128,
        },
    }
}

pub(crate) fn exchange(base: &str, wire: WireRequest) -> (e: Exchange)
    ensures
        e@ == exchange_of(base@, wire@),
{
    let mut url = base.to_string();
    url.append("/v1");
    let timeout = Duration {
        nanos: Duration::from_millis(wire.max_timeout).nanos + Duration::from_secs(
            PROVIDER_TIMEOUT_MARGIN_SECS,
        ).nanos,
    };
    Exchange { url, wire, timeout }
}

/// An exchange with an instance that has been reserved for it.
pub struct Dispatch {
    pub instance: usize,
    pub exchange: Exchange,
    /// What the user should be told about request fields that the provider ignores.
    pub warning: Option<String>,
}

/// What came back from an exchange.
pub enum Reply {
    /// The exchange failed, or its answer could not be read; holds the transport's account of it.
    Failed(String),
    /// An HTTP status other than success, with the body.
    Refused { status: u16, body: String },
    /// The provider's answer.
    Answered(ApiResponse),
}

/// What a [`Reply`] says.
pub enum ReplyView {
    Failed(Seq<char>),
    Refused { status: u16, body: Seq<char> },
    Answered(ApiResponseView),
}

impl View for Reply {
    type V = ReplyView;

    open spec fn view(&self) -> ReplyView {
        match self {
            Reply::Failed(m) => ReplyView::Failed(m@),
            Reply::Refused { status, body } => ReplyView::Refused { status: *status, body: body@ },
            Reply::Answered(r) => ReplyView::Answered(r@),
        }
    }
}

/// What a reply comes to.
pub open spec fn answer_of(reply: ReplyView) -> Result<ApiResponseView, ErrorView> {
    match reply {
        ReplyView::Failed(m) => Err(ErrorView::Http(m)),
        ReplyView::Refused { status, body } => Err(
            ErrorView::ProviderHttp {
                status,
                body: text::truncated(body, ERROR_BODY_BYTES as int),
            },
        ),
        ReplyView::Answered(r) => Ok(r),
    }
}

pub open spec fn api_outcome(r: Result<ApiResponse, AntibotError>) -> Result<
    ApiResponseView,
    ErrorView,
> {
    match r {
        Ok(a) => Ok(a@),
        Err(e) => Err(e@),
    }
}

/// Reads the reply of the `/v1` endpoint.
pub fn post_v1(reply: Reply) -> (r: Result<ApiResponse, AntibotError>)
    ensures
        api_outcome(r) == answer_of(reply@),
{
    match reply {
        Reply::Failed(m) => Err(AntibotError::Http(m)),
        Reply::Refused { status, body } => Err(
            AntibotError::ProviderHttp {
                status,
                body: text::truncate_utf8(body.as_str(), ERROR_BODY_BYTES),
            },
        ),
        Reply::Answered(r) => Ok(r),
    }
}

/// What the solve of `url` comes to, by the reply that was received at `now`.
pub open spec fn solved(url: Seq<char>, reply: ReplyView, now: SystemTime) -> Result<
    SolutionView,
    ErrorView,
> {
    match answer_of(reply) {
        Err(e) => Err(e),
        Ok(r) => if r.status != "ok"@ {
            Err(ErrorView::ChallengeFailed { url, reason: r.message })
        } else {
            match r.solution {
                Some(s) => Ok(types::fresh_solution(s, now)),
                None => Err(
                    ErrorView::UnexpectedResponse("status ok but no solution returned"@),
                ),
            }
        },
    }
}

/// Reads the reply to a dispatched request for `url`, received at `now`.
pub fn read_solution(url: &str, reply: Reply, now: SystemTime) -> (r: Result<Solution, AntibotError>)
    ensures
        types::outcome(r) == solved(url@, reply@, now),
{
    let api_resp = match post_v1(reply) {
        Ok(r) => r,
        Err(e) => return Err(e),
    };
    if !text::same(api_resp.status.as_str(), "ok") {
        return Err(
            AntibotError::ChallengeFailed { url: url.to_string(), reason: api_resp.message },
        );
    }
    match api_resp.solution {
        Some(s) => Ok(Solution::from_wire(s, now)),
        None => Err(
            AntibotError::UnexpectedResponse("status ok but no solution returned".to_string()),
        ),
    }
}

/// An exchange allows the solver all of its own timeout, and half a minute more.
pub proof fn exchanges_outlast_the_solver(base: Seq<char>, w: WireView)
    ensures
        exchange_of(base, w).timeout.nanos == w.max_timeout * time::NANOS_PER_MILLI + 30
            * time::NANOS_PER_SEC,
{
}

/// An exchange goes to the `/v1` endpoint of the instance and carries the request as it is.
pub proof fn exchanges_carry_the_request(base: Seq<char>, other: Seq<char>, w: WireView)
    ensures
        exchange_of(base, w).wire == w,
        exchange_of(base, w).url == base + "/v1"@,
        exchange_of(base, w).url == exchange_of(other, w).url <==> base == other,
{
    if exchange_of(base, w).url == exchange_of(other, w).url {
        let u = base + "/v1"@;
        assert(base =~= u.take(u.len() - "/v1"@.len()));
        assert(other =~= u.take(u.len() - "/v1"@.len()));
    }
}

/// A solve succeeds if and only if the provider answers with status `ok` and a solution, and then
/// what comes out is that solution, every part of it, as a fresh one received at `now`.
pub proof fn solves_succeed_with_the_providers_solution(
    url: Seq<char>,
    reply: ReplyView,
    now: SystemTime,
)
    ensures
        solved(url, reply, now) is Ok <==> reply is Answered && reply->Answered_0.status == "ok"@
            && reply->Answered_0.solution is Some,
        solved(url, reply, now) is Ok ==> {
            let s = reply->Answered_0.solution->0;
            let r = solved(url, reply, now)->Ok_0;
            &&& r.url == s.url
            &&& r.status == s.status
            &&& r.cookies == s.cookies
            &&& r.user_agent == s.user_agent
            &&& r.response == s.response
            &&& r.solved_at == now
            &&& r.source == types::SolutionSource::Fresh
        },
{
}

/// Each way in which a solve can fail has its own error: a failed transport, with its account; a
/// refusal, with its status and the beginning of its body, all of it where it is short; an answer
/// that is not `ok`, with the URL and the provider's message; and an `ok` without a solution.
pub proof fn failed_solves_say_why(
    url: Seq<char>,
    message: Seq<char>,
    status: u16,
    body: Seq<char>,
    answer: ApiResponseView,
    now: SystemTime,
)
    ensures
        solved(url, ReplyView::Failed(message), now) == Err::<SolutionView, ErrorView>(
            ErrorView::Http(message),
        ),
        ({
            let r = solved(url, ReplyView::Refused { status, body }, now);
            &&& r is Err
            &&& r->Err_0 is ProviderHttp
            &&& r->Err_0->ProviderHttp_status == status
            &&& r->Err_0->ProviderHttp_body == text::truncated(body, 500)
        }),
        answer.status != "ok"@ ==> solved(url, ReplyView::Answered(answer), now) == Err::<
            SolutionView,
            ErrorView,
        >(ErrorView::ChallengeFailed { url, reason: answer.message }),
        answer.status == "ok"@ && answer.solution is None ==> {
            let r = solved(url, ReplyView::Answered(answer), now);
            r is Err && r->Err_0 is UnexpectedResponse
        },
        answer_of(ReplyView::Answered(answer)) == Ok::<ApiResponseView, ErrorView>(answer),
        answer_of(ReplyView::Failed(message)) == Err::<ApiResponseView, ErrorView>(
            ErrorView::Http(message),
        ),
        answer_of(ReplyView::Refused { status, body }) == Err::<ApiResponseView, ErrorView>(
            ErrorView::ProviderHttp { status, body: text::truncated(body, 500) },
        ),
{
}

/// An exchange and its reply say what they hold.
pub proof fn exchanges_say_what_they_hold(e: Exchange, r: Reply)
    ensures
        e@.url == e.url@,
        e@.wire == e.wire@,
        e@.timeout == e.timeout,
        r is Failed ==> r@ == ReplyView::Failed(r->Failed_0@),
        r is Refused ==> r@ == (ReplyView::Refused {
            status: r->status,
            body: r->body@,
        }),
        r is Answered ==> r@ == ReplyView::Answered(r->Answered_0@),
{
}

} // verus!
