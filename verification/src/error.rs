//! What can go wrong.

use crate::text;
use vstd::prelude::*;

verus! {

#[derive(Debug)]
#[non_exhaustive]
pub enum AntibotError {
    DockerNotAvailable,
    DaemonStartFailed(String),
    PullFailed { image: String, reason: String },
    StartFailed(String),
    HealthCheckFailed { url: String, attempts: u32 },
    ChallengeFailed { url: String, reason: String },
    /// The HTTP exchange with the provider failed; holds the transport's own account of it.
    Http(String),
    /// The provider's `/v1` endpoint answered with a non-success HTTP status.
    /// Retried only for 429 and 5xx; 4xx is treated as deterministic.
    ProviderHttp { status: u16, body: String },
    UnexpectedResponse(String),
    /// The configured provider does not implement this feature (e.g. sessions
    /// on upstream Byparr).
    UnsupportedFeature { provider: String, feature: String },
    InvalidUrl(String),
    InvalidConfig(String),
    /// A coalesced peer's solve failed; holds the message of that failure.
    CoalescedFailure(String),
    SessionNotFound(String),
}

/// What an [`AntibotError`] says.
pub enum ErrorView {
    DockerNotAvailable,
    DaemonStartFailed(Seq<char>),
    PullFailed { image: Seq<char>, reason: Seq<char> },
    StartFailed(Seq<char>),
    HealthCheckFailed { url: Seq<char>, attempts: u32 },
    ChallengeFailed { url: Seq<char>, reason: Seq<char> },
    Http(Seq<char>),
    ProviderHttp { status: u16, body: Seq<char> },
    UnexpectedResponse(Seq<char>),
    UnsupportedFeature { provider: Seq<char>, feature: Seq<char> },
    InvalidUrl(Seq<char>),
    InvalidConfig(Seq<char>),
    CoalescedFailure(Seq<char>),
    SessionNotFound(Seq<char>),
}

impl View for AntibotError {
    type V = ErrorView;

    open spec fn view(&self) -> ErrorView {
        match self {
            AntibotError::DockerNotAvailable => ErrorView::DockerNotAvailable,
            AntibotError::DaemonStartFailed(m) => ErrorView::DaemonStartFailed(m@),
            AntibotError::PullFailed { image, reason } => ErrorView::PullFailed {
                image: image@,
                reason: reason@,
            },
            AntibotError::StartFailed(m) => ErrorView::StartFailed(m@),
            AntibotError::HealthCheckFailed { url, attempts } => ErrorView::HealthCheckFailed {
                url: url@,
                attempts: *attempts,
            },
            AntibotError::ChallengeFailed { url, reason } => ErrorView::ChallengeFailed {
                url: url@,
                reason: reason@,
            },
            AntibotError::Http(m) => ErrorView::Http(m@),
            AntibotError::ProviderHttp { status, body } => ErrorView::ProviderHttp {
                status: *status,
                body: body@,
            },
            AntibotError::UnexpectedResponse(m) => ErrorView::UnexpectedResponse(m@),
            AntibotError::UnsupportedFeature { provider, feature } => {
                ErrorView::UnsupportedFeature { provider: provider@, feature: feature@ }
            },
            AntibotError::InvalidUrl(m) => ErrorView::InvalidUrl(m@),
            AntibotError::InvalidConfig(m) => ErrorView::InvalidConfig(m@),
            AntibotError::CoalescedFailure(m) => ErrorView::CoalescedFailure(m@),
            AntibotError::SessionNotFound(m) => ErrorView::SessionNotFound(m@),
        }
    }
}

/// The message that describes an error.
pub open spec fn message_of(e: ErrorView) -> Seq<char> {
    match e {
        ErrorView::DockerNotAvailable => "Docker is not installed or not running"@,
        ErrorView::DaemonStartFailed(m) => "failed to start the Docker daemon: "@ + m,
        ErrorView::PullFailed { image, reason } => "failed to pull image "@ + image + ": "@
            + reason,
        ErrorView::StartFailed(m) => "failed to start container: "@ + m,
        ErrorView::HealthCheckFailed { url, attempts } => "service not reachable at "@ + url
            + " after "@ + text::decimal(attempts as nat) + " attempts"@,
        ErrorView::ChallengeFailed { url, reason } => "challenge failed for "@ + url + ": "@
            + reason,
        ErrorView::Http(m) => "HTTP error: "@ + m,
        ErrorView::ProviderHttp { status, body } => "provider returned HTTP "@ + text::decimal(
            status as nat,
        ) + ": "@ + body,
        ErrorView::UnexpectedResponse(m) => "unexpected response: "@ + m,
        ErrorView::UnsupportedFeature { provider, feature } => provider + " does not support "@
            + feature,
        ErrorView::InvalidUrl(m) => "invalid URL: "@ + m,
        ErrorView::InvalidConfig(m) => "invalid configuration: "@ + m,
        ErrorView::CoalescedFailure(m) => "coalesced solve failed: "@ + m,
        ErrorView::SessionNotFound(m) => "session not found: "@ + m,
    }
}

impl AntibotError {
    /// The message that describes this error.
    pub fn message(&self) -> (s: String)
        ensures
            s@ == message_of(self@),
    {
        match self {
            AntibotError::DockerNotAvailable => "Docker is not installed or not running".to_string(),
            AntibotError::DaemonStartFailed(m) => text::prefixed(
                "failed to start the Docker daemon: ",
                m.as_str(),
            ),
            AntibotError::PullFailed { image, reason } => {
                let mut s = text::prefixed("failed to pull image ", image.as_str());
                s.append(": ");
                s.append(reason.as_str());
                s
            },
            AntibotError::StartFailed(m) => text::prefixed("failed to start container: ", m.as_str()),
            AntibotError::HealthCheckFailed { url, attempts } => {
                let mut s = text::prefixed("service not reachable at ", url.as_str());
                s.append(" after ");
                s.append(text::decimal_text(*attempts as u128).as_str());
                s.append(" attempts");
                s
            },
            AntibotError::ChallengeFailed { url, reason } => {
                let mut s = text::prefixed("challenge failed for ", url.as_str());
                s.append(": ");
                s.append(reason.as_str());
                s
            },
            AntibotError::Http(m) => text::prefixed("HTTP error: ", m.as_str()),
            AntibotError::ProviderHttp { status, body } => {
                let mut s = text::prefixed(
                    "provider returned HTTP ",
                    text::decimal_text(*status as u128).as_str(),
                );
                s.append(": ");
                s.append(body.as_str());
                s
            },
            AntibotError::UnexpectedResponse(m) => text::prefixed("unexpected response: ", m.as_str()),
            AntibotError::UnsupportedFeature { provider, feature } => {
                let mut s = provider.clone();
                s.append(" does not support ");
                s.append(feature.as_str());
                s
            },
            AntibotError::InvalidUrl(m) => text::prefixed("invalid URL: ", m.as_str()),
            AntibotError::InvalidConfig(m) => text::prefixed("invalid configuration: ", m.as_str()),
            AntibotError::CoalescedFailure(m) => text::prefixed("coalesced solve failed: ", m.as_str()),
            AntibotError::SessionNotFound(m) => text::prefixed("session not found: ", m.as_str()),
        }
    }
}

/// The message of an error quotes every text and number that the error holds, after words that say
/// what kind of error it is; so errors of one kind with different texts have different messages.
pub proof fn messages_quote_their_errors(m: Seq<char>, other: Seq<char>, n: u32, status: u16)
    ensures
        text::occurs(message_of(ErrorView::PullFailed { image: m, reason: other }), m),
        text::occurs(message_of(ErrorView::PullFailed { image: m, reason: other }), other),
        text::occurs(message_of(ErrorView::HealthCheckFailed { url: m, attempts: n }), m),
        text::occurs(
            message_of(ErrorView::HealthCheckFailed { url: m, attempts: n }),
            text::decimal(n as nat),
        ),
        text::occurs(message_of(ErrorView::ChallengeFailed { url: m, reason: other }), m),
        text::occurs(message_of(ErrorView::ChallengeFailed { url: m, reason: other }), other),
        text::occurs(message_of(ErrorView::ProviderHttp { status, body: m }), m),
        text::occurs(
            message_of(ErrorView::ProviderHttp { status, body: m }),
            text::decimal(status as nat),
        ),
        text::occurs(message_of(ErrorView::UnsupportedFeature { provider: m, feature: other }), m),
        text::occurs(
            message_of(ErrorView::UnsupportedFeature { provider: m, feature: other }),
            other,
        ),
        message_of(ErrorView::DaemonStartFailed(m)) == "failed to start the Docker daemon: "@ + m,
        message_of(ErrorView::StartFailed(m)) == "failed to start container: "@ + m,
        message_of(ErrorView::Http(m)) == "HTTP error: "@ + m,
        message_of(ErrorView::UnexpectedResponse(m)) == "unexpected response: "@ + m,
        message_of(ErrorView::InvalidUrl(m)) == "invalid URL: "@ + m,
        message_of(ErrorView::InvalidConfig(m)) == "invalid configuration: "@ + m,
        message_of(ErrorView::CoalescedFailure(m)) == "coalesced solve failed: "@ + m,
        message_of(ErrorView::SessionNotFound(m)) == "session not found: "@ + m,
{
    let none = Seq::<char>::empty();
    let count = text::decimal(n as nat);
    let code = text::decimal(status as nat);
    lemma_quotes("failed to pull image "@, m, ": "@, other, none);
    lemma_quotes("service not reachable at "@, m, " after "@, count, " attempts"@);
    lemma_quotes("challenge failed for "@, m, ": "@, other, none);
    lemma_quotes("provider returned HTTP "@, code, ": "@, m, none);
    lemma_quotes(none, m, " does not support "@, other, none);
    assert(none + m =~= m);
    assert("failed to pull image "@ + m + ": "@ + other + none =~= "failed to pull image "@ + m + ": "@
        + other);
    assert("challenge failed for "@ + m + ": "@ + other + none =~= "challenge failed for "@ + m + ": "@
        + other);
    assert("provider returned HTTP "@ + code + ": "@ + m + none =~= "provider returned HTTP "@ + code
        + ": "@ + m);
    assert(m + " does not support "@ + other + none =~= m + " does not support "@ + other);
}

proof fn lemma_quotes(a: Seq<char>, x: Seq<char>, b: Seq<char>, y: Seq<char>, c: Seq<char>)
    ensures
        text::occurs(a + x + b + y + c, x),
        text::occurs(a + x + b + y + c, y),
{
    text::text_occurs_where_it_stands(a, x, b + y + c);
    assert(a + x + b + y + c =~= a + x + (b + y + c));
    text::text_occurs_where_it_stands(a + x + b, y, c);
}

/// What an error says is what it holds.
pub proof fn errors_say_what_they_hold(e: AntibotError)
    ensures
        e is DockerNotAvailable <==> e@ is DockerNotAvailable,
        e is DaemonStartFailed ==> e@ == ErrorView::DaemonStartFailed(e->DaemonStartFailed_0@),
        e is PullFailed ==> e@ == (ErrorView::PullFailed {
            image: e->image@,
            reason: e->PullFailed_reason@,
        }),
        e is StartFailed ==> e@ == ErrorView::StartFailed(e->StartFailed_0@),
        e is HealthCheckFailed ==> e@ == (ErrorView::HealthCheckFailed {
            url: e->HealthCheckFailed_url@,
            attempts: e->attempts,
        }),
        e is ChallengeFailed ==> e@ == (ErrorView::ChallengeFailed {
            url: e->ChallengeFailed_url@,
            reason: e->ChallengeFailed_reason@,
        }),
        e is Http ==> e@ == ErrorView::Http(e->Http_0@),
        e is ProviderHttp ==> e@ == (ErrorView::ProviderHttp { status: e->status, body: e->body@ }),
        e is UnexpectedResponse ==> e@ == ErrorView::UnexpectedResponse(e->UnexpectedResponse_0@),
        e is UnsupportedFeature ==> e@ == (ErrorView::UnsupportedFeature {
            provider: e->provider@,
            feature: e->feature@,
        }),
        e is InvalidUrl ==> e@ == ErrorView::InvalidUrl(e->InvalidUrl_0@),
        e is InvalidConfig ==> e@ == ErrorView::InvalidConfig(e->InvalidConfig_0@),
        e is CoalescedFailure ==> e@ == ErrorView::CoalescedFailure(e->CoalescedFailure_0@),
        e is SessionNotFound ==> e@ == ErrorView::SessionNotFound(e->SessionNotFound_0@),
{
}

} // verus!
