//! Solutions, and the replies of the `/v1` endpoint that they come from.

use crate::cookie;
use crate::cookie::{Cookie, CookieView};
use crate::error::{AntibotError, ErrorView};
use crate::text;
use crate::time::{Duration, SystemTime};
use vstd::prelude::*;

verus! {

/// Where this solution came from.
#[derive(Debug, Clone, Copy, PartialEq, Eq, Structural)]
pub enum SolutionSource {
    /// A fresh solve was performed by the underlying provider.
    Fresh,
    /// Returned from the in-process session cache.
    Cached { age: Duration },
}

impl SolutionSource {
    pub fn is_cached(&self) -> (b: bool)
        ensures
            b == (self is Cached),
    {
        matches!(self, SolutionSource::Cached { .. })
    }
}

/// Result of a solve. `response` is `None` for cache hits when only the
/// cookies/user-agent were preserved; check [`SolutionSource`] to disambiguate.
#[derive(Debug)]
pub struct Solution {
    pub url: String,
    pub status: u16,
    pub cookies: Vec<Cookie>,
    pub user_agent: String,
    /// Fully rendered HTML of the page. `None` on session-cache hits, and when only the cookies
    /// were asked for.
    pub response: Option<String>,
    pub solved_at: SystemTime,
    pub source: SolutionSource,
}

/// What a [`Solution`] says.
pub struct SolutionView {
    pub url: Seq<char>,
    pub status: u16,
    pub cookies: Seq<CookieView>,
    pub user_agent: Seq<char>,
    pub response: Option<Seq<char>>,
    pub solved_at: SystemTime,
    pub source: SolutionSource,
}

impl View for Solution {
    type V = SolutionView;

    open spec fn view(&self) -> SolutionView {
        SolutionView {
            url: self.url@,
            status: self.status,
            cookies: cookie::views(self.cookies@),
            user_agent: self.user_agent@,
            response: text::opt_text(self.response),
            solved_at: self.solved_at,
            source: self.source,
        }
    }
}

impl Clone for Solution {
    fn clone(&self) -> (r: Self)
        ensures
            r@ == self@,
    {
        Solution {
            url: self.url.clone(),
            status: self.status,
            cookies: cookie::clone_all(&self.cookies),
            user_agent: self.user_agent.clone(),
            response: self.response.clone(),
            solved_at: self.solved_at,
            source: self.source,
        }
    }
}

/// What the outcome of a solve says.
pub open spec fn outcome(r: Result<Solution, AntibotError>) -> Result<SolutionView, ErrorView> {
    match r {
        Ok(s) => Ok(s@),
        Err(e) => Err(e@),
    }
}

impl Solution {
    /// Format the cookies that have not expired at `now` as a `Cookie` header value.
    pub fn cookie_header(&self, now: SystemTime) -> (s: String)
        ensures
            s@ == text::joined(cookie::live_pairs(self@.cookies, now), "; "@),
    {
        cookie::header_value(&self.cookies, now)
    }

    /// HTML body, or empty string if absent.
    pub fn html(&self) -> (s: &str)
        ensures
            s@ == match self@.response {
                Some(html) => html,
                None => Seq::empty(),
            },
    {
        match &self.response {
            Some(html) => html.as_str(),
            None => {
                proof {
                    reveal_strlit("");
                }
                ""
            },
        }
    }

    /// The solution that the provider returned, received at `now`.
    pub fn from_wire(s: WireSolution, now: SystemTime) -> (r: Self)
        ensures
            r@ == fresh_solution(s@, now),
    {
        Solution {
            url: s.url,
            status: s.status,
            cookies: s.cookies,
            user_agent: s.user_agent,
            response: s.response,
            solved_at: now,
            source: SolutionSource::Fresh,
        }
    }
}

/// The solution that stands for the provider's reply `s`, received at `now`.
pub open spec fn fresh_solution(s: WireSolutionView, now: SystemTime) -> SolutionView {
    SolutionView {
        url: s.url,
        status: s.status,
        cookies: s.cookies,
        user_agent: s.user_agent,
        response: s.response,
        solved_at: now,
        source: SolutionSource::Fresh,
    }
}

/// Solution as returned by FlareSolverr/Byparr `/v1`.
#[derive(Debug)]
pub struct WireSolution {
    pub url: String,
    pub status: u16,
    pub cookies: Vec<Cookie>,
    pub user_agent: String,
    /// Absent when only the cookies were asked for.
    pub response: Option<String>,
}

/// What a [`WireSolution`] says.
pub struct WireSolutionView {
    pub url: Seq<char>,
    pub status: u16,
    pub cookies: Seq<CookieView>,
    pub user_agent: Seq<char>,
    pub response: Option<Seq<char>>,
}

impl View for WireSolution {
    type V = WireSolutionView;

    open spec fn view(&self) -> WireSolutionView {
        WireSolutionView {
            url: self.url@,
            status: self.status,
            cookies: cookie::views(self.cookies@),
            user_agent: self.user_agent@,
            response: text::opt_text(self.response),
        }
    }
}

/// Full response from the `/v1` endpoint.
#[derive(Debug)]
pub struct ApiResponse {
    pub status: String,
    pub message: String,
    pub solution: Option<WireSolution>,
    /// Returned for `sessions.create` (and similar lifecycle calls).
    pub session: Option<String>,
}

/// What an [`ApiResponse`] says.
pub struct ApiResponseView {
    pub status: Seq<char>,
    pub message: Seq<char>,
    pub solution: Option<WireSolutionView>,
    pub session: Option<Seq<char>>,
}

impl View for ApiResponse {
    type V = ApiResponseView;

    open spec fn view(&self) -> ApiResponseView {
        ApiResponseView {
            status: self.status@,
            message: self.message@,
            solution: match self.solution {
                Some(s) => Some(s@),
                None => None,
            },
            session: text::opt_text(self.session),
        }
    }
}

/// A solution is the provider's, part by part, with the time it was received; it is fresh.
pub proof fn solutions_are_the_providers(s: WireSolutionView, now: SystemTime)
    ensures
        fresh_solution(s, now).url == s.url,
        fresh_solution(s, now).status == s.status,
        fresh_solution(s, now).cookies == s.cookies,
        fresh_solution(s, now).user_agent == s.user_agent,
        fresh_solution(s, now).response == s.response,
        fresh_solution(s, now).solved_at == now,
        fresh_solution(s, now).source == SolutionSource::Fresh,
{
}

/// What a solution, a provider's solution and its answer say is what their fields hold.
pub proof fn solutions_say_what_they_hold(s: Solution, w: WireSolution, r: ApiResponse, i: int)
    ensures
        s@.url == s.url@,
        s@.status == s.status,
        s@.cookies.len() == s.cookies@.len(),
        0 <= i < s.cookies@.len() ==> s@.cookies[i] == s.cookies@[i]@,
        s@.user_agent == s.user_agent@,
        s@.response is Some <==> s.response is Some,
        s.response is Some ==> s@.response->0 == s.response->0@,
        s@.solved_at == s.solved_at,
        s@.source == s.source,
        w@.url == w.url@,
        w@.status == w.status,
        w@.cookies.len() == w.cookies@.len(),
        0 <= i < w.cookies@.len() ==> w@.cookies[i] == w.cookies@[i]@,
        w@.user_agent == w.user_agent@,
        w@.response is Some <==> w.response is Some,
        w.response is Some ==> w@.response->0 == w.response->0@,
        r@.status == r.status@,
        r@.message == r.message@,
        r@.solution is Some <==> r.solution is Some,
        r.solution is Some ==> r@.solution->0 == r.solution->0@,
        r@.session is Some <==> r.session is Some,
        r.session is Some ==> r@.session->0 == r.session->0@,
{
}

/// The outcome of a solve is told as it is.
pub proof fn outcomes_are_told_as_they_are(s: Solution, e: AntibotError)
    ensures
        outcome(Ok(s)) == Ok::<SolutionView, ErrorView>(s@),
        outcome(Err(e)) == Err::<SolutionView, ErrorView>(e@),
{
}

} // verus!
