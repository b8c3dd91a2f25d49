//! Coalesce concurrent solves for the same key. When N callers race to solve
//! the same domain (or URL), only one provider call is made and the rest wait
//! on the same result.

use crate::error;
use crate::error::{AntibotError, ErrorView};
use crate::metrics;
use crate::metrics::Metrics;
use crate::session_cache;
use crate::session_cache::HostView;
use crate::store;
use crate::store::Slab;
use crate::text;
use crate::time;
use crate::time::SystemTime;
use crate::types;
use crate::types::{Solution, SolutionSource, SolutionView};
use dashmap::DashMap;
use vstd::prelude::*;

verus! {

/// Strategy for grouping in-flight solves.
#[derive(Debug, Clone, Copy, PartialEq, Eq, Structural)]
pub enum CoalesceKey {
    /// Coalesce all solves for the same registrable host (e.g. `walmart.com`).
    Domain,
    /// Coalesce only when the full URL matches.
    Url,
}

/// Where a coalesced call stands.
pub enum CallState {
    /// It claimed the key and runs the solve.
    Leading { key: String },
    /// It waits for the result of the call `leader`.
    Waiting { key: String, leader: usize },
    /// Its leader has finished; a failure is carried as its message.
    Ready { outcome: Result<Solution, String> },
    /// Its leader went away without a result.
    Orphaned { key: String },
}

/// What a finished solve hands to those that waited for it: the solution, or the message of the
/// failure.
pub type SharedView = Result<SolutionView, Seq<char>>;

/// What a [`CallState`] says.
pub enum CallView {
    Leading { key: Seq<char> },
    Waiting { key: Seq<char>, leader: usize },
    Ready { outcome: SharedView },
    Orphaned { key: Seq<char> },
}

pub open spec fn shared_view(r: Result<Solution, String>) -> SharedView {
    match r {
        Ok(s) => Ok(s@),
        Err(m) => Err(m@),
    }
}

impl View for CallState {
    type V = CallView;

    open spec fn view(&self) -> CallView {
        match self {
            CallState::Leading { key } => CallView::Leading { key: key@ },
            CallState::Waiting { key, leader } => CallView::Waiting { key: key@, leader: *leader },
            CallState::Ready { outcome } => CallView::Ready { outcome: shared_view(*outcome) },
            CallState::Orphaned { key } => CallView::Orphaned { key: key@ },
        }
    }
}

/// The calls of a coalescer: which call leads for each key, and where every call stands.
pub struct CoalescerView {
    pub inflight: Map<Seq<char>, usize>,
    pub calls: Map<usize, CallView>,
}

/// What a call must do next.
pub enum CallStep {
    /// Run the solve, then settle or cancel.
    Lead,
    /// Wait until some leader settles or cancels, then ask again.
    Wait,
    /// The call is over.
    Done(Result<Solution, AntibotError>),
}

/// The state of a call that asks for `key`: it waits for the leader there is, or leads itself.
pub open spec fn joining(c: CoalescerView, key: Seq<char>) -> CallView {
    if c.inflight.contains_key(key) {
        CallView::Waiting { key, leader: c.inflight[key] }
    } else {
        CallView::Leading { key }
    }
}

/// The calls after call `id` asks for `key`.
pub open spec fn joined_as(c: CoalescerView, id: usize, key: Seq<char>) -> CoalescerView {
    CoalescerView {
        inflight: if c.inflight.contains_key(key) {
            c.inflight
        } else {
            c.inflight.insert(key, id)
        },
        calls: c.calls.insert(id, joining(c, key)),
    }
}

pub open spec fn waits_on(call: CallView, leader: usize) -> bool {
    call is Waiting && call->Waiting_leader == leader
}

/// What a finished solve hands to those that waited for it.
pub open spec fn shared_outcome(r: Result<SolutionView, ErrorView>) -> SharedView {
    match r {
        Ok(s) => Ok(s),
        Err(e) => Err(error::message_of(e)),
    }
}

/// What becomes of a call when the call `leader` ends, with a result to share or without one.
pub open spec fn after_leader(call: CallView, leader: usize, shared: Option<SharedView>) -> CallView {
    if waits_on(call, leader) {
        match shared {
            Some(outcome) => CallView::Ready { outcome },
            None => CallView::Orphaned { key: call->Waiting_key },
        }
    } else {
        call
    }
}

/// The calls after `id`, the leader of `key`, ends.
pub open spec fn left_by(
    c: CoalescerView,
    id: usize,
    key: Seq<char>,
    shared: Option<SharedView>,
) -> CoalescerView {
    CoalescerView {
        inflight: c.inflight.remove(key),
        calls: c.calls.remove(id).map_values(|call: CallView| after_leader(call, id, shared)),
    }
}

/// The calls after the call `id` is given up.
pub open spec fn cancelled(c: CoalescerView, id: usize) -> CoalescerView {
    match c.calls[id] {
        CallView::Leading { key } => left_by(c, id, key, None),
        _ => CoalescerView { inflight: c.inflight, calls: c.calls.remove(id) },
    }
}

/// What a waiter makes of the shared result: a solution it did not trigger itself, marked as such,
/// or the failure of its leader.
pub open spec fn waiter_result(
    outcome: SharedView,
    now: SystemTime,
) -> Result<SolutionView, ErrorView> {
    match outcome {
        Ok(s) => Ok(
            SolutionView {
                source: SolutionSource::Cached { age: time::system_since(now, s.solved_at) },
                ..s
            },
        ),
        Err(m) => Err(ErrorView::CoalescedFailure(m)),
    }
}

/// Turns the shared result into the waiter's own outcome.
pub fn waiter_outcome(snapshot: Result<Solution, String>, now: SystemTime) -> (r: Result<
    Solution,
    AntibotError,
>)
    ensures
        types::outcome(r) == waiter_result(shared_view(snapshot), now),
{
    match snapshot {
        Ok(sol) => Ok(stamp_cached(sol, now)),
        Err(msg) => Err(AntibotError::CoalescedFailure(msg)),
    }
}

/// When a coalesced waiter receives a leader's solution, mark its source so the
/// caller can tell it didn't trigger the actual solve.
fn stamp_cached(sol: Solution, now: SystemTime) -> (r: Solution)
    ensures
        r@ == (SolutionView {
            source: SolutionSource::Cached { age: time::system_since(now, sol@.solved_at) },
            ..sol@
        }),
{
    let mut sol = sol;
    let age = now.since(sol.solved_at);
    sol.source = SolutionSource::Cached { age };
    sol
}

fn share(outcome: &Result<Solution, AntibotError>) -> (s: Result<Solution, String>)
    ensures
        shared_view(s) == shared_outcome(types::outcome(*outcome)),
{
    match outcome {
        Ok(sol) => Ok(sol.clone()),
        Err(e) => Err(e.message()),
    }
}

fn copy_shared(s: &Result<Solution, String>) -> (r: Result<Solution, String>)
    ensures
        shared_view(r) == shared_view(*s),
{
    match s {
        Ok(sol) => Ok(sol.clone()),
        Err(m) => Err(m.clone()),
    }
}

/// The key under which solves of `url` are grouped.
pub open spec fn coalesce_key_of(strategy: CoalesceKey, url: Seq<char>) -> Option<Seq<char>> {
    match strategy {
        CoalesceKey::Domain => session_cache::url_key(url),
        CoalesceKey::Url => Some(url),
    }
}

/// The rules that the calls keep: the leader of a key is a call that leads for it, every call that
/// leads is the leader of its key, and every call that waits waits for a call that leads.
pub open spec fn coherent(c: CoalescerView) -> bool {
    &&& forall|k: Seq<char>| #[trigger]
        c.inflight.contains_key(k) ==> c.calls.contains_key(c.inflight[k])
            && c.calls[c.inflight[k]] == (CallView::Leading { key: k })
    &&& forall|i: usize| #[trigger]
        c.calls.contains_key(i) ==> match c.calls[i] {
            CallView::Leading { key } => c.inflight.contains_key(key) && c.inflight[key] == i,
            CallView::Waiting { key, leader } => c.inflight.contains_key(key) && c.inflight[key]
                == leader && leader != i,
            _ => true,
        }
}

pub struct SolveCoalescer {
    inflight: DashMap<String, usize>,
    calls: Slab<CallState>,
    key_strategy: CoalesceKey,
}

impl View for SolveCoalescer {
    type V = CoalescerView;

    closed spec fn view(&self) -> CoalescerView {
        CoalescerView {
            inflight: store::index_entries(self.inflight),
            calls: self.calls@.map_values(|s: CallState| s@),
        }
    }
}

impl SolveCoalescer {
    pub open spec fn wf(&self) -> bool {
        coherent(self@)
    }

    /// How this coalescer groups solves.
    pub closed spec fn strategy(&self) -> CoalesceKey {
        self.key_strategy
    }

    pub fn new(key_strategy: CoalesceKey) -> (c: Self)
        ensures
            c.wf(),
            c@.inflight == Map::<Seq<char>, usize>::empty(),
            c@.calls == Map::<usize, CallView>::empty(),
            c.strategy() == key_strategy,
    {
        let c = SolveCoalescer { inflight: store::index_new(), calls: Slab::new(), key_strategy };
        assert(c@.inflight =~= Map::<Seq<char>, usize>::empty());
        assert(c@.calls =~= Map::<usize, CallView>::empty());
        c
    }

    /// Compute the coalescer key for a request.
    pub fn key_for(&self, url: &str) -> (key: Option<String>)
        ensures
            text::opt_text(key) == coalesce_key_of(self.strategy(), url@),
    {
        match self.key_strategy {
            CoalesceKey::Domain => session_cache::extract_domain(url),
            CoalesceKey::Url => Some(url.to_string()),
        }
    }

    /// Enters a call for `key`: it becomes the leader unless there is one, in which case it waits,
    /// and the wait is counted. Returns the handle of the call.
    pub fn join(&mut self, key: String, metrics: &mut Metrics) -> (id: usize)
        requires
            old(self).wf(),
        ensures
            final(self).wf(),
            final(self).strategy() == old(self).strategy(),
            !old(self)@.calls.contains_key(id),
            final(self)@ == joined_as(old(self)@, id, key@),
            *final(metrics) == if old(self)@.inflight.contains_key(key@) {
                metrics::with_coalesced_wait(*old(metrics))
            } else {
                *old(metrics)
            },
    {
        let ghost before = self@;
        let ghost k = key@;
        match store::index_get(&self.inflight, key.as_str()) {
            Some(leader) => {
                metrics.record_coalesced_wait();
                let id = self.calls.insert(CallState::Waiting { key, leader });
                assert(self@.calls =~= joined_as(before, id, k).calls);
                id
            },
            None => {
                let id = self.calls.insert(CallState::Leading { key: key.clone() });
                store::index_insert(&mut self.inflight, key, id);
                assert(self@.calls =~= joined_as(before, id, k).calls);
                id
            },
        }
    }

    /// What the call `id` must do next. A call whose leader went away asks for its key again; a
    /// call whose leader has finished is over with this step.
    pub fn solve_or_wait(&mut self, id: usize, now: SystemTime) -> (step: CallStep)
        requires
            old(self).wf(),
            old(self)@.calls.contains_key(id),
        ensures
            final(self).wf(),
            final(self).strategy() == old(self).strategy(),
            match old(self)@.calls[id] {
                CallView::Leading { .. } => step is Lead && final(self)@ == old(self)@,
                CallView::Waiting { .. } => step is Wait && final(self)@ == old(self)@,
                CallView::Ready { outcome } => {
                    &&& step matches CallStep::Done(r) && types::outcome(r) == waiter_result(
                        outcome,
                        now,
                    )
                    &&& final(self)@ == cancelled(old(self)@, id)
                },
                CallView::Orphaned { key } => {
                    &&& final(self)@ == joined_as(old(self)@, id, key)
                    &&& step is Wait <==> old(self)@.inflight.contains_key(key)
                    &&& step is Lead <==> !old(self)@.inflight.contains_key(key)
                },
            },
    {
        let ghost before = self@;
        let orphaned = match self.calls.get(id) {
            CallState::Leading { .. } => return CallStep::Lead,
            CallState::Waiting { .. } => return CallStep::Wait,
            CallState::Ready { .. } => None,
            CallState::Orphaned { key } => Some(key.clone()),
        };
        match orphaned {
            None => {
                let state = self.calls.remove(id);
                assert(self@.calls =~= before.calls.remove(id));
                match state {
                    CallState::Ready { outcome } => CallStep::Done(waiter_outcome(outcome, now)),
                    _ => vstd::pervasive::unreached(),
                }
            },
            Some(key) => {
                let ghost k = key@;
                match store::index_get(&self.inflight, key.as_str()) {
                    Some(leader) => {
                        let _orphan = self.calls.replace(id, CallState::Waiting { key, leader });
                        assert(self@.calls =~= joined_as(before, id, k).calls);
                        CallStep::Wait
                    },
                    None => {
                        let _orphan = self.calls.replace(id, CallState::Leading { key: key.clone() });
                        store::index_insert(&mut self.inflight, key, id);
                        assert(self@.calls =~= joined_as(before, id, k).calls);
                        CallStep::Lead
                    },
                }
            },
        }
    }

    /// The leading call `id` is over with `outcome`: its key is free again, and every call that
    /// waited for it has the result.
    pub fn settle(&mut self, id: usize, outcome: &Result<Solution, AntibotError>)
        requires
            old(self).wf(),
            old(self)@.calls.contains_key(id),
            old(self)@.calls[id] is Leading,
        ensures
            final(self).wf(),
            final(self).strategy() == old(self).strategy(),
            final(self)@ == left_by(
                old(self)@,
                id,
                old(self)@.calls[id]->Leading_key,
                Some(shared_outcome(types::outcome(*outcome))),
            ),
    {
        let state = self.calls.remove(id);
        if let CallState::Leading { key } = state {
            self.end_lead(id, key, Some(share(outcome)), Ghost(old(self)@));
        }
    }

    /// Gives up the call `id`. If it leads, its key is free again, and the calls that waited for it
    /// are on their own.
    pub fn cancel(&mut self, id: usize)
        requires
            old(self).wf(),
            old(self)@.calls.contains_key(id),
        ensures
            final(self).wf(),
            final(self).strategy() == old(self).strategy(),
            final(self)@ == cancelled(old(self)@, id),
    {
        let ghost before = self@;
        let state = self.calls.remove(id);
        assert(self@.calls =~= before.calls.remove(id));
        if let CallState::Leading { key } = state {
            self.end_lead(id, key, None, Ghost(old(self)@));
        }
    }

    /// The rest of ending the lead of `key`, whose call `id` is out of the slab already.
    fn end_lead(
        &mut self,
        id: usize,
        key: String,
        shared: Option<Result<Solution, String>>,
        Ghost(before): Ghost<CoalescerView>,
    )
        requires
            coherent(before),
            before.calls.contains_key(id),
            before.calls[id] == (CallView::Leading { key: key@ }),
            old(self)@.inflight == before.inflight,
            old(self)@.calls =~= before.calls.remove(id),
        ensures
            final(self).wf(),
            final(self).strategy() == old(self).strategy(),
            final(self)@ == left_by(before, id, key@, opt_shared(shared)),
    {
        let ghost rest = self.calls@;
        let _led = store::index_remove(&mut self.inflight, key.as_str());
        let ghost index = self.inflight;
        let n = self.calls.bound();
        let mut i: usize = 0;
        while i < n
            invariant
                i <= n,
                forall|j: usize| #[trigger] rest.contains_key(j) ==> j < n,
                self.key_strategy == old(self).key_strategy,
                self.inflight == index,
                self.calls@.dom() =~= rest.dom(),
                forall|j: usize| #[trigger]
                    rest.contains_key(j) ==> self.calls@[j]@ == if j < i {
                        after_leader(rest[j]@, id, opt_shared(shared))
                    } else {
                        rest[j]@
                    },
            decreases n - i,
        {
            let orphan = match self.calls.find(i) {
                Some(CallState::Waiting { key, leader }) if *leader == id => Some(key.clone()),
                _ => None,
            };
            if let Some(key) = orphan {
                let state = match &shared {
                    Some(outcome) => CallState::Ready { outcome: copy_shared(outcome) },
                    None => CallState::Orphaned { key },
                };
                let _waiter = self.calls.replace(i, state);
            }
            i = i + 1;
        }
        proof {
            let after = left_by(before, id, key@, opt_shared(shared));
            assert(self@.calls =~= after.calls) by {
                assert forall|j: usize| after.calls.contains_key(j) implies self@.calls[j]
                    == after.calls[j] by {
                    assert(rest.contains_key(j));
                    assert(old(self)@.calls[j] == before.calls[j]);
                }
            }
            leaving_keeps_coherence(before, id, key@, opt_shared(shared));
        }
    }
}

pub open spec fn opt_shared(s: Option<Result<Solution, String>>) -> Option<SharedView> {
    match s {
        Some(r) => Some(shared_view(r)),
        None => None,
    }
}

proof fn leaving_keeps_coherence(
    c: CoalescerView,
    id: usize,
    key: Seq<char>,
    shared: Option<SharedView>,
)
    requires
        coherent(c),
        c.calls.contains_key(id),
        c.calls[id] == (CallView::Leading { key }),
    ensures
        coherent(left_by(c, id, key, shared)),
{
    let after = left_by(c, id, key, shared);
    assert forall|k: Seq<char>| #[trigger] after.inflight.contains_key(k) implies {
        &&& after.calls.contains_key(after.inflight[k])
        &&& after.calls[after.inflight[k]] == (CallView::Leading { key: k })
    } by {
        assert(c.inflight.contains_key(k));
    }
    assert forall|i: usize| #[trigger] after.calls.contains_key(i) implies (match after.calls[i] {
        CallView::Leading { key } => after.inflight.contains_key(key) && after.inflight[key] == i,
        CallView::Waiting { key, leader } => after.inflight.contains_key(key)
            && after.inflight[key] == leader && leader != i,
        _ => true,
    }) by {
        assert(c.calls.contains_key(i));
    }
}

/// No two calls lead for the same key, so at most one solve per key runs at a time.
pub proof fn one_leader_per_key(c: CoalescerView, a: usize, b: usize)
    requires
        coherent(c),
        c.calls.contains_key(a),
        c.calls.contains_key(b),
        c.calls[a] is Leading,
        c.calls[b] is Leading,
        c.calls[a]->Leading_key == c.calls[b]->Leading_key,
    ensures
        a == b,
{
}

/// A call that waits waits for a call that is running the solve of the same key: whatever waits
/// will be answered.
pub proof fn waiters_have_a_leader(c: CoalescerView, id: usize)
    requires
        coherent(c),
        c.calls.contains_key(id),
        c.calls[id] is Waiting,
    ensures
        c.calls.contains_key(c.calls[id]->Waiting_leader),
        c.calls[c.calls[id]->Waiting_leader] == (CallView::Leading {
            key: c.calls[id]->Waiting_key,
        }),
{
    assert(c.inflight.contains_key(c.calls[id]->Waiting_key));
}

/// When a leader finishes, every call that waited for it holds the shared result, and nothing else
/// changes for the others; when it goes away instead, its waiters are free to ask again, and the
/// first of them to do so leads.
pub proof fn the_end_of_a_lead_reaches_every_waiter(
    c: CoalescerView,
    id: usize,
    waiter: usize,
    other: usize,
    outcome: SharedView,
)
    requires
        coherent(c),
        c.calls.contains_key(id),
        c.calls[id] is Leading,
        c.calls.contains_key(waiter),
        waits_on(c.calls[waiter], id),
        c.calls.contains_key(other),
        other != id,
        !waits_on(c.calls[other], id),
    ensures
        left_by(c, id, c.calls[id]->Leading_key, Some(outcome)).calls[waiter]
            == (CallView::Ready { outcome }),
        left_by(c, id, c.calls[id]->Leading_key, Some(outcome)).calls[other] == c.calls[other],
        cancelled(c, id).calls[waiter] == (CallView::Orphaned {
            key: c.calls[id]->Leading_key,
        }),
        cancelled(c, id).calls[other] == c.calls[other],
        joining(cancelled(c, id), c.calls[id]->Leading_key) == (CallView::Leading {
            key: c.calls[id]->Leading_key,
        }),
{
}

/// Grouped by URL, every solve has a key, and two solves have the same key if and only if their
/// URLs are the same text: a call never waits for the solve of another URL.
pub proof fn url_keys_tell_all_urls_apart(u: Seq<char>, v: Seq<char>)
    ensures
        coalesce_key_of(CoalesceKey::Url, u) is Some,
        coalesce_key_of(CoalesceKey::Url, u) == coalesce_key_of(CoalesceKey::Url, v) <==> u == v,
        coalesce_key_of(CoalesceKey::Url, u)->0 == u,
{
}

/// Grouped by domain, solves have a key if and only if their URL has a host, and hosts of one
/// registrable domain share it; a host without one, and an address, has a key of its own.
pub proof fn domain_keys_are_those_of_the_site(u: Seq<char>, host: Seq<char>, site: Seq<char>)
    ensures
        coalesce_key_of(CoalesceKey::Domain, u) is Some <==> session_cache::url_host(u) is Some,
        session_cache::url_host(u) == Some(HostView::Domain(host))
            && session_cache::registrable_domain(text::ascii_lower(host)) == Some(site)
            ==> coalesce_key_of(CoalesceKey::Domain, u) == Some(site),
        session_cache::url_host(u) == Some(HostView::Domain(host))
            && session_cache::registrable_domain(text::ascii_lower(host)) is None
            ==> coalesce_key_of(CoalesceKey::Domain, u) == Some(text::ascii_lower(host)),
        session_cache::url_host(u) == Some(HostView::Address(host)) ==> coalesce_key_of(
            CoalesceKey::Domain,
            u,
        ) == Some(text::ascii_lower(host)),
{
}

/// With solves grouped by URL, a call that is to wait waits for a call that solves the very same
/// URL, and one that finds nobody solving that URL leads.
pub proof fn calls_only_wait_for_their_own_url(
    c: CoalescerView,
    id: usize,
    url: Seq<char>,
    other: Seq<char>,
)
    requires
        coherent(c),
        !c.calls.contains_key(id),
        other != url,
    ensures
        ({
            let after = joined_as(c, id, coalesce_key_of(CoalesceKey::Url, url)->0);
            let state = after.calls[id];
            &&& state is Waiting ==> after.calls[state->Waiting_leader] == (CallView::Leading {
                key: url,
            })
            &&& (forall|i: usize|
                c.calls.contains_key(i) ==> #[trigger] c.calls[i] != (CallView::Leading {
                    key: url,
                })) ==> state == (CallView::Leading { key: url })
            &&& after.inflight.contains_key(other) == c.inflight.contains_key(other)
        }),
{
    let k = coalesce_key_of(CoalesceKey::Url, url)->0;
    if c.inflight.contains_key(k) {
        assert(c.calls.contains_key(c.inflight[k]));
    }
}

/// A call that enters changes nothing for the calls that are there, nor for other keys; it waits
/// for the one that leads for its key, or becomes the leader where there is none.
pub proof fn entering_leaves_the_others_alone(
    c: CoalescerView,
    id: usize,
    key: Seq<char>,
    other: usize,
    k: Seq<char>,
)
    requires
        coherent(c),
        other != id,
        k != key,
    ensures
        ({
            let after = joined_as(c, id, key);
            &&& after.calls.contains_key(id)
            &&& after.calls.contains_key(other) == c.calls.contains_key(other)
            &&& c.calls.contains_key(other) ==> after.calls[other] == c.calls[other]
            &&& after.inflight.contains_key(k) == c.inflight.contains_key(k)
            &&& c.inflight.contains_key(k) ==> after.inflight[k] == c.inflight[k]
            &&& after.inflight.contains_key(key)
            &&& c.inflight.contains_key(key) ==> after.calls[id] == (CallView::Waiting {
                key,
                leader: c.inflight[key],
            }) && after.inflight[key] == c.inflight[key]
            &&& !c.inflight.contains_key(key) ==> after.calls[id] == (CallView::Leading { key })
                && after.inflight[key] == id
        }),
{
}

/// The end of a lead frees its key and no other, and takes the leader, and nobody else, out; a call
/// that does not lead leaves without a trace.
pub proof fn leaving_frees_one_key(
    c: CoalescerView,
    id: usize,
    shared: Option<SharedView>,
    other: usize,
    k: Seq<char>,
)
    requires
        coherent(c),
        c.calls.contains_key(id),
        other != id,
    ensures
        c.calls[id] is Leading ==> {
            let key = c.calls[id]->Leading_key;
            let after = left_by(c, id, key, shared);
            &&& !after.inflight.contains_key(key)
            &&& k != key ==> after.inflight.contains_key(k) == c.inflight.contains_key(k)
            &&& k != key && c.inflight.contains_key(k) ==> after.inflight[k] == c.inflight[k]
            &&& !after.calls.contains_key(id)
            &&& after.calls.contains_key(other) == c.calls.contains_key(other)
            &&& cancelled(c, id) == left_by(c, id, key, None)
        },
        !(c.calls[id] is Leading) ==> {
            &&& cancelled(c, id).inflight == c.inflight
            &&& !cancelled(c, id).calls.contains_key(id)
            &&& cancelled(c, id).calls.contains_key(other) == c.calls.contains_key(other)
            &&& c.calls.contains_key(other) ==> cancelled(c, id).calls[other] == c.calls[other]
        },
{
}

/// A waiter gets the leader's solution with nothing changed but its source, which says how long ago
/// the solve was; of a failure it gets the message. What is shared is the leader's own result.
pub proof fn waiters_get_the_leaders_result(
    s: SolutionView,
    e: ErrorView,
    m: Seq<char>,
    now: SystemTime,
)
    ensures
        shared_outcome(Ok(s)) == Ok::<SolutionView, Seq<char>>(s),
        shared_outcome(Err(e)) == Err::<SolutionView, Seq<char>>(error::message_of(e)),
        waiter_result(Err(m), now) == Err::<SolutionView, ErrorView>(
            ErrorView::CoalescedFailure(m),
        ),
        ({
            let r = waiter_result(Ok(s), now);
            &&& r is Ok
            &&& r->Ok_0.url == s.url
            &&& r->Ok_0.status == s.status
            &&& r->Ok_0.cookies == s.cookies
            &&& r->Ok_0.user_agent == s.user_agent
            &&& r->Ok_0.response == s.response
            &&& r->Ok_0.solved_at == s.solved_at
            &&& r->Ok_0.source is Cached
            &&& now.unix_nanos >= s.solved_at.unix_nanos ==> s.solved_at.unix_nanos
                + r->Ok_0.source->age.nanos == now.unix_nanos
            &&& now.unix_nanos < s.solved_at.unix_nanos ==> r->Ok_0.source->age.nanos == 0
        }),
{
}

/// What a call and a shared result say is what they hold.
pub proof fn calls_say_what_they_hold(c: CallState, s: Solution, m: String)
    ensures
        c is Leading ==> c@ == (CallView::Leading { key: c->Leading_key@ }),
        c is Waiting ==> c@ == (CallView::Waiting { key: c->Waiting_key@, leader: c->leader }),
        c is Ready ==> c@ == (CallView::Ready { outcome: shared_view(c->outcome) }),
        c is Orphaned ==> c@ == (CallView::Orphaned { key: c->Orphaned_key@ }),
        shared_view(Ok(s)) == Ok::<SolutionView, Seq<char>>(s@),
        shared_view(Err(m)) == Err::<SolutionView, Seq<char>>(m@),
{
}

} // verus!
