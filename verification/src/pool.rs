//! Solver instances and the routing of requests among them.

use vstd::prelude::*;

verus! {

/// One solver endpoint plus its live load accounting, used to route to the
/// least-busy instance and optionally cap concurrent solves per instance.
#[derive(Debug)]
pub struct Instance {
    pub base_url: String,
    /// Solves currently dispatched to (or queued for) this instance.
    pub inflight: usize,
    /// Present when a per-instance concurrency cap is configured; provides
    /// backpressure so a single browser isn't overwhelmed.
    pub permits: Option<usize>,
    /// Permits that are taken.
    pub running: usize,
}

/// What an [`Instance`] says.
pub struct InstanceView {
    pub base_url: Seq<char>,
    pub inflight: usize,
    pub permits: Option<usize>,
    pub running: usize,
}

impl View for Instance {
    type V = InstanceView;

    open spec fn view(&self) -> InstanceView {
        InstanceView {
            base_url: self.base_url@,
            inflight: self.inflight,
            permits: self.permits,
            running: self.running,
        }
    }
}

/// Concurrent solves that a cap of `max` allows: at least one.
pub open spec fn permits_for(max: Option<usize>) -> Option<usize> {
    match max {
        Some(n) => Some(
            if n < 1 {
                1
            } else {
                n
            },
        ),
        None => None,
    }
}

/// An instance that nothing has been sent to.
pub open spec fn idle_instance(base_url: Seq<char>, max_inflight: Option<usize>) -> InstanceView {
    InstanceView { base_url, inflight: 0, permits: permits_for(max_inflight), running: 0 }
}

impl Instance {
    pub fn new(base_url: String, max_inflight: Option<usize>) -> (i: Self)
        ensures
            i@ == idle_instance(base_url@, max_inflight),
    {
        Instance {
            base_url,
            inflight: 0,
            permits: match max_inflight {
                Some(n) => Some(
                    if n < 1 {
                        1
                    } else {
                        n
                    },
                ),
                None => None,
            },
            running: 0,
        }
    }
}

/// The instances of a client, and where the next tie among them is broken.
pub struct PoolView {
    pub instances: Seq<InstanceView>,
    pub cursor: usize,
}

/// A pool of at least one instance.
pub struct InstancePool {
    instances: Vec<Instance>,
    /// Rotating offset for tie-breaking among equally-loaded instances, so
    /// idle pools still round-robin instead of always picking index 0.
    cursor: usize,
}

pub open spec fn instance_views(v: Seq<Instance>) -> Seq<InstanceView> {
    v.map_values(|i: Instance| i@)
}

impl View for InstancePool {
    type V = PoolView;

    closed spec fn view(&self) -> PoolView {
        PoolView { instances: instance_views(self.instances@), cursor: self.cursor }
    }
}

/// The instance that comes `k` places after `start` in a ring of `n`.
pub open spec fn place(n: int, start: int, k: int) -> int {
    if start + k < n {
        start + k
    } else {
        start + k - n
    }
}

/// Load of the instance that comes `k` places after `start`.
pub open spec fn load_at(instances: Seq<InstanceView>, start: int, k: int) -> usize {
    instances[place(instances.len() as int, start, k)].inflight
}

/// Whether the instance `k` places after `start` has less load than every one before it in the
/// ring, and no more than any one after it.
pub open spec fn first_least(instances: Seq<InstanceView>, start: int, k: int) -> bool {
    &&& 0 <= k < instances.len()
    &&& forall|j: int|
        0 <= j < k ==> load_at(instances, start, k) < #[trigger] load_at(instances, start, j)
    &&& forall|j: int|
        k <= j < instances.len() ==> load_at(instances, start, k) <= #[trigger] load_at(
            instances,
            start,
            j,
        )
}

/// Whether `i` is the instance to pick when the search begins at `start`: the first in the ring,
/// from there on, that no other has less load than.
pub open spec fn is_pick(instances: Seq<InstanceView>, start: int, i: int) -> bool {
    exists|k: int|
        #[trigger] first_least(instances, start, k) && i == place(
            instances.len() as int,
            start,
            k,
        )
}

/// Index of the first instance with this URL, or the number of instances when there is none.
pub open spec fn position(instances: Seq<InstanceView>, url: Seq<char>) -> int
    decreases instances.len(),
{
    if instances.len() == 0 || instances[0].base_url == url {
        0
    } else {
        position(instances.skip(1), url) + 1
    }
}

/// The pool after the least-loaded instance has been looked up: the tie-break moves on, unless
/// there is nothing to choose from.
pub open spec fn after_pick(p: PoolView) -> PoolView {
    if p.instances.len() == 1 {
        p
    } else {
        PoolView { cursor: p.cursor.wrapping_add(1), ..p }
    }
}

/// Where the search for the least-loaded instance begins.
pub open spec fn pick_start(p: PoolView) -> int {
    if p.instances.len() == 1 {
        0
    } else {
        p.cursor as int % p.instances.len() as int
    }
}

/// The pool with one more solve counted on instance `i`.
pub open spec fn with_load(p: PoolView, i: int) -> PoolView {
    PoolView {
        instances: p.instances.update(
            i,
            InstanceView {
                inflight: p.instances[i].inflight.wrapping_add(1),
                ..p.instances[i]
            },
        ),
        ..p
    }
}

/// Whether instance `i` has a permit left for another solve.
pub open spec fn has_room(p: PoolView, i: int) -> bool {
    match p.instances[i].permits {
        Some(n) => p.instances[i].running < n,
        None => true,
    }
}

/// The pool after a solve has asked for a permit of instance `i`: it takes one if there is one.
pub open spec fn after_admission(p: PoolView, i: int) -> PoolView {
    if p.instances[i].permits is Some && has_room(p, i) {
        PoolView {
            instances: p.instances.update(
                i,
                InstanceView {
                    running: (p.instances[i].running + 1) as usize,
                    ..p.instances[i]
                },
            ),
            ..p
        }
    } else {
        p
    }
}

/// The pool after a reservation of instance `i` has ended: one solve less is counted on it, and the
/// permit is given back, where one was taken.
pub open spec fn after_release(p: PoolView, i: int, admitted: bool) -> PoolView {
    PoolView {
        instances: p.instances.update(
            i,
            InstanceView {
                inflight: p.instances[i].inflight.wrapping_sub(1),
                running: if admitted && p.instances[i].permits is Some && p.instances[i].running
                    > 0 {
                    (p.instances[i].running - 1) as usize
                } else {
                    p.instances[i].running
                },
                ..p.instances[i]
            },
        ),
        ..p
    }
}

/// Whether no instance has more permits taken than it has.
pub open spec fn within_caps(p: PoolView) -> bool {
    forall|i: int|
        0 <= i < p.instances.len() && (#[trigger] p.instances[i]).permits is Some
            ==> p.instances[i].running <= p.instances[i].permits->0
}

/// Whether a request that is pinned to `pinned`, if to anything, may be sent to instance `i`: the
/// pinned one where the pool has it, else the least-loaded.
pub open spec fn routes_to(p: PoolView, pinned: Option<Seq<char>>, i: int) -> bool {
    if pinned is Some && position(p.instances, pinned->0) < p.instances.len() {
        i == position(p.instances, pinned->0)
    } else {
        is_pick(p.instances, pick_start(p), i)
    }
}

/// The pool after instance `i` has been reserved for a request.
pub open spec fn leased(p: PoolView, pinned: Option<Seq<char>>, i: int) -> PoolView {
    if pinned is Some && position(p.instances, pinned->0) < p.instances.len() {
        with_load(p, i)
    } else {
        with_load(after_pick(p), i)
    }
}

impl InstancePool {
    pub open spec fn wf(&self) -> bool {
        self@.instances.len() > 0 && within_caps(self@)
    }

    /// A pool of idle instances at `urls`, each allowed `max_inflight` solves at a time.
    pub fn new(urls: Vec<String>, max_inflight: Option<usize>) -> (p: Self)
        requires
            urls.len() > 0,
        ensures
            p.wf(),
            p@.cursor == 0,
            p@.instances == urls@.map_values(|u: String| idle_instance(u@, max_inflight)),
    {
        let mut instances: Vec<Instance> = Vec::new();
        let mut i: usize = 0;
        while i < urls.len()
            invariant
                i <= urls.len(),
                instances.len() == i,
                forall|j: int| 0 <= j < i ==> instances@[j]@ == idle_instance(urls@[j]@, max_inflight),
            decreases urls.len() - i,
        {
            instances.push(Instance::new(urls[i].clone(), max_inflight));
            i = i + 1;
        }
        let p = InstancePool { instances, cursor: 0 };
        assert(p@.instances =~= urls@.map_values(|u: String| idle_instance(u@, max_inflight)));
        p
    }

    pub fn len(&self) -> (n: usize)
        ensures
            n == self@.instances.len(),
    {
        self.instances.len()
    }

    pub fn instance(&self, i: usize) -> (instance: &Instance)
        requires
            i < self@.instances.len(),
        ensures
            instance@ == self@.instances[i as int],
    {
        &self.instances[i]
    }

    fn find(&self, url: &str) -> (i: usize)
        ensures
            i == position(self@.instances, url@),
            i <= self@.instances.len(),
    {
        let ghost all = self@.instances;
        let target = url.to_string();
        let mut i: usize = 0;
        assert(all.skip(0) =~= all);
        while i < self.instances.len() && self.instances[i].base_url != target
            invariant
                all == self@.instances,
                target@ == url@,
                i <= all.len(),
                position(all, url@) == i + position(all.skip(i as int), url@),
            decreases self.instances.len() - i,
        {
            assert(all.skip(i as int)[0] == all[i as int]);
            assert(all.skip(i as int).skip(1) =~= all.skip(i + 1));
            i = i + 1;
        }
        if i < self.instances.len() {
            assert(all.skip(i as int)[0] == all[i as int]);
        }
        i
    }

    /// Index of the least-loaded instance, breaking ties round-robin so an
    /// all-idle pool still spreads evenly.
    pub fn pick_instance(&mut self) -> (i: usize)
        requires
            old(self).wf(),
        ensures
            final(self).wf(),
            i < old(self)@.instances.len(),
            is_pick(old(self)@.instances, pick_start(old(self)@), i as int),
            final(self)@ == after_pick(old(self)@),
    {
        let n: usize = self.instances.len();
        let ghost all = self@.instances;
        if n == 1 {
            assert(first_least(all, 0, 0));
            return 0;
        }
        let start: usize = self.cursor % n;
        self.cursor = self.cursor.wrapping_add(1);
        let mut best: usize = start;
        let mut best_load: usize = self.instances[start].inflight;
        let mut k: usize = 1;
        let ghost mut at: int = 0;
        assert(place(n as int, start as int, 0) == start);
        while k < n
            invariant
                self@.instances == all,
                n == all.len(),
                start < n,
                1 <= k <= n,
                0 <= at < k,
                best == place(n as int, start as int, at),
                best < n,
                best_load == load_at(all, start as int, at),
                forall|j: int|
                    0 <= j < at ==> best_load < #[trigger] load_at(all, start as int, j),
                forall|j: int|
                    at <= j < k ==> best_load <= #[trigger] load_at(all, start as int, j),
            decreases n - k,
        {
            let i: usize = if k < n - start {
                start + k
            } else {
                k - (n - start)
            };
            assert(i == place(n as int, start as int, k as int));
            let load: usize = self.instances[i].inflight;
            if load < best_load {
                best = i;
                best_load = load;
                proof {
                    at = k as int;
                }
            }
            k = k + 1;
        }
        assert(first_least(all, start as int, at));
        best
    }

    /// Reserve an instance for a dispatch: pick the target (the pinned one for
    /// sessions, else least-loaded) and raise its inflight count.
    ///
    /// The request counts as load before (possibly) waiting for a permit, so
    /// that others are routed around a saturated instance.
    pub fn lease_instance(&mut self, pinned_instance: Option<&str>) -> (i: usize)
        requires
            old(self).wf(),
        ensures
            final(self).wf(),
            i < old(self)@.instances.len(),
            routes_to(old(self)@, crate::text::opt_str(pinned_instance), i as int),
            final(self)@ == leased(
                old(self)@,
                crate::text::opt_str(pinned_instance),
                i as int,
            ),
    {
        let found: usize = match pinned_instance {
            Some(url) => self.find(url),
            None => self.instances.len(),
        };
        let i: usize = if found < self.instances.len() {
            found
        } else {
            self.pick_instance()
        };
        let ghost picked = self@;
        let load: usize = self.instances[i].inflight.wrapping_add(1);
        let running: usize = self.instances[i].running;
        self.set_counts(i, load, running);
        assert(self@.instances =~= with_load(picked, i as int).instances);
        i
    }

    fn set_counts(&mut self, i: usize, inflight: usize, running: usize)
        requires
            old(self).wf(),
            i < old(self)@.instances.len(),
            old(self)@.instances[i as int].permits is Some ==> running
                <= old(self)@.instances[i as int].permits->0,
        ensures
            final(self).wf(),
            final(self)@.instances == old(self)@.instances.update(
                i as int,
                InstanceView { inflight, running, ..old(self)@.instances[i as int] },
            ),
            final(self)@.cursor == old(self)@.cursor,
    {
        let ghost before = self@.instances;
        let changed = Instance {
            base_url: self.instances[i].base_url.clone(),
            inflight,
            permits: self.instances[i].permits,
            running,
        };
        self.instances.set(i, changed);
        assert(self@.instances =~= before.update(
            i as int,
            InstanceView { inflight, running, ..before[i as int] },
        ));
    }

    /// Asks for a permit of the reserved instance `i`. Without one the solve must wait until
    /// another one on the instance is over.
    pub fn take_permit(&mut self, i: usize) -> (admitted: bool)
        requires
            old(self).wf(),
            i < old(self)@.instances.len(),
        ensures
            final(self).wf(),
            admitted == has_room(old(self)@, i as int),
            final(self)@ == after_admission(old(self)@, i as int),
    {
        let n: usize = match self.instances[i].permits {
            Some(n) => n,
            None => return true,
        };
        let inflight: usize = self.instances[i].inflight;
        let running: usize = self.instances[i].running;
        if running < n {
            self.set_counts(i, inflight, running + 1);
            true
        } else {
            false
        }
    }

    /// Ends the reservation of instance `i`, which had been given a permit or not.
    pub fn release_instance(&mut self, i: usize, admitted: bool)
        requires
            old(self).wf(),
            i < old(self)@.instances.len(),
        ensures
            final(self).wf(),
            final(self)@ == after_release(old(self)@, i as int, admitted),
    {
        let load: usize = self.instances[i].inflight.wrapping_sub(1);
        let taken: usize = self.instances[i].running;
        let running: usize = if admitted && self.instances[i].permits.is_some() && taken > 0 {
            taken - 1
        } else {
            taken
        };
        assert(self@.instances[i as int].running == taken);
        self.set_counts(i, load, running);
    }
}

/// The instance that is picked is one of the pool's, and none has less load.
pub proof fn the_pick_is_least_loaded(
    instances: Seq<InstanceView>,
    start: int,
    i: int,
    other: int,
)
    requires
        0 <= start < instances.len(),
        is_pick(instances, start, i),
        0 <= other < instances.len(),
    ensures
        0 <= i < instances.len(),
        instances[i].inflight <= instances[other].inflight,
{
    let n = instances.len() as int;
    let j = if other >= start {
        other - start
    } else {
        other - start + n
    };
    assert(place(n, start, j) == other);
    let k = choose|k: int|
        #[trigger] first_least(instances, start, k) && i == place(n, start, k);
    assert(load_at(instances, start, k) <= load_at(instances, start, j));
}

/// There is only one instance to pick.
pub proof fn the_pick_is_unique(instances: Seq<InstanceView>, start: int, a: int, b: int)
    requires
        0 <= start < instances.len(),
        is_pick(instances, start, a),
        is_pick(instances, start, b),
    ensures
        a == b,
{
    let n = instances.len() as int;
    let j = choose|k: int|
        #[trigger] first_least(instances, start, k) && a == place(n, start, k);
    let k = choose|k: int|
        #[trigger] first_least(instances, start, k) && b == place(n, start, k);
    assert(load_at(instances, start, j) <= load_at(instances, start, k));
    assert(load_at(instances, start, k) <= load_at(instances, start, j));
}

/// Instances that are equally loaded are picked in turn.
pub proof fn equal_instances_are_picked_in_turn(p: PoolView, i: int)
    requires
        p.instances.len() > 0,
        forall|j: int, k: int|
            0 <= j < p.instances.len() && 0 <= k < p.instances.len()
                ==> #[trigger] p.instances[j].inflight == #[trigger] p.instances[k].inflight,
        is_pick(p.instances, pick_start(p), i),
    ensures
        i == p.cursor as int % p.instances.len() as int,
        after_pick(p).cursor == if p.instances.len() == 1 {
            p.cursor
        } else {
            p.cursor.wrapping_add(1)
        },
{
    let n = p.instances.len() as int;
    let start = pick_start(p);
    let k = choose|k: int|
        #[trigger] first_least(p.instances, start, k) && i == place(n, start, k);
    if k > 0 {
        assert(load_at(p.instances, start, k) < load_at(p.instances, start, 0));
        assert(p.instances[place(n, start, k)].inflight == p.instances[place(
            n,
            start,
            0,
        )].inflight);
    }
}

/// Ending a reservation undoes it: load and permits of every instance are as they were before,
/// whether the solve had to go without a permit or not.
pub proof fn a_lease_ends_where_it_began(p: PoolView, pinned: Option<Seq<char>>, i: int)
    requires
        0 <= i < p.instances.len(),
    ensures
        after_release(leased(p, pinned, i), i, false).instances == p.instances,
        has_room(p, i) ==> after_release(
            after_admission(leased(p, pinned, i), i),
            i,
            true,
        ).instances == p.instances,
{
    assert(after_release(leased(p, pinned, i), i, false).instances =~= p.instances);
    if has_room(p, i) {
        assert(after_release(after_admission(leased(p, pinned, i), i), i, true).instances
            =~= p.instances);
    }
}

/// No more solves run on an instance than its cap allows, whatever is reserved, admitted and ended;
/// an instance that is full admits nobody, and the end of a solve makes room on it.
pub proof fn caps_are_never_exceeded(
    p: PoolView,
    pinned: Option<Seq<char>>,
    i: int,
    admitted: bool,
)
    requires
        within_caps(p),
        0 <= i < p.instances.len(),
    ensures
        within_caps(leased(p, pinned, i)),
        within_caps(after_admission(p, i)),
        within_caps(after_release(p, i, admitted)),
        !has_room(p, i) ==> after_admission(p, i) == p,
        p.instances[i].permits is Some && p.instances[i].running > 0 ==> has_room(
            after_release(p, i, true),
            i,
        ),
{
}

proof fn lemma_position(instances: Seq<InstanceView>, url: Seq<char>)
    ensures
        0 <= position(instances, url) <= instances.len(),
        position(instances, url) < instances.len() ==> instances[position(
            instances,
            url,
        )].base_url == url,
        forall|j: int|
            0 <= j < position(instances, url) ==> (#[trigger] instances[j]).base_url != url,
    decreases instances.len(),
{
    if instances.len() > 0 && instances[0].base_url != url {
        let rest = instances.skip(1);
        lemma_position(rest, url);
        assert forall|j: int| 0 <= j < position(instances, url) implies (
        #[trigger] instances[j]).base_url != url by {
            if j > 0 {
                assert(instances[j] == rest[j - 1]);
            }
        }
    }
}

/// An instance with the URL is found wherever in the pool it stands, and the first of several; none
/// is found if and only if no instance has the URL.
pub proof fn instances_are_found_by_their_url(
    instances: Seq<InstanceView>,
    url: Seq<char>,
    i: int,
)
    ensures
        0 <= i < instances.len() && instances[i].base_url == url ==> {
            &&& 0 <= position(instances, url) <= i
            &&& instances[position(instances, url)].base_url == url
        },
        (forall|j: int| 0 <= j < instances.len() ==> (#[trigger] instances[j]).base_url != url)
            ==> position(instances, url) == instances.len(),
        forall|j: int|
            0 <= j < position(instances, url) ==> (#[trigger] instances[j]).base_url != url,
{
    lemma_position(instances, url);
}

/// A request that is pinned to a URL goes to the first instance with that URL if there is any,
/// however loaded it is; only where no instance has it does the request go to the least-loaded, as
/// does one that is not pinned.
pub proof fn pinned_requests_go_to_their_instance(
    p: PoolView,
    url: Seq<char>,
    home: int,
    i: int,
    other: int,
)
    requires
        0 <= home < p.instances.len(),
        0 <= other < p.instances.len(),
    ensures
        p.instances[home].base_url == url && routes_to(p, Some(url), i) ==> {
            &&& 0 <= i <= home
            &&& p.instances[i].base_url == url
            &&& forall|j: int| 0 <= j < i ==> (#[trigger] p.instances[j]).base_url != url
        },
        p.instances[home].base_url == url ==> exists|j: int|
            #[trigger] routes_to(p, Some(url), j),
        (forall|j: int|
            0 <= j < p.instances.len() ==> (#[trigger] p.instances[j]).base_url != url)
            && routes_to(p, Some(url), i) ==> 0 <= i < p.instances.len()
            && p.instances[i].inflight <= p.instances[other].inflight,
        routes_to(p, None, i) ==> 0 <= i < p.instances.len() && p.instances[i].inflight
            <= p.instances[other].inflight,
{
    lemma_position(p.instances, url);
    if p.instances[home].base_url == url {
        assert(routes_to(p, Some(url), position(p.instances, url)));
    }
    if is_pick(p.instances, pick_start(p), i) {
        the_pick_is_least_loaded(p.instances, pick_start(p), i, other);
    }
}

/// Steps from `start` forward to `i` in a ring of `n`.
pub open spec fn steps(n: int, start: int, i: int) -> int {
    if i >= start {
        i - start
    } else {
        i - start + n
    }
}

/// Among instances that are equally loaded the one that comes first in the ring is picked, and
/// there is always one to pick.
pub proof fn ties_go_to_the_next_in_the_ring(
    instances: Seq<InstanceView>,
    start: int,
    i: int,
    other: int,
)
    requires
        0 <= start < instances.len(),
        0 <= other < instances.len(),
    ensures
        is_pick(instances, start, i) && instances[other].inflight == instances[i].inflight ==> steps(
            instances.len() as int,
            start,
            i,
        ) <= steps(instances.len() as int, start, other),
        exists|j: int| #[trigger] is_pick(instances, start, j),
{
    let n = instances.len() as int;
    let o = steps(n, start, other);
    assert(place(n, start, o) == other);
    if is_pick(instances, start, i) {
        let k = choose|k: int|
            #[trigger] first_least(instances, start, k) && i == place(n, start, k);
        assert(steps(n, start, i) == k);
        if o < k {
            assert(load_at(instances, start, k) < load_at(instances, start, o));
        }
    }
    let k = lemma_some_least(instances, start, n);
    assert(first_least(instances, start, k));
    assert(is_pick(instances, start, place(n, start, k)));
}

proof fn lemma_some_least(instances: Seq<InstanceView>, start: int, m: int) -> (k: int)
    requires
        0 < m <= instances.len(),
    ensures
        0 <= k < m,
        forall|j: int|
            0 <= j < k ==> load_at(instances, start, k) < #[trigger] load_at(instances, start, j),
        forall|j: int|
            k <= j < m ==> load_at(instances, start, k) <= #[trigger] load_at(instances, start, j),
    decreases m,
{
    if m == 1 {
        0
    } else {
        let k = lemma_some_least(instances, start, m - 1);
        if load_at(instances, start, m - 1) < load_at(instances, start, k) {
            assert forall|j: int| 0 <= j < m - 1 implies load_at(instances, start, m - 1)
                < #[trigger] load_at(instances, start, j) by {
                if j < k {
                    assert(load_at(instances, start, k) < load_at(instances, start, j));
                } else {
                    assert(load_at(instances, start, k) <= load_at(instances, start, j));
                }
            }
            m - 1
        } else {
            k
        }
    }
}

/// The search starts at the cursor, taken round the ring, and looking an instance up moves nothing
/// but the cursor; a pinned request does not move it.
pub proof fn the_search_starts_at_the_cursor(p: PoolView, url: Seq<char>, home: int, i: int)
    requires
        0 <= home < p.instances.len(),
    ensures
        0 <= pick_start(p) < p.instances.len(),
        exists|round: int| #![trigger round * p.instances.len()] p.cursor as int == pick_start(p)
            + round * p.instances.len() || p.instances.len() == 1,
        after_pick(p).instances == p.instances,
        p.instances[home].base_url == url ==> leased(p, Some(url), i).cursor == p.cursor,
{
    let n = p.instances.len() as int;
    let round = p.cursor as int / n;
    assert(p.cursor as int == round * n + p.cursor as int % n) by (nonlinear_arith)
        requires
            n > 0,
            round == p.cursor as int / n,
    ;
    lemma_position(p.instances, url);
}

/// A reservation counts one solve on its instance and changes nothing else of any instance; a
/// permit is taken from that instance alone, if it has one to give, and a reservation's end takes
/// the count back there and gives the permit back only if one was taken.
pub proof fn a_lease_counts_on_its_instance_alone(
    p: PoolView,
    pinned: Option<Seq<char>>,
    i: int,
    other: int,
    admitted: bool,
)
    requires
        0 <= i < p.instances.len(),
        0 <= other < p.instances.len(),
        other != i,
    ensures
        ({
            let l = leased(p, pinned, i);
            &&& l.instances.len() == p.instances.len()
            &&& l.instances[other] == p.instances[other]
            &&& p.instances[i].inflight < usize::MAX ==> l.instances[i].inflight
                == p.instances[i].inflight + 1
            &&& l.instances[i].running == p.instances[i].running
            &&& l.instances[i].permits == p.instances[i].permits
            &&& l.instances[i].base_url == p.instances[i].base_url
        }),
        ({
            let t = after_admission(p, i);
            &&& t.instances.len() == p.instances.len()
            &&& t.cursor == p.cursor
            &&& t.instances[other] == p.instances[other]
            &&& t.instances[i].inflight == p.instances[i].inflight
            &&& t.instances[i].permits == p.instances[i].permits
            &&& t.instances[i].base_url == p.instances[i].base_url
            &&& p.instances[i].permits is Some && p.instances[i].running < p.instances[i].permits->0
                ==> t.instances[i].running == p.instances[i].running + 1
            &&& p.instances[i].permits is None ==> t.instances[i].running == p.instances[i].running
        }),
        ({
            let e = after_release(p, i, admitted);
            &&& e.instances.len() == p.instances.len()
            &&& e.cursor == p.cursor
            &&& e.instances[other] == p.instances[other]
            &&& p.instances[i].inflight > 0 ==> e.instances[i].inflight == p.instances[i].inflight
                - 1
            &&& e.instances[i].permits == p.instances[i].permits
            &&& e.instances[i].base_url == p.instances[i].base_url
            &&& !admitted ==> e.instances[i].running == p.instances[i].running
            &&& admitted && p.instances[i].permits is Some && p.instances[i].running > 0
                ==> e.instances[i].running == p.instances[i].running - 1
        }),
{
}

/// A solve is let in if and only if its instance has no cap or has not reached it; a cap lets at
/// least one solve in, and is otherwise taken as it is.
pub proof fn caps_let_in_as_many_as_they_say(
    p: PoolView,
    i: int,
    url: Seq<char>,
    max: Option<usize>,
)
    requires
        0 <= i < p.instances.len(),
    ensures
        has_room(p, i) <==> p.instances[i].permits is None || p.instances[i].running
            < p.instances[i].permits->0,
        max is None <==> permits_for(max) is None,
        max is Some ==> permits_for(max)->0 >= 1 && permits_for(max)->0 >= max->0,
        max is Some && max->0 >= 1 ==> permits_for(max) == max,
        max is Some ==> permits_for(max)->0 == max->0 || permits_for(max)->0 == 1,
        idle_instance(url, max).base_url == url,
        idle_instance(url, max).inflight == 0,
        idle_instance(url, max).running == 0,
        idle_instance(url, max).permits == permits_for(max),
{
}

/// An instance says what it holds, and a pool lists its instances in order.
pub proof fn instances_say_what_they_hold(i: Instance, v: Seq<Instance>, k: int)
    ensures
        i@.base_url == i.base_url@,
        i@.inflight == i.inflight,
        i@.permits == i.permits,
        i@.running == i.running,
        instance_views(v).len() == v.len(),
        0 <= k < v.len() ==> instance_views(v)[k] == v[k]@,
{
}

} // verus!
