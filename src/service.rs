//! The single-flight core of the media cache: which requests start upstream
//! work, which wait on work already running, and who is answered when work
//! completes.
//!
//! The service is generic over the reply slot `S` handed in with each request;
//! the surrounding runtime owns the mailbox, the futures and the slots' channel.

use vstd::prelude::*;

use crate::query::PostId;

verus! {

/// Largest number of pending waiters at which the service still takes new
/// requests from its mailbox; also the mailbox's capacity.
pub const MAX_IN_FLIGHT: usize = 40;

/// The reply slots waiting on the work for one post.
pub struct Pending<S> {
    pub post: PostId,
    pub slots: Vec<S>,
}

/// Waiters of all posts whose upstream work is running.
pub struct Service<S> {
    pending: Vec<Pending<S>>,
}

/// What the service is told by its runtime.
pub enum Event<S> {
    /// A request for `post` arrived with the slot to answer it through.
    Request { post: PostId, slot: S },
    /// The upstream work for `post` completed.
    Completed { post: PostId },
    /// Every sender of the mailbox is gone.
    Closed,
}

/// What the runtime is to do next.
pub enum Action<S> {
    /// Start the upstream work for this post.
    Spawn(PostId),
    /// Nothing: the request joined work already running.
    Coalesced,
    /// Send a copy of the completed work's result through each of these slots.
    Deliver(Vec<S>),
    /// Stop the service loop.
    Exit,
}

/// Total number of slots in a list of pending entries.
pub open spec fn total_slots<S>(e: Seq<Pending<S>>) -> nat
    decreases e.len(),
{
    if e.len() == 0 {
        0
    } else {
        total_slots(e.drop_last()) + e.last().slots@.len()
    }
}

/// Whether some entry is for `k`.
pub open spec fn has_post<S>(e: Seq<Pending<S>>, k: PostId) -> bool {
    exists|i: int| 0 <= i < e.len() && #[trigger] e[i].post == k
}

/// The map from post to its waiting slots that a list of entries stands for.
pub open spec fn waiters_of<S>(e: Seq<Pending<S>>) -> Map<PostId, Seq<S>> {
    Map::new(
        |k: PostId| has_post(e, k),
        |k: PostId| e[choose|i: int| 0 <= i < e.len() && #[trigger] e[i].post == k].slots@,
    )
}

/// No post has two entries, and no entry is without slots.
pub open spec fn entries_wf<S>(e: Seq<Pending<S>>) -> bool {
    &&& forall|i: int, j: int| 0 <= i < j < e.len() ==> #[trigger] e[i].post != #[trigger] e[j].post
    &&& forall|i: int| 0 <= i < e.len() ==> #[trigger] e[i].slots@.len() > 0
}

/// The waiters after one request for `post` arrives with `slot`.
pub open spec fn after_request<S>(m: Map<PostId, Seq<S>>, post: PostId, slot: S) -> Map<PostId, Seq<S>> {
    if m.contains_key(post) {
        m.insert(post, m[post].push(slot))
    } else {
        m.insert(post, seq![slot])
    }
}

/// The waiters after requests for `post` arrive with `slots`, in order.
pub open spec fn after_requests<S>(m: Map<PostId, Seq<S>>, post: PostId, slots: Seq<S>) -> Map<
    PostId,
    Seq<S>,
>
    decreases slots.len(),
{
    if slots.len() == 0 {
        m
    } else {
        after_request(after_requests(m, post, slots.drop_last()), post, slots.last())
    }
}

/// How many of those requests start upstream work.
pub open spec fn spawns<S>(m: Map<PostId, Seq<S>>, post: PostId, slots: Seq<S>) -> nat
    decreases slots.len(),
{
    if slots.len() == 0 {
        0
    } else {
        spawns(m, post, slots.drop_last()) + if after_requests(m, post, slots.drop_last()).contains_key(post) {
            0nat
        } else {
            1nat
        }
    }
}

/// Whether the service takes requests from its mailbox with `total` waiters pending.
pub open spec fn accepts(total: nat) -> bool {
    total <= MAX_IN_FLIGHT
}

proof fn lemma_total_update<S>(e: Seq<Pending<S>>, i: int, x: Pending<S>)
    requires
        0 <= i < e.len(),
    ensures
        total_slots(e.update(i, x)) + e[i].slots@.len() == total_slots(e) + x.slots@.len(),
    decreases e.len(),
{
    if i == e.len() - 1 {
        assert(e.update(i, x).drop_last() =~= e.drop_last());
    } else {
        lemma_total_update(e.drop_last(), i, x);
        assert(e.update(i, x).drop_last() =~= e.drop_last().update(i, x));
    }
}

proof fn lemma_total_remove<S>(e: Seq<Pending<S>>, i: int)
    requires
        0 <= i < e.len(),
    ensures
        total_slots(e.remove(i)) + e[i].slots@.len() == total_slots(e),
    decreases e.len(),
{
    if i == e.len() - 1 {
        assert(e.remove(i) =~= e.drop_last());
    } else {
        lemma_total_remove(e.drop_last(), i);
        assert(e.remove(i).drop_last() =~= e.drop_last().remove(i));
    }
}

proof fn lemma_total_push<S>(e: Seq<Pending<S>>, x: Pending<S>)
    ensures
        total_slots(e.push(x)) == total_slots(e) + x.slots@.len(),
{
    assert(e.push(x).drop_last() =~= e);
}

/// In well-formed entries, the entry at `i` is the one the map gives for its post.
proof fn lemma_lookup<S>(e: Seq<Pending<S>>, i: int)
    requires
        entries_wf(e),
        0 <= i < e.len(),
    ensures
        waiters_of(e).contains_key(e[i].post),
        waiters_of(e)[e[i].post] == e[i].slots@,
{
    let k = e[i].post;
    assert(has_post(e, k));
    let j = choose|j: int| 0 <= j < e.len() && #[trigger] e[j].post == k;
    if j != i {
        if j < i {
            assert(e[j].post != e[i].post);
        } else {
            assert(e[i].post != e[j].post);
        }
    }
}

impl<S> Service<S> {
    /// The waiting slots of each post whose work is running.
    pub closed spec fn view(&self) -> Map<PostId, Seq<S>> {
        waiters_of(self.pending@)
    }

    /// Total number of waiting slots.
    pub closed spec fn total(&self) -> nat {
        total_slots(self.pending@)
    }

    /// The service's invariant: one entry per post, none empty, and a count
    /// of slots that fits a `usize`.
    pub closed spec fn wf(&self) -> bool {
        entries_wf(self.pending@) && total_slots(self.pending@) <= usize::MAX
    }

    /// A service with nothing pending.
    pub fn new() -> (r: Self)
        ensures
            r.wf(),
            r@ == Map::<PostId, Seq<S>>::empty(),
            r.total() == 0,
    {
        let r = Service { pending: Vec::new() };
        assert(r@ =~= Map::<PostId, Seq<S>>::empty());
        r
    }
    /// Position of the entry for `post`, if it has one.
    fn find(&self, post: PostId) -> (r: Option<usize>)
        requires
            self.wf(),
        ensures
            r is None <==> !self@.contains_key(post),
            r matches Some(i) ==> i < self.pending@.len() && self.pending@[i as int].post == post,
    {
        let mut i: usize = 0;
        while i < self.pending.len()
            invariant
                i <= self.pending@.len(),
                forall|j: int| 0 <= j < i ==> #[trigger] self.pending@[j].post != post,
            decreases self.pending@.len() - i,
        {
            if self.pending[i].post == post {
                return Some(i);
            }
            i = i + 1;
        }
        None
    }

    /// Whether work for `post` is running.
    pub fn is_pending(&self, post: PostId) -> (r: bool)
        requires
            self.wf(),
        ensures
            r == self@.contains_key(post),
    {
        self.find(post).is_some()
    }

    /// Total number of waiting slots.
    pub fn total_in_flight(&self) -> (r: usize)
        requires
            self.wf(),
        ensures
            r == self.total(),
    {
        let mut sum: usize = 0;
        let mut i: usize = 0;
        while i < self.pending.len()
            invariant
                i <= self.pending@.len(),
                total_slots(self.pending@) <= usize::MAX,
                sum == total_slots(self.pending@.subrange(0, i as int)),
            decreases self.pending@.len() - i,
        {
            proof {
                assert(self.pending@.subrange(0, i + 1).drop_last() =~= self.pending@.subrange(0, i as int));
                lemma_total_prefix(self.pending@, i + 1);
            }
            sum = sum + self.pending[i].slots.len();
            i = i + 1;
        }
        assert(self.pending@.subrange(0, i as int) =~= self.pending@);
        sum
    }

    /// Whether the service takes new requests from its mailbox now.
    pub fn accepts_requests(&self) -> (r: bool)
        requires
            self.wf(),
        ensures
            r == accepts(self.total()),
    {
        self.total_in_flight() <= MAX_IN_FLIGHT
    }

    /// Registers `slot` as waiting on `post`; says whether upstream work must
    /// start for it, which is so exactly when none is running for that post.
    pub fn process_request(&mut self, post: PostId, slot: S) -> (spawn: bool)
        requires
            old(self).wf(),
            old(self).total() < usize::MAX,
        ensures
            final(self).wf(),
            spawn == !old(self)@.contains_key(post),
            final(self)@ == after_request(old(self)@, post, slot),
            final(self).total() == old(self).total() + 1,
    {
        let ghost e0 = self.pending@;
        match self.find(post) {
            Some(i) => {
                proof {
                    lemma_lookup(e0, i as int);
                }
                let mut entry = self.pending.remove(i);
                entry.slots.push(slot);
                let ghost x = entry;
                self.pending.insert(i, entry);
                proof {
                    let e1 = self.pending@;
                    assert(e1 =~= e0.update(i as int, x));
                    lemma_total_update(e0, i as int, x);
                    assert forall|a: int, b: int| 0 <= a < b < e1.len() implies #[trigger] e1[a].post
                        != #[trigger] e1[b].post by {
                        assert(e0[a].post != e0[b].post);
                    }
                    assert forall|k: PostId| #![auto] has_post(e1, k) == has_post(e0, k) by {
                        if has_post(e0, k) {
                            let j = choose|j: int| 0 <= j < e0.len() && #[trigger] e0[j].post == k;
                            assert(e1[j].post == k);
                        }
                        if has_post(e1, k) {
                            let j = choose|j: int| 0 <= j < e1.len() && #[trigger] e1[j].post == k;
                            assert(e0[j].post == k);
                        }
                    }
                    assert forall|k: PostId| #[trigger] has_post(e1, k) implies waiters_of(e1)[k] == after_request(
                        waiters_of(e0),
                        post,
                        slot,
                    )[k] by {
                        let j = choose|j: int| 0 <= j < e1.len() && #[trigger] e1[j].post == k;
                        lemma_lookup(e1, j);
                        lemma_lookup(e0, j);
                    }
                    assert(waiters_of(e1) =~= after_request(waiters_of(e0), post, slot));
                }
                false
            },
            None => {
                let mut slots: Vec<S> = Vec::new();
                slots.push(slot);
                let entry = Pending { post, slots };
                let ghost x = entry;
                self.pending.push(entry);
                proof {
                    let e1 = self.pending@;
                    assert(e1 =~= e0.push(x));
                    lemma_total_push(e0, x);
                    assert forall|a: int, b: int| 0 <= a < b < e1.len() implies #[trigger] e1[a].post
                        != #[trigger] e1[b].post by {
                        if b == e0.len() {
                            assert(!has_post(e0, post));
                            assert(e0[a].post != post);
                        } else {
                            assert(e0[a].post != e0[b].post);
                        }
                    }
                    assert forall|k: PostId| #![auto] has_post(e1, k) == (has_post(e0, k) || k == post) by {
                        if has_post(e0, k) {
                            let j = choose|j: int| 0 <= j < e0.len() && #[trigger] e0[j].post == k;
                            assert(e1[j].post == k);
                        }
                        if k == post {
                            assert(e1[e0.len() as int].post == k);
                        }
                        if has_post(e1, k) && k != post {
                            let j = choose|j: int| 0 <= j < e1.len() && #[trigger] e1[j].post == k;
                            assert(e0[j].post == k);
                        }
                    }
                    assert forall|k: PostId| #[trigger] has_post(e1, k) implies waiters_of(e1)[k] == after_request(
                        waiters_of(e0),
                        post,
                        slot,
                    )[k] by {
                        let j = choose|j: int| 0 <= j < e1.len() && #[trigger] e1[j].post == k;
                        lemma_lookup(e1, j);
                        if j < e0.len() {
                            lemma_lookup(e0, j);
                        } else {
                            assert(x.slots@ =~= seq![slot]);
                        }
                    }
                    assert(waiters_of(e1) =~= after_request(waiters_of(e0), post, slot));
                }
                true
            },
        }
    }

    /// Takes out the slots waiting on `post`, whose work has completed.
    pub fn dispatch_response(&mut self, post: PostId) -> (slots: Vec<S>)
        requires
            old(self).wf(),
            old(self)@.contains_key(post),
        ensures
            final(self).wf(),
            slots@ == old(self)@[post],
            slots@.len() > 0,
            final(self)@ == old(self)@.remove(post),
            final(self).total() + slots@.len() == old(self).total(),
    {
        let ghost e0 = self.pending@;
        let i = match self.find(post) {
            Some(i) => i,
            None => {
                assert(false);
                return Vec::new();
            },
        };
        proof {
            lemma_lookup(e0, i as int);
        }
        let entry = self.pending.remove(i);
        proof {
            let e1 = self.pending@;
            lemma_total_remove(e0, i as int);
            assert forall|a: int, b: int| 0 <= a < b < e1.len() implies #[trigger] e1[a].post
                != #[trigger] e1[b].post by {
                if a < i {
                    if b < i {
                        assert(e0[a].post != e0[b].post);
                    } else {
                        assert(e0[a].post != e0[b + 1].post);
                    }
                } else {
                    assert(e0[a + 1].post != e0[b + 1].post);
                }
            }
            assert forall|t: int| 0 <= t < e1.len() implies #[trigger] e1[t].slots@.len() > 0 by {
                if t < i {
                    assert(e1[t] == e0[t]);
                } else {
                    assert(e1[t] == e0[t + 1]);
                }
            }
            assert forall|k: PostId| #![auto] has_post(e1, k) == (has_post(e0, k) && k != post) by {
                if has_post(e1, k) {
                    let j = choose|j: int| 0 <= j < e1.len() && #[trigger] e1[j].post == k;
                    if j < i {
                        assert(e0[j].post == k);
                        assert(e0[j].post != e0[i as int].post);
                    } else {
                        assert(e0[j + 1].post == k);
                        assert(e0[i as int].post != e0[j + 1].post);
                    }
                }
                if has_post(e0, k) && k != post {
                    let j = choose|j: int| 0 <= j < e0.len() && #[trigger] e0[j].post == k;
                    if j < i {
                        assert(e1[j].post == k);
                    } else {
                        assert(j != i);
                        assert(e1[j - 1].post == k);
                    }
                }
            }
            assert forall|k: PostId| #[trigger] has_post(e1, k) implies waiters_of(e1)[k] == waiters_of(e0)[k] by {
                let j = choose|j: int| 0 <= j < e1.len() && #[trigger] e1[j].post == k;
                lemma_lookup(e1, j);
                if j < i {
                    lemma_lookup(e0, j);
                } else {
                    lemma_lookup(e0, j + 1);
                }
            }
            assert(waiters_of(e1) =~= waiters_of(e0).remove(post));
        }
        entry.slots
    }

    /// Decides what the runtime does with one event.
    pub fn handle_event(&mut self, event: Event<S>) -> (action: Action<S>)
        requires
            old(self).wf(),
            event matches Event::Completed { post } ==> old(self)@.contains_key(post),
            event is Request ==> old(self).total() < usize::MAX,
        ensures
            final(self).wf(),
            match event {
                Event::Request { post, slot } => {
                    &&& final(self)@ == after_request(old(self)@, post, slot)
                    &&& final(self).total() == old(self).total() + 1
                    &&& if old(self)@.contains_key(post) {
                        action is Coalesced
                    } else {
                        action == Action::<S>::Spawn(post)
                    }
                },
                Event::Completed { post } => {
                    &&& final(self)@ == old(self)@.remove(post)
                    &&& action matches Action::Deliver(slots) && slots@ == old(self)@[post]
                },
                Event::Closed => {
                    &&& final(self)@ == old(self)@
                    &&& action is Exit
                },
            },
    {
        match event {
            Event::Request { post, slot } => {
                if self.process_request(post, slot) {
                    Action::Spawn(post)
                } else {
                    Action::Coalesced
                }
            },
            Event::Completed { post } => Action::Deliver(self.dispatch_response(post)),
            Event::Closed => Action::Exit,
        }
    }
}

proof fn lemma_total_prefix<S>(e: Seq<Pending<S>>, n: int)
    requires
        0 <= n <= e.len(),
    ensures
        total_slots(e.subrange(0, n)) <= total_slots(e),
    decreases e.len(),
{
    if n < e.len() {
        lemma_total_prefix(e.drop_last(), n);
        assert(e.drop_last().subrange(0, n) =~= e.subrange(0, n));
    } else {
        assert(e.subrange(0, n) =~= e);
    }
}

/// Pairs each slot of a delivery with the one result of the work they waited
/// on, in order: every waiter is answered with the same value.
pub fn fan_out<'a, S, R>(slots: Vec<S>, reply: &'a R) -> (r: Vec<(S, &'a R)>)
    ensures
        r@.len() == slots@.len(),
        forall|i: int| 0 <= i < r@.len() ==> (#[trigger] r@[i]).0 == slots@[i] && r@[i].1 == reply,
{
    let ghost all = slots@;
    let mut rest = slots;
    let mut r: Vec<(S, &'a R)> = Vec::new();
    while rest.len() > 0
        invariant
            r@.len() + rest@.len() == all.len(),
            rest@ == all.subrange(r@.len() as int, all.len() as int),
            forall|i: int| 0 <= i < r@.len() ==> (#[trigger] r@[i]).0 == all[i] && r@[i].1 == reply,
        decreases rest@.len(),
    {
        let s = rest.remove(0);
        r.push((s, reply));
        assert(rest@ =~= all.subrange(r@.len() as int, all.len() as int));
    }
    r
}

/// Single flight: when requests for a post with no work running arrive one
/// after another, exactly one of them starts upstream work, and the slots of
/// all of them wait on that work, in arrival order.
pub proof fn lemma_single_flight<S>(m: Map<PostId, Seq<S>>, post: PostId, slots: Seq<S>)
    requires
        !m.contains_key(post),
        slots.len() > 0,
    ensures
        spawns(m, post, slots) == 1,
        after_requests(m, post, slots).contains_key(post),
        after_requests(m, post, slots)[post] == slots,
    decreases slots.len(),
{
    if slots.len() == 1 {
        assert(slots.drop_last().len() == 0);
        assert(spawns(m, post, slots.drop_last()) == 0);
        assert(after_requests(m, post, slots.drop_last()) == m);
        assert(seq![slots.last()] =~= slots);
    } else {
        lemma_single_flight(m, post, slots.drop_last());
        assert(slots.drop_last().push(slots.last()) =~= slots);
    }
}

/// Requests for one post leave the waiters of every other post as they were.
pub proof fn lemma_requests_isolated<S>(m: Map<PostId, Seq<S>>, post: PostId, slots: Seq<S>, other: PostId)
    requires
        other != post,
    ensures
        after_requests(m, post, slots).contains_key(other) == m.contains_key(other),
        m.contains_key(other) ==> after_requests(m, post, slots)[other] == m[other],
    decreases slots.len(),
{
    if slots.len() > 0 {
        lemma_requests_isolated(m, post, slots.drop_last(), other);
    }
}

/// Backpressure: while fewer than `MAX_IN_FLIGHT` slots wait, a request the
/// service takes leaves at most `MAX_IN_FLIGHT` waiting; with more than
/// `MAX_IN_FLIGHT` waiting it takes none until a delivery lowers the count.
/// (With exactly `MAX_IN_FLIGHT` waiting it still takes one more.)
pub proof fn lemma_admission_bound(total: nat)
    requires
        total != MAX_IN_FLIGHT,
    ensures
        accepts(total) ==> total + 1 <= MAX_IN_FLIGHT,
        total > MAX_IN_FLIGHT ==> !accepts(total),
{
}

/// In every state, a request the service takes leaves at most
/// `MAX_IN_FLIGHT + 1` slots waiting.
pub proof fn lemma_admission_ceiling(total: nat)
    ensures
        accepts(total) ==> total + 1 <= MAX_IN_FLIGHT + 1,
{
}

} // verus!
