//! Bookkeeping for requests that the browser facade sends to its runtime:
//! request ids are handed out in increasing order, and each id stays pending
//! until it is completed or until every pending request is failed at once.

use vstd::prelude::*;
use crate::error::Error;
use crate::keyed_table::KeyedTable;

verus! {

/// A sequence whose elements increase strictly.
pub open spec fn strictly_increasing(s: Seq<u64>) -> bool {
    forall|i: int, j: int| 0 <= i < j < s.len() ==> s[i] < s[j]
}

#[derive(Debug)]
pub struct BrowserWorkerRequestTracker {
    next_request_id: u64,
    pending: Vec<u64>,
}

impl View for BrowserWorkerRequestTracker {
    type V = TrackerModel;

    closed spec fn view(&self) -> TrackerModel {
        TrackerModel { last_id: self.next_request_id as nat, pending: self.pending@.to_set() }
    }
}

/// What the tracker is: the last id handed out (0 before the first) and the
/// ids still pending.
pub ghost struct TrackerModel {
    pub last_id: nat,
    pub pending: Set<u64>,
}

impl TrackerModel {
    /// Every pending id was handed out already.
    pub open spec fn consistent(self) -> bool {
        &&& self.pending.finite()
        &&& forall|id: u64| #[trigger] self.pending.contains(id) ==> 1 <= id <= self.last_id
    }
}

impl BrowserWorkerRequestTracker {
    pub closed spec fn wf(&self) -> bool {
        &&& strictly_increasing(self.pending@)
        &&& forall|i: int| 0 <= i < self.pending@.len() ==> 1 <= #[trigger] self.pending@[i]
            <= self.next_request_id
    }

    /// The pending ids in increasing order.
    pub closed spec fn pending_ids(&self) -> Seq<u64> {
        self.pending@
    }

    pub proof fn lemma_wf(&self)
        requires
            self.wf(),
        ensures
            self@.consistent(),
            strictly_increasing(self.pending_ids()),
            self.pending_ids().to_set() == self@.pending,
            self.pending_ids().len() == self@.pending.len(),
    {
        assert(self.pending@.no_duplicates()) by {
            assert forall|i: int, j: int| 0 <= i < self.pending@.len() && 0 <= j < self.pending@.len()
                && i != j implies self.pending@[i] != self.pending@[j] by {
                if i < j {} else {}
            }
        }
        self.pending@.unique_seq_to_set();
        assert forall|id: u64| #[trigger] self@.pending.contains(id) implies 1 <= id <= self@.last_id by {
            assert(self.pending@.contains(id));
            let k = choose|k: int| 0 <= k < self.pending@.len() && self.pending@[k] == id;
            assert(1 <= self.pending@[k] <= self.next_request_id);
        }
    }

    /// Hands out the next request id and marks it pending; fails only when
    /// the id space is exhausted.
    pub fn allocate(&mut self) -> (r: Result<u64, Error>)
        requires
            old(self).wf(),
        ensures
            final(self).wf(),
            old(self)@.last_id < u64::MAX ==> {
                &&& r == Ok::<u64, Error>((old(self)@.last_id + 1) as u64)
                &&& final(self)@.last_id == old(self)@.last_id + 1
                &&& final(self)@.pending == old(self)@.pending.insert((old(self)@.last_id + 1) as u64)
                &&& !old(self)@.pending.contains((old(self)@.last_id + 1) as u64)
            },
            old(self)@.last_id == u64::MAX ==> {
                &&& r matches Err(Error::WebRtc(m)) && m@ == "worker request id exhausted"@
                &&& final(self)@ == old(self)@
            },
    {
        proof { self.lemma_wf(); }
        if self.next_request_id == u64::MAX {
            return Err(Error::WebRtc(crate::text::owned("worker request id exhausted")));
        }
        let id = self.next_request_id + 1;
        self.next_request_id = id;
        let ghost old_pending = self.pending@;
        self.pending.push(id);
        proof {
            assert(self.pending@ == old_pending.push(id));
            assert(self.pending@.to_set() =~= old_pending.to_set().insert(id)) by {
                assert forall|x: u64| self.pending@.to_set().contains(x) <==> old_pending.to_set().insert(id).contains(x) by {
                    if self.pending@.contains(x) {
                        let k = choose|k: int| 0 <= k < self.pending@.len() && self.pending@[k] == x;
                        if k < old_pending.len() { assert(old_pending[k] == x); }
                    }
                    if old_pending.contains(x) {
                        let k = choose|k: int| 0 <= k < old_pending.len() && old_pending[k] == x;
                        assert(self.pending@[k] == x);
                    }
                    if x == id { assert(self.pending@[old_pending.len() as int] == id); }
                }
            }
            assert(!old_pending.to_set().contains(id)) by {
                if old_pending.contains(id) {
                    let k = choose|k: int| 0 <= k < old_pending.len() && old_pending[k] == id;
                    assert(old_pending[k] <= id - 1);
                }
            }
        }
        Ok(id)
    }

    /// Marks `id` as no longer pending; says whether it was.
    pub fn complete(&mut self, id: u64) -> (r: bool)
        requires
            old(self).wf(),
        ensures
            final(self).wf(),
            r == old(self)@.pending.contains(id),
            final(self)@.pending == old(self)@.pending.remove(id),
            final(self)@.last_id == old(self)@.last_id,
    {
        let mut i: usize = 0;
        while i < self.pending.len()
            invariant
                self.wf(),
                self.pending@ == old(self).pending@,
                self.next_request_id == old(self).next_request_id,
                i <= self.pending@.len(),
                forall|j: int| 0 <= j < i ==> self.pending@[j] != id,
            decreases self.pending@.len() - i,
        {
            if self.pending[i] == id {
                let ghost old_pending = self.pending@;
                self.pending.remove(i);
                proof {
                    assert(self.pending@ == old_pending.remove(i as int));
                    assert forall|a: int, b: int| 0 <= a < b < self.pending@.len()
                        implies self.pending@[a] < self.pending@[b] by {
                        let a2 = if a < i { a } else { a + 1 };
                        let b2 = if b < i { b } else { b + 1 };
                        assert(self.pending@[a] == old_pending[a2]);
                        assert(self.pending@[b] == old_pending[b2]);
                    }
                    assert forall|a: int| 0 <= a < self.pending@.len() implies 1 <= #[trigger] self.pending@[a]
                        <= self.next_request_id by {
                        let a2 = if a < i { a } else { a + 1 };
                        assert(self.pending@[a] == old_pending[a2]);
                    }
                    assert(self.pending@.to_set() =~= old_pending.to_set().remove(id)) by {
                        assert forall|x: u64| self.pending@.to_set().contains(x) <==> old_pending.to_set().remove(id).contains(x) by {
                            if self.pending@.contains(x) {
                                let k = choose|k: int| 0 <= k < self.pending@.len() && self.pending@[k] == x;
                                let k2 = if k < i { k } else { k + 1 };
                                assert(old_pending[k2] == x);
                                if x == id {
                                    if k2 < i {
                                        assert(old_pending[k2] < old_pending[i as int]);
                                    } else {
                                        assert(old_pending[i as int] < old_pending[k2]);
                                    }
                                }
                            }
                            if old_pending.contains(x) && x != id {
                                let k = choose|k: int| 0 <= k < old_pending.len() && old_pending[k] == x;
                                assert(k != i);
                                let k2 = if k < i { k } else { k - 1 };
                                assert(self.pending@[k2] == x);
                            }
                        }
                    }
                    assert(old_pending.to_set().contains(id)) by {
                        assert(old_pending[i as int] == id);
                    }
                }
                return true;
            }
            i = i + 1;
        }
        proof {
            assert(!self.pending@.contains(id));
            assert(self.pending@.to_set() =~= self.pending@.to_set().remove(id));
        }
        false
    }

    /// Fails every pending request at once: returns their ids in increasing
    /// order and leaves nothing pending.
    pub fn fail_all(&mut self) -> (r: Vec<u64>)
        requires
            old(self).wf(),
        ensures
            final(self).wf(),
            r@ == old(self).pending_ids(),
            strictly_increasing(r@),
            r@.to_set() == old(self)@.pending,
            r@.len() == old(self)@.pending.len(),
            final(self)@.pending == Set::<u64>::empty(),
            final(self)@.last_id == old(self)@.last_id,
    {
        proof { self.lemma_wf(); }
        let mut ids: Vec<u64> = Vec::new();
        std::mem::swap(&mut ids, &mut self.pending);
        proof {
            assert(self.pending@.to_set() =~= Set::<u64>::empty());
        }
        ids
    }

    /// How many requests are pending.
    pub fn pending_len(&self) -> (n: usize)
        requires
            self.wf(),
        ensures
            n == self@.pending.len(),
    {
        proof { self.lemma_wf(); }
        self.pending.len()
    }
}

impl Default for BrowserWorkerRequestTracker {
    fn default() -> (t: Self)
        ensures
            t.wf(),
            t@.last_id == 0,
            t@.pending == Set::<u64>::empty(),
    {
        let t = BrowserWorkerRequestTracker { next_request_id: 0, pending: Vec::new() };
        proof { assert(t.pending@.to_set() =~= Set::<u64>::empty()); }
        t
    }
}

} // verus!

verus! {

/// The values that `m` holds for `ids`, in the order of `ids`, skipping ids
/// that `m` does not hold.
pub open spec fn values_for<P>(ids: Seq<u64>, m: Map<u64, P>) -> Seq<P>
    decreases ids.len(),
{
    if ids.len() == 0 {
        Seq::empty()
    } else {
        let rest = values_for(ids.drop_last(), m);
        if m.contains_key(ids.last()) {
            rest.push(m[ids.last()])
        } else {
            rest
        }
    }
}

/// The requests in flight between the facade and its runtime: the id
/// tracker together with what each pending request is answered through.
pub struct WorkerRequestBook<P> {
    tracker: BrowserWorkerRequestTracker,
    waiting: KeyedTable<u64, P>,
}

impl<P> WorkerRequestBook<P> {
    pub closed spec fn wf(&self) -> bool {
        &&& self.tracker.wf()
        &&& self.waiting.wf()
        &&& forall|id: u64| #[trigger] self.waiting.view().contains_key(id)
            ==> self.tracker@.pending.contains(id)
    }

    /// The id tracker's state.
    pub closed spec fn ids(&self) -> TrackerModel {
        self.tracker@
    }

    /// The pending ids in increasing order.
    pub closed spec fn pending_ids(&self) -> Seq<u64> {
        self.tracker.pending_ids()
    }

    /// What each id that still waits for an answer is answered through.
    pub closed spec fn waiting(&self) -> Map<u64, P> {
        self.waiting.view()
    }

    pub proof fn lemma_wf(&self)
        requires
            self.wf(),
        ensures
            self.ids().consistent(),
            forall|id: u64| #[trigger] self.waiting().contains_key(id) ==> self.ids().pending.contains(id),
            strictly_increasing(self.pending_ids()),
            self.pending_ids().to_set() == self.ids().pending,
    {
        self.tracker.lemma_wf();
    }

    pub fn new() -> (b: Self)
        ensures
            b.wf(),
            b.ids().last_id == 0,
            b.ids().pending == Set::<u64>::empty(),
            b.waiting() == Map::<u64, P>::empty(),
    {
        WorkerRequestBook { tracker: BrowserWorkerRequestTracker::default(), waiting: KeyedTable::new() }
    }

    /// Reserves the next request id.
    pub fn allocate_id(&mut self) -> (r: Result<u64, Error>)
        requires
            old(self).wf(),
        ensures
            final(self).wf(),
            final(self).waiting() == old(self).waiting(),
            old(self).ids().last_id < u64::MAX ==> {
                &&& r == Ok::<u64, Error>((old(self).ids().last_id + 1) as u64)
                &&& final(self).ids().last_id == old(self).ids().last_id + 1
                &&& final(self).ids().pending == old(self).ids().pending.insert(
                    (old(self).ids().last_id + 1) as u64,
                )
            },
            old(self).ids().last_id == u64::MAX ==> {
                &&& r is Err
                &&& final(self).ids() == old(self).ids()
            },
    {
        self.tracker.allocate()
    }

    /// Records what the pending request `id` is answered through.
    pub fn register(&mut self, id: u64, answer: P)
        requires
            old(self).wf(),
            old(self).ids().pending.contains(id),
            !old(self).waiting().contains_key(id),
        ensures
            final(self).wf(),
            final(self).ids() == old(self).ids(),
            final(self).waiting() == old(self).waiting().insert(id, answer),
    {
        let _ = self.waiting.insert_new(id, answer);
    }

    /// A response for `id` arrived: takes what answers it, if it still waits,
    /// and completes the id.
    pub fn settle(&mut self, id: u64) -> (r: Option<P>)
        requires
            old(self).wf(),
        ensures
            final(self).wf(),
            final(self).waiting() == old(self).waiting().remove(id),
            match r {
                Some(p) => {
                    &&& old(self).waiting().contains_key(id)
                    &&& p == old(self).waiting()[id]
                    &&& final(self).ids().pending == old(self).ids().pending.remove(id)
                },
                None => {
                    &&& !old(self).waiting().contains_key(id)
                    &&& final(self).ids() == old(self).ids()
                },
            },
            final(self).ids().last_id == old(self).ids().last_id,
    {
        let taken = self.waiting.remove(&id);
        match taken {
            Some(p) => {
                self.tracker.complete(id);
                Some(p)
            },
            None => None,
        }
    }

    /// Sending the request `id` failed: completes the id and takes what
    /// answers it.
    pub fn abort(&mut self, id: u64) -> (r: Option<P>)
        requires
            old(self).wf(),
        ensures
            final(self).wf(),
            final(self).ids().pending == old(self).ids().pending.remove(id),
            final(self).ids().last_id == old(self).ids().last_id,
            final(self).waiting() == old(self).waiting().remove(id),
            match r {
                Some(p) => old(self).waiting().contains_key(id) && p == old(self).waiting()[id],
                None => !old(self).waiting().contains_key(id),
            },
    {
        self.tracker.complete(id);
        self.waiting.remove(&id)
    }

    /// Fails every pending request: returns what answers them, in increasing
    /// order of their ids, and leaves nothing pending.
    pub fn reject_all(&mut self) -> (r: Vec<P>)
        requires
            old(self).wf(),
        ensures
            final(self).wf(),
            r@ == values_for(old(self).pending_ids(), old(self).waiting()),
            r@.len() == old(self).waiting().len(),
            final(self).ids().pending == Set::<u64>::empty(),
            final(self).ids().last_id == old(self).ids().last_id,
            final(self).waiting() == Map::<u64, P>::empty(),
    {
        proof { self.tracker.lemma_wf(); }
        let ghost m = self.waiting.view();
        let ghost old_pending = self.tracker@.pending;
        let ids = self.tracker.fail_all();
        let ghost t = self.tracker@;
        let mut out: Vec<P> = Vec::new();
        let mut i: usize = 0;
        while i < ids.len()
            invariant
                self.waiting.wf(),
                self.tracker.wf(),
                self.tracker@ == t,
                t.pending == Set::<u64>::empty(),
                strictly_increasing(ids@),
                i <= ids@.len(),
                out@ == values_for(ids@.take(i as int), m),
                forall|id: u64| #[trigger] self.waiting.view().contains_key(id) <==> (
                    m.contains_key(id) && !ids@.take(i as int).contains(id)),
                forall|id: u64| #[trigger] self.waiting.view().contains_key(id) ==> self.waiting.view()[id] == m[id],
            decreases ids@.len() - i,
        {
            let id = ids[i];
            let taken = self.waiting.remove(&id);
            proof {
                assert(ids@.take(i + 1).drop_last() =~= ids@.take(i as int));
                assert(ids@.take(i + 1).last() == id);
                assert forall|x: u64| #[trigger] self.waiting.view().contains_key(x) <==> (
                    m.contains_key(x) && !ids@.take(i + 1).contains(x)) by {
                    if ids@.take(i + 1).contains(x) && !ids@.take(i as int).contains(x) {
                        let k = choose|k: int| 0 <= k < i + 1 && #[trigger] ids@.take(i + 1)[k] == x;
                        if k < i { assert(ids@.take(i as int)[k] == x); }
                    }
                    if ids@.take(i as int).contains(x) {
                        let k = choose|k: int| 0 <= k < i && #[trigger] ids@.take(i as int)[k] == x;
                        assert(ids@.take(i + 1)[k] == x);
                    }
                    if x == id { assert(ids@.take(i + 1)[i as int] == id); }
                }
            }
            match taken {
                Some(p) => { out.push(p); },
                None => {},
            }
            i = i + 1;
        }
        self.waiting.clear();
        proof {
            assert(ids@.take(ids@.len() as int) =~= ids@);
            old(self).waiting.lemma_len();
            assert forall|id: u64| #[trigger] m.contains_key(id) implies ids@.contains(id) by {
                assert(old_pending.contains(id));
                assert(ids@.to_set().contains(id));
            }
            self.lemma_values_for_len(ids@, m);
        }
        out
    }

    proof fn lemma_values_for_len(&self, ids: Seq<u64>, m: Map<u64, P>)
        requires
            strictly_increasing(ids),
            m.dom().finite(),
            forall|id: u64| #[trigger] m.contains_key(id) ==> ids.contains(id),
        ensures
            values_for(ids, m).len() == m.len(),
        decreases ids.len(),
    {
        if ids.len() == 0 {
            assert(m.dom() =~= Set::<u64>::empty());
        } else {
            let last = ids.last();
            let m2 = m.remove(last);
            assert forall|id: u64| #[trigger] m2.contains_key(id) implies ids.drop_last().contains(id) by {
                let k = choose|k: int| 0 <= k < ids.len() && ids[k] == id;
                assert(k != ids.len() - 1);
                assert(ids.drop_last()[k] == id);
            }
            assert(strictly_increasing(ids.drop_last()));
            self.lemma_values_for_len(ids.drop_last(), m2);
            self.lemma_values_for_same(ids.drop_last(), m, m2, last);
        }
    }

    proof fn lemma_values_for_same(&self, ids: Seq<u64>, m: Map<u64, P>, m2: Map<u64, P>, gone: u64)
        requires
            m2 == m.remove(gone),
            !ids.contains(gone),
        ensures
            values_for(ids, m) == values_for(ids, m2),
        decreases ids.len(),
    {
        if ids.len() > 0 {
            assert(!ids.drop_last().contains(gone)) by {
                if ids.drop_last().contains(gone) {
                    let k = choose|k: int| 0 <= k < ids.drop_last().len() && ids.drop_last()[k] == gone;
                    assert(ids[k] == gone);
                }
            }
            assert(ids.last() != gone) by { assert(ids[ids.len() - 1] == ids.last()); }
            self.lemma_values_for_same(ids.drop_last(), m, m2, gone);
        }
    }
}

} // verus!
