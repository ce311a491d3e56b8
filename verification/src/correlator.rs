//! Request correlation: fresh identifiers and pending-result slots.

use vstd::prelude::*;

verus! {

/// One in-flight protocol exchange awaiting its matching response.
#[derive(Clone, Debug)]
pub struct PendingRequest {
    /// The identifier the request was sent under.
    pub id: u64,
    /// The command on whose behalf the request was sent.
    pub command: String,
}

/// Assigns unique, monotonically increasing request identifiers and keeps
/// one slot per in-flight request until it is resolved or failed.
pub struct Correlator {
    pub next_id: u64,
    pub pending: Vec<PendingRequest>,
}

impl Correlator {
    /// Whether a slot for `id` is pending.
    pub open spec fn spec_contains(self, id: u64) -> bool {
        exists|j: int| 0 <= j < self.pending@.len() && #[trigger] self.pending@[j].id == id
    }

    /// Pending identifiers are pairwise distinct and below the cursor, so
    /// an identifier is never reused while it is pending.
    pub open spec fn wf(self) -> bool {
        &&& forall|j: int|
            0 <= j < self.pending@.len() ==> #[trigger] self.pending@[j].id < self.next_id
        &&& forall|j: int, k: int|
            #![trigger self.pending@[j].id, self.pending@[k].id]
            0 <= j < k < self.pending@.len() ==> self.pending@[j].id != self.pending@[k].id
    }

    /// A correlator with no slot pending.
    pub fn new() -> (r: Correlator)
        ensures
            r.wf(),
            r.next_id == 1,
            r.pending@.len() == 0,
    {
        Correlator { next_id: 1, pending: Vec::new() }
    }

    /// Allocates a fresh identifier and records its pending slot.
    pub fn allocate(&mut self, command: String) -> (id: u64)
        requires
            old(self).wf(),
            old(self).next_id < u64::MAX,
        ensures
            final(self).wf(),
            id == old(self).next_id,
            !old(self).spec_contains(id),
            final(self).pending@ == old(self).pending@.push(PendingRequest { id, command }),
            final(self).next_id == old(self).next_id + 1,
    {
        let id = self.next_id;
        self.next_id = self.next_id + 1;
        self.pending.push(PendingRequest { id, command });
        id
    }

    /// Removes and returns the slot matching `id`. A response whose
    /// identifier matches no pending slot changes nothing at all.
    pub fn resolve(&mut self, id: u64) -> (r: Option<PendingRequest>)
        requires
            old(self).wf(),
        ensures
            final(self).wf(),
            final(self).next_id == old(self).next_id,
            match r {
                Some(p) => {
                    &&& p.id == id
                    &&& old(self).spec_contains(id)
                    &&& final(self).pending@.len() + 1 == old(self).pending@.len()
                    &&& !final(self).spec_contains(id)
                    &&& forall|x: u64|
                        x != id ==> (final(self).spec_contains(x) <==> old(self).spec_contains(x))
                },
                None => {
                    &&& !old(self).spec_contains(id)
                    &&& final(self).pending@ == old(self).pending@
                },
            },
    {
        let n: usize = self.pending.len();
        let mut j: usize = 0;
        while j < n
            invariant
                n == self.pending@.len(),
                j <= n,
                self.next_id == old(self).next_id,
                self.pending@ == old(self).pending@,
                self.wf(),
                forall|m: int| 0 <= m < j ==> #[trigger] self.pending@[m].id != id,
            decreases n - j,
        {
            if self.pending[j].id == id {
                let ghost pre = *self;
                let p = self.pending.remove(j);
                proof {
                    assert(p.id == id);
                    assert(pre.pending@[j as int].id == id);
                    assert forall|m: int|
                        0 <= m < self.pending@.len() implies #[trigger] self.pending@[m].id
                        != id by {
                        if m < j {
                            assert(self.pending@[m] == pre.pending@[m]);
                            assert(pre.pending@[m].id != pre.pending@[j as int].id);
                        } else {
                            assert(self.pending@[m] == pre.pending@[m + 1]);
                            assert(pre.pending@[j as int].id != pre.pending@[m + 1].id);
                        }
                    }
                    assert forall|m: int|
                        0 <= m < self.pending@.len() implies #[trigger] self.pending@[m].id
                        < self.next_id by {
                        if m < j {
                            assert(self.pending@[m] == pre.pending@[m]);
                        } else {
                            assert(self.pending@[m] == pre.pending@[m + 1]);
                        }
                    }
                    assert forall|m: int, k: int|
                        #![trigger self.pending@[m].id, self.pending@[k].id]
                        0 <= m < k < self.pending@.len() implies self.pending@[m].id
                        != self.pending@[k].id by {
                        let m0 = if m < j { m } else { m + 1 };
                        let k0 = if k < j { k } else { k + 1 };
                        assert(self.pending@[m] == pre.pending@[m0]);
                        assert(self.pending@[k] == pre.pending@[k0]);
                        assert(pre.pending@[m0].id != pre.pending@[k0].id);
                    }
                    assert forall|x: u64|
                        x != id implies (self.spec_contains(x) <==> old(self).spec_contains(
                        x,
                    )) by {
                        if self.spec_contains(x) {
                            let m = choose|m: int|
                                0 <= m < self.pending@.len() && #[trigger] self.pending@[m].id
                                    == x;
                            if m < j {
                                assert(pre.pending@[m].id == x);
                            } else {
                                assert(pre.pending@[m + 1].id == x);
                            }
                        }
                        if old(self).spec_contains(x) {
                            let m = choose|m: int|
                                0 <= m < pre.pending@.len() && #[trigger] pre.pending@[m].id == x;
                            if m < j {
                                assert(self.pending@[m].id == x);
                            } else if m > j {
                                assert(self.pending@[m - 1].id == x);
                            }
                        }
                    }
                }
                return Some(p);
            }
            j = j + 1;
        }
        None
    }

    /// Takes every outstanding slot at once, in submission order, leaving
    /// none pending. The caller fails each of them.
    pub fn drain_all(&mut self) -> (r: Vec<PendingRequest>)
        requires
            old(self).wf(),
        ensures
            final(self).wf(),
            final(self).next_id == old(self).next_id,
            final(self).pending@.len() == 0,
            r@ == old(self).pending@,
    {
        let ghost before = self.pending@;
        let mut r: Vec<PendingRequest> = Vec::new();
        while self.pending.len() > 0
            invariant
                self.next_id == old(self).next_id,
                r@ + self.pending@ =~= before,
                old(self).wf(),
                self.pending@ =~= before.skip(r@.len() as int),
            decreases self.pending@.len(),
    {
            let p = self.pending.remove(0);
            r.push(p);
            proof {
                assert(self.pending@ =~= before.skip(r@.len() as int));
                assert(r@ + self.pending@ =~= before);
            }
        }
        proof {
            assert(r@ =~= before);
        }
        r
    }
}

} // verus!
