//! The client's requests that have not been answered yet.

use std::time::Instant;

use vstd::prelude::*;

use crate::message::{RequestId, RequestIdView};

verus! {

/// A request that has been accepted and not answered yet.
#[derive(Debug)]
pub struct PendingRequest {
    pub id: RequestId,
    pub method: String,
    pub received: Instant,
}

pub struct PendingRequestView {
    pub id: RequestIdView,
    pub method: Seq<char>,
    pub received: Instant,
}

impl View for PendingRequest {
    type V = PendingRequestView;

    open spec fn view(&self) -> PendingRequestView {
        PendingRequestView { id: self.id@, method: self.method@, received: self.received }
    }
}

/// The requests that wait for their answer, by id.
#[derive(Debug)]
pub struct PendingRequests {
    entries: Vec<PendingRequest>,
}

spec fn has_id(entries: Seq<PendingRequest>, id: RequestIdView, i: int) -> bool {
    0 <= i < entries.len() && entries[i].id@ == id
}

spec fn entries_map(entries: Seq<PendingRequest>) -> Map<RequestIdView, PendingRequestView> {
    Map::new(
        |id: RequestIdView| exists|i: int| has_id(entries, id, i),
        |id: RequestIdView| entries[choose|i: int| has_id(entries, id, i)]@,
    )
}

impl View for PendingRequests {
    type V = Map<RequestIdView, PendingRequestView>;

    closed spec fn view(&self) -> Map<RequestIdView, PendingRequestView> {
        entries_map(self.entries@)
    }
}

/// No two entries have one id.
spec fn ids_differ(entries: Seq<PendingRequest>) -> bool {
    forall|i: int, j: int|
        0 <= i < j < entries.len() ==> entries[i].id@ != entries[j].id@
}

/// An entry is found under its id.
proof fn lemma_lookup(entries: Seq<PendingRequest>, i: int)
    requires
        ids_differ(entries),
        0 <= i < entries.len(),
    ensures
        entries_map(entries).contains_key(entries[i].id@),
        entries_map(entries)[entries[i].id@] == entries[i]@,
{
    let id = entries[i].id@;
    assert(has_id(entries, id, i));
    let k = choose|k: int| has_id(entries, id, k);
    assert(has_id(entries, id, k));
    assert(k == i);
}

/// Where only the entry under `id` is new, all others are found as before.
proof fn lemma_others_kept(
    before: Seq<PendingRequest>,
    after: Seq<PendingRequest>,
    id: RequestIdView,
)
    requires
        ids_differ(before),
        ids_differ(after),
        forall|j: int| #![trigger after[j]]
            0 <= j < after.len() && after[j].id@ != id ==> j < before.len() && after[j]
                == before[j],
    ensures
        forall|k: RequestIdView| #[trigger]
            entries_map(after).contains_key(k) && k != id ==> entries_map(after)[k]
                == entries_map(before)[k],
{
    assert forall|k: RequestIdView| #[trigger]
        entries_map(after).contains_key(k) && k != id implies entries_map(after)[k]
        == entries_map(before)[k] by {
        let j = choose|j: int| has_id(after, k, j);
        assert(has_id(after, k, j));
        lemma_lookup(after, j);
        lemma_lookup(before, j);
    }
}

impl PendingRequests {
    /// No two records have one id.
    pub closed spec fn wf(&self) -> bool {
        ids_differ(self.entries@)
    }

    pub fn new() -> (r: PendingRequests)
        ensures
            r.wf(),
            r@ == Map::<RequestIdView, PendingRequestView>::empty(),
    {
        let r = PendingRequests { entries: Vec::new() };
        assert(r@ =~= Map::<RequestIdView, PendingRequestView>::empty());
        r
    }

    fn position(&self, id: &RequestId) -> (r: Option<usize>)
        requires
            self.wf(),
        ensures
            match r {
                Some(i) => has_id(self.entries@, id@, i as int),
                None => !self@.contains_key(id@),
            },
    {
        let mut i: usize = 0;
        while i < self.entries.len()
            invariant
                i <= self.entries@.len(),
                forall|j: int| 0 <= j < i ==> self.entries@[j].id@ != id@,
            decreases self.entries@.len() - i,
        {
            if self.entries[i].id.same(id) {
                return Some(i);
            }
            i += 1;
        }
        None
    }

    /// Records a request. A record under the same id gives way to it.
    pub fn start(&mut self, request: PendingRequest)
        requires
            old(self).wf(),
        ensures
            final(self).wf(),
            final(self)@ == old(self)@.insert(request@.id, request@),
    {
        let ghost before = *self;
        let ghost id = request.id@;
        match self.position(&request.id) {
            Some(i) => {
                self.entries.set(i, request);
                proof {
                    let after = *self;
                    assert(after.entries@ == before.entries@.update(i as int, request));
                    assert(after.wf());
                    lemma_lookup(before.entries@, i as int);
                    lemma_lookup(after.entries@, i as int);
                    assert(after@ =~= before@.insert(id, request@)) by {
                        assert forall|k: RequestIdView|
                            after@.contains_key(k) <==> before@.contains_key(k) by {
                            if after@.contains_key(k) {
                                let j = choose|j: int| has_id(after.entries@, k, j);
                                assert(has_id(before.entries@, k, j));
                            }
                            if before@.contains_key(k) {
                                let j = choose|j: int| has_id(before.entries@, k, j);
                                assert(has_id(after.entries@, k, j));
                            }
                        }
                        lemma_others_kept(before.entries@, after.entries@, id);
                    }
                }
            },
            None => {
                self.entries.push(request);
                proof {
                    let after = *self;
                    let n = before.entries@.len() as int;
                    assert(after.entries@ == before.entries@.push(request));
                    assert forall|i: int, j: int| 0 <= i < j < after.entries@.len() implies
                        after.entries@[i].id@ != after.entries@[j].id@ by {
                        if j == n {
                            assert(!before@.contains_key(id));
                            assert(!has_id(before.entries@, id, i));
                        }
                    }
                    lemma_lookup(after.entries@, n);
                    assert(after@ =~= before@.insert(id, request@)) by {
                        assert forall|k: RequestIdView|
                            after@.contains_key(k) <==> (before@.contains_key(k) || k == id) by {
                            if after@.contains_key(k) {
                                let j = choose|j: int| has_id(after.entries@, k, j);
                                if j < n {
                                    assert(has_id(before.entries@, k, j));
                                }
                            }
                            if before@.contains_key(k) {
                                let j = choose|j: int| has_id(before.entries@, k, j);
                                assert(has_id(after.entries@, k, j));
                            }
                        }
                        lemma_others_kept(before.entries@, after.entries@, id);
                    }
                }
            },
        }
    }

    /// Takes the record of an answered request out, where there is one.
    pub fn finish(&mut self, id: &RequestId) -> (r: Option<PendingRequest>)
        requires
            old(self).wf(),
        ensures
            final(self).wf(),
            final(self)@ == old(self)@.remove(id@),
            r is Some <==> old(self)@.contains_key(id@),
            r matches Some(request) ==> request@ == old(self)@[id@] && request@.id == id@,
    {
        let ghost before = *self;
        match self.position(id) {
            Some(i) => {
                let request = self.entries.remove(i);
                proof {
                    let after = *self;
                    assert(after.entries@ == before.entries@.remove(i as int));
                    lemma_lookup(before.entries@, i as int);
                    assert(after.wf());
                    assert(after@ =~= before@.remove(id@)) by {
                        assert forall|k: RequestIdView|
                            after@.contains_key(k) <==> (before@.contains_key(k) && k != id@) by {
                            if after@.contains_key(k) {
                                let j = choose|j: int| has_id(after.entries@, k, j);
                                if j < i {
                                    assert(has_id(before.entries@, k, j));
                                } else {
                                    assert(has_id(before.entries@, k, j + 1));
                                }
                            }
                            if before@.contains_key(k) && k != id@ {
                                let j = choose|j: int| has_id(before.entries@, k, j);
                                if j < i {
                                    assert(has_id(after.entries@, k, j));
                                } else {
                                    assert(has_id(after.entries@, k, j - 1));
                                }
                            }
                        }
                        assert forall|k: RequestIdView| #[trigger] after@.contains_key(k) implies
                            after@[k] == before@[k] by {
                            let j = choose|j: int| has_id(after.entries@, k, j);
                            assert(has_id(after.entries@, k, j));
                            lemma_lookup(after.entries@, j);
                            if j < i {
                                lemma_lookup(before.entries@, j);
                            } else {
                                lemma_lookup(before.entries@, j + 1);
                            }
                        }
                    }
                }
                Some(request)
            },
            None => {
                assert(self@.remove(id@) =~= self@);
                None
            },
        }
    }

    /// Drops the record of a request the client no longer wants, and says whether there
    /// was one.
    pub fn cancel(&mut self, id: &RequestId) -> (r: bool)
        requires
            old(self).wf(),
        ensures
            final(self).wf(),
            final(self)@ == old(self)@.remove(id@),
            r == old(self)@.contains_key(id@),
    {
        self.finish(id).is_some()
    }
}

} // verus!
