//! The files whose diagnostics and decorations the client is kept up to date on.

use vstd::prelude::*;

verus! {

/// The number of a file.
#[derive(Debug, Clone, Copy, PartialEq, Eq, Structural)]
pub struct FileId(pub u32);

/// The subscribed files, in the order in which they were subscribed.
#[derive(Debug)]
pub struct Subscriptions {
    subs: Vec<FileId>,
}

/// The subscriptions once `file_id` has been added to `subs`.
pub open spec fn subs_added(subs: Seq<FileId>, file_id: FileId) -> Seq<FileId> {
    if subs.contains(file_id) {
        subs
    } else {
        subs.push(file_id)
    }
}

/// The subscriptions once `file_id` has been taken out of `subs`.
pub open spec fn subs_removed(subs: Seq<FileId>, file_id: FileId) -> Seq<FileId> {
    subs.remove_value(file_id)
}

/// Where no file is subscribed twice, all others stay, in their order.
pub proof fn lemma_removal_filters(subs: Seq<FileId>, file_id: FileId)
    requires
        subs.no_duplicates(),
    ensures
        subs_removed(subs, file_id) == subs.filter(|f: FileId| f != file_id),
    decreases subs.len(),
{
    reveal(Seq::filter);
    let others = |f: FileId| f != file_id;
    subs.index_of_first_ensures(file_id);
    if subs.len() > 0 {
        let init = subs.drop_last();
        lemma_removal_filters(init, file_id);
        init.index_of_first_ensures(file_id);
        if subs.last() == file_id {
            assert(!init.contains(file_id)) by {
                if init.contains(file_id) {
                    let i = choose|i: int| 0 <= i < init.len() && init[i] == file_id;
                    assert(subs[i] == subs[subs.len() - 1]);
                }
            }
            assert(subs.contains(file_id));
            assert(subs_removed(subs, file_id) =~= init);
            assert(subs_removed(init, file_id) == init);
        } else if init.contains(file_id) {
            let i = init.index_of_first(file_id)->0;
            assert(subs[i] == file_id);
            assert(subs.contains(file_id));
            assert(subs_removed(subs, file_id) =~= init.remove(i).push(subs.last()));
        } else {
            assert(!subs.contains(file_id)) by {
                if subs.contains(file_id) {
                    let i = choose|i: int| 0 <= i < subs.len() && subs[i] == file_id;
                    assert(init[i] == file_id);
                }
            }
            assert(subs =~= init.push(subs.last()));
        }
    }
}

impl View for Subscriptions {
    type V = Seq<FileId>;

    closed spec fn view(&self) -> Seq<FileId> {
        self.subs@
    }
}

impl Subscriptions {
    /// No file is subscribed twice.
    pub open spec fn wf(&self) -> bool {
        self@.no_duplicates()
    }

    pub fn new() -> (r: Subscriptions)
        ensures
            r.wf(),
            r@ == Seq::<FileId>::empty(),
    {
        Subscriptions { subs: Vec::new() }
    }

    fn position(&self, file_id: FileId) -> (r: Option<usize>)
        ensures
            match r {
                Some(i) => {
                    &&& i < self@.len()
                    &&& self@[i as int] == file_id
                    &&& self@.index_of_first(file_id) == Some(i as int)
                },
                None => !self@.contains(file_id),
            },
    {
        let mut i: usize = 0;
        while i < self.subs.len()
            invariant
                i <= self.subs@.len(),
                forall|j: int| 0 <= j < i ==> self.subs@[j] != file_id,
            decreases self.subs@.len() - i,
        {
            if self.subs[i] == file_id {
                proof {
                    self@.index_of_first_ensures(file_id);
                }
                return Some(i);
            }
            i += 1;
        }
        None
    }

    /// Subscribes to a file; a file that is subscribed already keeps its place.
    pub fn add_sub(&mut self, file_id: FileId)
        requires
            old(self).wf(),
        ensures
            final(self).wf(),
            final(self)@ == subs_added(old(self)@, file_id),
            old(self)@.contains(file_id) ==> final(self)@ == old(self)@,
            !old(self)@.contains(file_id) ==> final(self)@ == old(self)@.push(file_id),
    {
        if self.position(file_id).is_none() {
            self.subs.push(file_id);
        }
    }

    /// Ends the subscription to a file, where there is one.
    pub fn remove_sub(&mut self, file_id: FileId)
        requires
            old(self).wf(),
        ensures
            final(self).wf(),
            final(self)@ == subs_removed(old(self)@, file_id),
            final(self)@ == old(self)@.filter(|f: FileId| f != file_id),
            !final(self)@.contains(file_id),
    {
        let ghost before = self@;
        proof {
            lemma_removal_filters(before, file_id);
        }
        match self.position(file_id) {
            Some(i) => {
                let _ = self.subs.remove(i);
                proof {
                    before.index_of_first_ensures(file_id);
                    assert(self@ == before.remove(i as int));
                }
            },
            None => {
                proof {
                    before.index_of_first_ensures(file_id);
                }
            },
        }
    }

    /// The subscribed files.
    pub fn subscriptions(&self) -> (r: Vec<FileId>)
        ensures
            r@ == self@,
    {
        let mut r: Vec<FileId> = Vec::new();
        let mut i: usize = 0;
        while i < self.subs.len()
            invariant
                i <= self.subs@.len(),
                r@ == self.subs@.take(i as int),
            decreases self.subs@.len() - i,
        {
            r.push(self.subs[i]);
            i += 1;
        }
        assert(self.subs@.take(i as int) =~= self.subs@);
        r
    }
}

} // verus!
