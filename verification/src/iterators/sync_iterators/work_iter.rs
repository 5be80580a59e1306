//! The worker's handle.

use vstd::prelude::*;
use crate::iterators::iterator_trait::{iter_ok, iter_placed, MRBIterator};
use crate::iterators::sync_iterators::detached::Detached;
use crate::model::ring_math::pending_slots;
use crate::model::ring_view::{IterView, Role};
use crate::ring_buffer::variants::ring_buffer_trait::MutRB;

verus! {

/// Handle used to mutate elements in place.
///
/// The methods of [`MRBIterator`] lend out slots of the buffer; the handle moves,
/// and the consumer may follow, only when [`MRBIterator::advance`] is called. To
/// move without letting the consumer follow, detach the handle with
/// [`Self::detach`].
pub struct WorkIter {
    index: usize,
    cached_avail: usize,
}

/// Handle that moves as a [`WorkIter`] does but publishes its position only on
/// request.
pub type DetachedWorkIter = Detached<WorkIter>;

impl MRBIterator for WorkIter {
    open spec fn role() -> Role {
        Role::Worker
    }

    open spec fn accepts(has_worker: bool) -> bool {
        has_worker
    }

    closed spec fn view(&self) -> IterView {
        IterView { index: self.index as int, cached_avail: self.cached_avail as int }
    }

    fn exec_role() -> (r: Role) {
        Role::Worker
    }

    fn _index(&self) -> (r: usize) {
        self.index
    }

    fn set_local_index(&mut self, index: usize) {
        self.index = index;
    }

    fn cached_avail(&self) -> (r: usize) {
        self.cached_avail
    }

    fn set_cached_avail(&mut self, avail: usize) {
        self.cached_avail = avail;
    }

    fn succ_index<B: MutRB>(&self, buf: &B) -> (r: usize) {
        buf.prod_index()
    }

    fn set_atomic_index<B: MutRB>(&self, buf: &mut B, index: usize) {
        buf.set_work_index(index);
    }

    fn available<B: MutRB>(&mut self, buf: &B) -> (r: usize) {
        let succ: usize = self.succ_index(buf);
        let len: usize = buf.inner_len();
        self.cached_avail = pending_slots(self.index, succ, len);
        self.cached_avail
    }
}

impl WorkIter {
    /// The worker's handle for `buf`, standing at the worker's published position.
    pub fn new<B: MutRB>(buf: &B) -> (r: Self)
        requires
            buf@.in_bounds(),
        ensures
            r@ == (IterView { index: buf@.work, cached_avail: 0 }),
    {
        WorkIter { index: buf.work_index(), cached_avail: 0 }
    }

    /// Detaches the handle: its moves stay local until they are synchronised.
    pub fn detach(self) -> (r: Detached<Self>)
        ensures
            r@ == self@,
    {
        Detached::from_iter(self)
    }

    /// Resets the index of the handle: moves it to the position of the producer,
    /// leaving to the consumer whatever was waiting to be worked on.
    pub fn reset_index<B: MutRB>(&mut self, buf: &mut B)
        requires
            iter_placed(old(buf)@, Role::Worker, old(self)@),
        ensures
            final(self)@ == (IterView { index: old(buf)@.prod, cached_avail: 0 }),
            final(buf)@ == old(buf)@.with_index(Role::Worker, old(buf)@.prod),
            iter_ok(final(buf)@, Role::Worker, final(self)@),
            final(buf).frees_on_teardown() == old(buf).frees_on_teardown(),
    {
        let new_idx: usize = self.succ_index(buf);
        proof {
            let v = old(buf)@;
            v.lemma_publish(Role::Worker, self@.index, v.avail_at(Role::Worker, self@.index));
        }
        self.index = new_idx;
        self.cached_avail = 0;
        self.set_atomic_index(buf, new_idx);
    }
}

} // verus!
