//! The worker's handle for use in futures.

use vstd::prelude::*;
use crate::iterators::async_iterators::async_trait::AsyncIterator;
use crate::iterators::async_iterators::detached::AsyncDetached;
use crate::iterators::iterator_trait::{iter_ok, iter_placed, MRBIterator};
use crate::iterators::sync_iterators::work_iter::WorkIter;
use crate::model::ring_view::{IterView, Role};
use crate::ring_buffer::variants::async_rb::WakerManager;

verus! {

/// Async version of [`WorkIter`].
pub struct AsyncWorkIter {
    inner: WorkIter,
}

impl AsyncIterator for AsyncWorkIter {
    type I = WorkIter;

    closed spec fn view(&self) -> IterView {
        self.inner@
    }

    fn inner(&self) -> (r: &WorkIter) {
        &self.inner
    }

    fn inner_mut(&mut self) -> (r: &mut WorkIter) {
        &mut self.inner
    }

    fn into_sync(self) -> (r: WorkIter) {
        self.inner
    }

    fn from_sync(iter: WorkIter) -> (r: Self) {
        AsyncWorkIter { inner: iter }
    }
}

impl AsyncWorkIter {
    /// Detaches the handle: its moves stay local until they are synchronised.
    pub fn detach(self) -> (r: AsyncDetached<Self>)
        ensures
            r@ == self@,
    {
        AsyncDetached::from_iter(self)
    }

    /// Same as [`WorkIter::reset_index`], for use in a future: where the operation has to wait,
    /// the waker of the task is registered for this role; where it moved the handle,
    /// the role behind it is woken.
    pub fn reset_index<B: WakerManager>(&mut self, buf: &mut B)
        requires
            iter_placed(old(buf)@, Role::Worker, old(self)@),
        ensures
            final(self)@ == (IterView { index: old(buf)@.prod, cached_avail: 0 }),
            final(buf)@ == old(buf)@.with_index(Role::Worker, old(buf)@.prod),
            iter_ok(final(buf)@, Role::Worker, final(self)@),
            final(buf).frees_on_teardown() == old(buf).frees_on_teardown(),
    {
        self.inner.reset_index(buf);
        self.wake_next(buf);
    }
}

} // verus!
