//! A handle for use in futures whose moves stay local.

use vstd::prelude::*;
use crate::iterators::async_iterators::async_trait::AsyncIterator;
use crate::iterators::iterator_trait::{iter_ok, MRBIterator};
use crate::model::ring_math::{ring_add, ring_dist, ring_sub, step_backward};
use crate::model::ring_view::{cache_advanced, IterView, Role};
use crate::ring_buffer::variants::async_rb::WakerManager;

verus! {

/// Async version of [`Detached`].
///
/// [`Detached`]: crate::iterators::sync_iterators::detached::Detached
pub struct AsyncDetached<I: AsyncIterator> {
    inner: I,
}

impl<I: AsyncIterator> View for AsyncDetached<I> {
    type V = IterView;

    closed spec fn view(&self) -> IterView {
        self.inner@
    }
}

impl<I: AsyncIterator> AsyncDetached<I> {
    /// Creates a detached handle from a handle.
    pub fn from_iter(iter: I) -> (r: Self)
        ensures
            r@ == iter@,
    {
        AsyncDetached { inner: iter }
    }

    /// Publishes the position of the handle, wakes the role behind it and yields the
    /// handle as a normal one.
    pub fn attach<B: WakerManager>(self, buf: &mut B) -> (r: I)
        requires
            I::I::accepts(old(buf)@.has_worker),
            iter_ok(old(buf)@, I::I::role(), self@),
            I::I::role() == Role::Producer ==> old(buf)@.filled(
                old(buf)@.prod,
                old(buf)@.free_used(self@.index),
            ),
        ensures
            r@ == self@,
            final(buf)@ == old(buf)@.with_index(I::I::role(), self@.index),
            iter_ok(final(buf)@, I::I::role(), r@),
            final(buf).frees_on_teardown() == old(buf).frees_on_teardown(),
    {
        self.sync_index(buf);
        self.inner
    }

    /// Publishes the position of the handle and wakes the role behind it.
    pub fn sync_index<B: WakerManager>(&self, buf: &mut B)
        requires
            I::I::accepts(old(buf)@.has_worker),
            iter_ok(old(buf)@, I::I::role(), self@),
            I::I::role() == Role::Producer ==> old(buf)@.filled(
                old(buf)@.prod,
                old(buf)@.free_used(self@.index),
            ),
        ensures
            final(buf)@ == old(buf)@.with_index(I::I::role(), self@.index),
            iter_ok(final(buf)@, I::I::role(), self@),
            final(buf).frees_on_teardown() == old(buf).frees_on_teardown(),
    {
        proof {
            old(buf)@.lemma_publish(I::I::role(), self@.index, 0);
        }
        let index: usize = self.inner.inner().index();
        self.inner.inner().set_atomic_index(buf, index);
        self.inner.wake_next(buf);
    }

    /// Advances the handle by `count` without publishing the new position.
    pub fn advance<B: WakerManager>(&mut self, buf: &B, count: usize)
        requires
            I::I::accepts(buf@.has_worker),
            iter_ok(buf@, I::I::role(), old(self)@),
            count <= buf@.avail_at(I::I::role(), old(self)@.index),
        ensures
            final(self)@.index == ring_add(old(self)@.index, count as int, buf@.len()),
            final(self)@.cached_avail == cache_advanced(old(self)@.cached_avail, count as int),
            iter_ok(buf@, I::I::role(), final(self)@),
    {
        self.inner.inner_mut().advance_local(buf, count);
    }

    /// Goes back by `count`, wrapping if necessary, and counts the slots stepped
    /// over as available again.
    pub fn go_back<B: WakerManager>(&mut self, buf: &B, count: usize)
        requires
            I::I::accepts(buf@.has_worker),
            iter_ok(buf@, I::I::role(), old(self)@),
            count <= ring_dist(buf@.base_of(I::I::role()), old(self)@.index, buf@.len()),
        ensures
            final(self)@.index == ring_sub(old(self)@.index, count as int, buf@.len()),
            final(self)@.cached_avail == old(self)@.cached_avail + count,
            iter_ok(buf@, I::I::role(), final(self)@),
    {
        let idx: usize = self.inner.inner().index();
        let len: usize = self.inner.inner().buf_len(buf);
        let cached: usize = self.inner.inner().cached_avail();
        let it = self.inner.inner_mut();
        it.set_local_index(step_backward(idx, count, len));
        it.set_cached_avail(cached + count);
    }
}

} // verus!
