//! A handle whose moves stay local.

use vstd::prelude::*;
use crate::iterators::iterator_trait::{iter_ok, iter_placed, MRBIterator, MutableSlice};
use crate::model::ring_math::{largest_multiple, ring_add, ring_dist, ring_sub, step_backward};
use crate::model::ring_view::{
    cache_advanced, cache_checked, window_lent, IterView, RingView, Role,
};
use crate::ring_buffer::variants::ring_buffer_trait::MutRB;
use crate::ring_buffer::wrappers::unsafe_sync_cell::contents;

verus! {

/// Detached handle: does not publish its position when advancing.
///
/// This makes it possible to explore available data back and forth, putting the
/// role behind it on hold, and to go back to a normal handle with
/// [`Detached::attach`] once a suitable position is found. To keep the buffer from
/// filling up meanwhile, the position can be published with
/// [`Detached::sync_index`].
///
/// The position of a detached handle stays within the territory of its role: for a
/// worker, between the consumer and the producer.
pub struct Detached<I: MRBIterator> {
    inner: I,
}

impl<I: MRBIterator> View for Detached<I> {
    type V = IterView;

    closed spec fn view(&self) -> IterView {
        self.inner@
    }
}

impl<I: MRBIterator> Detached<I> {
    /// Creates a detached handle from a handle.
    pub fn from_iter(iter: I) -> (r: Self)
        ensures
            r@ == iter@,
    {
        Detached { inner: iter }
    }

    /// Publishes the position of the handle and yields the handle as a normal one.
    pub fn attach<B: MutRB>(self, buf: &mut B) -> (r: I)
        requires
            I::accepts(old(buf)@.has_worker),
            iter_ok(old(buf)@, I::role(), self@),
            I::role() == Role::Producer ==> old(buf)@.filled(
                old(buf)@.prod,
                old(buf)@.free_used(self@.index),
            ),
        ensures
            r@ == self@,
            final(buf)@ == old(buf)@.with_index(I::role(), self@.index),
            iter_ok(final(buf)@, I::role(), r@),
            final(buf).frees_on_teardown() == old(buf).frees_on_teardown(),
    {
        self.sync_index(buf);
        self.inner
    }

    /// Publishes the position of the handle, which lets the role behind it move on.
    pub fn sync_index<B: MutRB>(&self, buf: &mut B)
        requires
            I::accepts(old(buf)@.has_worker),
            iter_ok(old(buf)@, I::role(), self@),
            I::role() == Role::Producer ==> old(buf)@.filled(
                old(buf)@.prod,
                old(buf)@.free_used(self@.index),
            ),
        ensures
            final(buf)@ == old(buf)@.with_index(I::role(), self@.index),
            iter_ok(final(buf)@, I::role(), self@),
            final(buf).frees_on_teardown() == old(buf).frees_on_teardown(),
    {
        proof {
            old(buf)@.lemma_publish(I::role(), self@.index, 0);
        }
        let index: usize = self.inner.index();
        self.inner.set_atomic_index(buf, index);
    }

    /// Drops the handle: the buffer records that its role is gone, and a buffer that
    /// its handles own is freed with the last of them.
    pub fn drop<B: MutRB>(self, buf: &mut B)
        requires
            old(buf)@.in_bounds(),
            old(buf)@.alive_consistent(),
            old(buf)@.role_alive(I::role()),
        ensures
            final(buf)@ == if old(buf)@.alive_iters == 1 && old(buf).frees_on_teardown() {
                RingView::torn_down()
            } else {
                old(buf)@.without_handle(I::role())
            },
            final(buf).frees_on_teardown() == old(buf).frees_on_teardown(),
    {
        self.inner.drop(buf);
    }

    /// Returns the count of available slots that the handle has cached.
    pub fn cached_avail(&self) -> (r: usize)
        ensures
            r == self@.cached_avail,
    {
        self.inner.cached_avail()
    }

    /// Sets the *local* position and forgets the cached count. The next operation
    /// asks that the position lies within the territory of the role.
    pub fn set_index(&mut self, index: usize)
        ensures
            final(self)@ == (IterView { index: index as int, cached_avail: 0 }),
    {
        self.inner.set_local_index(index);
        self.inner.set_cached_avail(0);
    }

    /// Resets the *local* position of the handle: moves it to the position of the
    /// role ahead of it.
    pub fn reset_index<B: MutRB>(&mut self, buf: &B)
        requires
            I::accepts(buf@.has_worker),
            iter_placed(buf@, I::role(), old(self)@),
        ensures
            final(self)@ == (IterView { index: buf@.succ_of(I::role()), cached_avail: 0 }),
            I::role() != Role::Producer ==> iter_ok(buf@, I::role(), final(self)@),
    {
        let new_idx: usize = self.inner.succ_index(buf);
        self.inner.set_local_index(new_idx);
        self.inner.set_cached_avail(0);
    }

    /// Advances the handle by `count` without publishing the new position.
    pub fn advance<B: MutRB>(&mut self, buf: &B, count: usize)
        requires
            I::accepts(buf@.has_worker),
            iter_ok(buf@, I::role(), old(self)@),
            count <= buf@.avail_at(I::role(), old(self)@.index),
        ensures
            final(self)@.index == ring_add(old(self)@.index, count as int, buf@.len()),
            final(self)@.cached_avail == cache_advanced(old(self)@.cached_avail, count as int),
            iter_ok(buf@, I::role(), final(self)@),
    {
        self.inner.advance_local(buf, count);
    }

    /// Goes back by `count`, wrapping if necessary, and counts the slots stepped
    /// over as available again.
    pub fn go_back<B: MutRB>(&mut self, buf: &B, count: usize)
        requires
            I::accepts(buf@.has_worker),
            iter_ok(buf@, I::role(), old(self)@),
            count <= ring_dist(buf@.base_of(I::role()), old(self)@.index, buf@.len()),
        ensures
            final(self)@.index == ring_sub(old(self)@.index, count as int, buf@.len()),
            final(self)@.cached_avail == old(self)@.cached_avail + count,
            iter_ok(buf@, I::role(), final(self)@),
    {
        let idx: usize = self.inner.index();
        let len: usize = self.inner.buf_len(buf);
        let cached: usize = self.inner.cached_avail();
        self.inner.set_local_index(step_backward(idx, count, len));
        self.inner.set_cached_avail(cached + count);
    }

    /// Returns the number of items available for this handle, and caches it.
    pub fn available<B: MutRB>(&mut self, buf: &B) -> (r: usize)
        requires
            I::accepts(buf@.has_worker),
            iter_placed(buf@, I::role(), old(self)@),
        ensures
            r == buf@.avail_at(I::role(), old(self)@.index),
            final(self)@ == (IterView { cached_avail: r as int, ..old(self)@ }),
    {
        self.inner.available(buf)
    }

    /// Returns the position of the handle.
    pub fn index(&self) -> (r: usize)
        ensures
            r == self@.index,
    {
        self.inner.index()
    }

    /// Returns the length of the buffer.
    pub fn buf_len<B: MutRB>(&self, buf: &B) -> (r: usize)
        requires
            buf@.in_bounds(),
        ensures
            r == buf@.len(),
    {
        self.inner.buf_len(buf)
    }

    /// Returns `true` if the producer handle exists, `false` if it has been dropped.
    pub fn is_prod_alive<B: MutRB>(&self, buf: &B) -> (r: bool)
        requires
            buf@.in_bounds(),
        ensures
            r == buf@.prod_alive,
    {
        self.inner.is_prod_alive(buf)
    }

    /// Returns `true` if the worker handle exists, `false` if it has been dropped.
    pub fn is_work_alive<B: MutRB>(&self, buf: &B) -> (r: bool)
        requires
            buf@.in_bounds(),
        ensures
            r == buf@.work_alive,
    {
        self.inner.is_work_alive(buf)
    }

    /// Returns `true` if the consumer handle exists, `false` if it has been dropped.
    pub fn is_cons_alive<B: MutRB>(&self, buf: &B) -> (r: bool)
        requires
            buf@.in_bounds(),
        ensures
            r == buf@.cons_alive,
    {
        self.inner.is_cons_alive(buf)
    }

    /// Returns the published position of the producer.
    pub fn prod_index<B: MutRB>(&self, buf: &B) -> (r: usize)
        requires
            buf@.in_bounds(),
        ensures
            r == buf@.prod,
    {
        self.inner.prod_index(buf)
    }

    /// Returns the published position of the worker.
    pub fn work_index<B: MutRB>(&self, buf: &B) -> (r: usize)
        requires
            buf@.in_bounds(),
        ensures
            r == buf@.work,
    {
        self.inner.work_index(buf)
    }

    /// Returns the published position of the consumer.
    pub fn cons_index<B: MutRB>(&self, buf: &B) -> (r: usize)
        requires
            buf@.in_bounds(),
        ensures
            r == buf@.cons,
    {
        self.inner.cons_index(buf)
    }

    /// Returns a mutable reference to the value at the handle's position, if a slot
    /// is available. The handle does not move: [`MRBIterator::advance`] has to be
    /// called when done with the mutation.
    pub fn get_workable<'a, B: MutRB>(&mut self, buf: &'a mut B) -> (r: Option<&'a mut B::Item>)
        requires
            I::accepts(old(buf)@.has_worker),
            iter_ok(old(buf)@, I::role(), old(self)@),
            I::role() == Role::Producer && 1 <= old(buf)@.avail_at(
                I::role(),
                old(self)@.index,
            ) ==> old(buf)@.filled(old(self)@.index, 1),
        ensures
            r is Some <==> 1 <= old(buf)@.avail_at(I::role(), old(self)@.index),
            final(self)@.index == old(self)@.index,
            final(self)@.cached_avail == cache_checked(
                old(self)@.cached_avail,
                old(buf)@.avail_at(I::role(), old(self)@.index),
                1,
            ),
            final(buf).frees_on_teardown() == old(buf).frees_on_teardown(),
            r is None ==> final(buf)@ == old(buf)@,
            r is Some ==> Some(*r.unwrap()) == old(buf)@.slots[old(self)@.index],
            r is Some ==> final(buf)@ == old(buf)@.with_slot(
                old(self)@.index,
                Some(*final(r.unwrap())),
            ),
            iter_ok(final(buf)@, I::role(), final(self)@),
    {
        self.inner.get_workable(buf)
    }

    /// Returns the next `count` slots as a head and a tail, if that many are
    /// available. The handle does not move: [`MRBIterator::advance`] has to be called
    /// when done with the mutation.
    pub fn get_workable_slice_exact<'a, B: MutRB>(&mut self, buf: &'a mut B, count: usize) -> (r:
        Option<MutableSlice<'a, B::Item>>)
        requires
            I::accepts(old(buf)@.has_worker),
            iter_ok(old(buf)@, I::role(), old(self)@),
        ensures
            r is Some <==> count <= old(buf)@.avail_at(I::role(), old(self)@.index),
            final(self)@.index == old(self)@.index,
            final(self)@.cached_avail == cache_checked(
                old(self)@.cached_avail,
                old(buf)@.avail_at(I::role(), old(self)@.index),
                count as int,
            ),
            iter_ok(old(buf)@, I::role(), final(self)@),
            final(buf).frees_on_teardown() == old(buf).frees_on_teardown(),
            r is None ==> final(buf)@ == old(buf)@,
            r is Some ==> window_lent(
                old(buf)@,
                final(buf)@,
                old(self)@.index,
                count as int,
                contents(r.unwrap().0@),
                contents(r.unwrap().1@),
                contents(final(r.unwrap().0)@),
                contents(final(r.unwrap().1)@),
            ),
    {
        self.inner.get_workable_slice_exact(buf, count)
    }

    /// Returns all available slots as a head and a tail, or `None` where nothing is
    /// available. The handle does not move.
    pub fn get_workable_slice_avail<'a, B: MutRB>(&mut self, buf: &'a mut B) -> (r: Option<
        MutableSlice<'a, B::Item>,
    >)
        requires
            I::accepts(old(buf)@.has_worker),
            iter_placed(old(buf)@, I::role(), old(self)@),
        ensures
            r is Some <==> 0 < old(buf)@.avail_at(I::role(), old(self)@.index),
            final(self)@ == (IterView {
                cached_avail: old(buf)@.avail_at(I::role(), old(self)@.index),
                ..old(self)@
            }),
            final(buf).frees_on_teardown() == old(buf).frees_on_teardown(),
            r is None ==> final(buf)@ == old(buf)@,
            r is Some ==> window_lent(
                old(buf)@,
                final(buf)@,
                old(self)@.index,
                old(buf)@.avail_at(I::role(), old(self)@.index),
                contents(r.unwrap().0@),
                contents(r.unwrap().1@),
                contents(final(r.unwrap().0)@),
                contents(final(r.unwrap().1)@),
            ),
    {
        self.inner.get_workable_slice_avail(buf)
    }

    /// Returns the largest run of available slots whose length is a multiple of
    /// `rhs`, as a head and a tail, or `None` where fewer than `rhs` are available.
    /// The handle does not move.
    pub fn get_workable_slice_multiple_of<'a, B: MutRB>(&mut self, buf: &'a mut B, rhs: usize) -> (r:
        Option<MutableSlice<'a, B::Item>>)
        requires
            rhs > 0,
            I::accepts(old(buf)@.has_worker),
            iter_placed(old(buf)@, I::role(), old(self)@),
        ensures
            r is Some <==> rhs <= old(buf)@.avail_at(I::role(), old(self)@.index),
            final(self)@ == (IterView {
                cached_avail: old(buf)@.avail_at(I::role(), old(self)@.index),
                ..old(self)@
            }),
            final(buf).frees_on_teardown() == old(buf).frees_on_teardown(),
            r is None ==> final(buf)@ == old(buf)@,
            r is Some ==> window_lent(
                old(buf)@,
                final(buf)@,
                old(self)@.index,
                largest_multiple(old(buf)@.avail_at(I::role(), old(self)@.index), rhs as int),
                contents(r.unwrap().0@),
                contents(r.unwrap().1@),
                contents(final(r.unwrap().0)@),
                contents(final(r.unwrap().1)@),
            ),
    {
        self.inner.get_workable_slice_multiple_of(buf, rhs)
    }
}

} // verus!
