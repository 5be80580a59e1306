//! What the handles for use in futures have in common.

use vstd::prelude::*;
use crate::iterators::iterator_trait::{iter_ok, iter_placed, MRBIterator, MutableSlice};
use crate::model::ring_math::{largest_multiple, ring_add};
use crate::model::ring_view::{
    cache_advanced, cache_checked, wake_target, window_lent, IterView, Role,
};
use crate::ring_buffer::variants::async_rb::WakerManager;
use crate::ring_buffer::wrappers::unsafe_sync_cell::contents;
use std::task::Waker;

verus! {

/// Trait implemented by the handles for use in futures.
///
/// Such a handle holds a handle of its role. Its operations do what those of that
/// handle do, and see to the wakers besides: an operation that finds too little
/// available registers the waker of the task for its role before it looks again,
/// and an operation that moves the handle wakes the one role that runs up against
/// it.
pub trait AsyncIterator: Sized {
    /// The kind of handle held.
    type I: MRBIterator;

    /// Position and cached count of the handle held.
    spec fn view(&self) -> IterView;

    /// The handle held.
    fn inner(&self) -> (r: &Self::I)
        ensures
            r@ == self@,
    ;

    /// The handle held, mutably.
    fn inner_mut(&mut self) -> (r: &mut Self::I)
        ensures
            r@ == old(self)@,
            final(self)@ == final(r)@,
    ;

    /// Gives up the waking and yields the handle held.
    fn into_sync(self) -> (r: Self::I)
        ensures
            r@ == self@,
    ;

    /// Makes a handle for use in futures of a handle.
    fn from_sync(iter: Self::I) -> (r: Self)
        ensures
            r@ == iter@,
    ;

    /// Registers `waker` as the one to wake when this role can go on.
    fn register_waker<B: WakerManager>(&self, buf: &B, waker: &Waker)
        requires
            buf@.in_bounds(),
    {
        buf.register_waker(Self::I::exec_role(), waker);
    }

    /// Takes the waker of this role out of its slot, if there is one.
    fn take_waker<B: WakerManager>(&self, buf: &B) -> (r: Option<Waker>)
        requires
            buf@.in_bounds(),
    {
        buf.take_waker(Self::I::exec_role())
    }

    /// Wakes the role that runs up against this one.
    fn wake_next<B: WakerManager>(&self, buf: &B)
        requires
            buf@.in_bounds(),
    {
        buf.wake_role(wake_target(Self::I::exec_role(), buf.has_worker()));
    }

    /// Same as [`MRBIterator::get_workable`], for use in a future: where the operation has to wait,
    /// the waker of the task is registered for this role; where it moved the handle,
    /// the role behind it is woken.
    fn get_workable<'a, B: WakerManager>(&mut self, buf: &'a mut B, waker: &Waker) -> (r: Option<&'a mut B::Item>)
        requires
            Self::I::accepts(old(buf)@.has_worker),
            iter_ok(old(buf)@, Self::I::role(), old(self)@),
            Self::I::role() == Role::Producer && 1 <= old(buf)@.avail_at(
                Self::I::role(),
                old(self)@.index,
            ) ==> old(buf)@.filled(old(self)@.index, 1),
        ensures
            r is Some <==> 1 <= old(buf)@.avail_at(Self::I::role(), old(self)@.index),
            final(self)@.index == old(self)@.index,
            final(self)@.cached_avail == cache_checked(
                old(self)@.cached_avail,
                old(buf)@.avail_at(Self::I::role(), old(self)@.index),
                1,
            ),
            final(buf).frees_on_teardown() == old(buf).frees_on_teardown(),
            r is None ==> final(buf)@ == old(buf)@,
            r is Some ==> Some(*r.unwrap()) == old(buf)@.slots[old(self)@.index],
            r is Some ==> final(buf)@ == old(buf)@.with_slot(
                old(self)@.index,
                Some(*final(r.unwrap())),
            ),
            iter_ok(final(buf)@, Self::I::role(), final(self)@),
    {
        if !self.inner_mut().check(buf, 1) {
            self.register_waker(buf, waker);
        }
        self.inner_mut().get_workable(buf)
    }

    /// Same as [`MRBIterator::get_workable_slice_exact`], for use in a future: where the operation has to wait,
    /// the waker of the task is registered for this role; where it moved the handle,
    /// the role behind it is woken.
    fn get_workable_slice_exact<'a, B: WakerManager>(&mut self, buf: &'a mut B, count: usize, waker: &Waker) -> (r:
        Option<MutableSlice<'a, B::Item>>)
        requires
            Self::I::accepts(old(buf)@.has_worker),
            iter_ok(old(buf)@, Self::I::role(), old(self)@),
        ensures
            r is Some <==> count <= old(buf)@.avail_at(Self::I::role(), old(self)@.index),
            final(self)@.index == old(self)@.index,
            final(self)@.cached_avail == cache_checked(
                old(self)@.cached_avail,
                old(buf)@.avail_at(Self::I::role(), old(self)@.index),
                count as int,
            ),
            iter_ok(old(buf)@, Self::I::role(), final(self)@),
            final(buf).frees_on_teardown() == old(buf).frees_on_teardown(),
            r is None ==> final(buf)@ == old(buf)@,
            r is Some ==> window_lent(
                old(buf)@,
                final(buf)@,
                old(self)@.index,
                count as int,
                contents(r.unwrap().0@),
                contents(r.unwrap().1@),
                contents(final(r.unwrap().0)@),
                contents(final(r.unwrap().1)@),
            ),
    {
        if !self.inner_mut().check(buf, count) {
            self.register_waker(buf, waker);
        }
        self.inner_mut().get_workable_slice_exact(buf, count)
    }

    /// Same as [`MRBIterator::get_workable_slice_avail`], for use in a future: where the operation has to wait,
    /// the waker of the task is registered for this role; where it moved the handle,
    /// the role behind it is woken.
    fn get_workable_slice_avail<'a, B: WakerManager>(&mut self, buf: &'a mut B, waker: &Waker) -> (r: Option<
        MutableSlice<'a, B::Item>,
    >)
        requires
            Self::I::accepts(old(buf)@.has_worker),
            iter_placed(old(buf)@, Self::I::role(), old(self)@),
        ensures
            r is Some <==> 0 < old(buf)@.avail_at(Self::I::role(), old(self)@.index),
            final(self)@ == (IterView {
                cached_avail: old(buf)@.avail_at(Self::I::role(), old(self)@.index),
                ..old(self)@
            }),
            final(buf).frees_on_teardown() == old(buf).frees_on_teardown(),
            r is None ==> final(buf)@ == old(buf)@,
            r is Some ==> window_lent(
                old(buf)@,
                final(buf)@,
                old(self)@.index,
                old(buf)@.avail_at(Self::I::role(), old(self)@.index),
                contents(r.unwrap().0@),
                contents(r.unwrap().1@),
                contents(final(r.unwrap().0)@),
                contents(final(r.unwrap().1)@),
            ),
    {
        if self.inner_mut().available(buf) < 1 {
            self.register_waker(buf, waker);
        }
        self.inner_mut().get_workable_slice_avail(buf)
    }

    /// Same as [`MRBIterator::get_workable_slice_multiple_of`], for use in a future: where the operation has to wait,
    /// the waker of the task is registered for this role; where it moved the handle,
    /// the role behind it is woken.
    fn get_workable_slice_multiple_of<'a, B: WakerManager>(&mut self, buf: &'a mut B, rhs: usize, waker: &Waker) -> (r:
        Option<MutableSlice<'a, B::Item>>)
        requires
            rhs > 0,
            Self::I::accepts(old(buf)@.has_worker),
            iter_placed(old(buf)@, Self::I::role(), old(self)@),
        ensures
            r is Some <==> rhs <= old(buf)@.avail_at(Self::I::role(), old(self)@.index),
            final(self)@ == (IterView {
                cached_avail: old(buf)@.avail_at(Self::I::role(), old(self)@.index),
                ..old(self)@
            }),
            final(buf).frees_on_teardown() == old(buf).frees_on_teardown(),
            r is None ==> final(buf)@ == old(buf)@,
            r is Some ==> window_lent(
                old(buf)@,
                final(buf)@,
                old(self)@.index,
                largest_multiple(old(buf)@.avail_at(Self::I::role(), old(self)@.index), rhs as int),
                contents(r.unwrap().0@),
                contents(r.unwrap().1@),
                contents(final(r.unwrap().0)@),
                contents(final(r.unwrap().1)@),
            ),
    {
        if self.inner_mut().available(buf) < rhs {
            self.register_waker(buf, waker);
        }
        self.inner_mut().get_workable_slice_multiple_of(buf, rhs)
    }

    /// Same as [`MRBIterator::advance`], for use in a future: where the operation has to wait,
    /// the waker of the task is registered for this role; where it moved the handle,
    /// the role behind it is woken.
    fn advance<B: WakerManager>(&mut self, buf: &mut B, count: usize)
        requires
            Self::I::accepts(old(buf)@.has_worker),
            iter_ok(old(buf)@, Self::I::role(), old(self)@),
            count <= old(buf)@.avail_at(Self::I::role(), old(self)@.index),
            Self::I::role() == Role::Producer ==> old(buf)@.filled(
                old(buf)@.prod,
                old(buf)@.free_used(old(self)@.index) + count,
            ),
        ensures
            final(self)@.index == ring_add(old(self)@.index, count as int, old(buf)@.len()),
            final(self)@.cached_avail == cache_advanced(old(self)@.cached_avail, count as int),
            final(buf)@ == old(buf)@.with_index(Self::I::role(), final(self)@.index),
            final(buf).frees_on_teardown() == old(buf).frees_on_teardown(),
            iter_ok(final(buf)@, Self::I::role(), final(self)@),
    {
        self.inner_mut().advance(buf, count);
        self.wake_next(buf);
    }

    /// Same as [`MRBIterator::index`], for use in a future: where the operation has to wait,
    /// the waker of the task is registered for this role; where it moved the handle,
    /// the role behind it is woken.
    fn index(&self) -> (r: usize)
        ensures
            r == self@.index,
    {
        self.inner().index()
    }

    /// Same as [`MRBIterator::is_prod_alive`], for use in a future: where the operation has to wait,
    /// the waker of the task is registered for this role; where it moved the handle,
    /// the role behind it is woken.
    fn is_prod_alive<B: WakerManager>(&self, buf: &B) -> (r: bool)
        requires
            buf@.in_bounds(),
        ensures
            r == buf@.prod_alive,
    {
        self.inner().is_prod_alive(buf)
    }

    /// Same as [`MRBIterator::is_work_alive`], for use in a future: where the operation has to wait,
    /// the waker of the task is registered for this role; where it moved the handle,
    /// the role behind it is woken.
    fn is_work_alive<B: WakerManager>(&self, buf: &B) -> (r: bool)
        requires
            buf@.in_bounds(),
        ensures
            r == buf@.work_alive,
    {
        self.inner().is_work_alive(buf)
    }

    /// Same as [`MRBIterator::is_cons_alive`], for use in a future: where the operation has to wait,
    /// the waker of the task is registered for this role; where it moved the handle,
    /// the role behind it is woken.
    fn is_cons_alive<B: WakerManager>(&self, buf: &B) -> (r: bool)
        requires
            buf@.in_bounds(),
        ensures
            r == buf@.cons_alive,
    {
        self.inner().is_cons_alive(buf)
    }

    /// Same as [`MRBIterator::prod_index`], for use in a future: where the operation has to wait,
    /// the waker of the task is registered for this role; where it moved the handle,
    /// the role behind it is woken.
    fn prod_index<B: WakerManager>(&self, buf: &B) -> (r: usize)
        requires
            buf@.in_bounds(),
        ensures
            r == buf@.prod,
    {
        self.inner().prod_index(buf)
    }

    /// Same as [`MRBIterator::work_index`], for use in a future: where the operation has to wait,
    /// the waker of the task is registered for this role; where it moved the handle,
    /// the role behind it is woken.
    fn work_index<B: WakerManager>(&self, buf: &B) -> (r: usize)
        requires
            buf@.in_bounds(),
        ensures
            r == buf@.work,
    {
        self.inner().work_index(buf)
    }

    /// Same as [`MRBIterator::cons_index`], for use in a future: where the operation has to wait,
    /// the waker of the task is registered for this role; where it moved the handle,
    /// the role behind it is woken.
    fn cons_index<B: WakerManager>(&self, buf: &B) -> (r: usize)
        requires
            buf@.in_bounds(),
        ensures
            r == buf@.cons,
    {
        self.inner().cons_index(buf)
    }

    /// Same as [`MRBIterator::available`], for use in a future: where the operation has to wait,
    /// the waker of the task is registered for this role; where it moved the handle,
    /// the role behind it is woken.
    fn available<B: WakerManager>(&mut self, buf: &B) -> (r: usize)
        requires
            Self::I::accepts(buf@.has_worker),
            iter_placed(buf@, Self::I::role(), old(self)@),
        ensures
            r == buf@.avail_at(Self::I::role(), old(self)@.index),
            final(self)@ == (IterView { cached_avail: r as int, ..old(self)@ }),
    {
        self.inner_mut().available(buf)
    }
}

} // verus!
