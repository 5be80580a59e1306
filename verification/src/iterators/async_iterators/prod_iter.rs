//! The producer's handle for use in futures.

use vstd::prelude::*;
use crate::iterators::async_iterators::async_trait::AsyncIterator;
use crate::iterators::async_iterators::detached::AsyncDetached;
use crate::iterators::iterator_trait::{iter_ok, MRBIterator, MutableSlice};
use crate::iterators::sync_iterators::prod_iter::{holds_clones, ProdIter};
use crate::ring_buffer::wrappers::unsafe_sync_cell::{contents, UnsafeSyncCell};
use crate::model::ring_view::{cache_checked, cache_taken, values, window_lent, IterView, Role};
use crate::ring_buffer::variants::async_rb::WakerManager;
use std::task::Waker;

verus! {

/// Async version of [`ProdIter`].
pub struct AsyncProdIter {
    inner: ProdIter,
}

impl AsyncIterator for AsyncProdIter {
    type I = ProdIter;

    closed spec fn view(&self) -> IterView {
        self.inner@
    }

    fn inner(&self) -> (r: &ProdIter) {
        &self.inner
    }

    fn inner_mut(&mut self) -> (r: &mut ProdIter) {
        &mut self.inner
    }

    fn into_sync(self) -> (r: ProdIter) {
        self.inner
    }

    fn from_sync(iter: ProdIter) -> (r: Self) {
        AsyncProdIter { inner: iter }
    }
}

impl AsyncProdIter {
    /// Detaches the handle: its moves stay local until they are synchronised.
    pub fn detach(self) -> (r: AsyncDetached<Self>)
        ensures
            r@ == self@,
    {
        AsyncDetached::from_iter(self)
    }

    /// Same as [`ProdIter::push`], for use in a future: where the operation has to wait,
    /// the waker of the task is registered for this role; where it moved the handle,
    /// the role behind it is woken.
    pub fn push<B: WakerManager>(&mut self, buf: &mut B, value: B::Item, waker: &Waker) -> (r: Result<(), B::Item>)
        requires
            iter_ok(old(buf)@, Role::Producer, old(self)@),
            old(self)@.index == old(buf)@.prod,
            1 <= old(buf)@.available(Role::Producer) ==> old(buf)@.filled(old(buf)@.prod, 1),
        ensures
            r is Ok <==> 1 <= old(buf)@.available(Role::Producer),
            r is Err ==> r == Err::<(), B::Item>(value) && final(buf)@ == old(buf)@,
            r is Ok ==> final(buf)@ == old(buf)@.push(value),
            final(self)@.index == final(buf)@.prod,
            final(self)@.cached_avail == cache_taken(
                old(self)@.cached_avail,
                old(buf)@.available(Role::Producer),
                1,
            ),
            iter_ok(final(buf)@, Role::Producer, final(self)@),
            final(buf).frees_on_teardown() == old(buf).frees_on_teardown(),
    {
        if !self.inner.check(buf, 1) {
            self.register_waker(buf, waker);
        }
        let r = self.inner.push(buf, value);
        if r.is_ok() {
            self.wake_next(buf);
        }
        r
    }

    /// Same as [`ProdIter::push_slice`], for use in a future: where the operation has to wait,
    /// the waker of the task is registered for this role; where it moved the handle,
    /// the role behind it is woken.
    pub fn push_slice<B: WakerManager>(&mut self, buf: &mut B, slice: &[B::Item], waker: &Waker) -> (r: Option<()>) where
        B::Item: Copy,
        requires
            iter_ok(old(buf)@, Role::Producer, old(self)@),
            old(self)@.index == old(buf)@.prod,
            slice@.len() <= old(buf)@.available(Role::Producer) ==> old(buf)@.filled(
                old(buf)@.prod,
                slice@.len() as int,
            ),
        ensures
            r is Some <==> slice@.len() <= old(buf)@.available(Role::Producer),
            r is None ==> final(buf)@ == old(buf)@,
            r is Some ==> final(buf)@ == old(buf)@.push_seq(slice@),
            final(self)@.index == final(buf)@.prod,
            final(self)@.cached_avail == cache_taken(
                old(self)@.cached_avail,
                old(buf)@.available(Role::Producer),
                slice@.len() as int,
            ),
            iter_ok(final(buf)@, Role::Producer, final(self)@),
            final(buf).frees_on_teardown() == old(buf).frees_on_teardown(),
    {
        if !self.inner.check(buf, slice.len()) {
            self.register_waker(buf, waker);
        }
        let r = self.inner.push_slice(buf, slice);
        if r.is_some() {
            self.wake_next(buf);
        }
        r
    }

    /// Same as [`ProdIter::push_slice_clone`], for use in a future: where the operation has to wait,
    /// the waker of the task is registered for this role; where it moved the handle,
    /// the role behind it is woken.
    pub fn push_slice_clone<B: WakerManager>(&mut self, buf: &mut B, slice: &[B::Item], waker: &Waker) -> (r: Option<()>) where
        B::Item: Clone,
        requires
            iter_ok(old(buf)@, Role::Producer, old(self)@),
            old(self)@.index == old(buf)@.prod,
            slice@.len() <= old(buf)@.available(Role::Producer) ==> old(buf)@.filled(
                old(buf)@.prod,
                slice@.len() as int,
            ),
        ensures
            r is Some <==> slice@.len() <= old(buf)@.available(Role::Producer),
            r is None ==> final(buf)@ == old(buf)@,
            r is Some ==> final(buf)@ == old(buf)@.push_seq(
                values(final(buf)@.window(old(buf)@.prod, slice@.len() as int)),
            ) && holds_clones(final(buf)@.window(old(buf)@.prod, slice@.len() as int), slice@),
            final(self)@.index == final(buf)@.prod,
            final(self)@.cached_avail == cache_taken(
                old(self)@.cached_avail,
                old(buf)@.available(Role::Producer),
                slice@.len() as int,
            ),
            iter_ok(final(buf)@, Role::Producer, final(self)@),
            final(buf).frees_on_teardown() == old(buf).frees_on_teardown(),
    {
        if !self.inner.check(buf, slice.len()) {
            self.register_waker(buf, waker);
        }
        let r = self.inner.push_slice_clone(buf, slice);
        if r.is_some() {
            self.wake_next(buf);
        }
        r
    }

    /// Same as [`ProdIter::get_next_item_mut`], for use in a future: where the operation has to wait,
    /// the waker of the task is registered for this role; where it moved the handle,
    /// the role behind it is woken.
    pub fn get_next_item_mut<'a, B: WakerManager>(&mut self, buf: &'a mut B, waker: &Waker) -> (r: Option<
        &'a mut B::Item,
    >)
        requires
            iter_ok(old(buf)@, Role::Producer, old(self)@),
            1 <= old(buf)@.avail_at(Role::Producer, old(self)@.index) ==> old(buf)@.filled(
                old(self)@.index,
                1,
            ),
        ensures
            r is Some <==> 1 <= old(buf)@.avail_at(Role::Producer, old(self)@.index),
            final(self)@.index == old(self)@.index,
            final(self)@.cached_avail == cache_checked(
                old(self)@.cached_avail,
                old(buf)@.avail_at(Role::Producer, old(self)@.index),
                1,
            ),
            final(buf).frees_on_teardown() == old(buf).frees_on_teardown(),
            r is None ==> final(buf)@ == old(buf)@,
            r is Some ==> Some(*r.unwrap()) == old(buf)@.slots[old(self)@.index],
            r is Some ==> final(buf)@ == old(buf)@.with_slot(
                old(self)@.index,
                Some(*final(r.unwrap())),
            ),
            iter_ok(final(buf)@, Role::Producer, final(self)@),
    {
        if !self.inner.check(buf, 1) {
            self.register_waker(buf, waker);
        }
        self.inner.get_next_item_mut(buf)
    }

    /// Same as [`ProdIter::get_next_item_mut_init`], for use in a future: where the operation has to wait,
    /// the waker of the task is registered for this role; where it moved the handle,
    /// the role behind it is woken.
    pub fn get_next_item_mut_init<'a, B: WakerManager>(&mut self, buf: &'a mut B, waker: &Waker) -> (r: Option<
        &'a mut UnsafeSyncCell<B::Item>,
    >)
        requires
            iter_ok(old(buf)@, Role::Producer, old(self)@),
        ensures
            r is Some <==> 1 <= old(buf)@.avail_at(Role::Producer, old(self)@.index),
            final(self)@.index == old(self)@.index,
            final(self)@.cached_avail == cache_checked(
                old(self)@.cached_avail,
                old(buf)@.avail_at(Role::Producer, old(self)@.index),
                1,
            ),
            final(buf).frees_on_teardown() == old(buf).frees_on_teardown(),
            r is None ==> final(buf)@ == old(buf)@,
            r is Some ==> r.unwrap()@ == old(buf)@.slots[old(self)@.index],
            r is Some ==> final(buf)@ == old(buf)@.with_slot(
                old(self)@.index,
                final(r.unwrap())@,
            ),
    {
        if !self.inner.check(buf, 1) {
            self.register_waker(buf, waker);
        }
        self.inner.get_next_item_mut_init(buf)
    }

    /// Same as [`ProdIter::get_next_slices_mut`], for use in a future: where the operation has to wait,
    /// the waker of the task is registered for this role; where it moved the handle,
    /// the role behind it is woken.
    pub fn get_next_slices_mut<'a, B: WakerManager>(&mut self, buf: &'a mut B, count: usize, waker: &Waker) -> (r:
        Option<MutableSlice<'a, B::Item>>)
        requires
            iter_ok(old(buf)@, Role::Producer, old(self)@),
        ensures
            r is Some <==> count <= old(buf)@.avail_at(Role::Producer, old(self)@.index),
            final(self)@.index == old(self)@.index,
            final(self)@.cached_avail == cache_checked(
                old(self)@.cached_avail,
                old(buf)@.avail_at(Role::Producer, old(self)@.index),
                count as int,
            ),
            iter_ok(old(buf)@, Role::Producer, final(self)@),
            final(buf).frees_on_teardown() == old(buf).frees_on_teardown(),
            r is None ==> final(buf)@ == old(buf)@,
            r is Some ==> window_lent(
                old(buf)@,
                final(buf)@,
                old(self)@.index,
                count as int,
                contents(r.unwrap().0@),
                contents(r.unwrap().1@),
                contents(final(r.unwrap().0)@),
                contents(final(r.unwrap().1)@),
            ),
    {
        if !self.inner.check(buf, count) {
            self.register_waker(buf, waker);
        }
        self.inner.get_next_slices_mut(buf, count)
    }
}

} // verus!
