//! The consumer's handle for use in futures.

use vstd::prelude::*;
use crate::iterators::async_iterators::async_trait::AsyncIterator;
use crate::iterators::async_iterators::detached::AsyncDetached;
use crate::iterators::iterator_trait::{iter_ok, iter_placed, MRBIterator, NonMutableSlice};
use crate::iterators::sync_iterators::cons_iter::{clones_of, ConsIter};
use crate::model::ring_math::head_len;
use crate::ring_buffer::wrappers::unsafe_sync_cell::contents;
use crate::model::ring_view::{cache_checked, cache_taken, values, IterView, Role};
use crate::ring_buffer::variants::async_rb::WakerManager;
use std::task::Waker;

verus! {

/// Async version of [`ConsIter`].
pub struct AsyncConsIter<const W: bool> {
    inner: ConsIter<W>,
}

impl<const W: bool> AsyncIterator for AsyncConsIter<W> {
    type I = ConsIter<W>;

    closed spec fn view(&self) -> IterView {
        self.inner@
    }

    fn inner(&self) -> (r: &ConsIter<W>) {
        &self.inner
    }

    fn inner_mut(&mut self) -> (r: &mut ConsIter<W>) {
        &mut self.inner
    }

    fn into_sync(self) -> (r: ConsIter<W>) {
        self.inner
    }

    fn from_sync(iter: ConsIter<W>) -> (r: Self) {
        AsyncConsIter { inner: iter }
    }
}

impl<const W: bool> AsyncConsIter<W> {
    /// Detaches the handle: its moves stay local until they are synchronised.
    pub fn detach(self) -> (r: AsyncDetached<Self>)
        ensures
            r@ == self@,
    {
        AsyncDetached::from_iter(self)
    }

    /// Same as [`ConsIter::reset_index`], for use in a future: where the operation has to wait,
    /// the waker of the task is registered for this role; where it moved the handle,
    /// the role behind it is woken.
    pub fn reset_index<B: WakerManager>(&mut self, buf: &mut B)
        requires
            old(buf)@.has_worker == W,
            iter_placed(old(buf)@, Role::Consumer, old(self)@),
        ensures
            final(self)@ == (IterView {
                index: old(buf)@.succ_of(Role::Consumer),
                cached_avail: 0,
            }),
            final(buf)@ == old(buf)@.with_index(
                Role::Consumer,
                old(buf)@.succ_of(Role::Consumer),
            ),
            iter_ok(final(buf)@, Role::Consumer, final(self)@),
            final(buf).frees_on_teardown() == old(buf).frees_on_teardown(),
    {
        self.inner.reset_index(buf);
        self.wake_next(buf);
    }

    /// Same as [`ConsIter::peek_ref`], for use in a future: where the operation has to wait,
    /// the waker of the task is registered for this role; where it moved the handle,
    /// the role behind it is woken.
    pub fn peek_ref<'a, B: WakerManager>(&mut self, buf: &'a B, waker: &Waker) -> (r: Option<&'a B::Item>)
        requires
            buf@.has_worker == W,
            iter_ok(buf@, Role::Consumer, old(self)@),
        ensures
            r is Some <==> 1 <= buf@.avail_at(Role::Consumer, old(self)@.index),
            r is Some ==> Some(*r.unwrap()) == buf@.slots[old(self)@.index],
            final(self)@.index == old(self)@.index,
            final(self)@.cached_avail == cache_checked(
                old(self)@.cached_avail,
                buf@.avail_at(Role::Consumer, old(self)@.index),
                1,
            ),
            iter_ok(buf@, Role::Consumer, final(self)@),
    {
        if !self.inner.check(buf, 1) {
            self.register_waker(buf, waker);
        }
        self.inner.peek_ref(buf)
    }

    /// Same as [`ConsIter::peek_slice`], for use in a future: where the operation has to wait,
    /// the waker of the task is registered for this role; where it moved the handle,
    /// the role behind it is woken.
    pub fn peek_slice<'a, B: WakerManager>(&mut self, buf: &'a B, count: usize, waker: &Waker) -> (r: Option<
        NonMutableSlice<'a, B::Item>,
    >)
        requires
            buf@.has_worker == W,
            iter_ok(buf@, Role::Consumer, old(self)@),
        ensures
            r is Some <==> count <= buf@.avail_at(Role::Consumer, old(self)@.index),
            r is Some ==> r.unwrap().0@.len() == head_len(
                old(self)@.index,
                count as int,
                buf@.len(),
            ) && contents(r.unwrap().0@) + contents(r.unwrap().1@) == buf@.window(
                old(self)@.index,
                count as int,
            ),
            final(self)@.index == old(self)@.index,
            final(self)@.cached_avail == cache_checked(
                old(self)@.cached_avail,
                buf@.avail_at(Role::Consumer, old(self)@.index),
                count as int,
            ),
            iter_ok(buf@, Role::Consumer, final(self)@),
    {
        if !self.inner.check(buf, count) {
            self.register_waker(buf, waker);
        }
        self.inner.peek_slice(buf, count)
    }

    /// Same as [`ConsIter::peek_available`], for use in a future: where the operation has to wait,
    /// the waker of the task is registered for this role; where it moved the handle,
    /// the role behind it is woken.
    pub fn peek_available<'a, B: WakerManager>(&mut self, buf: &'a B) -> (r: Option<
        NonMutableSlice<'a, B::Item>,
    >)
        requires
            buf@.has_worker == W,
            iter_placed(buf@, Role::Consumer, old(self)@),
        ensures
            r is Some,
            r.unwrap().0@.len() == head_len(
                old(self)@.index,
                buf@.avail_at(Role::Consumer, old(self)@.index),
                buf@.len(),
            ),
            contents(r.unwrap().0@) + contents(r.unwrap().1@) == buf@.window(
                old(self)@.index,
                buf@.avail_at(Role::Consumer, old(self)@.index),
            ),
            final(self)@ == (IterView {
                cached_avail: buf@.avail_at(Role::Consumer, old(self)@.index),
                ..old(self)@
            }),
    {
        self.inner.peek_available(buf)
    }

    /// Same as [`ConsIter::pop_move`], for use in a future: where the operation has to wait,
    /// the waker of the task is registered for this role; where it moved the handle,
    /// the role behind it is woken.
    pub fn pop_move<B: WakerManager>(&mut self, buf: &mut B, waker: &Waker) -> (r: Option<B::Item>)
        requires
            old(buf)@.has_worker == W,
            iter_ok(old(buf)@, Role::Consumer, old(self)@),
            old(self)@.index == old(buf)@.cons,
        ensures
            r is Some <==> 1 <= old(buf)@.available(Role::Consumer),
            r is Some ==> r == Some(old(buf)@.front()) && final(buf)@ == old(buf)@.pop_move(),
            r is None ==> final(buf)@ == old(buf)@,
            final(self)@.index == final(buf)@.cons,
            final(self)@.cached_avail == cache_taken(
                old(self)@.cached_avail,
                old(buf)@.available(Role::Consumer),
                1,
            ),
            iter_ok(final(buf)@, Role::Consumer, final(self)@),
            final(buf).frees_on_teardown() == old(buf).frees_on_teardown(),
    {
        if !self.inner.check(buf, 1) {
            self.register_waker(buf, waker);
        }
        let r = self.inner.pop_move(buf);
        if r.is_some() {
            self.wake_next(buf);
        }
        r
    }

    /// Same as [`ConsIter::pop`], for use in a future: where the operation has to wait,
    /// the waker of the task is registered for this role; where it moved the handle,
    /// the role behind it is woken.
    pub fn pop<B: WakerManager>(&mut self, buf: &mut B, waker: &Waker) -> (r: Option<B::Item>) where B::Item: Copy
        requires
            old(buf)@.has_worker == W,
            iter_ok(old(buf)@, Role::Consumer, old(self)@),
            old(self)@.index == old(buf)@.cons,
        ensures
            r is Some <==> 1 <= old(buf)@.available(Role::Consumer),
            r is Some ==> r == Some(old(buf)@.front()) && final(buf)@ == old(buf)@.pop(),
            r is None ==> final(buf)@ == old(buf)@,
            final(self)@.index == final(buf)@.cons,
            final(self)@.cached_avail == cache_taken(
                old(self)@.cached_avail,
                old(buf)@.available(Role::Consumer),
                1,
            ),
            iter_ok(final(buf)@, Role::Consumer, final(self)@),
            final(buf).frees_on_teardown() == old(buf).frees_on_teardown(),
    {
        if !self.inner.check(buf, 1) {
            self.register_waker(buf, waker);
        }
        let r = self.inner.pop(buf);
        if r.is_some() {
            self.wake_next(buf);
        }
        r
    }

    /// Same as [`ConsIter::copy_item`], for use in a future: where the operation has to wait,
    /// the waker of the task is registered for this role; where it moved the handle,
    /// the role behind it is woken.
    pub fn copy_item<B: WakerManager>(&mut self, buf: &mut B, dst: &mut B::Item, waker: &Waker) -> (r: Option<
        (),
    >) where B::Item: Copy
        requires
            old(buf)@.has_worker == W,
            iter_ok(old(buf)@, Role::Consumer, old(self)@),
            old(self)@.index == old(buf)@.cons,
        ensures
            r is Some <==> 1 <= old(buf)@.available(Role::Consumer),
            r is Some ==> *final(dst) == old(buf)@.front() && final(buf)@ == old(buf)@.pop(),
            r is None ==> *final(dst) == *old(dst) && final(buf)@ == old(buf)@,
            final(self)@.index == final(buf)@.cons,
            final(self)@.cached_avail == cache_taken(
                old(self)@.cached_avail,
                old(buf)@.available(Role::Consumer),
                1,
            ),
            iter_ok(final(buf)@, Role::Consumer, final(self)@),
            final(buf).frees_on_teardown() == old(buf).frees_on_teardown(),
    {
        if !self.inner.check(buf, 1) {
            self.register_waker(buf, waker);
        }
        let r = self.inner.copy_item(buf, dst);
        if r.is_some() {
            self.wake_next(buf);
        }
        r
    }

    /// Same as [`ConsIter::clone_item`], for use in a future: where the operation has to wait,
    /// the waker of the task is registered for this role; where it moved the handle,
    /// the role behind it is woken.
    pub fn clone_item<B: WakerManager>(&mut self, buf: &mut B, dst: &mut B::Item, waker: &Waker) -> (r: Option<
        (),
    >) where B::Item: Clone
        requires
            old(buf)@.has_worker == W,
            iter_ok(old(buf)@, Role::Consumer, old(self)@),
            old(self)@.index == old(buf)@.cons,
        ensures
            r is Some <==> 1 <= old(buf)@.available(Role::Consumer),
            r is Some ==> cloned(old(buf)@.front(), *final(dst)) && final(buf)@ == old(
                buf,
            )@.pop(),
            r is None ==> *final(dst) == *old(dst) && final(buf)@ == old(buf)@,
            final(self)@.index == final(buf)@.cons,
            final(self)@.cached_avail == cache_taken(
                old(self)@.cached_avail,
                old(buf)@.available(Role::Consumer),
                1,
            ),
            iter_ok(final(buf)@, Role::Consumer, final(self)@),
            final(buf).frees_on_teardown() == old(buf).frees_on_teardown(),
    {
        if !self.inner.check(buf, 1) {
            self.register_waker(buf, waker);
        }
        let r = self.inner.clone_item(buf, dst);
        if r.is_some() {
            self.wake_next(buf);
        }
        r
    }

    /// Same as [`ConsIter::copy_slice`], for use in a future: where the operation has to wait,
    /// the waker of the task is registered for this role; where it moved the handle,
    /// the role behind it is woken.
    pub fn copy_slice<B: WakerManager>(&mut self, buf: &mut B, dst: &mut [B::Item], waker: &Waker) -> (r: Option<
        (),
    >) where B::Item: Copy
        requires
            old(buf)@.has_worker == W,
            iter_ok(old(buf)@, Role::Consumer, old(self)@),
            old(self)@.index == old(buf)@.cons,
        ensures
            r is Some <==> old(dst)@.len() <= old(buf)@.available(Role::Consumer),
            r is Some ==> final(dst)@ == values(
                old(buf)@.window(old(buf)@.cons, old(dst)@.len() as int),
            ) && final(buf)@ == old(buf)@.advance(Role::Consumer, old(dst)@.len() as int),
            r is None ==> final(dst)@ == old(dst)@ && final(buf)@ == old(buf)@,
            final(self)@.index == final(buf)@.cons,
            final(self)@.cached_avail == cache_taken(
                old(self)@.cached_avail,
                old(buf)@.available(Role::Consumer),
                old(dst)@.len() as int,
            ),
            iter_ok(final(buf)@, Role::Consumer, final(self)@),
            final(buf).frees_on_teardown() == old(buf).frees_on_teardown(),
    {
        if !self.inner.check(buf, dst.len()) {
            self.register_waker(buf, waker);
        }
        let r = self.inner.copy_slice(buf, dst);
        if r.is_some() {
            self.wake_next(buf);
        }
        r
    }

    /// Same as [`ConsIter::clone_slice`], for use in a future: where the operation has to wait,
    /// the waker of the task is registered for this role; where it moved the handle,
    /// the role behind it is woken.
    pub fn clone_slice<B: WakerManager>(&mut self, buf: &mut B, dst: &mut [B::Item], waker: &Waker) -> (r: Option<
        (),
    >) where B::Item: Clone
        requires
            old(buf)@.has_worker == W,
            iter_ok(old(buf)@, Role::Consumer, old(self)@),
            old(self)@.index == old(buf)@.cons,
        ensures
            r is Some <==> old(dst)@.len() <= old(buf)@.available(Role::Consumer),
            r is Some ==> clones_of(
                final(dst)@,
                values(old(buf)@.window(old(buf)@.cons, old(dst)@.len() as int)),
            ) && final(buf)@ == old(buf)@.advance(Role::Consumer, old(dst)@.len() as int),
            r is None ==> final(dst)@ == old(dst)@ && final(buf)@ == old(buf)@,
            final(self)@.index == final(buf)@.cons,
            final(self)@.cached_avail == cache_taken(
                old(self)@.cached_avail,
                old(buf)@.available(Role::Consumer),
                old(dst)@.len() as int,
            ),
            iter_ok(final(buf)@, Role::Consumer, final(self)@),
            final(buf).frees_on_teardown() == old(buf).frees_on_teardown(),
    {
        if !self.inner.check(buf, dst.len()) {
            self.register_waker(buf, waker);
        }
        let r = self.inner.clone_slice(buf, dst);
        if r.is_some() {
            self.wake_next(buf);
        }
        r
    }
}

} // verus!
