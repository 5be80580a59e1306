//! What the role handles ask of a buffer.

use vstd::prelude::*;
use crate::model::ring_math::{head_len, window_lengths};
use crate::model::ring_view::{stitched, RingView, Role};
use crate::ring_buffer::storage::{slot_mut, Storage};
use crate::ring_buffer::wrappers::unsafe_sync_cell::{contents, UnsafeSyncCell};

verus! {

/// The published positions of a buffer and the count of its handles.
///
/// A buffer whose view has no slots is one that has been freed; nothing may be
/// asked of it.
pub trait IterManager {
    type Item;

    /// The buffer as a mathematical value.
    spec fn view(&self) -> RingView<Self::Item>;

    /// Whether the buffer is freed when its last handle is dropped.
    spec fn frees_on_teardown(&self) -> bool;

    /// Published position of the producer.
    fn prod_index(&self) -> (r: usize)
        requires
            self@.in_bounds(),
        ensures
            r == self@.prod,
    ;

    /// Published position of the worker.
    fn work_index(&self) -> (r: usize)
        requires
            self@.in_bounds(),
        ensures
            r == self@.work,
    ;

    /// Published position of the consumer.
    fn cons_index(&self) -> (r: usize)
        requires
            self@.in_bounds(),
        ensures
            r == self@.cons,
    ;

    /// Publishes `index` as the position of the producer.
    fn set_prod_index(&mut self, index: usize)
        requires
            old(self)@.in_bounds(),
            index < old(self)@.len(),
        ensures
            final(self)@ == old(self)@.with_index(Role::Producer, index as int),
            final(self).frees_on_teardown() == old(self).frees_on_teardown(),
    ;

    /// Publishes `index` as the position of the worker.
    fn set_work_index(&mut self, index: usize)
        requires
            old(self)@.in_bounds(),
            index < old(self)@.len(),
        ensures
            final(self)@ == old(self)@.with_index(Role::Worker, index as int),
            final(self).frees_on_teardown() == old(self).frees_on_teardown(),
    ;

    /// Publishes `index` as the position of the consumer.
    fn set_cons_index(&mut self, index: usize)
        requires
            old(self)@.in_bounds(),
            index < old(self)@.len(),
        ensures
            final(self)@ == old(self)@.with_index(Role::Consumer, index as int),
            final(self).frees_on_teardown() == old(self).frees_on_teardown(),
    ;

    /// Number of handles that exist.
    fn alive_iters(&self) -> (r: u8)
        requires
            self@.in_bounds(),
            self@.alive_consistent(),
        ensures
            r == self@.alive_iters,
    ;
}

/// A buffer that role handles can work on: positions, storage and the bookkeeping
/// of the handles.
pub trait MutRB: IterManager {
    type S: Storage<Item = Self::Item>;

    /// The storage.
    fn inner(&self) -> (r: &Self::S)
        requires
            self@.in_bounds(),
        ensures
            contents(r.slots()) == self@.slots,
    ;

    /// The storage, mutably. The buffer holds whatever the caller leaves behind the
    /// reference; positions and handles are untouched.
    fn inner_mut(&mut self) -> (r: &mut Self::S)
        requires
            old(self)@.in_bounds(),
        ensures
            contents(r.slots()) == old(self)@.slots,
            final(self)@ == (RingView { slots: contents(final(r).slots()), ..old(self)@ }),
            final(self).frees_on_teardown() == old(self).frees_on_teardown(),
    ;

    /// Number of slots; 0 for a buffer that has been freed.
    fn inner_len(&self) -> (r: usize)
        ensures
            r == self@.len(),
    ;

    /// Tells whether the buffer was split with a worker.
    fn has_worker(&self) -> (r: bool)
        requires
            self@.in_bounds(),
        ensures
            r == self@.has_worker,
    ;

    /// Tells whether the handle of `role` exists.
    fn is_alive(&self, role: Role) -> (r: bool)
        requires
            self@.in_bounds(),
        ensures
            r == self@.role_alive(role),
    ;

    /// Records the handles of a split: `count` is 2 for producer and consumer, 3
    /// where a worker stands between them.
    fn set_alive_iters(&mut self, count: u8)
        requires
            old(self)@.in_bounds(),
            count == 2 || count == 3,
        ensures
            final(self)@ == old(self)@.with_handles(count == 3),
            final(self).frees_on_teardown() == old(self).frees_on_teardown(),
    ;

    /// Makes what the other roles wrote visible to the role that frees the buffer.
    /// Within one thread there is nothing to wait for.
    fn acquire_fence(&self);

    /// Records that the handle of `role` is gone and returns how many handles there
    /// were before. A buffer that its handles own is freed with the last of them.
    fn drop_iter(&mut self, role: Role) -> (r: u8)
        requires
            old(self)@.in_bounds(),
            old(self)@.alive_consistent(),
            old(self)@.role_alive(role),
        ensures
            r == old(self)@.alive_iters,
            final(self)@ == if r == 1 && old(self).frees_on_teardown() {
                RingView::torn_down()
            } else {
                old(self)@.without_handle(role)
            },
            final(self).frees_on_teardown() == old(self).frees_on_teardown(),
    ;
}

/// Lends out slot `index` of the buffer. The buffer holds whatever the caller
/// leaves in the slot.
pub fn slot_at_mut<'a, B: MutRB>(buf: &'a mut B, index: usize) -> (r: &'a mut UnsafeSyncCell<
    B::Item,
>)
    requires
        old(buf)@.in_bounds(),
        index < old(buf)@.len(),
    ensures
        r@ == old(buf)@.slots[index as int],
        final(buf)@ =~= old(buf)@.with_slot(index as int, final(r)@),
        final(buf).frees_on_teardown() == old(buf).frees_on_teardown(),
{
    let s = buf.inner_mut().as_mut_slice();
    assert(contents(s@)[index as int] == s@[index as int]@);
    slot_mut(s, index)
}

/// Lends out the value in slot `index` of the buffer. The slot holds whatever the
/// caller leaves behind the reference.
pub fn value_at_mut<'a, B: MutRB>(buf: &'a mut B, index: usize) -> (r: &'a mut B::Item)
    requires
        old(buf)@.in_bounds(),
        index < old(buf)@.len(),
        old(buf)@.slots[index as int] is Some,
    ensures
        Some(*r) == old(buf)@.slots[index as int],
        final(buf)@ =~= old(buf)@.with_slot(index as int, Some(*final(r))),
        final(buf).frees_on_teardown() == old(buf).frees_on_teardown(),
{
    slot_at_mut(buf, index).inner_ref_mut()
}

/// The slot `index` of the buffer.
pub fn slot_at<B: MutRB>(buf: &B, index: usize) -> (r: &UnsafeSyncCell<B::Item>)
    requires
        buf@.in_bounds(),
        index < buf@.len(),
    ensures
        r@ == buf@.slots[index as int],
{
    let s = buf.inner().as_slice();
    assert(contents(s@)[index as int] == s@[index as int]@);
    &s[index]
}

/// The `count` slots of the buffer from `index` on, for reading: the run up to the
/// end of the storage, and what wraps around to its start.
pub fn window_at<'a, B: MutRB>(buf: &'a B, index: usize, count: usize) -> (r: (
    &'a [UnsafeSyncCell<B::Item>],
    &'a [UnsafeSyncCell<B::Item>],
))
    requires
        buf@.in_bounds(),
        index < buf@.len(),
        count <= buf@.len(),
    ensures
        r.0@.len() == head_len(index as int, count as int, buf@.len()),
        contents(r.0@) + contents(r.1@) == buf@.window(index as int, count as int),
{
    let len: usize = buf.inner_len();
    let (head, tail) = window_lengths(index, count, len);
    let s = buf.inner().as_slice();
    let (lower, upper) = s.split_at(index);
    let (h, _) = upper.split_at(head);
    let (t, _) = lower.split_at(tail);
    proof {
        buf@.lemma_window_parts(index as int, count as int);
        assert(contents(h@) =~= buf@.slots.subrange(index as int, index + head));
        assert(contents(t@) =~= buf@.slots.subrange(0, tail as int));
    }
    (h, t)
}

/// Lends out the `count` slots of the buffer from `index` on: the run up to the end
/// of the storage, and what wraps around to its start. The buffer holds whatever
/// the caller leaves in them.
pub fn window_at_mut<'a, B: MutRB>(buf: &'a mut B, index: usize, count: usize) -> (r: (
    &'a mut [UnsafeSyncCell<B::Item>],
    &'a mut [UnsafeSyncCell<B::Item>],
))
    requires
        old(buf)@.in_bounds(),
        index < old(buf)@.len(),
        count <= old(buf)@.len(),
    ensures
        r.0@.len() == head_len(index as int, count as int, old(buf)@.len()),
        contents(r.0@) + contents(r.1@) == old(buf)@.window(index as int, count as int),
        final(buf)@ =~= (RingView {
            slots: stitched(
                old(buf)@.slots,
                index as int,
                count as int,
                contents(final(r.0)@),
                contents(final(r.1)@),
            ),
            ..old(buf)@
        }),
        final(r.0)@.len() == r.0@.len() && final(r.1)@.len() == r.1@.len() ==> final(buf)@
            =~= old(buf)@.with_window(
            index as int,
            contents(final(r.0)@) + contents(final(r.1)@),
        ),
        final(buf).frees_on_teardown() == old(buf).frees_on_teardown(),
{
    let len: usize = buf.inner_len();
    let (head, tail) = window_lengths(index, count, len);
    let s = buf.inner_mut().as_mut_slice();
    let (lower, upper) = s.split_at_mut(index);
    let (h, _) = upper.split_at_mut(head);
    let (t, _) = lower.split_at_mut(tail);
    proof {
        let v = old(buf)@;
        v.lemma_window_parts(index as int, count as int);
        assert(contents(h@) =~= v.slots.subrange(index as int, index + head));
        assert(contents(t@) =~= v.slots.subrange(0, tail as int));
        v.lemma_stitched(index as int, count as int, contents(final(h)@), contents(final(t)@));
    }
    (h, t)
}

} // verus!
