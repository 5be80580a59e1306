//! What the three role handles have in common.

use vstd::prelude::*;
use crate::model::ring_math::{head_len, largest_multiple, ring_add, step_forward};
use crate::model::ring_view::{
    cache_advanced, cache_checked, window_lent, IterView, RingView, Role,
};
use crate::ring_buffer::variants::ring_buffer_trait::{
    slot_at_mut, value_at_mut, window_at, window_at_mut, MutRB,
};
use crate::ring_buffer::wrappers::unsafe_sync_cell::{contents, UnsafeSyncCell};

verus! {

/// Returned by slice-specialised functions: the head of a window and, where the
/// window wraps around the end of the storage, its tail.
pub type MutableSlice<'a, T> = (&'a mut [UnsafeSyncCell<T>], &'a mut [UnsafeSyncCell<T>]);

/// As [`MutableSlice`], for reading.
pub type NonMutableSlice<'a, T> = (&'a [UnsafeSyncCell<T>], &'a [UnsafeSyncCell<T>]);

/// A handle of `role` with state `it` stands at a place of the buffer `v` that
/// belongs to its role.
pub open spec fn iter_placed<T>(v: RingView<T>, role: Role, it: IterView) -> bool {
    &&& v.wf()
    &&& v.role_alive(role)
    &&& v.in_reach(role, it.index)
}

/// As [`iter_placed`], and the handle does not believe in more slots than there are.
pub open spec fn iter_ok<T>(v: RingView<T>, role: Role, it: IterView) -> bool {
    &&& iter_placed(v, role, it)
    &&& 0 <= it.cached_avail <= v.avail_at(role, it.index)
}

/// Trait implemented by the role handles.
///
/// A handle keeps its own position and a cached count of available slots. The
/// buffer it works on is handed to each operation.
pub trait MRBIterator: Sized {
    /// The role of this kind of handle.
    spec fn role() -> Role;

    /// Whether this kind of handle works on a buffer that was split with
    /// (`has_worker`) or without a worker.
    spec fn accepts(has_worker: bool) -> bool;

    /// Position and cached count.
    spec fn view(&self) -> IterView;

    /// The role of this kind of handle, as a value.
    fn exec_role() -> (r: Role)
        ensures
            r == Self::role(),
    ;

    /// The position that the handle keeps for itself.
    fn _index(&self) -> (r: usize)
        ensures
            r == self@.index,
    ;

    /// Moves the handle to `index` without publishing it.
    fn set_local_index(&mut self, index: usize)
        ensures
            final(self)@ == (IterView { index: index as int, ..old(self)@ }),
    ;

    /// The count of available slots that the handle has cached.
    fn cached_avail(&self) -> (r: usize)
        ensures
            r == self@.cached_avail,
    ;

    /// Replaces the cached count of available slots.
    fn set_cached_avail(&mut self, avail: usize)
        ensures
            final(self)@ == (IterView { cached_avail: avail as int, ..old(self)@ }),
    ;

    /// Published position that this handle runs up against.
    fn succ_index<B: MutRB>(&self, buf: &B) -> (r: usize)
        requires
            buf@.in_bounds(),
            Self::accepts(buf@.has_worker),
        ensures
            r == buf@.succ_of(Self::role()),
    ;

    /// Publishes `index` as the position of this role.
    fn set_atomic_index<B: MutRB>(&self, buf: &mut B, index: usize)
        requires
            old(buf)@.in_bounds(),
            index < old(buf)@.len(),
        ensures
            final(buf)@ == old(buf)@.with_index(Self::role(), index as int),
            final(buf).frees_on_teardown() == old(buf).frees_on_teardown(),
    ;

    /// Returns the number of items available for this handle, and caches it.
    fn available<B: MutRB>(&mut self, buf: &B) -> (r: usize)
        requires
            Self::accepts(buf@.has_worker),
            iter_placed(buf@, Self::role(), old(self)@),
        ensures
            r == buf@.avail_at(Self::role(), old(self)@.index),
            final(self)@ == (IterView { cached_avail: r as int, ..old(self)@ }),
    ;

    /// Returns the position of the handle.
    fn index(&self) -> (r: usize)
        ensures
            r == self@.index,
    {
        self._index()
    }

    /// Returns the length of the buffer.
    fn buf_len<B: MutRB>(&self, buf: &B) -> (r: usize)
        requires
            buf@.in_bounds(),
        ensures
            r == buf@.len(),
    {
        buf.inner_len()
    }

    /// Tells whether `count` slots are available, looking at the buffer only where
    /// the cached count does not settle it.
    fn check<B: MutRB>(&mut self, buf: &B, count: usize) -> (r: bool)
        requires
            Self::accepts(buf@.has_worker),
            iter_ok(buf@, Self::role(), old(self)@),
        ensures
            r == (count <= buf@.avail_at(Self::role(), old(self)@.index)),
            final(self)@.index == old(self)@.index,
            final(self)@.cached_avail == cache_checked(
                old(self)@.cached_avail,
                buf@.avail_at(Self::role(), old(self)@.index),
                count as int,
            ),
            iter_ok(buf@, Self::role(), final(self)@),
    {
        self.cached_avail() >= count || self.available(buf) >= count
    }

    /// Moves the handle forward by `count` without publishing the new position.
    fn advance_local<B: MutRB>(&mut self, buf: &B, count: usize)
        requires
            Self::accepts(buf@.has_worker),
            iter_ok(buf@, Self::role(), old(self)@),
            count <= buf@.avail_at(Self::role(), old(self)@.index),
        ensures
            final(self)@.index == ring_add(old(self)@.index, count as int, buf@.len()),
            final(self)@.cached_avail == cache_advanced(old(self)@.cached_avail, count as int),
            iter_ok(buf@, Self::role(), final(self)@),
    {
        let len: usize = buf.inner_len();
        let index: usize = self._index();
        let cached: usize = self.cached_avail();
        self.set_local_index(step_forward(index, count, len));
        self.set_cached_avail(cached.saturating_sub(count));
    }

    /// Advances the handle by `count` and publishes the new position.
    ///
    /// A handle never oversteps the role ahead of it: `count` is at most what
    /// [`MRBIterator::available`] tells. A producer publishes filled slots only.
    fn advance<B: MutRB>(&mut self, buf: &mut B, count: usize)
        requires
            Self::accepts(old(buf)@.has_worker),
            iter_ok(old(buf)@, Self::role(), old(self)@),
            count <= old(buf)@.avail_at(Self::role(), old(self)@.index),
            Self::role() == Role::Producer ==> old(buf)@.filled(
                old(buf)@.prod,
                old(buf)@.free_used(old(self)@.index) + count,
            ),
        ensures
            final(self)@.index == ring_add(old(self)@.index, count as int, old(buf)@.len()),
            final(self)@.cached_avail == cache_advanced(old(self)@.cached_avail, count as int),
            final(buf)@ == old(buf)@.with_index(Self::role(), final(self)@.index),
            final(buf).frees_on_teardown() == old(buf).frees_on_teardown(),
            iter_ok(final(buf)@, Self::role(), final(self)@),
    {
        self.advance_local(buf, count);
        let index: usize = self._index();
        self.set_atomic_index(buf, index);
        proof {
            old(buf)@.lemma_publish(Self::role(), old(self)@.index, count as int);
        }
    }

    /// If `count` slots are available, lends them out for reading: the head of the
    /// window and, where it wraps around the end of the storage, its tail.
    fn next_chunk<'a, B: MutRB>(&mut self, buf: &'a B, count: usize) -> (r: Option<
        NonMutableSlice<'a, B::Item>,
    >)
        requires
            Self::accepts(buf@.has_worker),
            iter_ok(buf@, Self::role(), old(self)@),
        ensures
            r is Some <==> count <= buf@.avail_at(Self::role(), old(self)@.index),
            final(self)@.index == old(self)@.index,
            final(self)@.cached_avail == cache_checked(
                old(self)@.cached_avail,
                buf@.avail_at(Self::role(), old(self)@.index),
                count as int,
            ),
            iter_ok(buf@, Self::role(), final(self)@),
            r is Some ==> r.unwrap().0@.len() == head_len(
                old(self)@.index,
                count as int,
                buf@.len(),
            ) && contents(r.unwrap().0@) + contents(r.unwrap().1@) == buf@.window(
                old(self)@.index,
                count as int,
            ),
    {
        if self.check(buf, count) {
            let index: usize = self._index();
            Some(window_at(buf, index, count))
        } else {
            None
        }
    }

    /// If `count` slots are available, lends them out: the head of the window and,
    /// where it wraps around the end of the storage, its tail. The buffer holds
    /// whatever the caller leaves in them; the handle does not move.
    fn next_chunk_mut<'a, B: MutRB>(&mut self, buf: &'a mut B, count: usize) -> (r: Option<
        MutableSlice<'a, B::Item>,
    >)
        requires
            Self::accepts(old(buf)@.has_worker),
            iter_ok(old(buf)@, Self::role(), old(self)@),
        ensures
            r is Some <==> count <= old(buf)@.avail_at(Self::role(), old(self)@.index),
            final(self)@.index == old(self)@.index,
            final(self)@.cached_avail == cache_checked(
                old(self)@.cached_avail,
                old(buf)@.avail_at(Self::role(), old(self)@.index),
                count as int,
            ),
            iter_ok(old(buf)@, Self::role(), final(self)@),
            final(buf).frees_on_teardown() == old(buf).frees_on_teardown(),
            r is None ==> final(buf)@ == old(buf)@,
            r is Some ==> window_lent(
                old(buf)@,
                final(buf)@,
                old(self)@.index,
                count as int,
                contents(r.unwrap().0@),
                contents(r.unwrap().1@),
                contents(final(r.unwrap().0)@),
                contents(final(r.unwrap().1)@),
            ),
    {
        if self.check(buf, count) {
            let index: usize = self._index();
            Some(window_at_mut(buf, index, count))
        } else {
            None
        }
    }

    /// If a slot is available, lends out its value. The buffer holds whatever the
    /// caller leaves behind the reference; the handle does not move.
    fn next_ref_mut<'a, B: MutRB>(&mut self, buf: &'a mut B) -> (r: Option<&'a mut B::Item>)
        requires
            Self::accepts(old(buf)@.has_worker),
            iter_ok(old(buf)@, Self::role(), old(self)@),
            Self::role() == Role::Producer && 1 <= old(buf)@.avail_at(
                Self::role(),
                old(self)@.index,
            ) ==> old(buf)@.filled(old(self)@.index, 1),
        ensures
            r is Some <==> 1 <= old(buf)@.avail_at(Self::role(), old(self)@.index),
            final(self)@.index == old(self)@.index,
            final(self)@.cached_avail == cache_checked(
                old(self)@.cached_avail,
                old(buf)@.avail_at(Self::role(), old(self)@.index),
                1,
            ),
            final(buf).frees_on_teardown() == old(buf).frees_on_teardown(),
            r is None ==> final(buf)@ == old(buf)@,
            r is Some ==> Some(*r.unwrap()) == old(buf)@.slots[old(self)@.index],
            r is Some ==> final(buf)@ =~= old(buf)@.with_slot(
                old(self)@.index,
                Some(*final(r.unwrap())),
            ),
            iter_ok(final(buf)@, Self::role(), final(self)@),
    {
        if self.check(buf, 1) {
            let index: usize = self._index();
            proof {
                old(buf)@.lemma_reach_filled(Self::role(), index as int, 1);
                assert(ring_add(index as int, 0, old(buf)@.len()) == index);
            }
            let r = value_at_mut(buf, index);
            proof {
                old(buf)@.lemma_rewrite_filled(index as int, Some(*final(r)));
            }
            Some(r)
        } else {
            None
        }
    }

    /// If a slot is available, lends out the slot itself, which may be filled
    /// whether or not it holds a value. The handle does not move.
    fn next_ref_mut_init<'a, B: MutRB>(&mut self, buf: &'a mut B) -> (r: Option<
        &'a mut UnsafeSyncCell<B::Item>,
    >)
        requires
            Self::accepts(old(buf)@.has_worker),
            iter_ok(old(buf)@, Self::role(), old(self)@),
        ensures
            r is Some <==> 1 <= old(buf)@.avail_at(Self::role(), old(self)@.index),
            final(self)@.index == old(self)@.index,
            final(self)@.cached_avail == cache_checked(
                old(self)@.cached_avail,
                old(buf)@.avail_at(Self::role(), old(self)@.index),
                1,
            ),
            final(buf).frees_on_teardown() == old(buf).frees_on_teardown(),
            r is None ==> final(buf)@ == old(buf)@,
            r is Some ==> r.unwrap()@ == old(buf)@.slots[old(self)@.index],
            r is Some ==> final(buf)@ =~= old(buf)@.with_slot(
                old(self)@.index,
                final(r.unwrap())@,
            ),
    {
        if self.check(buf, 1) {
            let index: usize = self._index();
            Some(slot_at_mut(buf, index))
        } else {
            None
        }
    }

    /// Drops the handle: the buffer records that its role is gone, and a buffer that
    /// its handles own is freed with the last of them.
    fn drop<B: MutRB>(self, buf: &mut B)
        requires
            old(buf)@.in_bounds(),
            old(buf)@.alive_consistent(),
            old(buf)@.role_alive(Self::role()),
        ensures
            final(buf)@ == if old(buf)@.alive_iters == 1 && old(buf).frees_on_teardown() {
                RingView::torn_down()
            } else {
                old(buf)@.without_handle(Self::role())
            },
            final(buf).frees_on_teardown() == old(buf).frees_on_teardown(),
    {
        let _ = buf.drop_iter(Self::exec_role());
    }

    /// Returns `true` if the producer handle exists, `false` if it has been dropped.
    fn is_prod_alive<B: MutRB>(&self, buf: &B) -> (r: bool)
        requires
            buf@.in_bounds(),
        ensures
            r == buf@.prod_alive,
    {
        buf.is_alive(Role::Producer)
    }

    /// Returns `true` if the worker handle exists, `false` if it has been dropped.
    fn is_work_alive<B: MutRB>(&self, buf: &B) -> (r: bool)
        requires
            buf@.in_bounds(),
        ensures
            r == buf@.work_alive,
    {
        buf.is_alive(Role::Worker)
    }

    /// Returns `true` if the consumer handle exists, `false` if it has been dropped.
    fn is_cons_alive<B: MutRB>(&self, buf: &B) -> (r: bool)
        requires
            buf@.in_bounds(),
        ensures
            r == buf@.cons_alive,
    {
        buf.is_alive(Role::Consumer)
    }

    /// Returns the published position of the producer.
    fn prod_index<B: MutRB>(&self, buf: &B) -> (r: usize)
        requires
            buf@.in_bounds(),
        ensures
            r == buf@.prod,
    {
        buf.prod_index()
    }

    /// Returns the published position of the worker.
    fn work_index<B: MutRB>(&self, buf: &B) -> (r: usize)
        requires
            buf@.in_bounds(),
        ensures
            r == buf@.work,
    {
        buf.work_index()
    }

    /// Returns the published position of the consumer.
    fn cons_index<B: MutRB>(&self, buf: &B) -> (r: usize)
        requires
            buf@.in_bounds(),
        ensures
            r == buf@.cons,
    {
        buf.cons_index()
    }

    /// Returns a mutable reference to the value at the handle's position, if a slot
    /// is available. The handle does not move: [`MRBIterator::advance`] has to be
    /// called when done with the mutation.
    fn get_workable<'a, B: MutRB>(&mut self, buf: &'a mut B) -> (r: Option<&'a mut B::Item>)
        requires
            Self::accepts(old(buf)@.has_worker),
            iter_ok(old(buf)@, Self::role(), old(self)@),
            Self::role() == Role::Producer && 1 <= old(buf)@.avail_at(
                Self::role(),
                old(self)@.index,
            ) ==> old(buf)@.filled(old(self)@.index, 1),
        ensures
            r is Some <==> 1 <= old(buf)@.avail_at(Self::role(), old(self)@.index),
            final(self)@.index == old(self)@.index,
            final(self)@.cached_avail == cache_checked(
                old(self)@.cached_avail,
                old(buf)@.avail_at(Self::role(), old(self)@.index),
                1,
            ),
            final(buf).frees_on_teardown() == old(buf).frees_on_teardown(),
            r is None ==> final(buf)@ == old(buf)@,
            r is Some ==> Some(*r.unwrap()) == old(buf)@.slots[old(self)@.index],
            r is Some ==> final(buf)@ == old(buf)@.with_slot(
                old(self)@.index,
                Some(*final(r.unwrap())),
            ),
            iter_ok(final(buf)@, Self::role(), final(self)@),
    {
        self.next_ref_mut(buf)
    }

    /// Returns the next `count` slots as a head and a tail, if that many are
    /// available. The handle does not move: [`MRBIterator::advance`] has to be called
    /// when done with the mutation.
    fn get_workable_slice_exact<'a, B: MutRB>(&mut self, buf: &'a mut B, count: usize) -> (r:
        Option<MutableSlice<'a, B::Item>>)
        requires
            Self::accepts(old(buf)@.has_worker),
            iter_ok(old(buf)@, Self::role(), old(self)@),
        ensures
            r is Some <==> count <= old(buf)@.avail_at(Self::role(), old(self)@.index),
            final(self)@.index == old(self)@.index,
            final(self)@.cached_avail == cache_checked(
                old(self)@.cached_avail,
                old(buf)@.avail_at(Self::role(), old(self)@.index),
                count as int,
            ),
            iter_ok(old(buf)@, Self::role(), final(self)@),
            final(buf).frees_on_teardown() == old(buf).frees_on_teardown(),
            r is None ==> final(buf)@ == old(buf)@,
            r is Some ==> window_lent(
                old(buf)@,
                final(buf)@,
                old(self)@.index,
                count as int,
                contents(r.unwrap().0@),
                contents(r.unwrap().1@),
                contents(final(r.unwrap().0)@),
                contents(final(r.unwrap().1)@),
            ),
    {
        self.next_chunk_mut(buf, count)
    }

    /// Returns all available slots as a head and a tail, or `None` where nothing is
    /// available. The handle does not move.
    fn get_workable_slice_avail<'a, B: MutRB>(&mut self, buf: &'a mut B) -> (r: Option<
        MutableSlice<'a, B::Item>,
    >)
        requires
            Self::accepts(old(buf)@.has_worker),
            iter_placed(old(buf)@, Self::role(), old(self)@),
        ensures
            r is Some <==> 0 < old(buf)@.avail_at(Self::role(), old(self)@.index),
            final(self)@ == (IterView {
                cached_avail: old(buf)@.avail_at(Self::role(), old(self)@.index),
                ..old(self)@
            }),
            final(buf).frees_on_teardown() == old(buf).frees_on_teardown(),
            r is None ==> final(buf)@ == old(buf)@,
            r is Some ==> window_lent(
                old(buf)@,
                final(buf)@,
                old(self)@.index,
                old(buf)@.avail_at(Self::role(), old(self)@.index),
                contents(r.unwrap().0@),
                contents(r.unwrap().1@),
                contents(final(r.unwrap().0)@),
                contents(final(r.unwrap().1)@),
            ),
    {
        let avail: usize = self.available(buf);
        if avail == 0 {
            None
        } else {
            self.get_workable_slice_exact(buf, avail)
        }
    }

    /// Returns the largest run of available slots whose length is a multiple of
    /// `rhs`, as a head and a tail, or `None` where fewer than `rhs` are available.
    /// The handle does not move.
    fn get_workable_slice_multiple_of<'a, B: MutRB>(&mut self, buf: &'a mut B, rhs: usize) -> (r:
        Option<MutableSlice<'a, B::Item>>)
        requires
            rhs > 0,
            Self::accepts(old(buf)@.has_worker),
            iter_placed(old(buf)@, Self::role(), old(self)@),
        ensures
            r is Some <==> rhs <= old(buf)@.avail_at(Self::role(), old(self)@.index),
            final(self)@ == (IterView {
                cached_avail: old(buf)@.avail_at(Self::role(), old(self)@.index),
                ..old(self)@
            }),
            final(buf).frees_on_teardown() == old(buf).frees_on_teardown(),
            r is None ==> final(buf)@ == old(buf)@,
            r is Some ==> window_lent(
                old(buf)@,
                final(buf)@,
                old(self)@.index,
                largest_multiple(old(buf)@.avail_at(Self::role(), old(self)@.index), rhs as int),
                contents(r.unwrap().0@),
                contents(r.unwrap().1@),
                contents(final(r.unwrap().0)@),
                contents(final(r.unwrap().1)@),
            ),
    {
        let avail: usize = self.available(buf);
        proof {
            vstd::arithmetic::div_mod::lemma_mod_decreases(avail as nat, rhs as nat);
            if avail < rhs {
                vstd::arithmetic::div_mod::lemma_small_mod(avail as nat, rhs as nat);
            }
        }
        let count: usize = avail - avail % rhs;
        if count == 0 {
            None
        } else {
            self.get_workable_slice_exact(buf, count)
        }
    }
}

} // verus!
