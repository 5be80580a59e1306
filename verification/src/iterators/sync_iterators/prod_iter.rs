//! The producer's handle.

use vstd::prelude::*;
use crate::iterators::iterator_trait::{iter_ok, MRBIterator, MutableSlice};
use crate::iterators::sync_iterators::detached::Detached;
use crate::model::ring_math::vacant_slots;
use crate::model::ring_view::{cache_checked, cache_taken, values, window_lent, IterView, Role};
use crate::ring_buffer::storage::slot_mut;
use crate::ring_buffer::variants::ring_buffer_trait::MutRB;
use crate::ring_buffer::wrappers::unsafe_sync_cell::{contents, UnsafeSyncCell};

verus! {

/// Handle used to push data into the buffer.
///
/// A slot that was never written, or whose value a consumer moved out, is zeroed.
/// The plain methods of this handle write over values; on slots that may be zeroed
/// the `*_init` methods have to be used, which look at each slot first.
pub struct ProdIter {
    index: usize,
    cached_avail: usize,
}

impl MRBIterator for ProdIter {
    open spec fn role() -> Role {
        Role::Producer
    }

    open spec fn accepts(has_worker: bool) -> bool {
        true
    }

    closed spec fn view(&self) -> IterView {
        IterView { index: self.index as int, cached_avail: self.cached_avail as int }
    }

    fn exec_role() -> (r: Role) {
        Role::Producer
    }

    fn _index(&self) -> (r: usize) {
        self.index
    }

    fn set_local_index(&mut self, index: usize) {
        self.index = index;
    }

    fn cached_avail(&self) -> (r: usize) {
        self.cached_avail
    }

    fn set_cached_avail(&mut self, avail: usize) {
        self.cached_avail = avail;
    }

    fn succ_index<B: MutRB>(&self, buf: &B) -> (r: usize) {
        buf.cons_index()
    }

    fn set_atomic_index<B: MutRB>(&self, buf: &mut B, index: usize) {
        buf.set_prod_index(index);
    }

    fn available<B: MutRB>(&mut self, buf: &B) -> (r: usize) {
        let succ: usize = self.succ_index(buf);
        let len: usize = buf.inner_len();
        self.cached_avail = vacant_slots(self.index, succ, len);
        self.cached_avail
    }
}

/// Writes the elements of `src` over the values in `dst`.
fn copy_over<T: Copy>(dst: &mut [UnsafeSyncCell<T>], src: &[T])
    requires
        old(dst)@.len() == src@.len(),
        forall|i: int| 0 <= i < old(dst)@.len() ==> (#[trigger] old(dst)@[i])@ is Some,
    ensures
        final(dst)@.len() == old(dst)@.len(),
        contents(final(dst)@) == src@.map_values(|x: T| Some(x)),
{
    let n: usize = src.len();
    let mut i: usize = 0;
    while i < n
        invariant
            i <= n,
            n == src@.len(),
            dst@.len() == n,
            forall|j: int| 0 <= j < i ==> (#[trigger] dst@[j])@ == Some(src@[j]),
            forall|j: int| i <= j < n ==> (#[trigger] dst@[j])@ is Some,
        decreases n - i,
    {
        let cell = slot_mut(dst, i);
        *cell.inner_ref_mut() = src[i];
        i = i + 1;
    }
    proof {
        assert(contents(dst@) =~= src@.map_values(|x: T| Some(x)));
    }
}

/// Puts the elements of `src` into the slots of `dst`, zeroed or not.
fn copy_into<T: Copy>(dst: &mut [UnsafeSyncCell<T>], src: &[T])
    requires
        old(dst)@.len() == src@.len(),
    ensures
        final(dst)@.len() == old(dst)@.len(),
        contents(final(dst)@) == src@.map_values(|x: T| Some(x)),
{
    let n: usize = src.len();
    let mut i: usize = 0;
    while i < n
        invariant
            i <= n,
            n == src@.len(),
            dst@.len() == n,
            forall|j: int| 0 <= j < i ==> (#[trigger] dst@[j])@ == Some(src@[j]),
        decreases n - i,
    {
        let cell = slot_mut(dst, i);
        if cell.check_zeroed() {
            cell.write(src[i]);
        } else {
            *cell.inner_ref_mut() = src[i];
        }
        i = i + 1;
    }
    proof {
        assert(contents(dst@) =~= src@.map_values(|x: T| Some(x)));
    }
}

/// `slots` holds a clone of each element of `items`, in order.
pub open spec fn holds_clones<T: Clone>(slots: Seq<Option<T>>, items: Seq<T>) -> bool {
    &&& slots.len() == items.len()
    &&& forall|i: int|
        0 <= i < items.len() ==> (#[trigger] slots[i]) is Some && cloned(items[i], slots[i]->0)
}

/// Writes clones of the elements of `src` over the values in `dst`.
fn clone_over<T: Clone>(dst: &mut [UnsafeSyncCell<T>], src: &[T])
    requires
        old(dst)@.len() == src@.len(),
        forall|i: int| 0 <= i < old(dst)@.len() ==> (#[trigger] old(dst)@[i])@ is Some,
    ensures
        final(dst)@.len() == old(dst)@.len(),
        holds_clones(contents(final(dst)@), src@),
{
    let n: usize = src.len();
    let mut i: usize = 0;
    while i < n
        invariant
            i <= n,
            n == src@.len(),
            dst@.len() == n,
            forall|j: int|
                0 <= j < i ==> (#[trigger] dst@[j])@ is Some && cloned(src@[j], dst@[j]@->0),
            forall|j: int| i <= j < n ==> (#[trigger] dst@[j])@ is Some,
        decreases n - i,
    {
        let cell = slot_mut(dst, i);
        *cell.inner_ref_mut() = src[i].clone();
        i = i + 1;
    }
    proof {
        assert forall|j: int| 0 <= j < n implies (#[trigger] contents(dst@)[j]) is Some && cloned(
            src@[j],
            contents(dst@)[j]->0,
        ) by {
            assert(dst@[j]@ is Some);
        }
    }
}

/// Puts clones of the elements of `src` into the slots of `dst`, zeroed or not.
fn clone_into<T: Clone>(dst: &mut [UnsafeSyncCell<T>], src: &[T])
    requires
        old(dst)@.len() == src@.len(),
    ensures
        final(dst)@.len() == old(dst)@.len(),
        holds_clones(contents(final(dst)@), src@),
{
    let n: usize = src.len();
    let mut i: usize = 0;
    while i < n
        invariant
            i <= n,
            n == src@.len(),
            dst@.len() == n,
            forall|j: int|
                0 <= j < i ==> (#[trigger] dst@[j])@ is Some && cloned(src@[j], dst@[j]@->0),
        decreases n - i,
    {
        let cell = slot_mut(dst, i);
        if cell.check_zeroed() {
            cell.write(src[i].clone());
        } else {
            *cell.inner_ref_mut() = src[i].clone();
        }
        i = i + 1;
    }
    proof {
        assert forall|j: int| 0 <= j < n implies (#[trigger] contents(dst@)[j]) is Some && cloned(
            src@[j],
            contents(dst@)[j]->0,
        ) by {
            assert(dst@[j]@ is Some);
        }
    }
}

impl ProdIter {
    /// The producer's handle for `buf`, standing at the producer's published
    /// position.
    pub fn new<B: MutRB>(buf: &B) -> (r: Self)
        requires
            buf@.in_bounds(),
        ensures
            r@ == (IterView { index: buf@.prod, cached_avail: 0 }),
    {
        ProdIter { index: buf.prod_index(), cached_avail: 0 }
    }

    /// Detaches the handle: its moves stay local until they are synchronised.
    pub fn detach(self) -> (r: Detached<Self>)
        ensures
            r@ == self@,
    {
        Detached::from_iter(self)
    }

    /// Tries to push a new item by moving or copying it over the value in the next
    /// slot.
    ///
    /// Returns `Err(value)` if the buffer is full, `Ok(())` otherwise.
    ///
    /// The next slot must hold a value: after a [`ConsIter::pop_move`], or on a
    /// buffer made of zeroed slots, use [`Self::push_init`].
    ///
    /// [`ConsIter::pop_move`]: crate::iterators::sync_iterators::cons_iter::ConsIter::pop_move
    pub fn push<B: MutRB>(&mut self, buf: &mut B, value: B::Item) -> (r: Result<(), B::Item>)
        requires
            iter_ok(old(buf)@, Role::Producer, old(self)@),
            old(self)@.index == old(buf)@.prod,
            1 <= old(buf)@.available(Role::Producer) ==> old(buf)@.filled(old(buf)@.prod, 1),
        ensures
            r is Ok <==> 1 <= old(buf)@.available(Role::Producer),
            r is Err ==> r == Err::<(), B::Item>(value) && final(buf)@ == old(buf)@,
            r is Ok ==> final(buf)@ == old(buf)@.push(value),
            final(self)@.index == final(buf)@.prod,
            final(self)@.cached_avail == cache_taken(
                old(self)@.cached_avail,
                old(buf)@.available(Role::Producer),
                1,
            ),
            iter_ok(final(buf)@, Role::Producer, final(self)@),
            final(buf).frees_on_teardown() == old(buf).frees_on_teardown(),
    {
        match self.next_ref_mut(buf) {
            Some(slot) => {
                *slot = value;
                proof {
                    assert(old(buf)@.filled(old(buf)@.prod, 1));
                }
                self.advance(buf, 1);
                Ok(())
            },
            None => Err(value),
        }
    }

    /// Same as [`Self::push`], but can be used when the next slot may be zeroed, for
    /// instance after a [`ConsIter::pop_move`].
    ///
    /// Returns `Err(value)` if the buffer is full, `Ok(())` otherwise.
    ///
    /// [`ConsIter::pop_move`]: crate::iterators::sync_iterators::cons_iter::ConsIter::pop_move
    pub fn push_init<B: MutRB>(&mut self, buf: &mut B, value: B::Item) -> (r: Result<
        (),
        B::Item,
    >)
        requires
            iter_ok(old(buf)@, Role::Producer, old(self)@),
            old(self)@.index == old(buf)@.prod,
        ensures
            r is Ok <==> 1 <= old(buf)@.available(Role::Producer),
            r is Err ==> r == Err::<(), B::Item>(value) && final(buf)@ == old(buf)@,
            r is Ok ==> final(buf)@ == old(buf)@.push(value),
            final(self)@.index == final(buf)@.prod,
            final(self)@.cached_avail == cache_taken(
                old(self)@.cached_avail,
                old(buf)@.available(Role::Producer),
                1,
            ),
            iter_ok(final(buf)@, Role::Producer, final(self)@),
            final(buf).frees_on_teardown() == old(buf).frees_on_teardown(),
    {
        match self.next_ref_mut_init(buf) {
            Some(cell) => {
                if cell.check_zeroed() {
                    cell.write(value);
                } else {
                    *cell.inner_ref_mut() = value;
                }
                proof {
                    old(buf)@.lemma_rewrite_filled(old(buf)@.prod, Some(value));
                }
                self.advance(buf, 1);
                Ok(())
            },
            None => Err(value),
        }
    }

    /// Tries to push a slice of items by copying the elements over the values in the
    /// next slots.
    ///
    /// Returns `None` if the slice does not fit, and then nothing was written;
    /// `Some(())` otherwise.
    ///
    /// The slots written must hold values; where they may be zeroed use
    /// [`Self::push_slice_init`].
    pub fn push_slice<B: MutRB>(&mut self, buf: &mut B, slice: &[B::Item]) -> (r: Option<()>) where
        B::Item: Copy,
        requires
            iter_ok(old(buf)@, Role::Producer, old(self)@),
            old(self)@.index == old(buf)@.prod,
            slice@.len() <= old(buf)@.available(Role::Producer) ==> old(buf)@.filled(
                old(buf)@.prod,
                slice@.len() as int,
            ),
        ensures
            r is Some <==> slice@.len() <= old(buf)@.available(Role::Producer),
            r is None ==> final(buf)@ == old(buf)@,
            r is Some ==> final(buf)@ == old(buf)@.push_seq(slice@),
            final(self)@.index == final(buf)@.prod,
            final(self)@.cached_avail == cache_taken(
                old(self)@.cached_avail,
                old(buf)@.available(Role::Producer),
                slice@.len() as int,
            ),
            iter_ok(final(buf)@, Role::Producer, final(self)@),
            final(buf).frees_on_teardown() == old(buf).frees_on_teardown(),
    {
        let count: usize = slice.len();
        match self.next_chunk_mut(buf, count) {
            Some((h, t)) => {
                let mid: usize = h.len();
                let (first, rest) = slice.split_at(mid);
                proof {
                    let w = old(buf)@.window(old(buf)@.prod, count as int);
                    assert(w.len() == count);
                    assert((contents(h@) + contents(t@)).len() == h@.len() + t@.len());
                    let v = old(buf)@;
                    assert forall|j: int| 0 <= j < h@.len() implies (#[trigger] h@[j])@ is Some by {
                        assert(contents(h@)[j] == v.window(v.prod, count as int)[j]);
                    }
                    assert forall|j: int| 0 <= j < t@.len() implies (#[trigger] t@[j])@ is Some by {
                        assert(contents(t@)[j] == v.window(v.prod, count as int)[j + h@.len()]);
                    }
                }
                copy_over(h, first);
                copy_over(t, rest);
                proof {
                    let v = old(buf)@;
                    let w = contents(h@) + contents(t@);
                    assert(slice@ =~= first@ + rest@);
                    assert(w =~= slice@.map_values(|x: B::Item| Some(x)));
                    v.lemma_fill_free(w);
                }
                self.advance(buf, count);
                Some(())
            },
            None => None,
        }
    }

    /// Same as [`Self::push_slice`], but can be used when the next slots may be
    /// zeroed.
    pub fn push_slice_init<B: MutRB>(&mut self, buf: &mut B, slice: &[B::Item]) -> (r: Option<()>) where
        B::Item: Copy,
        requires
            iter_ok(old(buf)@, Role::Producer, old(self)@),
            old(self)@.index == old(buf)@.prod,
        ensures
            r is Some <==> slice@.len() <= old(buf)@.available(Role::Producer),
            r is None ==> final(buf)@ == old(buf)@,
            r is Some ==> final(buf)@ == old(buf)@.push_seq(slice@),
            final(self)@.index == final(buf)@.prod,
            final(self)@.cached_avail == cache_taken(
                old(self)@.cached_avail,
                old(buf)@.available(Role::Producer),
                slice@.len() as int,
            ),
            iter_ok(final(buf)@, Role::Producer, final(self)@),
            final(buf).frees_on_teardown() == old(buf).frees_on_teardown(),
    {
        let count: usize = slice.len();
        match self.next_chunk_mut(buf, count) {
            Some((h, t)) => {
                let mid: usize = h.len();
                let (first, rest) = slice.split_at(mid);
                proof {
                    let w = old(buf)@.window(old(buf)@.prod, count as int);
                    assert(w.len() == count);
                    assert((contents(h@) + contents(t@)).len() == h@.len() + t@.len());
                }
                copy_into(h, first);
                copy_into(t, rest);
                proof {
                    let v = old(buf)@;
                    let w = contents(h@) + contents(t@);
                    assert(slice@ =~= first@ + rest@);
                    assert(w =~= slice@.map_values(|x: B::Item| Some(x)));
                    v.lemma_fill_free(w);
                }
                self.advance(buf, count);
                Some(())
            },
            None => None,
        }
    }

    /// Tries to push a slice of items by cloning the elements over the values in the
    /// next slots.
    ///
    /// Returns `None` if the slice does not fit, and then nothing was written;
    /// `Some(())` otherwise.
    ///
    /// The slots written must hold values; where they may be zeroed use
    /// [`Self::push_slice_clone_init`].
    pub fn push_slice_clone<B: MutRB>(&mut self, buf: &mut B, slice: &[B::Item]) -> (r: Option<()>) where
        B::Item: Clone,
        requires
            iter_ok(old(buf)@, Role::Producer, old(self)@),
            old(self)@.index == old(buf)@.prod,
            slice@.len() <= old(buf)@.available(Role::Producer) ==> old(buf)@.filled(
                old(buf)@.prod,
                slice@.len() as int,
            ),
        ensures
            r is Some <==> slice@.len() <= old(buf)@.available(Role::Producer),
            r is None ==> final(buf)@ == old(buf)@,
            r is Some ==> final(buf)@ == old(buf)@.push_seq(
                values(final(buf)@.window(old(buf)@.prod, slice@.len() as int)),
            ) && holds_clones(final(buf)@.window(old(buf)@.prod, slice@.len() as int), slice@),
            final(self)@.index == final(buf)@.prod,
            final(self)@.cached_avail == cache_taken(
                old(self)@.cached_avail,
                old(buf)@.available(Role::Producer),
                slice@.len() as int,
            ),
            iter_ok(final(buf)@, Role::Producer, final(self)@),
            final(buf).frees_on_teardown() == old(buf).frees_on_teardown(),
    {
        let count: usize = slice.len();
        match self.next_chunk_mut(buf, count) {
            Some((h, t)) => {
                let mid: usize = h.len();
                let (first, rest) = slice.split_at(mid);
                proof {
                    let w = old(buf)@.window(old(buf)@.prod, count as int);
                    assert(w.len() == count);
                    assert((contents(h@) + contents(t@)).len() == h@.len() + t@.len());
                    let v = old(buf)@;
                    assert forall|j: int| 0 <= j < h@.len() implies (#[trigger] h@[j])@ is Some by {
                        assert(contents(h@)[j] == v.window(v.prod, count as int)[j]);
                    }
                    assert forall|j: int| 0 <= j < t@.len() implies (#[trigger] t@[j])@ is Some by {
                        assert(contents(t@)[j] == v.window(v.prod, count as int)[j + h@.len()]);
                    }
                }
                clone_over(h, first);
                clone_over(t, rest);
                proof {
                    let v = old(buf)@;
                    let w = contents(h@) + contents(t@);
                    assert(slice@ =~= first@ + rest@);
                    assert forall|j: int| 0 <= j < w.len() implies (#[trigger] w[j]) is Some
                        && cloned(slice@[j], w[j]->0) by {
                        if j < mid {
                            assert(w[j] == contents(h@)[j]);
                        } else {
                            assert(w[j] == contents(t@)[j - mid]);
                        }
                    }
                    v.lemma_fill_free(w);
                    assert(w =~= values(w).map_values(|x: B::Item| Some(x)));
                }
                self.advance(buf, count);
                Some(())
            },
            None => None,
        }
    }

    /// Same as [`Self::push_slice_clone`], but can be used when the next slots may be
    /// zeroed.
    pub fn push_slice_clone_init<B: MutRB>(&mut self, buf: &mut B, slice: &[B::Item]) -> (r: Option<()>) where
        B::Item: Clone,
        requires
            iter_ok(old(buf)@, Role::Producer, old(self)@),
            old(self)@.index == old(buf)@.prod,
        ensures
            r is Some <==> slice@.len() <= old(buf)@.available(Role::Producer),
            r is None ==> final(buf)@ == old(buf)@,
            r is Some ==> final(buf)@ == old(buf)@.push_seq(
                values(final(buf)@.window(old(buf)@.prod, slice@.len() as int)),
            ) && holds_clones(final(buf)@.window(old(buf)@.prod, slice@.len() as int), slice@),
            final(self)@.index == final(buf)@.prod,
            final(self)@.cached_avail == cache_taken(
                old(self)@.cached_avail,
                old(buf)@.available(Role::Producer),
                slice@.len() as int,
            ),
            iter_ok(final(buf)@, Role::Producer, final(self)@),
            final(buf).frees_on_teardown() == old(buf).frees_on_teardown(),
    {
        let count: usize = slice.len();
        match self.next_chunk_mut(buf, count) {
            Some((h, t)) => {
                let mid: usize = h.len();
                let (first, rest) = slice.split_at(mid);
                proof {
                    let w = old(buf)@.window(old(buf)@.prod, count as int);
                    assert(w.len() == count);
                    assert((contents(h@) + contents(t@)).len() == h@.len() + t@.len());
                }
                clone_into(h, first);
                clone_into(t, rest);
                proof {
                    let v = old(buf)@;
                    let w = contents(h@) + contents(t@);
                    assert(slice@ =~= first@ + rest@);
                    assert forall|j: int| 0 <= j < w.len() implies (#[trigger] w[j]) is Some
                        && cloned(slice@[j], w[j]->0) by {
                        if j < mid {
                            assert(w[j] == contents(h@)[j]);
                        } else {
                            assert(w[j] == contents(t@)[j - mid]);
                        }
                    }
                    v.lemma_fill_free(w);
                    assert(w =~= values(w).map_values(|x: B::Item| Some(x)));
                }
                self.advance(buf, count);
                Some(())
            },
            None => None,
        }
    }

    /// If available, returns a mutable reference to the value in the next slot, which
    /// must hold one. The handle does not move: [`MRBIterator::advance`] has to be
    /// called when done with the mutation.
    pub fn get_next_item_mut<'a, B: MutRB>(&mut self, buf: &'a mut B) -> (r: Option<
        &'a mut B::Item,
    >)
        requires
            iter_ok(old(buf)@, Role::Producer, old(self)@),
            1 <= old(buf)@.avail_at(Role::Producer, old(self)@.index) ==> old(buf)@.filled(
                old(self)@.index,
                1,
            ),
        ensures
            r is Some <==> 1 <= old(buf)@.avail_at(Role::Producer, old(self)@.index),
            final(self)@.index == old(self)@.index,
            final(self)@.cached_avail == cache_checked(
                old(self)@.cached_avail,
                old(buf)@.avail_at(Role::Producer, old(self)@.index),
                1,
            ),
            final(buf).frees_on_teardown() == old(buf).frees_on_teardown(),
            r is None ==> final(buf)@ == old(buf)@,
            r is Some ==> Some(*r.unwrap()) == old(buf)@.slots[old(self)@.index],
            r is Some ==> final(buf)@ == old(buf)@.with_slot(
                old(self)@.index,
                Some(*final(r.unwrap())),
            ),
            iter_ok(final(buf)@, Role::Producer, final(self)@),
    {
        self.next_ref_mut(buf)
    }

    /// If available, returns the next slot itself, which can be written whether or
    /// not it holds a value. The handle does not move: [`MRBIterator::advance`] has
    /// to be called once the slot is filled.
    pub fn get_next_item_mut_init<'a, B: MutRB>(&mut self, buf: &'a mut B) -> (r: Option<
        &'a mut UnsafeSyncCell<B::Item>,
    >)
        requires
            iter_ok(old(buf)@, Role::Producer, old(self)@),
        ensures
            r is Some <==> 1 <= old(buf)@.avail_at(Role::Producer, old(self)@.index),
            final(self)@.index == old(self)@.index,
            final(self)@.cached_avail == cache_checked(
                old(self)@.cached_avail,
                old(buf)@.avail_at(Role::Producer, old(self)@.index),
                1,
            ),
            final(buf).frees_on_teardown() == old(buf).frees_on_teardown(),
            r is None ==> final(buf)@ == old(buf)@,
            r is Some ==> r.unwrap()@ == old(buf)@.slots[old(self)@.index],
            r is Some ==> final(buf)@ == old(buf)@.with_slot(
                old(self)@.index,
                final(r.unwrap())@,
            ),
    {
        self.next_ref_mut_init(buf)
    }

    /// If available, returns the next `count` slots as a head and a tail. The handle
    /// does not move: [`MRBIterator::advance`] has to be called once the slots are
    /// filled.
    pub fn get_next_slices_mut<'a, B: MutRB>(&mut self, buf: &'a mut B, count: usize) -> (r:
        Option<MutableSlice<'a, B::Item>>)
        requires
            iter_ok(old(buf)@, Role::Producer, old(self)@),
        ensures
            r is Some <==> count <= old(buf)@.avail_at(Role::Producer, old(self)@.index),
            final(self)@.index == old(self)@.index,
            final(self)@.cached_avail == cache_checked(
                old(self)@.cached_avail,
                old(buf)@.avail_at(Role::Producer, old(self)@.index),
                count as int,
            ),
            iter_ok(old(buf)@, Role::Producer, final(self)@),
            final(buf).frees_on_teardown() == old(buf).frees_on_teardown(),
            r is None ==> final(buf)@ == old(buf)@,
            r is Some ==> window_lent(
                old(buf)@,
                final(buf)@,
                old(self)@.index,
                count as int,
                contents(r.unwrap().0@),
                contents(r.unwrap().1@),
                contents(final(r.unwrap().0)@),
                contents(final(r.unwrap().1)@),
            ),
    {
        self.next_chunk_mut(buf, count)
    }
}

} // verus!
