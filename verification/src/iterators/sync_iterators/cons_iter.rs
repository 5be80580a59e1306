//! The consumer's handle.

use vstd::prelude::*;
use crate::iterators::iterator_trait::{iter_ok, iter_placed, MRBIterator, NonMutableSlice};
use crate::iterators::sync_iterators::detached::Detached;
use crate::model::ring_math::{head_len, pending_slots};
use crate::model::ring_view::{cache_checked, cache_taken, values, IterView, Role};
use crate::ring_buffer::variants::ring_buffer_trait::{slot_at, slot_at_mut, MutRB};
use crate::ring_buffer::wrappers::unsafe_sync_cell::{contents, UnsafeSyncCell};

verus! {

/// Handle used to pop data from the buffer.
///
/// `W` tells whether the buffer was split with a worker: the consumer then follows
/// the worker, else the producer.
pub struct ConsIter<const W: bool> {
    index: usize,
    cached_avail: usize,
}

impl<const W: bool> MRBIterator for ConsIter<W> {
    open spec fn role() -> Role {
        Role::Consumer
    }

    open spec fn accepts(has_worker: bool) -> bool {
        has_worker == W
    }

    closed spec fn view(&self) -> IterView {
        IterView { index: self.index as int, cached_avail: self.cached_avail as int }
    }

    fn exec_role() -> (r: Role) {
        Role::Consumer
    }

    fn _index(&self) -> (r: usize) {
        self.index
    }

    fn set_local_index(&mut self, index: usize) {
        self.index = index;
    }

    fn cached_avail(&self) -> (r: usize) {
        self.cached_avail
    }

    fn set_cached_avail(&mut self, avail: usize) {
        self.cached_avail = avail;
    }

    fn succ_index<B: MutRB>(&self, buf: &B) -> (r: usize) {
        if W {
            buf.work_index()
        } else {
            buf.prod_index()
        }
    }

    fn set_atomic_index<B: MutRB>(&self, buf: &mut B, index: usize) {
        buf.set_cons_index(index);
    }

    fn available<B: MutRB>(&mut self, buf: &B) -> (r: usize) {
        let succ: usize = self.succ_index(buf);
        let len: usize = buf.inner_len();
        self.cached_avail = pending_slots(self.index, succ, len);
        self.cached_avail
    }
}

/// Copies the values of `src` into `dst`.
fn copy_out<T: Copy>(src: &[UnsafeSyncCell<T>], dst: &mut [T])
    requires
        old(dst)@.len() == src@.len(),
        forall|i: int| 0 <= i < src@.len() ==> (#[trigger] src@[i])@ is Some,
    ensures
        final(dst)@ == values(contents(src@)),
{
    let n: usize = src.len();
    let mut i: usize = 0;
    while i < n
        invariant
            i <= n,
            n == src@.len(),
            dst@.len() == n,
            forall|j: int| 0 <= j < src@.len() ==> (#[trigger] src@[j])@ is Some,
            forall|j: int| 0 <= j < i ==> Some(#[trigger] dst@[j]) == src@[j]@,
        decreases n - i,
    {
        dst[i] = src[i].inner_duplicate();
        i = i + 1;
    }
    proof {
        assert(dst@ =~= values(contents(src@)));
    }
}

/// `dst` holds a clone of each value of `src`, in order.
pub open spec fn clones_of<T: Clone>(dst: Seq<T>, src: Seq<T>) -> bool {
    &&& dst.len() == src.len()
    &&& forall|i: int| 0 <= i < src.len() ==> cloned(src[i], #[trigger] dst[i])
}

/// Clones the values of `src` into `dst`.
fn clone_out<T: Clone>(src: &[UnsafeSyncCell<T>], dst: &mut [T])
    requires
        old(dst)@.len() == src@.len(),
        forall|i: int| 0 <= i < src@.len() ==> (#[trigger] src@[i])@ is Some,
    ensures
        clones_of(final(dst)@, values(contents(src@))),
{
    let n: usize = src.len();
    let mut i: usize = 0;
    while i < n
        invariant
            i <= n,
            n == src@.len(),
            dst@.len() == n,
            forall|j: int| 0 <= j < src@.len() ==> (#[trigger] src@[j])@ is Some,
            forall|j: int| 0 <= j < i ==> cloned(src@[j]@->0, #[trigger] dst@[j]),
        decreases n - i,
    {
        dst[i] = src[i].inner_ref().clone();
        i = i + 1;
    }
}

impl<const W: bool> ConsIter<W> {
    /// The consumer's handle for `buf`, standing at the consumer's published
    /// position.
    pub fn new<B: MutRB>(buf: &B) -> (r: Self)
        requires
            buf@.in_bounds(),
        ensures
            r@ == (IterView { index: buf@.cons, cached_avail: 0 }),
    {
        ConsIter { index: buf.cons_index(), cached_avail: 0 }
    }

    /// Detaches the handle: its moves stay local until they are synchronised.
    pub fn detach(self) -> (r: Detached<Self>)
        ensures
            r@ == self@,
    {
        Detached::from_iter(self)
    }

    /// Resets the index of the handle: moves it to the position of the role ahead
    /// of it, skipping whatever was waiting to be read.
    pub fn reset_index<B: MutRB>(&mut self, buf: &mut B)
        requires
            old(buf)@.has_worker == W,
            iter_placed(old(buf)@, Role::Consumer, old(self)@),
        ensures
            final(self)@ == (IterView {
                index: old(buf)@.succ_of(Role::Consumer),
                cached_avail: 0,
            }),
            final(buf)@ == old(buf)@.with_index(
                Role::Consumer,
                old(buf)@.succ_of(Role::Consumer),
            ),
            iter_ok(final(buf)@, Role::Consumer, final(self)@),
            final(buf).frees_on_teardown() == old(buf).frees_on_teardown(),
    {
        let new_idx: usize = self.succ_index(buf);
        proof {
            let v = old(buf)@;
            v.lemma_publish(Role::Consumer, self@.index, v.avail_at(Role::Consumer, self@.index));
        }
        self.index = new_idx;
        self.cached_avail = 0;
        self.set_atomic_index(buf, new_idx);
    }

    /// Returns a reference to the next value, if there is one. The handle does not
    /// move: [`MRBIterator::advance`] has to be called when done with the data.
    pub fn peek_ref<'a, B: MutRB>(&mut self, buf: &'a B) -> (r: Option<&'a B::Item>)
        requires
            buf@.has_worker == W,
            iter_ok(buf@, Role::Consumer, old(self)@),
        ensures
            r is Some <==> 1 <= buf@.avail_at(Role::Consumer, old(self)@.index),
            r is Some ==> Some(*r.unwrap()) == buf@.slots[old(self)@.index],
            final(self)@.index == old(self)@.index,
            final(self)@.cached_avail == cache_checked(
                old(self)@.cached_avail,
                buf@.avail_at(Role::Consumer, old(self)@.index),
                1,
            ),
            iter_ok(buf@, Role::Consumer, final(self)@),
    {
        if self.check(buf, 1) {
            proof {
                buf@.lemma_reach_filled(Role::Consumer, self@.index, 1);
                assert(crate::model::ring_math::ring_add(self@.index, 0, buf@.len())
                    == self@.index);
            }
            Some(slot_at(buf, self.index).inner_ref())
        } else {
            None
        }
    }

    /// Returns the next `count` slots as a head and a tail, if that many are
    /// available. The handle does not move: [`MRBIterator::advance`] has to be
    /// called when done with the data.
    pub fn peek_slice<'a, B: MutRB>(&mut self, buf: &'a B, count: usize) -> (r: Option<
        NonMutableSlice<'a, B::Item>,
    >)
        requires
            buf@.has_worker == W,
            iter_ok(buf@, Role::Consumer, old(self)@),
        ensures
            r is Some <==> count <= buf@.avail_at(Role::Consumer, old(self)@.index),
            r is Some ==> r.unwrap().0@.len() == head_len(
                old(self)@.index,
                count as int,
                buf@.len(),
            ) && contents(r.unwrap().0@) + contents(r.unwrap().1@) == buf@.window(
                old(self)@.index,
                count as int,
            ),
            final(self)@.index == old(self)@.index,
            final(self)@.cached_avail == cache_checked(
                old(self)@.cached_avail,
                buf@.avail_at(Role::Consumer, old(self)@.index),
                count as int,
            ),
            iter_ok(buf@, Role::Consumer, final(self)@),
    {
        self.next_chunk(buf, count)
    }

    /// Returns all the slots that are available as a head and a tail; both are
    /// empty where nothing is available. The handle does not move.
    pub fn peek_available<'a, B: MutRB>(&mut self, buf: &'a B) -> (r: Option<
        NonMutableSlice<'a, B::Item>,
    >)
        requires
            buf@.has_worker == W,
            iter_placed(buf@, Role::Consumer, old(self)@),
        ensures
            r is Some,
            r.unwrap().0@.len() == head_len(
                old(self)@.index,
                buf@.avail_at(Role::Consumer, old(self)@.index),
                buf@.len(),
            ),
            contents(r.unwrap().0@) + contents(r.unwrap().1@) == buf@.window(
                old(self)@.index,
                buf@.avail_at(Role::Consumer, old(self)@.index),
            ),
            final(self)@ == (IterView {
                cached_avail: buf@.avail_at(Role::Consumer, old(self)@.index),
                ..old(self)@
            }),
    {
        let avail: usize = self.available(buf);
        self.peek_slice(buf, avail)
    }

    /// Tries to pop an element, moving it out of the buffer.
    ///
    /// The slot is left zeroed: the producer has to fill it with one of its
    /// `*_init` methods.
    pub fn pop_move<B: MutRB>(&mut self, buf: &mut B) -> (r: Option<B::Item>)
        requires
            old(buf)@.has_worker == W,
            iter_ok(old(buf)@, Role::Consumer, old(self)@),
            old(self)@.index == old(buf)@.cons,
        ensures
            r is Some <==> 1 <= old(buf)@.available(Role::Consumer),
            r is Some ==> r == Some(old(buf)@.front()) && final(buf)@ == old(buf)@.pop_move(),
            r is None ==> final(buf)@ == old(buf)@,
            final(self)@.index == final(buf)@.cons,
            final(self)@.cached_avail == cache_taken(
                old(self)@.cached_avail,
                old(buf)@.available(Role::Consumer),
                1,
            ),
            iter_ok(final(buf)@, Role::Consumer, final(self)@),
            final(buf).frees_on_teardown() == old(buf).frees_on_teardown(),
    {
        if self.check(buf, 1) {
            proof {
                let v = old(buf)@;
                v.lemma_reach_filled(Role::Consumer, self@.index, 1);
                assert(crate::model::ring_math::ring_add(self@.index, 0, v.len()) == self@.index);
                v.lemma_move_out();
            }
            let at: usize = self.index;
            self.advance(buf, 1);
            let ret = slot_at_mut(buf, at).take_inner();
            proof {
                assert(buf@ =~= old(buf)@.pop_move());
            }
            Some(ret)
        } else {
            None
        }
    }

    /// Tries to pop an element, handing out a copy of it. The slot keeps its value.
    pub fn pop<B: MutRB>(&mut self, buf: &mut B) -> (r: Option<B::Item>) where B::Item: Copy
        requires
            old(buf)@.has_worker == W,
            iter_ok(old(buf)@, Role::Consumer, old(self)@),
            old(self)@.index == old(buf)@.cons,
        ensures
            r is Some <==> 1 <= old(buf)@.available(Role::Consumer),
            r is Some ==> r == Some(old(buf)@.front()) && final(buf)@ == old(buf)@.pop(),
            r is None ==> final(buf)@ == old(buf)@,
            final(self)@.index == final(buf)@.cons,
            final(self)@.cached_avail == cache_taken(
                old(self)@.cached_avail,
                old(buf)@.available(Role::Consumer),
                1,
            ),
            iter_ok(final(buf)@, Role::Consumer, final(self)@),
            final(buf).frees_on_teardown() == old(buf).frees_on_teardown(),
    {
        if self.check(buf, 1) {
            proof {
                let v = old(buf)@;
                v.lemma_reach_filled(Role::Consumer, self@.index, 1);
                assert(crate::model::ring_math::ring_add(self@.index, 0, v.len()) == self@.index);
            }
            let ret = slot_at(buf, self.index).inner_duplicate();
            self.advance(buf, 1);
            Some(ret)
        } else {
            None
        }
    }

    /// Copies the next item into `dst` and steps over it, if there is one; does
    /// nothing and returns `None` otherwise.
    pub fn copy_item<B: MutRB>(&mut self, buf: &mut B, dst: &mut B::Item) -> (r: Option<
        (),
    >) where B::Item: Copy
        requires
            old(buf)@.has_worker == W,
            iter_ok(old(buf)@, Role::Consumer, old(self)@),
            old(self)@.index == old(buf)@.cons,
        ensures
            r is Some <==> 1 <= old(buf)@.available(Role::Consumer),
            r is Some ==> *final(dst) == old(buf)@.front() && final(buf)@ == old(buf)@.pop(),
            r is None ==> *final(dst) == *old(dst) && final(buf)@ == old(buf)@,
            final(self)@.index == final(buf)@.cons,
            final(self)@.cached_avail == cache_taken(
                old(self)@.cached_avail,
                old(buf)@.available(Role::Consumer),
                1,
            ),
            iter_ok(final(buf)@, Role::Consumer, final(self)@),
            final(buf).frees_on_teardown() == old(buf).frees_on_teardown(),
    {
        let found: bool = match self.peek_ref(buf) {
            Some(v) => {
                *dst = *v;
                true
            },
            None => false,
        };
        if found {
            self.advance(buf, 1);
            Some(())
        } else {
            None
        }
    }

    /// Same as [`Self::copy_item`], but clones the item.
    pub fn clone_item<B: MutRB>(&mut self, buf: &mut B, dst: &mut B::Item) -> (r: Option<
        (),
    >) where B::Item: Clone
        requires
            old(buf)@.has_worker == W,
            iter_ok(old(buf)@, Role::Consumer, old(self)@),
            old(self)@.index == old(buf)@.cons,
        ensures
            r is Some <==> 1 <= old(buf)@.available(Role::Consumer),
            r is Some ==> cloned(old(buf)@.front(), *final(dst)) && final(buf)@ == old(
                buf,
            )@.pop(),
            r is None ==> *final(dst) == *old(dst) && final(buf)@ == old(buf)@,
            final(self)@.index == final(buf)@.cons,
            final(self)@.cached_avail == cache_taken(
                old(self)@.cached_avail,
                old(buf)@.available(Role::Consumer),
                1,
            ),
            iter_ok(final(buf)@, Role::Consumer, final(self)@),
            final(buf).frees_on_teardown() == old(buf).frees_on_teardown(),
    {
        let found: bool = match self.peek_ref(buf) {
            Some(v) => {
                *dst = v.clone();
                true
            },
            None => false,
        };
        if found {
            self.advance(buf, 1);
            Some(())
        } else {
            None
        }
    }

    /// Fills `dst` with copies of the next `dst.len()` items and steps over them, if
    /// that many are available; does nothing and returns `None` otherwise.
    pub fn copy_slice<B: MutRB>(&mut self, buf: &mut B, dst: &mut [B::Item]) -> (r: Option<
        (),
    >) where B::Item: Copy
        requires
            old(buf)@.has_worker == W,
            iter_ok(old(buf)@, Role::Consumer, old(self)@),
            old(self)@.index == old(buf)@.cons,
        ensures
            r is Some <==> old(dst)@.len() <= old(buf)@.available(Role::Consumer),
            r is Some ==> final(dst)@ == values(
                old(buf)@.window(old(buf)@.cons, old(dst)@.len() as int),
            ) && final(buf)@ == old(buf)@.advance(Role::Consumer, old(dst)@.len() as int),
            r is None ==> final(dst)@ == old(dst)@ && final(buf)@ == old(buf)@,
            final(self)@.index == final(buf)@.cons,
            final(self)@.cached_avail == cache_taken(
                old(self)@.cached_avail,
                old(buf)@.available(Role::Consumer),
                old(dst)@.len() as int,
            ),
            iter_ok(final(buf)@, Role::Consumer, final(self)@),
            final(buf).frees_on_teardown() == old(buf).frees_on_teardown(),
    {
        let count: usize = dst.len();
        let found: bool = match self.next_chunk(buf, count) {
            Some((h, t)) => {
                let mid: usize = h.len();
                proof {
                    let v = old(buf)@;
                    let w = v.window(v.cons, count as int);
                    assert(w.len() == count);
                    assert((contents(h@) + contents(t@)).len() == h@.len() + t@.len());
                    v.lemma_reach_filled(Role::Consumer, v.cons, count as int);
                    assert forall|j: int| 0 <= j < h@.len() implies (#[trigger] h@[j])@ is Some by {
                        assert(contents(h@)[j] == w[j]);
                    }
                    assert forall|j: int| 0 <= j < t@.len() implies (#[trigger] t@[j])@ is Some by {
                        assert(contents(t@)[j] == w[j + h@.len()]);
                    }
                }
                let (first, rest) = dst.split_at_mut(mid);
                copy_out(h, first);
                copy_out(t, rest);
                proof {
                    let v = old(buf)@;
                    let w = v.window(v.cons, count as int);
                    assert(values(w) =~= values(contents(h@)) + values(contents(t@)));
                }
                true
            },
            None => false,
        };
        if found {
            self.advance(buf, count);
            Some(())
        } else {
            None
        }
    }

    /// Same as [`Self::copy_slice`], but clones the items.
    pub fn clone_slice<B: MutRB>(&mut self, buf: &mut B, dst: &mut [B::Item]) -> (r: Option<
        (),
    >) where B::Item: Clone
        requires
            old(buf)@.has_worker == W,
            iter_ok(old(buf)@, Role::Consumer, old(self)@),
            old(self)@.index == old(buf)@.cons,
        ensures
            r is Some <==> old(dst)@.len() <= old(buf)@.available(Role::Consumer),
            r is Some ==> clones_of(
                final(dst)@,
                values(old(buf)@.window(old(buf)@.cons, old(dst)@.len() as int)),
            ) && final(buf)@ == old(buf)@.advance(Role::Consumer, old(dst)@.len() as int),
            r is None ==> final(dst)@ == old(dst)@ && final(buf)@ == old(buf)@,
            final(self)@.index == final(buf)@.cons,
            final(self)@.cached_avail == cache_taken(
                old(self)@.cached_avail,
                old(buf)@.available(Role::Consumer),
                old(dst)@.len() as int,
            ),
            iter_ok(final(buf)@, Role::Consumer, final(self)@),
            final(buf).frees_on_teardown() == old(buf).frees_on_teardown(),
    {
        let count: usize = dst.len();
        let found: bool = match self.next_chunk(buf, count) {
            Some((h, t)) => {
                let mid: usize = h.len();
                proof {
                    let v = old(buf)@;
                    let w = v.window(v.cons, count as int);
                    assert(w.len() == count);
                    assert((contents(h@) + contents(t@)).len() == h@.len() + t@.len());
                    v.lemma_reach_filled(Role::Consumer, v.cons, count as int);
                    assert forall|j: int| 0 <= j < h@.len() implies (#[trigger] h@[j])@ is Some by {
                        assert(contents(h@)[j] == w[j]);
                    }
                    assert forall|j: int| 0 <= j < t@.len() implies (#[trigger] t@[j])@ is Some by {
                        assert(contents(t@)[j] == w[j + h@.len()]);
                    }
                }
                let (first, rest) = dst.split_at_mut(mid);
                clone_out(h, first);
                clone_out(t, rest);
                proof {
                    let v = old(buf)@;
                    let w = v.window(v.cons, count as int);
                    assert(values(w) =~= values(contents(h@)) + values(contents(t@)));
                    assert(dst@ =~= first@ + rest@);
                    assert forall|j: int| 0 <= j < count implies cloned(
                        values(w)[j],
                        #[trigger] dst@[j],
                    ) by {
                        if j < mid {
                            assert(dst@[j] == first@[j]);
                        } else {
                            assert(dst@[j] == rest@[j - mid]);
                        }
                    }
                }
                true
            },
            None => false,
        };
        if found {
            self.advance(buf, count);
            Some(())
        } else {
            None
        }
    }
}

} // verus!
