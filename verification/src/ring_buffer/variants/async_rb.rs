//! The buffer for use with futures: a buffer and one waker slot for each role.

use vstd::prelude::*;
use crate::iterators::async_iterators::async_trait::AsyncIterator;
use crate::iterators::async_iterators::cons_iter::AsyncConsIter;
use crate::iterators::async_iterators::prod_iter::AsyncProdIter;
use crate::iterators::async_iterators::work_iter::AsyncWorkIter;
use crate::iterators::iterator_trait::iter_ok;
use crate::iterators::sync_iterators::cons_iter::ConsIter;
use crate::iterators::sync_iterators::prod_iter::ProdIter;
use crate::iterators::sync_iterators::work_iter::WorkIter;
use crate::model::ring_view::{RingView, Role};
use crate::ring_buffer::storage::Storage;
use crate::ring_buffer::variants::local_rb::LocalMutRingBuf;
use crate::ring_buffer::variants::ring_buffer_trait::{IterManager, MutRB};
use crate::ring_buffer::wrappers::buf_ref::BufRef;
use crossbeam_utils::CachePadded;
use futures::task::AtomicWaker;
use std::ops::Deref;
use std::task::Waker;

verus! {

/// `std::task::Waker`, the handle by which a task is woken. Nothing is said of what
/// is inside.
#[verifier::external_type_specification]
#[verifier::external_body]
pub struct ExWaker(Waker);

/// `futures::task::AtomicWaker`, a slot for one waker that may be filled and emptied
/// from different threads. Nothing is said of what is inside.
#[verifier::external_type_specification]
#[verifier::external_body]
pub struct ExAtomicWaker(AtomicWaker);

/// `crossbeam_utils::CachePadded`, which keeps a value on cache lines of its own.
/// Nothing is said of what is inside.
#[verifier::external_type_specification]
#[verifier::external_body]
#[verifier::reject_recursive_types(T)]
pub struct ExCachePadded<T>(CachePadded<T>);

/// `CachePadded::new` wraps a value. The contract claims nothing of the result.
pub assume_specification<T>[ CachePadded::<T>::new ](t: T) -> (r: CachePadded<T>);

/// `CachePadded::deref` gives access to the wrapped value. The contract claims
/// nothing of the result.
pub assume_specification<T>[ <CachePadded<T> as Deref>::deref ](p: &CachePadded<T>) -> (r: &T);

/// `AtomicWaker::new` makes an empty slot. The contract claims nothing of the
/// result.
pub assume_specification[ AtomicWaker::new ]() -> (r: AtomicWaker);

/// `AtomicWaker::register` puts a clone of `waker` into the slot, in place of what
/// was there. It returns nothing, and the contract claims nothing.
pub assume_specification[ AtomicWaker::register ](slot: &AtomicWaker, waker: &Waker);

/// `AtomicWaker::take` empties the slot and returns the waker that was in it, if
/// any. What it finds depends on what other threads did: the contract claims
/// nothing of the result.
pub assume_specification[ AtomicWaker::take ](slot: &AtomicWaker) -> (r: Option<Waker>);

/// `AtomicWaker::wake` empties the slot and wakes the waker that was in it, if any.
/// It returns nothing, and the contract claims nothing.
pub assume_specification[ AtomicWaker::wake ](slot: &AtomicWaker);

/// A buffer that keeps a waker for each role.
pub trait WakerManager: MutRB {
    /// Registers `waker` as the one to wake when `role` can go on.
    fn register_waker(&self, role: Role, waker: &Waker)
        requires
            self@.in_bounds(),
    ;

    /// Takes the waker of `role` out of its slot, if there is one.
    fn take_waker(&self, role: Role) -> (r: Option<Waker>)
        requires
            self@.in_bounds(),
    ;

    /// Wakes `role`, if it has registered a waker.
    fn wake_role(&self, role: Role)
        requires
            self@.in_bounds(),
    ;
}

/// Mutable ring buffer for asynchronous use: a buffer, and for each role a slot
/// for the waker of the task that waits in that role.
pub struct AsyncMutRingBuf<S: Storage> {
    ring: LocalMutRingBuf<S>,
    prod_waker: CachePadded<AtomicWaker>,
    work_waker: CachePadded<AtomicWaker>,
    cons_waker: CachePadded<AtomicWaker>,
}

impl<S: Storage> AsyncMutRingBuf<S> {
    /// A buffer over `value` with all positions at 0, no handles and no wakers.
    pub fn _from(value: S) -> (r: Self)
        requires
            value.slots().len() > 0,
        ensures
            r@ == RingView::fresh(crate::ring_buffer::wrappers::unsafe_sync_cell::contents(
                value.slots(),
            )),
            r@.wf(),
            !r.frees_on_teardown(),
    {
        AsyncMutRingBuf {
            ring: LocalMutRingBuf::_from(value),
            prod_waker: CachePadded::new(AtomicWaker::new()),
            work_waker: CachePadded::new(AtomicWaker::new()),
            cons_waker: CachePadded::new(AtomicWaker::new()),
        }
    }

    /// Consumes the buffer, yielding its holder and two handles for use in futures:
    /// a producer and a consumer that follows it.
    pub fn split(self) -> (r: (BufRef<Self>, AsyncProdIter, AsyncConsIter<false>))
        requires
            self@.wf(),
            self@.alive_iters == 0,
        ensures
            r.0@ == self@.with_handles(false),
            r.0.frees_on_teardown(),
            iter_ok(r.0@, Role::Producer, r.1@),
            iter_ok(r.0@, Role::Consumer, r.2@),
            r.1@.index == r.0@.prod && r.1@.cached_avail == 0,
            r.2@.index == r.0@.cons && r.2@.cached_avail == 0,
    {
        let mut buf = self;
        proof {
            buf@.lemma_with_handles(false);
        }
        buf.set_alive_iters(2);
        let shared = BufRef::new(buf);
        let prod = AsyncProdIter::from_sync(ProdIter::new(&shared));
        let cons = AsyncConsIter::from_sync(ConsIter::new(&shared));
        (shared, prod, cons)
    }

    /// Consumes the buffer, yielding its holder and three handles for use in
    /// futures: a producer, a worker that follows it and a consumer that follows the
    /// worker.
    pub fn split_mut(self) -> (r: (BufRef<Self>, AsyncProdIter, AsyncWorkIter, AsyncConsIter<true>))
        requires
            self@.wf(),
            self@.alive_iters == 0,
            self@.ordered(),
        ensures
            r.0@ == self@.with_handles(true),
            r.0.frees_on_teardown(),
            iter_ok(r.0@, Role::Producer, r.1@),
            iter_ok(r.0@, Role::Worker, r.2@),
            iter_ok(r.0@, Role::Consumer, r.3@),
            r.1@.index == r.0@.prod && r.1@.cached_avail == 0,
            r.2@.index == r.0@.work && r.2@.cached_avail == 0,
            r.3@.index == r.0@.cons && r.3@.cached_avail == 0,
    {
        let mut buf = self;
        proof {
            buf@.lemma_with_handles(true);
        }
        buf.set_alive_iters(3);
        let shared = BufRef::new(buf);
        let prod = AsyncProdIter::from_sync(ProdIter::new(&shared));
        let work = AsyncWorkIter::from_sync(WorkIter::new(&shared));
        let cons = AsyncConsIter::from_sync(ConsIter::new(&shared));
        (shared, prod, work, cons)
    }

    /// The waker slot of `role`.
    fn slot(&self, role: Role) -> (r: &CachePadded<AtomicWaker>)
        ensures
            *r == self.waker_slot(role),
    {
        match role {
            Role::Producer => &self.prod_waker,
            Role::Worker => &self.work_waker,
            Role::Consumer => &self.cons_waker,
        }
    }

    /// The slot that keeps the waker of the task that waits in `role`: each role has
    /// a slot of its own.
    pub closed spec fn waker_slot(&self, role: Role) -> CachePadded<AtomicWaker> {
        match role {
            Role::Producer => self.prod_waker,
            Role::Worker => self.work_waker,
            Role::Consumer => self.cons_waker,
        }
    }
}

impl<S: Storage> IterManager for AsyncMutRingBuf<S> {
    type Item = S::Item;

    closed spec fn view(&self) -> RingView<S::Item> {
        self.ring@
    }

    closed spec fn frees_on_teardown(&self) -> bool {
        self.ring.frees_on_teardown()
    }

    fn prod_index(&self) -> (r: usize) {
        self.ring.prod_index()
    }

    fn work_index(&self) -> (r: usize) {
        self.ring.work_index()
    }

    fn cons_index(&self) -> (r: usize) {
        self.ring.cons_index()
    }

    fn set_prod_index(&mut self, index: usize) {
        self.ring.set_prod_index(index);
    }

    fn set_work_index(&mut self, index: usize) {
        self.ring.set_work_index(index);
    }

    fn set_cons_index(&mut self, index: usize) {
        self.ring.set_cons_index(index);
    }

    fn alive_iters(&self) -> (r: u8) {
        self.ring.alive_iters()
    }
}

impl<S: Storage> MutRB for AsyncMutRingBuf<S> {
    type S = S;

    fn inner(&self) -> (r: &S) {
        self.ring.inner()
    }

    fn inner_mut(&mut self) -> (r: &mut S) {
        self.ring.inner_mut()
    }

    fn inner_len(&self) -> (r: usize) {
        self.ring.inner_len()
    }

    fn has_worker(&self) -> (r: bool) {
        self.ring.has_worker()
    }

    fn is_alive(&self, role: Role) -> (r: bool) {
        self.ring.is_alive(role)
    }

    fn set_alive_iters(&mut self, count: u8) {
        self.ring.set_alive_iters(count);
    }

    fn acquire_fence(&self) {
        self.ring.acquire_fence();
    }

    fn drop_iter(&mut self, role: Role) -> (r: u8) {
        self.ring.drop_iter(role)
    }
}

impl<S: Storage> WakerManager for AsyncMutRingBuf<S> {
    fn register_waker(&self, role: Role, waker: &Waker) {
        self.slot(role).deref().register(waker);
    }

    fn take_waker(&self, role: Role) -> (r: Option<Waker>) {
        self.slot(role).deref().take()
    }

    fn wake_role(&self, role: Role) {
        self.slot(role).deref().wake();
    }
}

impl<B: WakerManager> WakerManager for BufRef<B> {
    fn register_waker(&self, role: Role, waker: &Waker) {
        self.get().register_waker(role, waker);
    }

    fn take_waker(&self, role: Role) -> (r: Option<Waker>) {
        self.get().take_waker(role)
    }

    fn wake_role(&self, role: Role) {
        self.get().wake_role(role);
    }
}

} // verus!
