//! Splitting a buffer into its role handles.

use vstd::prelude::*;
use crate::iterators::iterator_trait::{iter_ok, MRBIterator};
use crate::iterators::sync_iterators::cons_iter::ConsIter;
use crate::iterators::sync_iterators::prod_iter::ProdIter;
use crate::iterators::sync_iterators::work_iter::WorkIter;
use crate::model::ring_view::Role;
use crate::ring_buffer::variants::ring_buffer_trait::{IterManager, MutRB};
use crate::ring_buffer::wrappers::buf_ref::BufRef;

verus! {

/// Trait needed to call `split` on a buffer that its handles are to own.
///
/// The buffer moves into a [`BufRef`], which every operation of the handles takes,
/// and is freed when the last handle is dropped.
pub trait HeapSplit: MutRB + Sized {
    /// Consumes the buffer, yielding its holder and two handles: a producer and a
    /// consumer that follows it.
    fn split(self) -> (r: (BufRef<Self>, ProdIter, ConsIter<false>))
        requires
            self@.wf(),
            self@.alive_iters == 0,
        ensures
            r.0@ == self@.with_handles(false),
            r.0.frees_on_teardown(),
            iter_ok(r.0@, Role::Producer, r.1@),
            iter_ok(r.0@, Role::Consumer, r.2@),
            r.1@.index == r.0@.prod && r.1@.cached_avail == 0,
            r.2@.index == r.0@.cons && r.2@.cached_avail == 0,
    {
        let mut buf = self;
        proof {
            buf@.lemma_with_handles(false);
        }
        buf.set_alive_iters(2);
        let shared = BufRef::new(buf);
        let prod = ProdIter::new(&shared);
        let cons = ConsIter::new(&shared);
        (shared, prod, cons)
    }

    /// Consumes the buffer, yielding its holder and three handles: a producer, a
    /// worker that follows it and a consumer that follows the worker.
    fn split_mut(self) -> (r: (BufRef<Self>, ProdIter, WorkIter, ConsIter<true>))
        requires
            self@.wf(),
            self@.alive_iters == 0,
            self@.ordered(),
        ensures
            r.0@ == self@.with_handles(true),
            r.0.frees_on_teardown(),
            iter_ok(r.0@, Role::Producer, r.1@),
            iter_ok(r.0@, Role::Worker, r.2@),
            iter_ok(r.0@, Role::Consumer, r.3@),
            r.1@.index == r.0@.prod && r.1@.cached_avail == 0,
            r.2@.index == r.0@.work && r.2@.cached_avail == 0,
            r.3@.index == r.0@.cons && r.3@.cached_avail == 0,
    {
        let mut buf = self;
        proof {
            buf@.lemma_with_handles(true);
        }
        buf.set_alive_iters(3);
        let shared = BufRef::new(buf);
        let prod = ProdIter::new(&shared);
        let work = WorkIter::new(&shared);
        let cons = ConsIter::new(&shared);
        (shared, prod, work, cons)
    }
}

/// Trait needed to call `split` on a buffer that stays with its user.
///
/// The handles do not hold the buffer: the user lends it to each of their
/// operations.
pub trait StackSplit: MutRB + Sized {
    /// Borrows the buffer, yielding two handles: a producer and a consumer that
    /// follows it.
    fn split(&mut self) -> (r: (ProdIter, ConsIter<false>))
        requires
            old(self)@.wf(),
            old(self)@.alive_iters == 0,
        ensures
            final(self)@ == old(self)@.with_handles(false),
            final(self).frees_on_teardown() == old(self).frees_on_teardown(),
            iter_ok(final(self)@, Role::Producer, r.0@),
            iter_ok(final(self)@, Role::Consumer, r.1@),
            r.0@.index == final(self)@.prod && r.0@.cached_avail == 0,
            r.1@.index == final(self)@.cons && r.1@.cached_avail == 0,
    {
        proof {
            self@.lemma_with_handles(false);
        }
        self.set_alive_iters(2);
        let prod = ProdIter::new(self);
        let cons = ConsIter::new(self);
        (prod, cons)
    }

    /// Borrows the buffer, yielding three handles: a producer, a worker that follows
    /// it and a consumer that follows the worker.
    fn split_mut(&mut self) -> (r: (ProdIter, WorkIter, ConsIter<true>))
        requires
            old(self)@.wf(),
            old(self)@.alive_iters == 0,
            old(self)@.ordered(),
        ensures
            final(self)@ == old(self)@.with_handles(true),
            final(self).frees_on_teardown() == old(self).frees_on_teardown(),
            iter_ok(final(self)@, Role::Producer, r.0@),
            iter_ok(final(self)@, Role::Worker, r.1@),
            iter_ok(final(self)@, Role::Consumer, r.2@),
            r.0@.index == final(self)@.prod && r.0@.cached_avail == 0,
            r.1@.index == final(self)@.work && r.1@.cached_avail == 0,
            r.2@.index == final(self)@.cons && r.2@.cached_avail == 0,
    {
        proof {
            self@.lemma_with_handles(true);
        }
        self.set_alive_iters(3);
        let prod = ProdIter::new(self);
        let work = WorkIter::new(self);
        let cons = ConsIter::new(self);
        (prod, work, cons)
    }
}

} // verus!
