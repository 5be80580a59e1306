//! The buffer for use within one thread.

use vstd::prelude::*;
use crate::model::ring_view::{RingView, Role};
use crate::ring_buffer::storage::Storage;
use crate::ring_buffer::variants::ring_buffer_trait::{IterManager, MutRB};
use crate::ring_buffer::wrappers::unsafe_sync_cell::contents;

verus! {

/// Local (non-concurrent) mutable ring buffer: storage, the three published
/// positions and the record of which handles exist.
pub struct LocalMutRingBuf<S: Storage> {
    inner: S,
    prod_idx: usize,
    work_idx: usize,
    cons_idx: usize,
    alive_iters: u8,
    prod_alive: bool,
    work_alive: bool,
    cons_alive: bool,
    has_worker: bool,
}

impl<S: Storage> LocalMutRingBuf<S> {
    /// A buffer over `value` with all positions at 0 and no handles.
    pub fn _from(value: S) -> (r: Self)
        requires
            value.slots().len() > 0,
        ensures
            r@ == RingView::fresh(contents(value.slots())),
            r@.wf(),
    {
        let _len: usize = value.len();
        LocalMutRingBuf {
            inner: value,
            prod_idx: 0,
            work_idx: 0,
            cons_idx: 0,
            alive_iters: 0,
            prod_alive: false,
            work_alive: false,
            cons_alive: false,
            has_worker: false,
        }
    }
}

impl<S: Storage> IterManager for LocalMutRingBuf<S> {
    type Item = S::Item;

    closed spec fn view(&self) -> RingView<S::Item> {
        RingView {
            slots: contents(self.inner.slots()),
            prod: self.prod_idx as int,
            work: self.work_idx as int,
            cons: self.cons_idx as int,
            has_worker: self.has_worker,
            alive_iters: self.alive_iters as int,
            prod_alive: self.prod_alive,
            work_alive: self.work_alive,
            cons_alive: self.cons_alive,
        }
    }

    /// A buffer that its user holds outlives its handles.
    open spec fn frees_on_teardown(&self) -> bool {
        false
    }

    fn prod_index(&self) -> (r: usize) {
        self.prod_idx
    }

    fn work_index(&self) -> (r: usize) {
        self.work_idx
    }

    fn cons_index(&self) -> (r: usize) {
        self.cons_idx
    }

    fn set_prod_index(&mut self, index: usize) {
        self.prod_idx = index;
    }

    fn set_work_index(&mut self, index: usize) {
        self.work_idx = index;
    }

    fn set_cons_index(&mut self, index: usize) {
        self.cons_idx = index;
    }

    fn alive_iters(&self) -> (r: u8) {
        self.alive_iters
    }
}

impl<S: Storage> MutRB for LocalMutRingBuf<S> {
    type S = S;

    fn inner(&self) -> (r: &S) {
        &self.inner
    }

    fn inner_mut(&mut self) -> (r: &mut S) {
        &mut self.inner
    }

    fn inner_len(&self) -> (r: usize) {
        self.inner.len()
    }

    fn has_worker(&self) -> (r: bool) {
        self.has_worker
    }

    fn is_alive(&self, role: Role) -> (r: bool) {
        match role {
            Role::Producer => self.prod_alive,
            Role::Worker => self.work_alive,
            Role::Consumer => self.cons_alive,
        }
    }

    fn set_alive_iters(&mut self, count: u8) {
        self.alive_iters = count;
        self.prod_alive = true;
        self.work_alive = count == 3;
        self.cons_alive = true;
        self.has_worker = count == 3;
    }

    fn acquire_fence(&self) {
    }

    fn drop_iter(&mut self, role: Role) -> (r: u8) {
        let prev: u8 = self.alive_iters;
        self.alive_iters = prev - 1;
        match role {
            Role::Producer => {
                self.prod_alive = false;
            },
            Role::Worker => {
                self.work_alive = false;
            },
            Role::Consumer => {
                self.cons_alive = false;
            },
        }
        prev
    }
}

} // verus!
