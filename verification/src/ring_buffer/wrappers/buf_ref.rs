//! The handle through which the roles reach a buffer that they own together.

use vstd::prelude::*;
use crate::model::ring_view::{RingView, Role};
use crate::ring_buffer::variants::ring_buffer_trait::{IterManager, MutRB};

verus! {

/// Holds a buffer on behalf of its role handles.
///
/// A buffer that was moved in with [`BufRef::new`] is freed when the last role
/// handle is dropped; one that was moved in with [`BufRef::from_ref`] stays, and can
/// be taken back with [`BufRef::into_inner`]. Every operation of the role handles
/// that takes a buffer takes a `BufRef` as well.
pub struct BufRef<B: MutRB> {
    inner: Option<B>,
    needs_drop: bool,
}

impl<B: MutRB> BufRef<B> {
    /// Takes over `buf`, which will be freed with the last of its handles.
    pub fn new(buf: B) -> (r: Self)
        ensures
            r@ == buf@,
            r.frees_on_teardown(),
    {
        BufRef { inner: Some(buf), needs_drop: true }
    }

    /// Takes in `buf`, which outlives its handles unless it frees itself.
    pub fn from_ref(buf: B) -> (r: Self)
        ensures
            r@ == buf@,
            r.frees_on_teardown() == buf.frees_on_teardown(),
    {
        BufRef { inner: Some(buf), needs_drop: false }
    }

    /// Tells whether the buffer is still there: a buffer that has been freed has no
    /// slots left.
    pub fn live(&self) -> (r: bool)
        ensures
            r == (self@.len() > 0),
    {
        self.inner_len() > 0
    }

    /// The buffer, which is still there.
    pub fn get(&self) -> (r: &B)
        requires
            self@.in_bounds(),
        ensures
            r@ == self@,
    {
        self.inner.as_ref().unwrap()
    }

    /// Gives the buffer back, if it is still there.
    pub fn into_inner(self) -> (r: Option<B>)
        ensures
            self@.len() > 0 ==> r is Some,
            r is Some ==> r.unwrap()@ == self@,
            r is None ==> self@ == RingView::<B::Item>::torn_down(),
    {
        self.inner
    }

    /// Frees the buffer if this handle was made to do so.
    fn try_drop(&mut self)
        ensures
            final(self).needs_drop == old(self).needs_drop,
            final(self).inner == if old(self).needs_drop {
                None
            } else {
                old(self).inner
            },
    {
        if self.needs_drop {
            self.inner = None;
        }
    }
}

impl<B: MutRB> IterManager for BufRef<B> {
    type Item = B::Item;

    closed spec fn view(&self) -> RingView<B::Item> {
        match self.inner {
            Some(b) => b@,
            None => RingView::torn_down(),
        }
    }

    closed spec fn frees_on_teardown(&self) -> bool {
        self.needs_drop || (self.inner is Some && self.inner->0.frees_on_teardown())
    }

    fn prod_index(&self) -> (r: usize) {
        self.inner.as_ref().unwrap().prod_index()
    }

    fn work_index(&self) -> (r: usize) {
        self.inner.as_ref().unwrap().work_index()
    }

    fn cons_index(&self) -> (r: usize) {
        self.inner.as_ref().unwrap().cons_index()
    }

    fn set_prod_index(&mut self, index: usize) {
        self.inner.as_mut().unwrap().set_prod_index(index);
    }

    fn set_work_index(&mut self, index: usize) {
        self.inner.as_mut().unwrap().set_work_index(index);
    }

    fn set_cons_index(&mut self, index: usize) {
        self.inner.as_mut().unwrap().set_cons_index(index);
    }

    fn alive_iters(&self) -> (r: u8) {
        self.inner.as_ref().unwrap().alive_iters()
    }
}

impl<B: MutRB> MutRB for BufRef<B> {
    type S = B::S;

    fn inner(&self) -> (r: &B::S) {
        self.inner.as_ref().unwrap().inner()
    }

    fn inner_mut(&mut self) -> (r: &mut B::S) {
        self.inner.as_mut().unwrap().inner_mut()
    }

    fn inner_len(&self) -> (r: usize) {
        match &self.inner {
            Some(b) => b.inner_len(),
            None => 0,
        }
    }

    fn has_worker(&self) -> (r: bool) {
        self.inner.as_ref().unwrap().has_worker()
    }

    fn is_alive(&self, role: Role) -> (r: bool) {
        self.inner.as_ref().unwrap().is_alive(role)
    }

    fn set_alive_iters(&mut self, count: u8) {
        self.inner.as_mut().unwrap().set_alive_iters(count);
    }

    fn acquire_fence(&self) {
        match self.inner.as_ref() {
            Some(b) => b.acquire_fence(),
            None => {},
        }
    }

    fn drop_iter(&mut self, role: Role) -> (r: u8) {
        let prev: u8 = self.inner.as_mut().unwrap().drop_iter(role);
        if prev == 1 {
            self.acquire_fence();
            self.try_drop();
        }
        prev
    }
}

} // verus!
