//! Storage of a length fixed at compile time.

use vstd::prelude::*;
use crate::model::ring_view::RingView;
use crate::ring_buffer::storage::Storage;
use crate::ring_buffer::variants::async_rb::AsyncMutRingBuf;
use crate::ring_buffer::variants::local_rb::LocalMutRingBuf;
use crate::ring_buffer::variants::ring_buffer_trait::IterManager;
use crate::ring_buffer::variants::split::StackSplit;
use crate::ring_buffer::wrappers::unsafe_sync_cell::{UnsafeSyncCell, contents};

verus! {

/// Stack-allocated storage.
pub struct StackStorage<T, const N: usize> {
    inner: [UnsafeSyncCell<T>; N],
}

impl<T, const N: usize> Storage for StackStorage<T, N> {
    type Item = T;

    closed spec fn slots(&self) -> Seq<UnsafeSyncCell<T>> {
        self.inner@
    }

    fn len(&self) -> (r: usize) {
        N
    }

    fn as_slice(&self) -> (r: &[UnsafeSyncCell<T>]) {
        self.inner.as_slice()
    }

    fn as_mut_slice(&mut self) -> (r: &mut [UnsafeSyncCell<T>]) {
        &mut self.inner
    }
}

/// Calls `<[T; N]>::map` of std, which builds a new array by applying a function to
/// each element in order: here each element is put into a slot of its own.
#[verifier::external_body]
fn cells_of<T, const N: usize>(value: [T; N]) -> (r: [UnsafeSyncCell<T>; N])
    ensures
        contents(r@) == value@.map_values(|v: T| Some(v)),
{
    value.map(UnsafeSyncCell::new)
}

/// Calls `std::array::from_fn`, which builds an array by calling a function once
/// for each index: here each call makes a zeroed slot.
#[verifier::external_body]
fn zeroed_cells<T, const N: usize>() -> (r: [UnsafeSyncCell<T>; N])
    ensures
        contents(r@) == Seq::new(N as nat, |i: int| None::<T>),
{
    std::array::from_fn(|_| UnsafeSyncCell::new_zeroed())
}

impl<T, const N: usize> StackStorage<T, N> {
    /// Storage made of the given slots.
    pub fn new(value: [UnsafeSyncCell<T>; N]) -> (r: Self)
        ensures
            r.slots() == value@,
    {
        StackStorage { inner: value }
    }

    /// Storage whose slots hold the elements of `value`, in order.
    pub fn from(value: [T; N]) -> (r: Self)
        ensures
            contents(r.slots()) == value@.map_values(|v: T| Some(v)),
            r.slots().len() == N,
    {
        StackStorage { inner: cells_of(value) }
    }

    /// Storage of `N` zeroed slots.
    pub fn new_zeroed() -> (r: Self)
        ensures
            contents(r.slots()) == Seq::new(N as nat, |i: int| None::<T>),
            r.slots().len() == N,
    {
        StackStorage { inner: zeroed_cells() }
    }
}

/// A stack-allocated ring buffer usable in a local environment.
pub type LocalStackRB<T, const N: usize> = LocalMutRingBuf<StackStorage<T, N>>;

impl<T, const N: usize> StackSplit for LocalMutRingBuf<StackStorage<T, N>> {

}

impl<T, const N: usize> LocalMutRingBuf<StackStorage<T, N>> {
    /// Converts an array into a buffer whose slots hold its elements. `N` is 1 at
    /// least.
    pub fn from(value: [T; N]) -> (r: Self)
        requires
            N > 0,
        ensures
            r@ == RingView::fresh(value@.map_values(|v: T| Some(v))),
            r@.wf(),
            !r.frees_on_teardown(),
    {
        LocalMutRingBuf::_from(StackStorage::from(value))
    }

    /// Creates a buffer of `N` zeroed slots, `N` being 1 at least. The producer has
    /// to fill them with its `*_init` methods.
    pub fn new_zeroed() -> (r: Self)
        requires
            N > 0,
        ensures
            r@ == RingView::fresh(Seq::new(N as nat, |i: int| None::<T>)),
            r@.wf(),
            !r.frees_on_teardown(),
    {
        LocalMutRingBuf::_from(StackStorage::new_zeroed())
    }

    /// Creates a buffer of `N` slots, `N` being 1 at least, each of which holds the
    /// default value of `T`.
    pub fn default() -> (r: Self) where T: Default + Copy
        requires
            N > 0,
        ensures
            r@ == RingView::fresh(r@.slots),
            r@.len() == N,
            exists|d: T|
                call_ensures(T::default, (), d) && forall|i: int|
                    0 <= i < N ==> (#[trigger] r@.slots[i]) == Some(d),
            r@.wf(),
            !r.frees_on_teardown(),
    {
        let d = T::default();
        let a: [T; N] = [d; N];
        let r = LocalMutRingBuf::_from(StackStorage::from(a));
        proof {
            assert forall|i: int| 0 <= i < N implies (#[trigger] r@.slots[i]) == Some(d) by {
                assert(r@.slots[i] == Some(a@[i]));
            }
        }
        r
    }
}

/// A stack-allocated ring buffer for use with futures.
pub type AsyncStackRB<T, const N: usize> = AsyncMutRingBuf<StackStorage<T, N>>;

impl<T, const N: usize> AsyncMutRingBuf<StackStorage<T, N>> {
    /// Converts an array into a buffer whose slots hold its elements. `N` is 1 at
    /// least.
    pub fn from(value: [T; N]) -> (r: Self)
        requires
            N > 0,
        ensures
            r@ == RingView::fresh(value@.map_values(|v: T| Some(v))),
            r@.wf(),
            !r.frees_on_teardown(),
    {
        AsyncMutRingBuf::_from(StackStorage::from(value))
    }

    /// Creates a buffer of `N` zeroed slots, `N` being 1 at least. The producer has
    /// to fill them with its `*_init` methods.
    pub fn new_zeroed() -> (r: Self)
        requires
            N > 0,
        ensures
            r@ == RingView::fresh(Seq::new(N as nat, |i: int| None::<T>)),
            r@.wf(),
            !r.frees_on_teardown(),
    {
        AsyncMutRingBuf::_from(StackStorage::new_zeroed())
    }

    /// Creates a buffer of `N` slots, `N` being 1 at least, each of which holds the
    /// default value of `T`.
    pub fn default() -> (r: Self) where T: Default + Copy
        requires
            N > 0,
        ensures
            r@ == RingView::fresh(r@.slots),
            r@.len() == N,
            exists|d: T|
                call_ensures(T::default, (), d) && forall|i: int|
                    0 <= i < N ==> (#[trigger] r@.slots[i]) == Some(d),
            r@.wf(),
            !r.frees_on_teardown(),
    {
        let d = T::default();
        let a: [T; N] = [d; N];
        let r = AsyncMutRingBuf::_from(StackStorage::from(a));
        proof {
            assert forall|i: int| 0 <= i < N implies (#[trigger] r@.slots[i]) == Some(d) by {
                assert(r@.slots[i] == Some(a@[i]));
            }
        }
        r
    }
}


} // verus!
