//! Storage on the heap.

use vstd::prelude::*;
use crate::model::ring_view::RingView;
use crate::ring_buffer::storage::Storage;
use crate::ring_buffer::variants::async_rb::AsyncMutRingBuf;
use crate::ring_buffer::variants::local_rb::LocalMutRingBuf;
use crate::ring_buffer::variants::ring_buffer_trait::IterManager;
use crate::ring_buffer::variants::split::HeapSplit;
use crate::ring_buffer::wrappers::unsafe_sync_cell::{UnsafeSyncCell, contents};

verus! {

/// Heap-allocated storage.
pub struct HeapStorage<T> {
    inner: Vec<UnsafeSyncCell<T>>,
}

impl<T> Storage for HeapStorage<T> {
    type Item = T;

    closed spec fn slots(&self) -> Seq<UnsafeSyncCell<T>> {
        self.inner@
    }

    fn len(&self) -> (r: usize) {
        self.inner.len()
    }

    fn as_slice(&self) -> (r: &[UnsafeSyncCell<T>]) {
        self.inner.as_slice()
    }

    fn as_mut_slice(&mut self) -> (r: &mut [UnsafeSyncCell<T>]) {
        self.inner.as_mut_slice()
    }
}

impl<T> HeapStorage<T> {
    /// Storage made of the given slots.
    pub fn new(value: Vec<UnsafeSyncCell<T>>) -> (r: Self)
        ensures
            r.slots() == value@,
    {
        HeapStorage { inner: value }
    }

    /// Storage of `capacity` zeroed slots.
    pub fn new_zeroed(capacity: usize) -> (r: Self)
        ensures
            contents(r.slots()) == Seq::new(capacity as nat, |i: int| None::<T>),
            r.slots().len() == capacity,
    {
        let mut cells: Vec<UnsafeSyncCell<T>> = Vec::with_capacity(capacity);
        let mut i: usize = 0;
        while i < capacity
            invariant
                i <= capacity,
                cells@.len() == i,
                forall|j: int| 0 <= j < i ==> (#[trigger] cells@[j])@ == None::<T>,
            decreases capacity - i,
        {
            cells.push(UnsafeSyncCell::new_zeroed());
            i = i + 1;
        }
        proof {
            assert(contents(cells@) =~= Seq::new(capacity as nat, |i: int| None::<T>));
        }
        HeapStorage { inner: cells }
    }
}

impl<T> HeapStorage<T> {
    /// Storage whose slots hold the elements of `value`, in order.
    pub fn from(value: Vec<T>) -> (r: Self)
        ensures
            contents(r.slots()) == value@.map_values(|v: T| Some(v)),
            r.slots().len() == value@.len(),
    {
        let ghost src = value@;
        let mut cells: Vec<UnsafeSyncCell<T>> = Vec::with_capacity(value.len());
        for v in it: value
            invariant
                it.seq() == src,
                cells@.len() == it.index(),
                forall|j: int| 0 <= j < cells@.len() ==> (#[trigger] cells@[j])@ == Some(src[j]),
        {
            cells.push(UnsafeSyncCell::new(v));
        }
        proof {
            assert(contents(cells@) =~= src.map_values(|v: T| Some(v)));
        }
        HeapStorage { inner: cells }
    }
}

/// A heap-allocated ring buffer usable in a local environment.
pub type LocalHeapRB<T> = LocalMutRingBuf<HeapStorage<T>>;

impl<T> HeapSplit for LocalMutRingBuf<HeapStorage<T>> {

}

/// Number of slots that a buffer asked to hold `capacity` slots is given.
pub fn get_range_max(capacity: usize) -> (r: usize)
    ensures
        r == capacity,
{
    capacity
}

impl<T> LocalMutRingBuf<HeapStorage<T>> {
    /// Converts a `Vec<T>` into a buffer whose slots hold its elements. The length of
    /// the buffer is the length of the vector, which holds one element at least.
    pub fn from(value: Vec<T>) -> (r: Self)
        requires
            value@.len() > 0,
        ensures
            r@ == RingView::fresh(value@.map_values(|v: T| Some(v))),
            r@.wf(),
            !r.frees_on_teardown(),
    {
        LocalMutRingBuf::_from(HeapStorage::from(value))
    }

    /// Creates a buffer of `capacity` zeroed slots, `capacity` being 1 at least. The
    /// producer has to fill them with its `*_init` methods.
    pub fn new_zeroed(capacity: usize) -> (r: Self)
        requires
            capacity > 0,
        ensures
            r@ == RingView::fresh(Seq::new(capacity as nat, |i: int| None::<T>)),
            r@.wf(),
            !r.frees_on_teardown(),
    {
        LocalMutRingBuf::_from(HeapStorage::new_zeroed(get_range_max(capacity)))
    }

    /// Creates a buffer of `capacity` slots, `capacity` being 1 at least, each of
    /// which holds a clone of the default value of `T`.
    pub fn default(capacity: usize) -> (r: Self) where T: Default + Clone
        requires
            capacity > 0,
        ensures
            r@ == RingView::fresh(r@.slots),
            r@.len() == capacity,
            exists|d: T|
                call_ensures(T::default, (), d) && forall|i: int|
                    0 <= i < capacity ==> (#[trigger] r@.slots[i]) is Some && cloned(
                        d,
                        r@.slots[i]->0,
                    ),
            r@.wf(),
            !r.frees_on_teardown(),
    {
        let d = T::default();
        let v = vec![d; get_range_max(capacity)];
        let r = LocalMutRingBuf::_from(HeapStorage::from(v));
        proof {
            assert forall|i: int| 0 <= i < capacity implies (#[trigger] r@.slots[i]) is Some
                && cloned(d, r@.slots[i]->0) by {
                assert(r@.slots[i] == Some(v@[i]));
            }
        }
        r
    }
}

/// A heap-allocated ring buffer for use with futures.
pub type AsyncHeapRB<T> = AsyncMutRingBuf<HeapStorage<T>>;

impl<T> AsyncMutRingBuf<HeapStorage<T>> {
    /// Converts a `Vec<T>` into a buffer whose slots hold its elements. The length of
    /// the buffer is the length of the vector, which holds one element at least.
    pub fn from(value: Vec<T>) -> (r: Self)
        requires
            value@.len() > 0,
        ensures
            r@ == RingView::fresh(value@.map_values(|v: T| Some(v))),
            r@.wf(),
            !r.frees_on_teardown(),
    {
        AsyncMutRingBuf::_from(HeapStorage::from(value))
    }

    /// Creates a buffer of `capacity` zeroed slots, `capacity` being 1 at least. The
    /// producer has to fill them with its `*_init` methods.
    pub fn new_zeroed(capacity: usize) -> (r: Self)
        requires
            capacity > 0,
        ensures
            r@ == RingView::fresh(Seq::new(capacity as nat, |i: int| None::<T>)),
            r@.wf(),
            !r.frees_on_teardown(),
    {
        AsyncMutRingBuf::_from(HeapStorage::new_zeroed(get_range_max(capacity)))
    }

    /// Creates a buffer of `capacity` slots, `capacity` being 1 at least, each of
    /// which holds a clone of the default value of `T`.
    pub fn default(capacity: usize) -> (r: Self) where T: Default + Clone
        requires
            capacity > 0,
        ensures
            r@ == RingView::fresh(r@.slots),
            r@.len() == capacity,
            exists|d: T|
                call_ensures(T::default, (), d) && forall|i: int|
                    0 <= i < capacity ==> (#[trigger] r@.slots[i]) is Some && cloned(
                        d,
                        r@.slots[i]->0,
                    ),
            r@.wf(),
            !r.frees_on_teardown(),
    {
        let d = T::default();
        let v = vec![d; get_range_max(capacity)];
        let r = AsyncMutRingBuf::_from(HeapStorage::from(v));
        proof {
            assert forall|i: int| 0 <= i < capacity implies (#[trigger] r@.slots[i]) is Some
                && cloned(d, r@.slots[i]->0) by {
                assert(r@.slots[i] == Some(v@[i]));
            }
        }
        r
    }
}


} // verus!
