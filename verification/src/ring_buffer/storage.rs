//! Where the slots of a buffer live.

use vstd::prelude::*;
use crate::ring_buffer::wrappers::unsafe_sync_cell::UnsafeSyncCell;

pub mod heap;
pub mod stack;

verus! {

/// A fixed run of slots.
#[allow(clippy::len_without_is_empty)]
pub trait Storage {
    type Item;

    /// The slots, first to last.
    spec fn slots(&self) -> Seq<UnsafeSyncCell<Self::Item>>;

    /// Number of slots.
    fn len(&self) -> (r: usize)
        ensures
            r == self.slots().len(),
    ;

    /// The slots as one slice.
    fn as_slice(&self) -> (r: &[UnsafeSyncCell<Self::Item>])
        ensures
            r@ == self.slots(),
    ;

    /// The slots as one mutable slice. The storage holds whatever the caller leaves
    /// behind the reference.
    fn as_mut_slice(&mut self) -> (r: &mut [UnsafeSyncCell<Self::Item>])
        ensures
            r@ == old(self).slots(),
            final(r)@ == final(self).slots(),
    ;
}

/// Mutable access to element `i` of a slice. The slice holds whatever the caller
/// leaves behind the reference.
pub fn slot_mut<T>(s: &mut [T], i: usize) -> (r: &mut T)
    requires
        i < old(s)@.len(),
    ensures
        *r == old(s)@[i as int],
        final(s)@ =~= old(s)@.update(i as int, *final(r)),
{
    let (_, upper) = s.split_at_mut(i);
    upper.first_mut().unwrap()
}

} // verus!
