//! One slot of a ring buffer.

use vstd::prelude::*;

verus! {

/// A slot of the storage: either it holds a value, or it is *zeroed*, which is the
/// state of a slot that was never written or whose value was moved out.
///
/// The view of a slot is `Some(value)` or `None`.
#[derive(Clone, Debug)]
pub struct UnsafeSyncCell<T> {
    value: Option<T>,
}

impl<T> View for UnsafeSyncCell<T> {
    type V = Option<T>;

    closed spec fn view(&self) -> Option<T> {
        self.value
    }
}

/// What a run of slots holds, slot by slot.
pub open spec fn contents<T>(cells: Seq<UnsafeSyncCell<T>>) -> Seq<Option<T>> {
    Seq::new(cells.len(), |i: int| cells[i]@)
}

impl<T> UnsafeSyncCell<T> {
    /// A slot that holds `value`.
    pub fn new(value: T) -> (r: Self)
        ensures
            r@ == Some(value),
    {
        UnsafeSyncCell { value: Some(value) }
    }

    /// A zeroed slot.
    pub fn new_zeroed() -> (r: Self)
        ensures
            r@ == None::<T>,
    {
        UnsafeSyncCell { value: None }
    }

    /// Tells whether the slot is zeroed.
    pub fn check_zeroed(&self) -> (r: bool)
        ensures
            r == (self@ is None),
    {
        self.value.is_none()
    }

    /// Moves the value out and leaves the slot zeroed.
    pub fn take_inner(&mut self) -> (r: T)
        requires
            old(self)@ is Some,
        ensures
            old(self)@ == Some(r),
            final(self)@ == None::<T>,
    {
        self.value.take().unwrap()
    }

    /// Hands out a copy of the value; the slot keeps it.
    pub fn inner_duplicate(&self) -> (r: T) where T: Copy
        requires
            self@ is Some,
        ensures
            self@ == Some(r),
    {
        self.value.unwrap()
    }

    /// The value of a slot that holds one.
    pub fn inner_ref(&self) -> (r: &T)
        requires
            self@ is Some,
        ensures
            self@ == Some(*r),
    {
        self.value.as_ref().unwrap()
    }

    /// Mutable access to the value of a slot that holds one. The slot holds whatever
    /// the caller leaves behind the reference.
    pub fn inner_ref_mut(&mut self) -> (r: &mut T)
        requires
            old(self)@ is Some,
        ensures
            old(self)@ == Some(*r),
            final(self)@ == Some(*final(r)),
    {
        self.value.as_mut().unwrap()
    }

    /// Puts `value` into the slot, whatever its state was.
    pub fn write(&mut self, value: T)
        ensures
            final(self)@ == Some(value),
    {
        self.value = Some(value);
    }
}

impl<T: Default> Default for UnsafeSyncCell<T> {
    /// A slot that holds the default value of `T`.
    fn default() -> (r: Self)
        ensures
            r@ is Some,
            call_ensures(T::default, (), r@->0),
    {
        UnsafeSyncCell::new(T::default())
    }
}

impl<T> From<T> for UnsafeSyncCell<T> {
    fn from(value: T) -> (r: Self) {
        UnsafeSyncCell::new(value)
    }
}

impl<T> vstd::std_specs::convert::FromSpecImpl<T> for UnsafeSyncCell<T> {
    open spec fn obeys_from_spec() -> bool {
        true
    }

    open spec fn from_spec(value: T) -> Self {
        Self::filled_with(value)
    }
}

impl<T> UnsafeSyncCell<T> {
    /// The slot that holds `value`, as a mathematical value.
    pub closed spec fn filled_with(value: T) -> Self {
        UnsafeSyncCell { value: Some(value) }
    }

    /// A slot is known by what it holds.
    pub proof fn lemma_filled_with(value: T)
        ensures
            Self::filled_with(value)@ == Some(value),
    {
    }
}

} // verus!
