//! The state of a future of one of the handles.

use vstd::prelude::*;

verus! {

/// How a poll ended.
#[derive(Debug)]
pub enum Polled<O> {
    /// The operation was carried out and gave this result.
    Ready(O),
    /// The operation has to wait; the waker of the task is registered.
    Pending,
}

/// Future returned by the methods of the handles for use in futures.
///
/// It keeps the parameter of the operation until the operation was carried out. A
/// poll hands the parameter to the operation; if the operation has to wait it
/// hands the parameter back, which the future keeps for the next poll.
pub struct MRBFuture<P> {
    p: Option<P>,
}

impl<P> View for MRBFuture<P> {
    type V = Option<P>;

    closed spec fn view(&self) -> Option<P> {
        self.p
    }
}

impl<P> MRBFuture<P> {
    /// A future for an operation with the parameter `p`.
    pub fn new(p: P) -> (r: Self)
        ensures
            r@ == Some(p),
    {
        MRBFuture { p: Some(p) }
    }

    /// Tells whether the operation was carried out.
    pub fn is_done(&self) -> (r: bool)
        ensures
            r == (self@ is None),
    {
        self.p.is_none()
    }

    /// Polls the future: tries `op` on the parameter kept. `op` returns `Ok` with its
    /// result if it was carried out, and the future is then done; it returns `Err`
    /// with the parameter if it has to wait, and the future keeps the parameter.
    pub fn poll<O, F: FnOnce(P) -> Result<O, P>>(&mut self, op: F) -> (r: Polled<Option<O>>)
        requires
            old(self)@ is Some,
            op.requires((old(self)@->0,)),
        ensures
            match r {
                Polled::Ready(Some(o)) => op.ensures((old(self)@->0,), Ok(o)) && final(self)@
                    is None,
                Polled::Ready(None) => false,
                Polled::Pending => final(self)@ is Some && op.ensures(
                    (old(self)@->0,),
                    Err(final(self)@->0),
                ),
            },
    {
        let p = self.p.take().unwrap();
        match op(p) {
            Ok(r) => Polled::Ready(Some(r)),
            Err(p) => {
                self.p = Some(p);
                Polled::Pending
            },
        }
    }
}

} // verus!
