use vstd::prelude::*;

verus! {

/// The answer of a readiness check.
///
/// A caller must see `Ready` before it invokes a service; `NotReady` pushes
/// back without consuming a request, and `Failed` reports that the service
/// can no longer accept requests.
pub enum Readiness<E> {
    Ready,
    NotReady,
    Failed(E),
}

impl<E> Readiness<E> {
    /// True when the service may be invoked now.
    pub fn is_ready(&self) -> (r: bool)
        ensures
            r == (*self is Ready),
    {
        match self {
            Readiness::Ready => true,
            _ => false,
        }
    }
}

} // verus!
