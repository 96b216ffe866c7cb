//! The general dispatcher capability.
//!
//! [`Dispatch`] fits every sum type, regardless of its number of variants:
//! the generic type `O` is the output tuple, whose arity equals the number of
//! variants of the implementor and whose slots satisfy the accumulator
//! capability for the matching variant payloads.  Because `O` is fully
//! generic here, each implementor states what its output satisfies through
//! its own `dispatched` relation; the per-arity contracts in
//! [`crate::dispatchers`] state the same routing obligations once per arity.

use vstd::prelude::*;

verus! {

/// A dispatcher: partitions a sequence of `Self` into the output tuple `O`,
/// one accumulator per variant of `Self`, in variant declaration order.
pub trait Dispatch<O>: Sized {
    /// What holds of the output that `dispatch` returns for the given input.
    /// Each implementor states here how the accumulators of `O` are filled
    /// from the input sequence.
    spec fn dispatched(elements: Seq<Self>, output: O) -> bool;

    /// Performs dispatching.
    fn dispatch(elements: Vec<Self>) -> (r: O)
        ensures
            Self::dispatched(elements@, r),
    ;
}

} // verus!
