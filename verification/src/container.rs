//! The accumulator capability every output collection must satisfy.
//!
//! A container is any type that can hold values of a given type: produce an
//! empty instance and absorb one element at a time.  Sequence-like containers
//! absorb by appending, so arrival order is preserved; key-value containers
//! absorb a pair by inserting or overwriting under its key.

use vstd::prelude::*;

verus! {

/// The behavior of an output container.
///
/// A container starts empty (`create_new`) and grows by absorbing one element
/// at a time (`add_element`).  Absorption is total: it never fails, for any
/// value of the element type.
///
/// Each implementor describes itself through its [`View`] and three spec
/// functions: the view of a freshly created container (`empty_model`), how one
/// absorbed element changes the view (`absorb_model`), and whether those two
/// descriptions are known to be faithful (`obeys_model`).  The last one exists
/// for containers such as `HashMap`, whose vstd specifications are conditional
/// on the key type obeying the hash model.
pub trait Container<T>: View + Sized {
    /// Whether `empty_model` and `absorb_model` faithfully describe the
    /// executable operations of this container type.
    spec fn obeys_model() -> bool;

    /// The view of a container with no elements.
    spec fn empty_model() -> Self::V;

    /// The view of a container after absorbing `element` into a container
    /// whose view was `m`.
    spec fn absorb_model(m: Self::V, element: T) -> Self::V;

    /// Returns an empty container.
    fn create_new() -> (r: Self)
        ensures
            r@ == Self::empty_model(),
    ;

    /// Adds an element to the container.
    fn add_element(&mut self, element: T)
        ensures
            Self::obeys_model() ==> final(self)@ == Self::absorb_model(old(self)@, element),
    ;
}

/// The view of a container that has absorbed the elements of `s` in order,
/// starting from empty.
pub open spec fn absorbed_from<T, C: Container<T>>(s: Seq<T>) -> C::V
    decreases s.len(),
{
    if s.len() == 0 {
        C::empty_model()
    } else {
        C::absorb_model(absorbed_from::<T, C>(s.drop_last()), s.last())
    }
}

/// Absorbing one more element extends the fold by one step.
pub proof fn lemma_absorbed_from_push<T, C: Container<T>>(s: Seq<T>, element: T)
    ensures
        absorbed_from::<T, C>(s.push(element)) == C::absorb_model(
            absorbed_from::<T, C>(s),
            element,
        ),
{
    assert(s.push(element).drop_last() =~= s);
}

/// A vector absorbs by appending, so its view is the absorbed sequence itself.
pub proof fn lemma_vec_absorbed_from<T>(s: Seq<T>)
    ensures
        absorbed_from::<T, Vec<T>>(s) == s,
    decreases s.len(),
{
    if s.len() == 0 {
        assert(absorbed_from::<T, Vec<T>>(s) =~= s);
    } else {
        lemma_vec_absorbed_from::<T>(s.drop_last());
        assert(absorbed_from::<T, Vec<T>>(s) =~= s);
    }
}

impl<T> Container<T> for Vec<T> {
    open spec fn obeys_model() -> bool {
        true
    }

    open spec fn empty_model() -> Seq<T> {
        Seq::empty()
    }

    open spec fn absorb_model(m: Seq<T>, element: T) -> Seq<T> {
        m.push(element)
    }

    fn create_new() -> (r: Self) {
        Vec::new()
    }

    fn add_element(&mut self, element: T) {
        self.push(element);
    }
}

impl<K: Eq + core::hash::Hash, V> Container<(K, V)> for std::collections::HashMap<K, V> {
    open spec fn obeys_model() -> bool {
        &&& vstd::std_specs::hash::obeys_key_model::<K>()
        &&& vstd::std_specs::hash::builds_valid_hashers::<std::hash::RandomState>()
    }

    open spec fn empty_model() -> Map<K, V> {
        Map::empty()
    }

    open spec fn absorb_model(m: Map<K, V>, element: (K, V)) -> Map<K, V> {
        m.insert(element.0, element.1)
    }

    fn create_new() -> (r: Self) {
        std::collections::HashMap::new()
    }

    fn add_element(&mut self, element: (K, V)) {
        let (key, value) = element;
        self.insert(key, value);
    }
}

} // verus!
