//! Dispatcher contracts, one per supported arity.
//!
//! Each `CollectDispatchN` trait is the contract of partitioning a sequence
//! of `Self` into `N` accumulators, one per variant of `Self`, in variant
//! declaration order.  A type opts in by saying which output slot each of its
//! values belongs to (`slot`) and which payload that value carries
//! (`payload_0`, `payload_1`, ...), and by implementing the single `partition`
//! operation against that description.
//!
//! The laws beside each contract hold for every implementor: the routed
//! payload counts add up to the input length (exhaustive coverage), routing
//! distributes over concatenation (order preservation), and an empty input
//! routes nothing anywhere (the empty-input law).

use vstd::prelude::*;

use crate::container::Container;
use crate::container::absorbed_from;

verus! {

/// The dispatcher contract for sum types with two variants.
pub trait CollectDispatch2<T0, T1>: Sized {
    /// The output slot of this value: the declaration position of its
    /// variant.
    spec fn slot(self) -> int;

    /// The payload this value routes to slot 0; meaningful when `slot` is 0.
    spec fn payload_0(self) -> T0;

    /// The payload this value routes to slot 1; meaningful when `slot` is 1.
    spec fn payload_1(self) -> T1;

    /// The payloads of the elements of `s` that belong to output slot 0,
    /// in their order of appearance.
    open spec fn routed_0(s: Seq<Self>) -> Seq<T0> {
        s.filter_map(
            |e: Self|
                if e.slot() == 0 {
                    Some(e.payload_0())
                } else {
                    None
                },
        )
    }

    /// The payloads of the elements of `s` that belong to output slot 1,
    /// in their order of appearance.
    open spec fn routed_1(s: Seq<Self>) -> Seq<T1> {
        s.filter_map(
            |e: Self|
                if e.slot() == 1 {
                    Some(e.payload_1())
                } else {
                    None
                },
        )
    }

    /// Every value belongs to exactly one of the two slots.
    proof fn lemma_slot_in_range(e: Self)
        ensures
            0 <= e.slot() < 2,
    ;

    /// The routed sequences route slot-wise, element by element: an empty
    /// input routes nothing, and one more element appends its payload to the
    /// sequence of its slot and leaves the others unchanged.  An implementor
    /// that overrides the routed sequences must keep this meaning.
    proof fn lemma_routed(s: Seq<Self>)
        ensures
            s.len() == 0 ==> {
                &&& Self::routed_0(s) == Seq::<T0>::empty()
                &&& Self::routed_1(s) == Seq::<T1>::empty()
            },
            s.len() > 0 ==> {
                &&& Self::routed_0(s) == if s.last().slot() == 0 {
                    Self::routed_0(s.drop_last()).push(s.last().payload_0())
                } else {
                    Self::routed_0(s.drop_last())
                }
                &&& Self::routed_1(s) == if s.last().slot() == 1 {
                    Self::routed_1(s.drop_last()).push(s.last().payload_1())
                } else {
                    Self::routed_1(s.drop_last())
                }
            },
    ;

    /// Partitions `elements` into one accumulator per variant, in variant
    /// declaration order, routing each element's payload to the slot of its
    /// variant and preserving the relative order of the elements routed to
    /// each slot.
    fn partition<C0: Container<T0>, C1: Container<T1>>(elements: Vec<Self>) -> (r: (C0, C1))
        ensures
            C0::obeys_model() ==> r.0@ == absorbed_from::<T0, C0>(
                Self::routed_0(elements@),
            ),
            C1::obeys_model() ==> r.1@ == absorbed_from::<T1, C1>(
                Self::routed_1(elements@),
            ),
    ;
}

/// Exhaustive coverage at arity 2: every element of `s` is routed to
/// exactly one of the two slots, so the routed payload counts add up
/// to the length of the input and no element is lost or duplicated.
pub proof fn lemma_exhaustive_coverage2<T0, T1, E: CollectDispatch2<T0, T1>>(s: Seq<E>)
    ensures
        E::routed_0(s).len() + E::routed_1(s).len() == s.len(),
    decreases s.len(),
{
    E::lemma_routed(s);
    if s.len() > 0 {
        lemma_exhaustive_coverage2::<T0, T1, E>(s.drop_last());
        E::lemma_slot_in_range(s.last());
    }
}

/// Order preservation at arity 2: routing distributes over concatenation,
/// so the payloads routed to a slot appear in the same relative order as
/// their elements appeared in the input.
pub proof fn lemma_order_preservation2<T0, T1, E: CollectDispatch2<T0, T1>>(s: Seq<E>, t: Seq<E>)
    ensures
        E::routed_0(s + t) == E::routed_0(s) + E::routed_0(t),
        E::routed_1(s + t) == E::routed_1(s) + E::routed_1(t),
    decreases t.len(),
{
    E::lemma_routed(t);
    E::lemma_routed(s + t);
    if t.len() == 0 {
        assert(s + t =~= s);
        assert(E::routed_0(s) + E::routed_0(t) =~= E::routed_0(s));
        assert(E::routed_1(s) + E::routed_1(t) =~= E::routed_1(s));
    } else {
        lemma_order_preservation2::<T0, T1, E>(s, t.drop_last());
        assert((s + t).drop_last() =~= s + t.drop_last());
        assert((s + t).last() == t.last());
        assert(E::routed_0(s + t) =~= E::routed_0(s) + E::routed_0(t));
        assert(E::routed_1(s + t) =~= E::routed_1(s) + E::routed_1(t));
    }
}

/// The empty-input law at arity 2: an empty input routes no payload to any
/// slot, so partitioning it fills every accumulator from the empty model.
pub proof fn lemma_empty_input2<T0, T1, E: CollectDispatch2<T0, T1>>(s: Seq<E>)
    requires
        s.len() == 0,
    ensures
        E::routed_0(s) == Seq::<T0>::empty(),
        E::routed_1(s) == Seq::<T1>::empty(),
{
    E::lemma_routed(s);
}

/// The dispatcher contract for sum types with three variants.
pub trait CollectDispatch3<T0, T1, T2>: Sized {
    /// The output slot of this value: the declaration position of its
    /// variant.
    spec fn slot(self) -> int;

    /// The payload this value routes to slot 0; meaningful when `slot` is 0.
    spec fn payload_0(self) -> T0;

    /// The payload this value routes to slot 1; meaningful when `slot` is 1.
    spec fn payload_1(self) -> T1;

    /// The payload this value routes to slot 2; meaningful when `slot` is 2.
    spec fn payload_2(self) -> T2;

    /// The payloads of the elements of `s` that belong to output slot 0,
    /// in their order of appearance.
    open spec fn routed_0(s: Seq<Self>) -> Seq<T0> {
        s.filter_map(
            |e: Self|
                if e.slot() == 0 {
                    Some(e.payload_0())
                } else {
                    None
                },
        )
    }

    /// The payloads of the elements of `s` that belong to output slot 1,
    /// in their order of appearance.
    open spec fn routed_1(s: Seq<Self>) -> Seq<T1> {
        s.filter_map(
            |e: Self|
                if e.slot() == 1 {
                    Some(e.payload_1())
                } else {
                    None
                },
        )
    }

    /// The payloads of the elements of `s` that belong to output slot 2,
    /// in their order of appearance.
    open spec fn routed_2(s: Seq<Self>) -> Seq<T2> {
        s.filter_map(
            |e: Self|
                if e.slot() == 2 {
                    Some(e.payload_2())
                } else {
                    None
                },
        )
    }

    /// Every value belongs to exactly one of the three slots.
    proof fn lemma_slot_in_range(e: Self)
        ensures
            0 <= e.slot() < 3,
    ;

    /// The routed sequences route slot-wise, element by element: an empty
    /// input routes nothing, and one more element appends its payload to the
    /// sequence of its slot and leaves the others unchanged.  An implementor
    /// that overrides the routed sequences must keep this meaning.
    proof fn lemma_routed(s: Seq<Self>)
        ensures
            s.len() == 0 ==> {
                &&& Self::routed_0(s) == Seq::<T0>::empty()
                &&& Self::routed_1(s) == Seq::<T1>::empty()
                &&& Self::routed_2(s) == Seq::<T2>::empty()
            },
            s.len() > 0 ==> {
                &&& Self::routed_0(s) == if s.last().slot() == 0 {
                    Self::routed_0(s.drop_last()).push(s.last().payload_0())
                } else {
                    Self::routed_0(s.drop_last())
                }
                &&& Self::routed_1(s) == if s.last().slot() == 1 {
                    Self::routed_1(s.drop_last()).push(s.last().payload_1())
                } else {
                    Self::routed_1(s.drop_last())
                }
                &&& Self::routed_2(s) == if s.last().slot() == 2 {
                    Self::routed_2(s.drop_last()).push(s.last().payload_2())
                } else {
                    Self::routed_2(s.drop_last())
                }
            },
    ;

    /// Partitions `elements` into one accumulator per variant, in variant
    /// declaration order, routing each element's payload to the slot of its
    /// variant and preserving the relative order of the elements routed to
    /// each slot.
    fn partition<
        C0: Container<T0>,
        C1: Container<T1>,
        C2: Container<T2>,
    >(elements: Vec<Self>) -> (r: (C0, C1, C2))
        ensures
            C0::obeys_model() ==> r.0@ == absorbed_from::<T0, C0>(
                Self::routed_0(elements@),
            ),
            C1::obeys_model() ==> r.1@ == absorbed_from::<T1, C1>(
                Self::routed_1(elements@),
            ),
            C2::obeys_model() ==> r.2@ == absorbed_from::<T2, C2>(
                Self::routed_2(elements@),
            ),
    ;
}

/// Exhaustive coverage at arity 3: every element of `s` is routed to
/// exactly one of the three slots, so the routed payload counts add up
/// to the length of the input and no element is lost or duplicated.
pub proof fn lemma_exhaustive_coverage3<T0, T1, T2, E: CollectDispatch3<T0, T1, T2>>(s: Seq<E>)
    ensures
        E::routed_0(s).len() + E::routed_1(s).len() + E::routed_2(s).len() == s.len(),
    decreases s.len(),
{
    E::lemma_routed(s);
    if s.len() > 0 {
        lemma_exhaustive_coverage3::<T0, T1, T2, E>(s.drop_last());
        E::lemma_slot_in_range(s.last());
    }
}

/// Order preservation at arity 3: routing distributes over concatenation,
/// so the payloads routed to a slot appear in the same relative order as
/// their elements appeared in the input.
pub proof fn lemma_order_preservation3<T0, T1, T2, E: CollectDispatch3<T0, T1, T2>>(s: Seq<E>, t: Seq<E>)
    ensures
        E::routed_0(s + t) == E::routed_0(s) + E::routed_0(t),
        E::routed_1(s + t) == E::routed_1(s) + E::routed_1(t),
        E::routed_2(s + t) == E::routed_2(s) + E::routed_2(t),
    decreases t.len(),
{
    E::lemma_routed(t);
    E::lemma_routed(s + t);
    if t.len() == 0 {
        assert(s + t =~= s);
        assert(E::routed_0(s) + E::routed_0(t) =~= E::routed_0(s));
        assert(E::routed_1(s) + E::routed_1(t) =~= E::routed_1(s));
        assert(E::routed_2(s) + E::routed_2(t) =~= E::routed_2(s));
    } else {
        lemma_order_preservation3::<T0, T1, T2, E>(s, t.drop_last());
        assert((s + t).drop_last() =~= s + t.drop_last());
        assert((s + t).last() == t.last());
        assert(E::routed_0(s + t) =~= E::routed_0(s) + E::routed_0(t));
        assert(E::routed_1(s + t) =~= E::routed_1(s) + E::routed_1(t));
        assert(E::routed_2(s + t) =~= E::routed_2(s) + E::routed_2(t));
    }
}

/// The empty-input law at arity 3: an empty input routes no payload to any
/// slot, so partitioning it fills every accumulator from the empty model.
pub proof fn lemma_empty_input3<T0, T1, T2, E: CollectDispatch3<T0, T1, T2>>(s: Seq<E>)
    requires
        s.len() == 0,
    ensures
        E::routed_0(s) == Seq::<T0>::empty(),
        E::routed_1(s) == Seq::<T1>::empty(),
        E::routed_2(s) == Seq::<T2>::empty(),
{
    E::lemma_routed(s);
}

/// The dispatcher contract for sum types with four variants.
pub trait CollectDispatch4<T0, T1, T2, T3>: Sized {
    /// The output slot of this value: the declaration position of its
    /// variant.
    spec fn slot(self) -> int;

    /// The payload this value routes to slot 0; meaningful when `slot` is 0.
    spec fn payload_0(self) -> T0;

    /// The payload this value routes to slot 1; meaningful when `slot` is 1.
    spec fn payload_1(self) -> T1;

    /// The payload this value routes to slot 2; meaningful when `slot` is 2.
    spec fn payload_2(self) -> T2;

    /// The payload this value routes to slot 3; meaningful when `slot` is 3.
    spec fn payload_3(self) -> T3;

    /// The payloads of the elements of `s` that belong to output slot 0,
    /// in their order of appearance.
    open spec fn routed_0(s: Seq<Self>) -> Seq<T0> {
        s.filter_map(
            |e: Self|
                if e.slot() == 0 {
                    Some(e.payload_0())
                } else {
                    None
                },
        )
    }

    /// The payloads of the elements of `s` that belong to output slot 1,
    /// in their order of appearance.
    open spec fn routed_1(s: Seq<Self>) -> Seq<T1> {
        s.filter_map(
            |e: Self|
                if e.slot() == 1 {
                    Some(e.payload_1())
                } else {
                    None
                },
        )
    }

    /// The payloads of the elements of `s` that belong to output slot 2,
    /// in their order of appearance.
    open spec fn routed_2(s: Seq<Self>) -> Seq<T2> {
        s.filter_map(
            |e: Self|
                if e.slot() == 2 {
                    Some(e.payload_2())
                } else {
                    None
                },
        )
    }

    /// The payloads of the elements of `s` that belong to output slot 3,
    /// in their order of appearance.
    open spec fn routed_3(s: Seq<Self>) -> Seq<T3> {
        s.filter_map(
            |e: Self|
                if e.slot() == 3 {
                    Some(e.payload_3())
                } else {
                    None
                },
        )
    }

    /// Every value belongs to exactly one of the four slots.
    proof fn lemma_slot_in_range(e: Self)
        ensures
            0 <= e.slot() < 4,
    ;

    /// The routed sequences route slot-wise, element by element: an empty
    /// input routes nothing, and one more element appends its payload to the
    /// sequence of its slot and leaves the others unchanged.  An implementor
    /// that overrides the routed sequences must keep this meaning.
    proof fn lemma_routed(s: Seq<Self>)
        ensures
            s.len() == 0 ==> {
                &&& Self::routed_0(s) == Seq::<T0>::empty()
                &&& Self::routed_1(s) == Seq::<T1>::empty()
                &&& Self::routed_2(s) == Seq::<T2>::empty()
                &&& Self::routed_3(s) == Seq::<T3>::empty()
            },
            s.len() > 0 ==> {
                &&& Self::routed_0(s) == if s.last().slot() == 0 {
                    Self::routed_0(s.drop_last()).push(s.last().payload_0())
                } else {
                    Self::routed_0(s.drop_last())
                }
                &&& Self::routed_1(s) == if s.last().slot() == 1 {
                    Self::routed_1(s.drop_last()).push(s.last().payload_1())
                } else {
                    Self::routed_1(s.drop_last())
                }
                &&& Self::routed_2(s) == if s.last().slot() == 2 {
                    Self::routed_2(s.drop_last()).push(s.last().payload_2())
                } else {
                    Self::routed_2(s.drop_last())
                }
                &&& Self::routed_3(s) == if s.last().slot() == 3 {
                    Self::routed_3(s.drop_last()).push(s.last().payload_3())
                } else {
                    Self::routed_3(s.drop_last())
                }
            },
    ;

    /// Partitions `elements` into one accumulator per variant, in variant
    /// declaration order, routing each element's payload to the slot of its
    /// variant and preserving the relative order of the elements routed to
    /// each slot.
    fn partition<
        C0: Container<T0>,
        C1: Container<T1>,
        C2: Container<T2>,
        C3: Container<T3>,
    >(elements: Vec<Self>) -> (r: (C0, C1, C2, C3))
        ensures
            C0::obeys_model() ==> r.0@ == absorbed_from::<T0, C0>(
                Self::routed_0(elements@),
            ),
            C1::obeys_model() ==> r.1@ == absorbed_from::<T1, C1>(
                Self::routed_1(elements@),
            ),
            C2::obeys_model() ==> r.2@ == absorbed_from::<T2, C2>(
                Self::routed_2(elements@),
            ),
            C3::obeys_model() ==> r.3@ == absorbed_from::<T3, C3>(
                Self::routed_3(elements@),
            ),
    ;
}

/// Exhaustive coverage at arity 4: every element of `s` is routed to
/// exactly one of the four slots, so the routed payload counts add up
/// to the length of the input and no element is lost or duplicated.
pub proof fn lemma_exhaustive_coverage4<T0, T1, T2, T3, E: CollectDispatch4<T0, T1, T2, T3>>(s: Seq<E>)
    ensures
        E::routed_0(s).len() + E::routed_1(s).len() + E::routed_2(s).len()
            + E::routed_3(s).len() == s.len(),
    decreases s.len(),
{
    E::lemma_routed(s);
    if s.len() > 0 {
        lemma_exhaustive_coverage4::<T0, T1, T2, T3, E>(s.drop_last());
        E::lemma_slot_in_range(s.last());
    }
}

/// Order preservation at arity 4: routing distributes over concatenation,
/// so the payloads routed to a slot appear in the same relative order as
/// their elements appeared in the input.
pub proof fn lemma_order_preservation4<
    T0, T1, T2, T3,
    E: CollectDispatch4<T0, T1, T2, T3>,
>(s: Seq<E>, t: Seq<E>)
    ensures
        E::routed_0(s + t) == E::routed_0(s) + E::routed_0(t),
        E::routed_1(s + t) == E::routed_1(s) + E::routed_1(t),
        E::routed_2(s + t) == E::routed_2(s) + E::routed_2(t),
        E::routed_3(s + t) == E::routed_3(s) + E::routed_3(t),
    decreases t.len(),
{
    E::lemma_routed(t);
    E::lemma_routed(s + t);
    if t.len() == 0 {
        assert(s + t =~= s);
        assert(E::routed_0(s) + E::routed_0(t) =~= E::routed_0(s));
        assert(E::routed_1(s) + E::routed_1(t) =~= E::routed_1(s));
        assert(E::routed_2(s) + E::routed_2(t) =~= E::routed_2(s));
        assert(E::routed_3(s) + E::routed_3(t) =~= E::routed_3(s));
    } else {
        lemma_order_preservation4::<T0, T1, T2, T3, E>(s, t.drop_last());
        assert((s + t).drop_last() =~= s + t.drop_last());
        assert((s + t).last() == t.last());
        assert(E::routed_0(s + t) =~= E::routed_0(s) + E::routed_0(t));
        assert(E::routed_1(s + t) =~= E::routed_1(s) + E::routed_1(t));
        assert(E::routed_2(s + t) =~= E::routed_2(s) + E::routed_2(t));
        assert(E::routed_3(s + t) =~= E::routed_3(s) + E::routed_3(t));
    }
}

/// The empty-input law at arity 4: an empty input routes no payload to any
/// slot, so partitioning it fills every accumulator from the empty model.
pub proof fn lemma_empty_input4<T0, T1, T2, T3, E: CollectDispatch4<T0, T1, T2, T3>>(s: Seq<E>)
    requires
        s.len() == 0,
    ensures
        E::routed_0(s) == Seq::<T0>::empty(),
        E::routed_1(s) == Seq::<T1>::empty(),
        E::routed_2(s) == Seq::<T2>::empty(),
        E::routed_3(s) == Seq::<T3>::empty(),
{
    E::lemma_routed(s);
}

/// The dispatcher contract for sum types with five variants.
pub trait CollectDispatch5<
    T0,
    T1,
    T2,
    T3,
    T4,
>: Sized {
    /// The output slot of this value: the declaration position of its
    /// variant.
    spec fn slot(self) -> int;

    /// The payload this value routes to slot 0; meaningful when `slot` is 0.
    spec fn payload_0(self) -> T0;

    /// The payload this value routes to slot 1; meaningful when `slot` is 1.
    spec fn payload_1(self) -> T1;

    /// The payload this value routes to slot 2; meaningful when `slot` is 2.
    spec fn payload_2(self) -> T2;

    /// The payload this value routes to slot 3; meaningful when `slot` is 3.
    spec fn payload_3(self) -> T3;

    /// The payload this value routes to slot 4; meaningful when `slot` is 4.
    spec fn payload_4(self) -> T4;

    /// The payloads of the elements of `s` that belong to output slot 0,
    /// in their order of appearance.
    open spec fn routed_0(s: Seq<Self>) -> Seq<T0> {
        s.filter_map(
            |e: Self|
                if e.slot() == 0 {
                    Some(e.payload_0())
                } else {
                    None
                },
        )
    }

    /// The payloads of the elements of `s` that belong to output slot 1,
    /// in their order of appearance.
    open spec fn routed_1(s: Seq<Self>) -> Seq<T1> {
        s.filter_map(
            |e: Self|
                if e.slot() == 1 {
                    Some(e.payload_1())
                } else {
                    None
                },
        )
    }

    /// The payloads of the elements of `s` that belong to output slot 2,
    /// in their order of appearance.
    open spec fn routed_2(s: Seq<Self>) -> Seq<T2> {
        s.filter_map(
            |e: Self|
                if e.slot() == 2 {
                    Some(e.payload_2())
                } else {
                    None
                },
        )
    }

    /// The payloads of the elements of `s` that belong to output slot 3,
    /// in their order of appearance.
    open spec fn routed_3(s: Seq<Self>) -> Seq<T3> {
        s.filter_map(
            |e: Self|
                if e.slot() == 3 {
                    Some(e.payload_3())
                } else {
                    None
                },
        )
    }

    /// The payloads of the elements of `s` that belong to output slot 4,
    /// in their order of appearance.
    open spec fn routed_4(s: Seq<Self>) -> Seq<T4> {
        s.filter_map(
            |e: Self|
                if e.slot() == 4 {
                    Some(e.payload_4())
                } else {
                    None
                },
        )
    }

    /// Every value belongs to exactly one of the five slots.
    proof fn lemma_slot_in_range(e: Self)
        ensures
            0 <= e.slot() < 5,
    ;

    /// The routed sequences route slot-wise, element by element: an empty
    /// input routes nothing, and one more element appends its payload to the
    /// sequence of its slot and leaves the others unchanged.  An implementor
    /// that overrides the routed sequences must keep this meaning.
    proof fn lemma_routed(s: Seq<Self>)
        ensures
            s.len() == 0 ==> {
                &&& Self::routed_0(s) == Seq::<T0>::empty()
                &&& Self::routed_1(s) == Seq::<T1>::empty()
                &&& Self::routed_2(s) == Seq::<T2>::empty()
                &&& Self::routed_3(s) == Seq::<T3>::empty()
                &&& Self::routed_4(s) == Seq::<T4>::empty()
            },
            s.len() > 0 ==> {
                &&& Self::routed_0(s) == if s.last().slot() == 0 {
                    Self::routed_0(s.drop_last()).push(s.last().payload_0())
                } else {
                    Self::routed_0(s.drop_last())
                }
                &&& Self::routed_1(s) == if s.last().slot() == 1 {
                    Self::routed_1(s.drop_last()).push(s.last().payload_1())
                } else {
                    Self::routed_1(s.drop_last())
                }
                &&& Self::routed_2(s) == if s.last().slot() == 2 {
                    Self::routed_2(s.drop_last()).push(s.last().payload_2())
                } else {
                    Self::routed_2(s.drop_last())
                }
                &&& Self::routed_3(s) == if s.last().slot() == 3 {
                    Self::routed_3(s.drop_last()).push(s.last().payload_3())
                } else {
                    Self::routed_3(s.drop_last())
                }
                &&& Self::routed_4(s) == if s.last().slot() == 4 {
                    Self::routed_4(s.drop_last()).push(s.last().payload_4())
                } else {
                    Self::routed_4(s.drop_last())
                }
            },
    ;

    /// Partitions `elements` into one accumulator per variant, in variant
    /// declaration order, routing each element's payload to the slot of its
    /// variant and preserving the relative order of the elements routed to
    /// each slot.
    fn partition<
        C0: Container<T0>,
        C1: Container<T1>,
        C2: Container<T2>,
        C3: Container<T3>,
        C4: Container<T4>,
    >(elements: Vec<Self>) -> (r: (C0, C1, C2, C3, C4))
        ensures
            C0::obeys_model() ==> r.0@ == absorbed_from::<T0, C0>(
                Self::routed_0(elements@),
            ),
            C1::obeys_model() ==> r.1@ == absorbed_from::<T1, C1>(
                Self::routed_1(elements@),
            ),
            C2::obeys_model() ==> r.2@ == absorbed_from::<T2, C2>(
                Self::routed_2(elements@),
            ),
            C3::obeys_model() ==> r.3@ == absorbed_from::<T3, C3>(
                Self::routed_3(elements@),
            ),
            C4::obeys_model() ==> r.4@ == absorbed_from::<T4, C4>(
                Self::routed_4(elements@),
            ),
    ;
}

/// Exhaustive coverage at arity 5: every element of `s` is routed to
/// exactly one of the five slots, so the routed payload counts add up
/// to the length of the input and no element is lost or duplicated.
pub proof fn lemma_exhaustive_coverage5<
    T0, T1, T2, T3, T4,
    E: CollectDispatch5<T0, T1, T2, T3, T4>,
>(s: Seq<E>)
    ensures
        E::routed_0(s).len() + E::routed_1(s).len() + E::routed_2(s).len()
            + E::routed_3(s).len() + E::routed_4(s).len() == s.len(),
    decreases s.len(),
{
    E::lemma_routed(s);
    if s.len() > 0 {
        lemma_exhaustive_coverage5::<T0, T1, T2, T3, T4, E>(s.drop_last());
        E::lemma_slot_in_range(s.last());
    }
}

/// Order preservation at arity 5: routing distributes over concatenation,
/// so the payloads routed to a slot appear in the same relative order as
/// their elements appeared in the input.
pub proof fn lemma_order_preservation5<
    T0, T1, T2, T3, T4,
    E: CollectDispatch5<T0, T1, T2, T3, T4>,
>(s: Seq<E>, t: Seq<E>)
    ensures
        E::routed_0(s + t) == E::routed_0(s) + E::routed_0(t),
        E::routed_1(s + t) == E::routed_1(s) + E::routed_1(t),
        E::routed_2(s + t) == E::routed_2(s) + E::routed_2(t),
        E::routed_3(s + t) == E::routed_3(s) + E::routed_3(t),
        E::routed_4(s + t) == E::routed_4(s) + E::routed_4(t),
    decreases t.len(),
{
    E::lemma_routed(t);
    E::lemma_routed(s + t);
    if t.len() == 0 {
        assert(s + t =~= s);
        assert(E::routed_0(s) + E::routed_0(t) =~= E::routed_0(s));
        assert(E::routed_1(s) + E::routed_1(t) =~= E::routed_1(s));
        assert(E::routed_2(s) + E::routed_2(t) =~= E::routed_2(s));
        assert(E::routed_3(s) + E::routed_3(t) =~= E::routed_3(s));
        assert(E::routed_4(s) + E::routed_4(t) =~= E::routed_4(s));
    } else {
        lemma_order_preservation5::<T0, T1, T2, T3, T4, E>(s, t.drop_last());
        assert((s + t).drop_last() =~= s + t.drop_last());
        assert((s + t).last() == t.last());
        assert(E::routed_0(s + t) =~= E::routed_0(s) + E::routed_0(t));
        assert(E::routed_1(s + t) =~= E::routed_1(s) + E::routed_1(t));
        assert(E::routed_2(s + t) =~= E::routed_2(s) + E::routed_2(t));
        assert(E::routed_3(s + t) =~= E::routed_3(s) + E::routed_3(t));
        assert(E::routed_4(s + t) =~= E::routed_4(s) + E::routed_4(t));
    }
}

/// The empty-input law at arity 5: an empty input routes no payload to any
/// slot, so partitioning it fills every accumulator from the empty model.
pub proof fn lemma_empty_input5<
    T0, T1, T2, T3, T4,
    E: CollectDispatch5<T0, T1, T2, T3, T4>,
>(s: Seq<E>)
    requires
        s.len() == 0,
    ensures
        E::routed_0(s) == Seq::<T0>::empty(),
        E::routed_1(s) == Seq::<T1>::empty(),
        E::routed_2(s) == Seq::<T2>::empty(),
        E::routed_3(s) == Seq::<T3>::empty(),
        E::routed_4(s) == Seq::<T4>::empty(),
{
    E::lemma_routed(s);
}

/// The dispatcher contract for sum types with six variants.
pub trait CollectDispatch6<
    T0,
    T1,
    T2,
    T3,
    T4,
    T5,
>: Sized {
    /// The output slot of this value: the declaration position of its
    /// variant.
    spec fn slot(self) -> int;

    /// The payload this value routes to slot 0; meaningful when `slot` is 0.
    spec fn payload_0(self) -> T0;

    /// The payload this value routes to slot 1; meaningful when `slot` is 1.
    spec fn payload_1(self) -> T1;

    /// The payload this value routes to slot 2; meaningful when `slot` is 2.
    spec fn payload_2(self) -> T2;

    /// The payload this value routes to slot 3; meaningful when `slot` is 3.
    spec fn payload_3(self) -> T3;

    /// The payload this value routes to slot 4; meaningful when `slot` is 4.
    spec fn payload_4(self) -> T4;

    /// The payload this value routes to slot 5; meaningful when `slot` is 5.
    spec fn payload_5(self) -> T5;

    /// The payloads of the elements of `s` that belong to output slot 0,
    /// in their order of appearance.
    open spec fn routed_0(s: Seq<Self>) -> Seq<T0> {
        s.filter_map(
            |e: Self|
                if e.slot() == 0 {
                    Some(e.payload_0())
                } else {
                    None
                },
        )
    }

    /// The payloads of the elements of `s` that belong to output slot 1,
    /// in their order of appearance.
    open spec fn routed_1(s: Seq<Self>) -> Seq<T1> {
        s.filter_map(
            |e: Self|
                if e.slot() == 1 {
                    Some(e.payload_1())
                } else {
                    None
                },
        )
    }

    /// The payloads of the elements of `s` that belong to output slot 2,
    /// in their order of appearance.
    open spec fn routed_2(s: Seq<Self>) -> Seq<T2> {
        s.filter_map(
            |e: Self|
                if e.slot() == 2 {
                    Some(e.payload_2())
                } else {
                    None
                },
        )
    }

    /// The payloads of the elements of `s` that belong to output slot 3,
    /// in their order of appearance.
    open spec fn routed_3(s: Seq<Self>) -> Seq<T3> {
        s.filter_map(
            |e: Self|
                if e.slot() == 3 {
                    Some(e.payload_3())
                } else {
                    None
                },
        )
    }

    /// The payloads of the elements of `s` that belong to output slot 4,
    /// in their order of appearance.
    open spec fn routed_4(s: Seq<Self>) -> Seq<T4> {
        s.filter_map(
            |e: Self|
                if e.slot() == 4 {
                    Some(e.payload_4())
                } else {
                    None
                },
        )
    }

    /// The payloads of the elements of `s` that belong to output slot 5,
    /// in their order of appearance.
    open spec fn routed_5(s: Seq<Self>) -> Seq<T5> {
        s.filter_map(
            |e: Self|
                if e.slot() == 5 {
                    Some(e.payload_5())
                } else {
                    None
                },
        )
    }

    /// Every value belongs to exactly one of the six slots.
    proof fn lemma_slot_in_range(e: Self)
        ensures
            0 <= e.slot() < 6,
    ;

    /// The routed sequences route slot-wise, element by element: an empty
    /// input routes nothing, and one more element appends its payload to the
    /// sequence of its slot and leaves the others unchanged.  An implementor
    /// that overrides the routed sequences must keep this meaning.
    proof fn lemma_routed(s: Seq<Self>)
        ensures
            s.len() == 0 ==> {
                &&& Self::routed_0(s) == Seq::<T0>::empty()
                &&& Self::routed_1(s) == Seq::<T1>::empty()
                &&& Self::routed_2(s) == Seq::<T2>::empty()
                &&& Self::routed_3(s) == Seq::<T3>::empty()
                &&& Self::routed_4(s) == Seq::<T4>::empty()
                &&& Self::routed_5(s) == Seq::<T5>::empty()
            },
            s.len() > 0 ==> {
                &&& Self::routed_0(s) == if s.last().slot() == 0 {
                    Self::routed_0(s.drop_last()).push(s.last().payload_0())
                } else {
                    Self::routed_0(s.drop_last())
                }
                &&& Self::routed_1(s) == if s.last().slot() == 1 {
                    Self::routed_1(s.drop_last()).push(s.last().payload_1())
                } else {
                    Self::routed_1(s.drop_last())
                }
                &&& Self::routed_2(s) == if s.last().slot() == 2 {
                    Self::routed_2(s.drop_last()).push(s.last().payload_2())
                } else {
                    Self::routed_2(s.drop_last())
                }
                &&& Self::routed_3(s) == if s.last().slot() == 3 {
                    Self::routed_3(s.drop_last()).push(s.last().payload_3())
                } else {
                    Self::routed_3(s.drop_last())
                }
                &&& Self::routed_4(s) == if s.last().slot() == 4 {
                    Self::routed_4(s.drop_last()).push(s.last().payload_4())
                } else {
                    Self::routed_4(s.drop_last())
                }
                &&& Self::routed_5(s) == if s.last().slot() == 5 {
                    Self::routed_5(s.drop_last()).push(s.last().payload_5())
                } else {
                    Self::routed_5(s.drop_last())
                }
            },
    ;

    /// Partitions `elements` into one accumulator per variant, in variant
    /// declaration order, routing each element's payload to the slot of its
    /// variant and preserving the relative order of the elements routed to
    /// each slot.
    fn partition<
        C0: Container<T0>,
        C1: Container<T1>,
        C2: Container<T2>,
        C3: Container<T3>,
        C4: Container<T4>,
        C5: Container<T5>,
    >(elements: Vec<Self>) -> (r: (C0, C1, C2, C3, C4, C5))
        ensures
            C0::obeys_model() ==> r.0@ == absorbed_from::<T0, C0>(
                Self::routed_0(elements@),
            ),
            C1::obeys_model() ==> r.1@ == absorbed_from::<T1, C1>(
                Self::routed_1(elements@),
            ),
            C2::obeys_model() ==> r.2@ == absorbed_from::<T2, C2>(
                Self::routed_2(elements@),
            ),
            C3::obeys_model() ==> r.3@ == absorbed_from::<T3, C3>(
                Self::routed_3(elements@),
            ),
            C4::obeys_model() ==> r.4@ == absorbed_from::<T4, C4>(
                Self::routed_4(elements@),
            ),
            C5::obeys_model() ==> r.5@ == absorbed_from::<T5, C5>(
                Self::routed_5(elements@),
            ),
    ;
}

/// Exhaustive coverage at arity 6: every element of `s` is routed to
/// exactly one of the six slots, so the routed payload counts add up
/// to the length of the input and no element is lost or duplicated.
pub proof fn lemma_exhaustive_coverage6<
    T0, T1, T2, T3, T4, T5,
    E: CollectDispatch6<T0, T1, T2, T3, T4, T5>,
>(s: Seq<E>)
    ensures
        E::routed_0(s).len() + E::routed_1(s).len() + E::routed_2(s).len()
            + E::routed_3(s).len() + E::routed_4(s).len() + E::routed_5(s).len() == s.len(),
    decreases s.len(),
{
    E::lemma_routed(s);
    if s.len() > 0 {
        lemma_exhaustive_coverage6::<T0, T1, T2, T3, T4, T5, E>(s.drop_last());
        E::lemma_slot_in_range(s.last());
    }
}

/// Order preservation at arity 6: routing distributes over concatenation,
/// so the payloads routed to a slot appear in the same relative order as
/// their elements appeared in the input.
pub proof fn lemma_order_preservation6<
    T0, T1, T2, T3, T4, T5,
    E: CollectDispatch6<T0, T1, T2, T3, T4, T5>,
>(s: Seq<E>, t: Seq<E>)
    ensures
        E::routed_0(s + t) == E::routed_0(s) + E::routed_0(t),
        E::routed_1(s + t) == E::routed_1(s) + E::routed_1(t),
        E::routed_2(s + t) == E::routed_2(s) + E::routed_2(t),
        E::routed_3(s + t) == E::routed_3(s) + E::routed_3(t),
        E::routed_4(s + t) == E::routed_4(s) + E::routed_4(t),
        E::routed_5(s + t) == E::routed_5(s) + E::routed_5(t),
    decreases t.len(),
{
    E::lemma_routed(t);
    E::lemma_routed(s + t);
    if t.len() == 0 {
        assert(s + t =~= s);
        assert(E::routed_0(s) + E::routed_0(t) =~= E::routed_0(s));
        assert(E::routed_1(s) + E::routed_1(t) =~= E::routed_1(s));
        assert(E::routed_2(s) + E::routed_2(t) =~= E::routed_2(s));
        assert(E::routed_3(s) + E::routed_3(t) =~= E::routed_3(s));
        assert(E::routed_4(s) + E::routed_4(t) =~= E::routed_4(s));
        assert(E::routed_5(s) + E::routed_5(t) =~= E::routed_5(s));
    } else {
        lemma_order_preservation6::<T0, T1, T2, T3, T4, T5, E>(s, t.drop_last());
        assert((s + t).drop_last() =~= s + t.drop_last());
        assert((s + t).last() == t.last());
        assert(E::routed_0(s + t) =~= E::routed_0(s) + E::routed_0(t));
        assert(E::routed_1(s + t) =~= E::routed_1(s) + E::routed_1(t));
        assert(E::routed_2(s + t) =~= E::routed_2(s) + E::routed_2(t));
        assert(E::routed_3(s + t) =~= E::routed_3(s) + E::routed_3(t));
        assert(E::routed_4(s + t) =~= E::routed_4(s) + E::routed_4(t));
        assert(E::routed_5(s + t) =~= E::routed_5(s) + E::routed_5(t));
    }
}

/// The empty-input law at arity 6: an empty input routes no payload to any
/// slot, so partitioning it fills every accumulator from the empty model.
pub proof fn lemma_empty_input6<
    T0, T1, T2, T3, T4, T5,
    E: CollectDispatch6<T0, T1, T2, T3, T4, T5>,
>(s: Seq<E>)
    requires
        s.len() == 0,
    ensures
        E::routed_0(s) == Seq::<T0>::empty(),
        E::routed_1(s) == Seq::<T1>::empty(),
        E::routed_2(s) == Seq::<T2>::empty(),
        E::routed_3(s) == Seq::<T3>::empty(),
        E::routed_4(s) == Seq::<T4>::empty(),
        E::routed_5(s) == Seq::<T5>::empty(),
{
    E::lemma_routed(s);
}

/// The dispatcher contract for sum types with seven variants.
pub trait CollectDispatch7<
    T0,
    T1,
    T2,
    T3,
    T4,
    T5,
    T6,
>: Sized {
    /// The output slot of this value: the declaration position of its
    /// variant.
    spec fn slot(self) -> int;

    /// The payload this value routes to slot 0; meaningful when `slot` is 0.
    spec fn payload_0(self) -> T0;

    /// The payload this value routes to slot 1; meaningful when `slot` is 1.
    spec fn payload_1(self) -> T1;

    /// The payload this value routes to slot 2; meaningful when `slot` is 2.
    spec fn payload_2(self) -> T2;

    /// The payload this value routes to slot 3; meaningful when `slot` is 3.
    spec fn payload_3(self) -> T3;

    /// The payload this value routes to slot 4; meaningful when `slot` is 4.
    spec fn payload_4(self) -> T4;

    /// The payload this value routes to slot 5; meaningful when `slot` is 5.
    spec fn payload_5(self) -> T5;

    /// The payload this value routes to slot 6; meaningful when `slot` is 6.
    spec fn payload_6(self) -> T6;

    /// The payloads of the elements of `s` that belong to output slot 0,
    /// in their order of appearance.
    open spec fn routed_0(s: Seq<Self>) -> Seq<T0> {
        s.filter_map(
            |e: Self|
                if e.slot() == 0 {
                    Some(e.payload_0())
                } else {
                    None
                },
        )
    }

    /// The payloads of the elements of `s` that belong to output slot 1,
    /// in their order of appearance.
    open spec fn routed_1(s: Seq<Self>) -> Seq<T1> {
        s.filter_map(
            |e: Self|
                if e.slot() == 1 {
                    Some(e.payload_1())
                } else {
                    None
                },
        )
    }

    /// The payloads of the elements of `s` that belong to output slot 2,
    /// in their order of appearance.
    open spec fn routed_2(s: Seq<Self>) -> Seq<T2> {
        s.filter_map(
            |e: Self|
                if e.slot() == 2 {
                    Some(e.payload_2())
                } else {
                    None
                },
        )
    }

    /// The payloads of the elements of `s` that belong to output slot 3,
    /// in their order of appearance.
    open spec fn routed_3(s: Seq<Self>) -> Seq<T3> {
        s.filter_map(
            |e: Self|
                if e.slot() == 3 {
                    Some(e.payload_3())
                } else {
                    None
                },
        )
    }

    /// The payloads of the elements of `s` that belong to output slot 4,
    /// in their order of appearance.
    open spec fn routed_4(s: Seq<Self>) -> Seq<T4> {
        s.filter_map(
            |e: Self|
                if e.slot() == 4 {
                    Some(e.payload_4())
                } else {
                    None
                },
        )
    }

    /// The payloads of the elements of `s` that belong to output slot 5,
    /// in their order of appearance.
    open spec fn routed_5(s: Seq<Self>) -> Seq<T5> {
        s.filter_map(
            |e: Self|
                if e.slot() == 5 {
                    Some(e.payload_5())
                } else {
                    None
                },
        )
    }

    /// The payloads of the elements of `s` that belong to output slot 6,
    /// in their order of appearance.
    open spec fn routed_6(s: Seq<Self>) -> Seq<T6> {
        s.filter_map(
            |e: Self|
                if e.slot() == 6 {
                    Some(e.payload_6())
                } else {
                    None
                },
        )
    }

    /// Every value belongs to exactly one of the seven slots.
    proof fn lemma_slot_in_range(e: Self)
        ensures
            0 <= e.slot() < 7,
    ;

    /// The routed sequences route slot-wise, element by element: an empty
    /// input routes nothing, and one more element appends its payload to the
    /// sequence of its slot and leaves the others unchanged.  An implementor
    /// that overrides the routed sequences must keep this meaning.
    proof fn lemma_routed(s: Seq<Self>)
        ensures
            s.len() == 0 ==> {
                &&& Self::routed_0(s) == Seq::<T0>::empty()
                &&& Self::routed_1(s) == Seq::<T1>::empty()
                &&& Self::routed_2(s) == Seq::<T2>::empty()
                &&& Self::routed_3(s) == Seq::<T3>::empty()
                &&& Self::routed_4(s) == Seq::<T4>::empty()
                &&& Self::routed_5(s) == Seq::<T5>::empty()
                &&& Self::routed_6(s) == Seq::<T6>::empty()
            },
            s.len() > 0 ==> {
                &&& Self::routed_0(s) == if s.last().slot() == 0 {
                    Self::routed_0(s.drop_last()).push(s.last().payload_0())
                } else {
                    Self::routed_0(s.drop_last())
                }
                &&& Self::routed_1(s) == if s.last().slot() == 1 {
                    Self::routed_1(s.drop_last()).push(s.last().payload_1())
                } else {
                    Self::routed_1(s.drop_last())
                }
                &&& Self::routed_2(s) == if s.last().slot() == 2 {
                    Self::routed_2(s.drop_last()).push(s.last().payload_2())
                } else {
                    Self::routed_2(s.drop_last())
                }
                &&& Self::routed_3(s) == if s.last().slot() == 3 {
                    Self::routed_3(s.drop_last()).push(s.last().payload_3())
                } else {
                    Self::routed_3(s.drop_last())
                }
                &&& Self::routed_4(s) == if s.last().slot() == 4 {
                    Self::routed_4(s.drop_last()).push(s.last().payload_4())
                } else {
                    Self::routed_4(s.drop_last())
                }
                &&& Self::routed_5(s) == if s.last().slot() == 5 {
                    Self::routed_5(s.drop_last()).push(s.last().payload_5())
                } else {
                    Self::routed_5(s.drop_last())
                }
                &&& Self::routed_6(s) == if s.last().slot() == 6 {
                    Self::routed_6(s.drop_last()).push(s.last().payload_6())
                } else {
                    Self::routed_6(s.drop_last())
                }
            },
    ;

    /// Partitions `elements` into one accumulator per variant, in variant
    /// declaration order, routing each element's payload to the slot of its
    /// variant and preserving the relative order of the elements routed to
    /// each slot.
    fn partition<
        C0: Container<T0>,
        C1: Container<T1>,
        C2: Container<T2>,
        C3: Container<T3>,
        C4: Container<T4>,
        C5: Container<T5>,
        C6: Container<T6>,
    >(elements: Vec<Self>) -> (r: (C0, C1, C2, C3, C4, C5, C6))
        ensures
            C0::obeys_model() ==> r.0@ == absorbed_from::<T0, C0>(
                Self::routed_0(elements@),
            ),
            C1::obeys_model() ==> r.1@ == absorbed_from::<T1, C1>(
                Self::routed_1(elements@),
            ),
            C2::obeys_model() ==> r.2@ == absorbed_from::<T2, C2>(
                Self::routed_2(elements@),
            ),
            C3::obeys_model() ==> r.3@ == absorbed_from::<T3, C3>(
                Self::routed_3(elements@),
            ),
            C4::obeys_model() ==> r.4@ == absorbed_from::<T4, C4>(
                Self::routed_4(elements@),
            ),
            C5::obeys_model() ==> r.5@ == absorbed_from::<T5, C5>(
                Self::routed_5(elements@),
            ),
            C6::obeys_model() ==> r.6@ == absorbed_from::<T6, C6>(
                Self::routed_6(elements@),
            ),
    ;
}

/// Exhaustive coverage at arity 7: every element of `s` is routed to
/// exactly one of the seven slots, so the routed payload counts add up
/// to the length of the input and no element is lost or duplicated.
pub proof fn lemma_exhaustive_coverage7<
    T0, T1, T2, T3, T4, T5, T6,
    E: CollectDispatch7<T0, T1, T2, T3, T4, T5, T6>,
>(s: Seq<E>)
    ensures
        E::routed_0(s).len() + E::routed_1(s).len() + E::routed_2(s).len()
            + E::routed_3(s).len() + E::routed_4(s).len() + E::routed_5(s).len()
            + E::routed_6(s).len() == s.len(),
    decreases s.len(),
{
    E::lemma_routed(s);
    if s.len() > 0 {
        lemma_exhaustive_coverage7::<T0, T1, T2, T3, T4, T5, T6, E>(s.drop_last());
        E::lemma_slot_in_range(s.last());
    }
}

/// Order preservation at arity 7: routing distributes over concatenation,
/// so the payloads routed to a slot appear in the same relative order as
/// their elements appeared in the input.
pub proof fn lemma_order_preservation7<
    T0, T1, T2, T3, T4, T5, T6,
    E: CollectDispatch7<T0, T1, T2, T3, T4, T5, T6>,
>(s: Seq<E>, t: Seq<E>)
    ensures
        E::routed_0(s + t) == E::routed_0(s) + E::routed_0(t),
        E::routed_1(s + t) == E::routed_1(s) + E::routed_1(t),
        E::routed_2(s + t) == E::routed_2(s) + E::routed_2(t),
        E::routed_3(s + t) == E::routed_3(s) + E::routed_3(t),
        E::routed_4(s + t) == E::routed_4(s) + E::routed_4(t),
        E::routed_5(s + t) == E::routed_5(s) + E::routed_5(t),
        E::routed_6(s + t) == E::routed_6(s) + E::routed_6(t),
    decreases t.len(),
{
    E::lemma_routed(t);
    E::lemma_routed(s + t);
    if t.len() == 0 {
        assert(s + t =~= s);
        assert(E::routed_0(s) + E::routed_0(t) =~= E::routed_0(s));
        assert(E::routed_1(s) + E::routed_1(t) =~= E::routed_1(s));
        assert(E::routed_2(s) + E::routed_2(t) =~= E::routed_2(s));
        assert(E::routed_3(s) + E::routed_3(t) =~= E::routed_3(s));
        assert(E::routed_4(s) + E::routed_4(t) =~= E::routed_4(s));
        assert(E::routed_5(s) + E::routed_5(t) =~= E::routed_5(s));
        assert(E::routed_6(s) + E::routed_6(t) =~= E::routed_6(s));
    } else {
        lemma_order_preservation7::<T0, T1, T2, T3, T4, T5, T6, E>(s, t.drop_last());
        assert((s + t).drop_last() =~= s + t.drop_last());
        assert((s + t).last() == t.last());
        assert(E::routed_0(s + t) =~= E::routed_0(s) + E::routed_0(t));
        assert(E::routed_1(s + t) =~= E::routed_1(s) + E::routed_1(t));
        assert(E::routed_2(s + t) =~= E::routed_2(s) + E::routed_2(t));
        assert(E::routed_3(s + t) =~= E::routed_3(s) + E::routed_3(t));
        assert(E::routed_4(s + t) =~= E::routed_4(s) + E::routed_4(t));
        assert(E::routed_5(s + t) =~= E::routed_5(s) + E::routed_5(t));
        assert(E::routed_6(s + t) =~= E::routed_6(s) + E::routed_6(t));
    }
}

/// The empty-input law at arity 7: an empty input routes no payload to any
/// slot, so partitioning it fills every accumulator from the empty model.
pub proof fn lemma_empty_input7<
    T0, T1, T2, T3, T4, T5, T6,
    E: CollectDispatch7<T0, T1, T2, T3, T4, T5, T6>,
>(s: Seq<E>)
    requires
        s.len() == 0,
    ensures
        E::routed_0(s) == Seq::<T0>::empty(),
        E::routed_1(s) == Seq::<T1>::empty(),
        E::routed_2(s) == Seq::<T2>::empty(),
        E::routed_3(s) == Seq::<T3>::empty(),
        E::routed_4(s) == Seq::<T4>::empty(),
        E::routed_5(s) == Seq::<T5>::empty(),
        E::routed_6(s) == Seq::<T6>::empty(),
{
    E::lemma_routed(s);
}

/// The dispatcher contract for sum types with eight variants.
pub trait CollectDispatch8<
    T0,
    T1,
    T2,
    T3,
    T4,
    T5,
    T6,
    T7,
>: Sized {
    /// The output slot of this value: the declaration position of its
    /// variant.
    spec fn slot(self) -> int;

    /// The payload this value routes to slot 0; meaningful when `slot` is 0.
    spec fn payload_0(self) -> T0;

    /// The payload this value routes to slot 1; meaningful when `slot` is 1.
    spec fn payload_1(self) -> T1;

    /// The payload this value routes to slot 2; meaningful when `slot` is 2.
    spec fn payload_2(self) -> T2;

    /// The payload this value routes to slot 3; meaningful when `slot` is 3.
    spec fn payload_3(self) -> T3;

    /// The payload this value routes to slot 4; meaningful when `slot` is 4.
    spec fn payload_4(self) -> T4;

    /// The payload this value routes to slot 5; meaningful when `slot` is 5.
    spec fn payload_5(self) -> T5;

    /// The payload this value routes to slot 6; meaningful when `slot` is 6.
    spec fn payload_6(self) -> T6;

    /// The payload this value routes to slot 7; meaningful when `slot` is 7.
    spec fn payload_7(self) -> T7;

    /// The payloads of the elements of `s` that belong to output slot 0,
    /// in their order of appearance.
    open spec fn routed_0(s: Seq<Self>) -> Seq<T0> {
        s.filter_map(
            |e: Self|
                if e.slot() == 0 {
                    Some(e.payload_0())
                } else {
                    None
                },
        )
    }

    /// The payloads of the elements of `s` that belong to output slot 1,
    /// in their order of appearance.
    open spec fn routed_1(s: Seq<Self>) -> Seq<T1> {
        s.filter_map(
            |e: Self|
                if e.slot() == 1 {
                    Some(e.payload_1())
                } else {
                    None
                },
        )
    }

    /// The payloads of the elements of `s` that belong to output slot 2,
    /// in their order of appearance.
    open spec fn routed_2(s: Seq<Self>) -> Seq<T2> {
        s.filter_map(
            |e: Self|
                if e.slot() == 2 {
                    Some(e.payload_2())
                } else {
                    None
                },
        )
    }

    /// The payloads of the elements of `s` that belong to output slot 3,
    /// in their order of appearance.
    open spec fn routed_3(s: Seq<Self>) -> Seq<T3> {
        s.filter_map(
            |e: Self|
                if e.slot() == 3 {
                    Some(e.payload_3())
                } else {
                    None
                },
        )
    }

    /// The payloads of the elements of `s` that belong to output slot 4,
    /// in their order of appearance.
    open spec fn routed_4(s: Seq<Self>) -> Seq<T4> {
        s.filter_map(
            |e: Self|
                if e.slot() == 4 {
                    Some(e.payload_4())
                } else {
                    None
                },
        )
    }

    /// The payloads of the elements of `s` that belong to output slot 5,
    /// in their order of appearance.
    open spec fn routed_5(s: Seq<Self>) -> Seq<T5> {
        s.filter_map(
            |e: Self|
                if e.slot() == 5 {
                    Some(e.payload_5())
                } else {
                    None
                },
        )
    }

    /// The payloads of the elements of `s` that belong to output slot 6,
    /// in their order of appearance.
    open spec fn routed_6(s: Seq<Self>) -> Seq<T6> {
        s.filter_map(
            |e: Self|
                if e.slot() == 6 {
                    Some(e.payload_6())
                } else {
                    None
                },
        )
    }

    /// The payloads of the elements of `s` that belong to output slot 7,
    /// in their order of appearance.
    open spec fn routed_7(s: Seq<Self>) -> Seq<T7> {
        s.filter_map(
            |e: Self|
                if e.slot() == 7 {
                    Some(e.payload_7())
                } else {
                    None
                },
        )
    }

    /// Every value belongs to exactly one of the eight slots.
    proof fn lemma_slot_in_range(e: Self)
        ensures
            0 <= e.slot() < 8,
    ;

    /// The routed sequences route slot-wise, element by element: an empty
    /// input routes nothing, and one more element appends its payload to the
    /// sequence of its slot and leaves the others unchanged.  An implementor
    /// that overrides the routed sequences must keep this meaning.
    proof fn lemma_routed(s: Seq<Self>)
        ensures
            s.len() == 0 ==> {
                &&& Self::routed_0(s) == Seq::<T0>::empty()
                &&& Self::routed_1(s) == Seq::<T1>::empty()
                &&& Self::routed_2(s) == Seq::<T2>::empty()
                &&& Self::routed_3(s) == Seq::<T3>::empty()
                &&& Self::routed_4(s) == Seq::<T4>::empty()
                &&& Self::routed_5(s) == Seq::<T5>::empty()
                &&& Self::routed_6(s) == Seq::<T6>::empty()
                &&& Self::routed_7(s) == Seq::<T7>::empty()
            },
            s.len() > 0 ==> {
                &&& Self::routed_0(s) == if s.last().slot() == 0 {
                    Self::routed_0(s.drop_last()).push(s.last().payload_0())
                } else {
                    Self::routed_0(s.drop_last())
                }
                &&& Self::routed_1(s) == if s.last().slot() == 1 {
                    Self::routed_1(s.drop_last()).push(s.last().payload_1())
                } else {
                    Self::routed_1(s.drop_last())
                }
                &&& Self::routed_2(s) == if s.last().slot() == 2 {
                    Self::routed_2(s.drop_last()).push(s.last().payload_2())
                } else {
                    Self::routed_2(s.drop_last())
                }
                &&& Self::routed_3(s) == if s.last().slot() == 3 {
                    Self::routed_3(s.drop_last()).push(s.last().payload_3())
                } else {
                    Self::routed_3(s.drop_last())
                }
                &&& Self::routed_4(s) == if s.last().slot() == 4 {
                    Self::routed_4(s.drop_last()).push(s.last().payload_4())
                } else {
                    Self::routed_4(s.drop_last())
                }
                &&& Self::routed_5(s) == if s.last().slot() == 5 {
                    Self::routed_5(s.drop_last()).push(s.last().payload_5())
                } else {
                    Self::routed_5(s.drop_last())
                }
                &&& Self::routed_6(s) == if s.last().slot() == 6 {
                    Self::routed_6(s.drop_last()).push(s.last().payload_6())
                } else {
                    Self::routed_6(s.drop_last())
                }
                &&& Self::routed_7(s) == if s.last().slot() == 7 {
                    Self::routed_7(s.drop_last()).push(s.last().payload_7())
                } else {
                    Self::routed_7(s.drop_last())
                }
            },
    ;

    /// Partitions `elements` into one accumulator per variant, in variant
    /// declaration order, routing each element's payload to the slot of its
    /// variant and preserving the relative order of the elements routed to
    /// each slot.
    fn partition<
        C0: Container<T0>,
        C1: Container<T1>,
        C2: Container<T2>,
        C3: Container<T3>,
        C4: Container<T4>,
        C5: Container<T5>,
        C6: Container<T6>,
        C7: Container<T7>,
    >(elements: Vec<Self>) -> (r: (C0, C1, C2, C3, C4, C5, C6, C7))
        ensures
            C0::obeys_model() ==> r.0@ == absorbed_from::<T0, C0>(
                Self::routed_0(elements@),
            ),
            C1::obeys_model() ==> r.1@ == absorbed_from::<T1, C1>(
                Self::routed_1(elements@),
            ),
            C2::obeys_model() ==> r.2@ == absorbed_from::<T2, C2>(
                Self::routed_2(elements@),
            ),
            C3::obeys_model() ==> r.3@ == absorbed_from::<T3, C3>(
                Self::routed_3(elements@),
            ),
            C4::obeys_model() ==> r.4@ == absorbed_from::<T4, C4>(
                Self::routed_4(elements@),
            ),
            C5::obeys_model() ==> r.5@ == absorbed_from::<T5, C5>(
                Self::routed_5(elements@),
            ),
            C6::obeys_model() ==> r.6@ == absorbed_from::<T6, C6>(
                Self::routed_6(elements@),
            ),
            C7::obeys_model() ==> r.7@ == absorbed_from::<T7, C7>(
                Self::routed_7(elements@),
            ),
    ;
}

/// Exhaustive coverage at arity 8: every element of `s` is routed to
/// exactly one of the eight slots, so the routed payload counts add up
/// to the length of the input and no element is lost or duplicated.
pub proof fn lemma_exhaustive_coverage8<
    T0, T1, T2, T3, T4, T5, T6, T7,
    E: CollectDispatch8<T0, T1, T2, T3, T4, T5, T6, T7>,
>(s: Seq<E>)
    ensures
        E::routed_0(s).len() + E::routed_1(s).len() + E::routed_2(s).len()
            + E::routed_3(s).len() + E::routed_4(s).len() + E::routed_5(s).len()
            + E::routed_6(s).len() + E::routed_7(s).len() == s.len(),
    decreases s.len(),
{
    E::lemma_routed(s);
    if s.len() > 0 {
        lemma_exhaustive_coverage8::<T0, T1, T2, T3, T4, T5, T6, T7, E>(s.drop_last());
        E::lemma_slot_in_range(s.last());
    }
}

/// Order preservation at arity 8: routing distributes over concatenation,
/// so the payloads routed to a slot appear in the same relative order as
/// their elements appeared in the input.
pub proof fn lemma_order_preservation8<
    T0, T1, T2, T3, T4, T5, T6, T7,
    E: CollectDispatch8<T0, T1, T2, T3, T4, T5, T6, T7>,
>(s: Seq<E>, t: Seq<E>)
    ensures
        E::routed_0(s + t) == E::routed_0(s) + E::routed_0(t),
        E::routed_1(s + t) == E::routed_1(s) + E::routed_1(t),
        E::routed_2(s + t) == E::routed_2(s) + E::routed_2(t),
        E::routed_3(s + t) == E::routed_3(s) + E::routed_3(t),
        E::routed_4(s + t) == E::routed_4(s) + E::routed_4(t),
        E::routed_5(s + t) == E::routed_5(s) + E::routed_5(t),
        E::routed_6(s + t) == E::routed_6(s) + E::routed_6(t),
        E::routed_7(s + t) == E::routed_7(s) + E::routed_7(t),
    decreases t.len(),
{
    E::lemma_routed(t);
    E::lemma_routed(s + t);
    if t.len() == 0 {
        assert(s + t =~= s);
        assert(E::routed_0(s) + E::routed_0(t) =~= E::routed_0(s));
        assert(E::routed_1(s) + E::routed_1(t) =~= E::routed_1(s));
        assert(E::routed_2(s) + E::routed_2(t) =~= E::routed_2(s));
        assert(E::routed_3(s) + E::routed_3(t) =~= E::routed_3(s));
        assert(E::routed_4(s) + E::routed_4(t) =~= E::routed_4(s));
        assert(E::routed_5(s) + E::routed_5(t) =~= E::routed_5(s));
        assert(E::routed_6(s) + E::routed_6(t) =~= E::routed_6(s));
        assert(E::routed_7(s) + E::routed_7(t) =~= E::routed_7(s));
    } else {
        lemma_order_preservation8::<T0, T1, T2, T3, T4, T5, T6, T7, E>(s, t.drop_last());
        assert((s + t).drop_last() =~= s + t.drop_last());
        assert((s + t).last() == t.last());
        assert(E::routed_0(s + t) =~= E::routed_0(s) + E::routed_0(t));
        assert(E::routed_1(s + t) =~= E::routed_1(s) + E::routed_1(t));
        assert(E::routed_2(s + t) =~= E::routed_2(s) + E::routed_2(t));
        assert(E::routed_3(s + t) =~= E::routed_3(s) + E::routed_3(t));
        assert(E::routed_4(s + t) =~= E::routed_4(s) + E::routed_4(t));
        assert(E::routed_5(s + t) =~= E::routed_5(s) + E::routed_5(t));
        assert(E::routed_6(s + t) =~= E::routed_6(s) + E::routed_6(t));
        assert(E::routed_7(s + t) =~= E::routed_7(s) + E::routed_7(t));
    }
}

/// The empty-input law at arity 8: an empty input routes no payload to any
/// slot, so partitioning it fills every accumulator from the empty model.
pub proof fn lemma_empty_input8<
    T0, T1, T2, T3, T4, T5, T6, T7,
    E: CollectDispatch8<T0, T1, T2, T3, T4, T5, T6, T7>,
>(s: Seq<E>)
    requires
        s.len() == 0,
    ensures
        E::routed_0(s) == Seq::<T0>::empty(),
        E::routed_1(s) == Seq::<T1>::empty(),
        E::routed_2(s) == Seq::<T2>::empty(),
        E::routed_3(s) == Seq::<T3>::empty(),
        E::routed_4(s) == Seq::<T4>::empty(),
        E::routed_5(s) == Seq::<T5>::empty(),
        E::routed_6(s) == Seq::<T6>::empty(),
        E::routed_7(s) == Seq::<T7>::empty(),
{
    E::lemma_routed(s);
}

} // verus!
