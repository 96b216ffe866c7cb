//! Canonical sum types, one per supported arity, with their partition
//! operations.
//!
//! `Sum2` through `Sum8` are generic tagged unions whose variants appear in
//! slot order and carry one positional payload each.  A payload-less variant
//! of a host type corresponds to a `()` payload here.  Each canonical sum
//! type implements the dispatcher contract of its arity with a single linear
//! scan over the input, so a host sum type with `N` variants partitions by
//! mapping its values onto `SumN`.

use vstd::prelude::*;

use crate::container::Container;
use crate::container::absorbed_from;
use crate::container::lemma_absorbed_from_push;
use crate::dispatch::Dispatch;
use crate::dispatchers::CollectDispatch2;
use crate::dispatchers::CollectDispatch3;
use crate::dispatchers::CollectDispatch4;
use crate::dispatchers::CollectDispatch5;
use crate::dispatchers::CollectDispatch6;
use crate::dispatchers::CollectDispatch7;
use crate::dispatchers::CollectDispatch8;

verus! {

broadcast use vstd::std_specs::vec::axiom_spec_into_iter;

/// A sum type with two variants.
pub enum Sum2<T0, T1> {
    /// The variant routed to slot 0.
    V0(T0),
    /// The variant routed to slot 1.
    V1(T1),
}

impl<T0, T1> CollectDispatch2<T0, T1> for Sum2<T0, T1> {
    open spec fn slot(self) -> int {
        match self {
            Sum2::V0(_) => 0,
            Sum2::V1(_) => 1,
        }
    }

    open spec fn payload_0(self) -> T0 {
        match self {
            Sum2::V0(p) => p,
            _ => vstd::pervasive::arbitrary(),
        }
    }

    open spec fn payload_1(self) -> T1 {
        match self {
            Sum2::V1(p) => p,
            _ => vstd::pervasive::arbitrary(),
        }
    }

    proof fn lemma_slot_in_range(e: Self) {
    }

    proof fn lemma_routed(s: Seq<Self>) {
        if s.len() == 0 {
            assert(Self::routed_0(s) =~= Seq::<T0>::empty());
            assert(Self::routed_1(s) =~= Seq::<T1>::empty());
        } else {
            let rest = s.drop_last();
            if s.last().slot() == 0 {
                assert(Self::routed_0(s) =~= Self::routed_0(rest).push(
                    s.last().payload_0(),
                ));
                assert(Self::routed_1(s) =~= Self::routed_1(rest));
            } else if s.last().slot() == 1 {
                assert(Self::routed_0(s) =~= Self::routed_0(rest));
                assert(Self::routed_1(s) =~= Self::routed_1(rest).push(
                    s.last().payload_1(),
                ));
            } else {
                assert(Self::routed_0(s) =~= Self::routed_0(rest));
                assert(Self::routed_1(s) =~= Self::routed_1(rest));
            }
        }
    }

    fn partition<C0: Container<T0>, C1: Container<T1>>(elements: Vec<Self>) -> (r: (C0, C1)) {
        let mut c0 = C0::create_new();
        let mut c1 = C1::create_new();
        for e in it: elements.into_iter()
            invariant
                it.seq() == elements@,
                C0::obeys_model() ==> c0@ == absorbed_from::<T0, C0>(
                    Self::routed_0(it.seq().take(it.index() as int)),
                ),
                C1::obeys_model() ==> c1@ == absorbed_from::<T1, C1>(
                    Self::routed_1(it.seq().take(it.index() as int)),
                ),
        {
            proof {
                let i = it.index() as int;
                let stepped = it.seq().take(i + 1);
                assert(stepped.drop_last() =~= it.seq().take(i));
                assert(stepped.last() == e);
                Self::lemma_routed(stepped);
            }
            match e {
                Sum2::V0(p) => {
                    proof {
                        lemma_absorbed_from_push::<T0, C0>(
                            Self::routed_0(it.seq().take(it.index() as int)),
                            e.payload_0(),
                        );
                    }
                    c0.add_element(p);
                },
                Sum2::V1(p) => {
                    proof {
                        lemma_absorbed_from_push::<T1, C1>(
                            Self::routed_1(it.seq().take(it.index() as int)),
                            e.payload_1(),
                        );
                    }
                    c1.add_element(p);
                },
            }
        }
        proof {
            assert(elements@.take(elements@.len() as int) =~= elements@);
        }
        (c0, c1)
    }
}

impl<T0, T1, C0: Container<T0>, C1: Container<T1>> Dispatch<(C0, C1)> for Sum2<T0, T1> {
    open spec fn dispatched(elements: Seq<Self>, output: (C0, C1)) -> bool {
        &&& C0::obeys_model() ==> output.0@ == absorbed_from::<T0, C0>(
            Self::routed_0(elements),
        )
        &&& C1::obeys_model() ==> output.1@ == absorbed_from::<T1, C1>(
            Self::routed_1(elements),
        )
    }

    fn dispatch(elements: Vec<Self>) -> (r: (C0, C1)) {
        Self::partition(elements)
    }
}

/// A sum type with three variants.
pub enum Sum3<T0, T1, T2> {
    /// The variant routed to slot 0.
    V0(T0),
    /// The variant routed to slot 1.
    V1(T1),
    /// The variant routed to slot 2.
    V2(T2),
}

impl<T0, T1, T2> CollectDispatch3<T0, T1, T2> for Sum3<T0, T1, T2> {
    open spec fn slot(self) -> int {
        match self {
            Sum3::V0(_) => 0,
            Sum3::V1(_) => 1,
            Sum3::V2(_) => 2,
        }
    }

    open spec fn payload_0(self) -> T0 {
        match self {
            Sum3::V0(p) => p,
            _ => vstd::pervasive::arbitrary(),
        }
    }

    open spec fn payload_1(self) -> T1 {
        match self {
            Sum3::V1(p) => p,
            _ => vstd::pervasive::arbitrary(),
        }
    }

    open spec fn payload_2(self) -> T2 {
        match self {
            Sum3::V2(p) => p,
            _ => vstd::pervasive::arbitrary(),
        }
    }

    proof fn lemma_slot_in_range(e: Self) {
    }

    proof fn lemma_routed(s: Seq<Self>) {
        if s.len() == 0 {
            assert(Self::routed_0(s) =~= Seq::<T0>::empty());
            assert(Self::routed_1(s) =~= Seq::<T1>::empty());
            assert(Self::routed_2(s) =~= Seq::<T2>::empty());
        } else {
            let rest = s.drop_last();
            if s.last().slot() == 0 {
                assert(Self::routed_0(s) =~= Self::routed_0(rest).push(
                    s.last().payload_0(),
                ));
                assert(Self::routed_1(s) =~= Self::routed_1(rest));
                assert(Self::routed_2(s) =~= Self::routed_2(rest));
            } else if s.last().slot() == 1 {
                assert(Self::routed_0(s) =~= Self::routed_0(rest));
                assert(Self::routed_1(s) =~= Self::routed_1(rest).push(
                    s.last().payload_1(),
                ));
                assert(Self::routed_2(s) =~= Self::routed_2(rest));
            } else if s.last().slot() == 2 {
                assert(Self::routed_0(s) =~= Self::routed_0(rest));
                assert(Self::routed_1(s) =~= Self::routed_1(rest));
                assert(Self::routed_2(s) =~= Self::routed_2(rest).push(
                    s.last().payload_2(),
                ));
            } else {
                assert(Self::routed_0(s) =~= Self::routed_0(rest));
                assert(Self::routed_1(s) =~= Self::routed_1(rest));
                assert(Self::routed_2(s) =~= Self::routed_2(rest));
            }
        }
    }

    fn partition<
        C0: Container<T0>,
        C1: Container<T1>,
        C2: Container<T2>,
    >(elements: Vec<Self>) -> (r: (C0, C1, C2)) {
        let mut c0 = C0::create_new();
        let mut c1 = C1::create_new();
        let mut c2 = C2::create_new();
        for e in it: elements.into_iter()
            invariant
                it.seq() == elements@,
                C0::obeys_model() ==> c0@ == absorbed_from::<T0, C0>(
                    Self::routed_0(it.seq().take(it.index() as int)),
                ),
                C1::obeys_model() ==> c1@ == absorbed_from::<T1, C1>(
                    Self::routed_1(it.seq().take(it.index() as int)),
                ),
                C2::obeys_model() ==> c2@ == absorbed_from::<T2, C2>(
                    Self::routed_2(it.seq().take(it.index() as int)),
                ),
        {
            proof {
                let i = it.index() as int;
                let stepped = it.seq().take(i + 1);
                assert(stepped.drop_last() =~= it.seq().take(i));
                assert(stepped.last() == e);
                Self::lemma_routed(stepped);
            }
            match e {
                Sum3::V0(p) => {
                    proof {
                        lemma_absorbed_from_push::<T0, C0>(
                            Self::routed_0(it.seq().take(it.index() as int)),
                            e.payload_0(),
                        );
                    }
                    c0.add_element(p);
                },
                Sum3::V1(p) => {
                    proof {
                        lemma_absorbed_from_push::<T1, C1>(
                            Self::routed_1(it.seq().take(it.index() as int)),
                            e.payload_1(),
                        );
                    }
                    c1.add_element(p);
                },
                Sum3::V2(p) => {
                    proof {
                        lemma_absorbed_from_push::<T2, C2>(
                            Self::routed_2(it.seq().take(it.index() as int)),
                            e.payload_2(),
                        );
                    }
                    c2.add_element(p);
                },
            }
        }
        proof {
            assert(elements@.take(elements@.len() as int) =~= elements@);
        }
        (c0, c1, c2)
    }
}

impl<
    T0,
    T1,
    T2,
    C0: Container<T0>,
    C1: Container<T1>,
    C2: Container<T2>,
> Dispatch<(C0, C1, C2)> for Sum3<T0, T1, T2> {
    open spec fn dispatched(elements: Seq<Self>, output: (C0, C1, C2)) -> bool {
        &&& C0::obeys_model() ==> output.0@ == absorbed_from::<T0, C0>(
            Self::routed_0(elements),
        )
        &&& C1::obeys_model() ==> output.1@ == absorbed_from::<T1, C1>(
            Self::routed_1(elements),
        )
        &&& C2::obeys_model() ==> output.2@ == absorbed_from::<T2, C2>(
            Self::routed_2(elements),
        )
    }

    fn dispatch(elements: Vec<Self>) -> (r: (C0, C1, C2)) {
        Self::partition(elements)
    }
}

/// A sum type with four variants.
pub enum Sum4<T0, T1, T2, T3> {
    /// The variant routed to slot 0.
    V0(T0),
    /// The variant routed to slot 1.
    V1(T1),
    /// The variant routed to slot 2.
    V2(T2),
    /// The variant routed to slot 3.
    V3(T3),
}

impl<T0, T1, T2, T3> CollectDispatch4<T0, T1, T2, T3> for Sum4<T0, T1, T2, T3> {
    open spec fn slot(self) -> int {
        match self {
            Sum4::V0(_) => 0,
            Sum4::V1(_) => 1,
            Sum4::V2(_) => 2,
            Sum4::V3(_) => 3,
        }
    }

    open spec fn payload_0(self) -> T0 {
        match self {
            Sum4::V0(p) => p,
            _ => vstd::pervasive::arbitrary(),
        }
    }

    open spec fn payload_1(self) -> T1 {
        match self {
            Sum4::V1(p) => p,
            _ => vstd::pervasive::arbitrary(),
        }
    }

    open spec fn payload_2(self) -> T2 {
        match self {
            Sum4::V2(p) => p,
            _ => vstd::pervasive::arbitrary(),
        }
    }

    open spec fn payload_3(self) -> T3 {
        match self {
            Sum4::V3(p) => p,
            _ => vstd::pervasive::arbitrary(),
        }
    }

    proof fn lemma_slot_in_range(e: Self) {
    }

    proof fn lemma_routed(s: Seq<Self>) {
        if s.len() == 0 {
            assert(Self::routed_0(s) =~= Seq::<T0>::empty());
            assert(Self::routed_1(s) =~= Seq::<T1>::empty());
            assert(Self::routed_2(s) =~= Seq::<T2>::empty());
            assert(Self::routed_3(s) =~= Seq::<T3>::empty());
        } else {
            let rest = s.drop_last();
            if s.last().slot() == 0 {
                assert(Self::routed_0(s) =~= Self::routed_0(rest).push(
                    s.last().payload_0(),
                ));
                assert(Self::routed_1(s) =~= Self::routed_1(rest));
                assert(Self::routed_2(s) =~= Self::routed_2(rest));
                assert(Self::routed_3(s) =~= Self::routed_3(rest));
            } else if s.last().slot() == 1 {
                assert(Self::routed_0(s) =~= Self::routed_0(rest));
                assert(Self::routed_1(s) =~= Self::routed_1(rest).push(
                    s.last().payload_1(),
                ));
                assert(Self::routed_2(s) =~= Self::routed_2(rest));
                assert(Self::routed_3(s) =~= Self::routed_3(rest));
            } else if s.last().slot() == 2 {
                assert(Self::routed_0(s) =~= Self::routed_0(rest));
                assert(Self::routed_1(s) =~= Self::routed_1(rest));
                assert(Self::routed_2(s) =~= Self::routed_2(rest).push(
                    s.last().payload_2(),
                ));
                assert(Self::routed_3(s) =~= Self::routed_3(rest));
            } else if s.last().slot() == 3 {
                assert(Self::routed_0(s) =~= Self::routed_0(rest));
                assert(Self::routed_1(s) =~= Self::routed_1(rest));
                assert(Self::routed_2(s) =~= Self::routed_2(rest));
                assert(Self::routed_3(s) =~= Self::routed_3(rest).push(
                    s.last().payload_3(),
                ));
            } else {
                assert(Self::routed_0(s) =~= Self::routed_0(rest));
                assert(Self::routed_1(s) =~= Self::routed_1(rest));
                assert(Self::routed_2(s) =~= Self::routed_2(rest));
                assert(Self::routed_3(s) =~= Self::routed_3(rest));
            }
        }
    }

    fn partition<
        C0: Container<T0>,
        C1: Container<T1>,
        C2: Container<T2>,
        C3: Container<T3>,
    >(elements: Vec<Self>) -> (r: (C0, C1, C2, C3)) {
        let mut c0 = C0::create_new();
        let mut c1 = C1::create_new();
        let mut c2 = C2::create_new();
        let mut c3 = C3::create_new();
        for e in it: elements.into_iter()
            invariant
                it.seq() == elements@,
                C0::obeys_model() ==> c0@ == absorbed_from::<T0, C0>(
                    Self::routed_0(it.seq().take(it.index() as int)),
                ),
                C1::obeys_model() ==> c1@ == absorbed_from::<T1, C1>(
                    Self::routed_1(it.seq().take(it.index() as int)),
                ),
                C2::obeys_model() ==> c2@ == absorbed_from::<T2, C2>(
                    Self::routed_2(it.seq().take(it.index() as int)),
                ),
                C3::obeys_model() ==> c3@ == absorbed_from::<T3, C3>(
                    Self::routed_3(it.seq().take(it.index() as int)),
                ),
        {
            proof {
                let i = it.index() as int;
                let stepped = it.seq().take(i + 1);
                assert(stepped.drop_last() =~= it.seq().take(i));
                assert(stepped.last() == e);
                Self::lemma_routed(stepped);
            }
            match e {
                Sum4::V0(p) => {
                    proof {
                        lemma_absorbed_from_push::<T0, C0>(
                            Self::routed_0(it.seq().take(it.index() as int)),
                            e.payload_0(),
                        );
                    }
                    c0.add_element(p);
                },
                Sum4::V1(p) => {
                    proof {
                        lemma_absorbed_from_push::<T1, C1>(
                            Self::routed_1(it.seq().take(it.index() as int)),
                            e.payload_1(),
                        );
                    }
                    c1.add_element(p);
                },
                Sum4::V2(p) => {
                    proof {
                        lemma_absorbed_from_push::<T2, C2>(
                            Self::routed_2(it.seq().take(it.index() as int)),
                            e.payload_2(),
                        );
                    }
                    c2.add_element(p);
                },
                Sum4::V3(p) => {
                    proof {
                        lemma_absorbed_from_push::<T3, C3>(
                            Self::routed_3(it.seq().take(it.index() as int)),
                            e.payload_3(),
                        );
                    }
                    c3.add_element(p);
                },
            }
        }
        proof {
            assert(elements@.take(elements@.len() as int) =~= elements@);
        }
        (c0, c1, c2, c3)
    }
}

impl<
    T0,
    T1,
    T2,
    T3,
    C0: Container<T0>,
    C1: Container<T1>,
    C2: Container<T2>,
    C3: Container<T3>,
> Dispatch<(C0, C1, C2, C3)> for Sum4<T0, T1, T2, T3> {
    open spec fn dispatched(elements: Seq<Self>, output: (C0, C1, C2, C3)) -> bool {
        &&& C0::obeys_model() ==> output.0@ == absorbed_from::<T0, C0>(
            Self::routed_0(elements),
        )
        &&& C1::obeys_model() ==> output.1@ == absorbed_from::<T1, C1>(
            Self::routed_1(elements),
        )
        &&& C2::obeys_model() ==> output.2@ == absorbed_from::<T2, C2>(
            Self::routed_2(elements),
        )
        &&& C3::obeys_model() ==> output.3@ == absorbed_from::<T3, C3>(
            Self::routed_3(elements),
        )
    }

    fn dispatch(elements: Vec<Self>) -> (r: (C0, C1, C2, C3)) {
        Self::partition(elements)
    }
}

/// A sum type with five variants.
pub enum Sum5<T0, T1, T2, T3, T4> {
    /// The variant routed to slot 0.
    V0(T0),
    /// The variant routed to slot 1.
    V1(T1),
    /// The variant routed to slot 2.
    V2(T2),
    /// The variant routed to slot 3.
    V3(T3),
    /// The variant routed to slot 4.
    V4(T4),
}

impl<T0, T1, T2, T3, T4> CollectDispatch5<
    T0,
    T1,
    T2,
    T3,
    T4,
> for Sum5<T0, T1, T2, T3, T4> {
    open spec fn slot(self) -> int {
        match self {
            Sum5::V0(_) => 0,
            Sum5::V1(_) => 1,
            Sum5::V2(_) => 2,
            Sum5::V3(_) => 3,
            Sum5::V4(_) => 4,
        }
    }

    open spec fn payload_0(self) -> T0 {
        match self {
            Sum5::V0(p) => p,
            _ => vstd::pervasive::arbitrary(),
        }
    }

    open spec fn payload_1(self) -> T1 {
        match self {
            Sum5::V1(p) => p,
            _ => vstd::pervasive::arbitrary(),
        }
    }

    open spec fn payload_2(self) -> T2 {
        match self {
            Sum5::V2(p) => p,
            _ => vstd::pervasive::arbitrary(),
        }
    }

    open spec fn payload_3(self) -> T3 {
        match self {
            Sum5::V3(p) => p,
            _ => vstd::pervasive::arbitrary(),
        }
    }

    open spec fn payload_4(self) -> T4 {
        match self {
            Sum5::V4(p) => p,
            _ => vstd::pervasive::arbitrary(),
        }
    }

    proof fn lemma_slot_in_range(e: Self) {
    }

    proof fn lemma_routed(s: Seq<Self>) {
        if s.len() == 0 {
            assert(Self::routed_0(s) =~= Seq::<T0>::empty());
            assert(Self::routed_1(s) =~= Seq::<T1>::empty());
            assert(Self::routed_2(s) =~= Seq::<T2>::empty());
            assert(Self::routed_3(s) =~= Seq::<T3>::empty());
            assert(Self::routed_4(s) =~= Seq::<T4>::empty());
        } else {
            let rest = s.drop_last();
            if s.last().slot() == 0 {
                assert(Self::routed_0(s) =~= Self::routed_0(rest).push(
                    s.last().payload_0(),
                ));
                assert(Self::routed_1(s) =~= Self::routed_1(rest));
                assert(Self::routed_2(s) =~= Self::routed_2(rest));
                assert(Self::routed_3(s) =~= Self::routed_3(rest));
                assert(Self::routed_4(s) =~= Self::routed_4(rest));
            } else if s.last().slot() == 1 {
                assert(Self::routed_0(s) =~= Self::routed_0(rest));
                assert(Self::routed_1(s) =~= Self::routed_1(rest).push(
                    s.last().payload_1(),
                ));
                assert(Self::routed_2(s) =~= Self::routed_2(rest));
                assert(Self::routed_3(s) =~= Self::routed_3(rest));
                assert(Self::routed_4(s) =~= Self::routed_4(rest));
            } else if s.last().slot() == 2 {
                assert(Self::routed_0(s) =~= Self::routed_0(rest));
                assert(Self::routed_1(s) =~= Self::routed_1(rest));
                assert(Self::routed_2(s) =~= Self::routed_2(rest).push(
                    s.last().payload_2(),
                ));
                assert(Self::routed_3(s) =~= Self::routed_3(rest));
                assert(Self::routed_4(s) =~= Self::routed_4(rest));
            } else if s.last().slot() == 3 {
                assert(Self::routed_0(s) =~= Self::routed_0(rest));
                assert(Self::routed_1(s) =~= Self::routed_1(rest));
                assert(Self::routed_2(s) =~= Self::routed_2(rest));
                assert(Self::routed_3(s) =~= Self::routed_3(rest).push(
                    s.last().payload_3(),
                ));
                assert(Self::routed_4(s) =~= Self::routed_4(rest));
            } else if s.last().slot() == 4 {
                assert(Self::routed_0(s) =~= Self::routed_0(rest));
                assert(Self::routed_1(s) =~= Self::routed_1(rest));
                assert(Self::routed_2(s) =~= Self::routed_2(rest));
                assert(Self::routed_3(s) =~= Self::routed_3(rest));
                assert(Self::routed_4(s) =~= Self::routed_4(rest).push(
                    s.last().payload_4(),
                ));
            } else {
                assert(Self::routed_0(s) =~= Self::routed_0(rest));
                assert(Self::routed_1(s) =~= Self::routed_1(rest));
                assert(Self::routed_2(s) =~= Self::routed_2(rest));
                assert(Self::routed_3(s) =~= Self::routed_3(rest));
                assert(Self::routed_4(s) =~= Self::routed_4(rest));
            }
        }
    }

    fn partition<
        C0: Container<T0>,
        C1: Container<T1>,
        C2: Container<T2>,
        C3: Container<T3>,
        C4: Container<T4>,
    >(elements: Vec<Self>) -> (r: (C0, C1, C2, C3, C4)) {
        let mut c0 = C0::create_new();
        let mut c1 = C1::create_new();
        let mut c2 = C2::create_new();
        let mut c3 = C3::create_new();
        let mut c4 = C4::create_new();
        for e in it: elements.into_iter()
            invariant
                it.seq() == elements@,
                C0::obeys_model() ==> c0@ == absorbed_from::<T0, C0>(
                    Self::routed_0(it.seq().take(it.index() as int)),
                ),
                C1::obeys_model() ==> c1@ == absorbed_from::<T1, C1>(
                    Self::routed_1(it.seq().take(it.index() as int)),
                ),
                C2::obeys_model() ==> c2@ == absorbed_from::<T2, C2>(
                    Self::routed_2(it.seq().take(it.index() as int)),
                ),
                C3::obeys_model() ==> c3@ == absorbed_from::<T3, C3>(
                    Self::routed_3(it.seq().take(it.index() as int)),
                ),
                C4::obeys_model() ==> c4@ == absorbed_from::<T4, C4>(
                    Self::routed_4(it.seq().take(it.index() as int)),
                ),
        {
            proof {
                let i = it.index() as int;
                let stepped = it.seq().take(i + 1);
                assert(stepped.drop_last() =~= it.seq().take(i));
                assert(stepped.last() == e);
                Self::lemma_routed(stepped);
            }
            match e {
                Sum5::V0(p) => {
                    proof {
                        lemma_absorbed_from_push::<T0, C0>(
                            Self::routed_0(it.seq().take(it.index() as int)),
                            e.payload_0(),
                        );
                    }
                    c0.add_element(p);
                },
                Sum5::V1(p) => {
                    proof {
                        lemma_absorbed_from_push::<T1, C1>(
                            Self::routed_1(it.seq().take(it.index() as int)),
                            e.payload_1(),
                        );
                    }
                    c1.add_element(p);
                },
                Sum5::V2(p) => {
                    proof {
                        lemma_absorbed_from_push::<T2, C2>(
                            Self::routed_2(it.seq().take(it.index() as int)),
                            e.payload_2(),
                        );
                    }
                    c2.add_element(p);
                },
                Sum5::V3(p) => {
                    proof {
                        lemma_absorbed_from_push::<T3, C3>(
                            Self::routed_3(it.seq().take(it.index() as int)),
                            e.payload_3(),
                        );
                    }
                    c3.add_element(p);
                },
                Sum5::V4(p) => {
                    proof {
                        lemma_absorbed_from_push::<T4, C4>(
                            Self::routed_4(it.seq().take(it.index() as int)),
                            e.payload_4(),
                        );
                    }
                    c4.add_element(p);
                },
            }
        }
        proof {
            assert(elements@.take(elements@.len() as int) =~= elements@);
        }
        (c0, c1, c2, c3, c4)
    }
}

impl<
    T0,
    T1,
    T2,
    T3,
    T4,
    C0: Container<T0>,
    C1: Container<T1>,
    C2: Container<T2>,
    C3: Container<T3>,
    C4: Container<T4>,
> Dispatch<(C0, C1, C2, C3, C4)> for Sum5<T0, T1, T2, T3, T4> {
    open spec fn dispatched(elements: Seq<Self>, output: (C0, C1, C2, C3, C4)) -> bool {
        &&& C0::obeys_model() ==> output.0@ == absorbed_from::<T0, C0>(
            Self::routed_0(elements),
        )
        &&& C1::obeys_model() ==> output.1@ == absorbed_from::<T1, C1>(
            Self::routed_1(elements),
        )
        &&& C2::obeys_model() ==> output.2@ == absorbed_from::<T2, C2>(
            Self::routed_2(elements),
        )
        &&& C3::obeys_model() ==> output.3@ == absorbed_from::<T3, C3>(
            Self::routed_3(elements),
        )
        &&& C4::obeys_model() ==> output.4@ == absorbed_from::<T4, C4>(
            Self::routed_4(elements),
        )
    }

    fn dispatch(elements: Vec<Self>) -> (r: (C0, C1, C2, C3, C4)) {
        Self::partition(elements)
    }
}

/// A sum type with six variants.
pub enum Sum6<T0, T1, T2, T3, T4, T5> {
    /// The variant routed to slot 0.
    V0(T0),
    /// The variant routed to slot 1.
    V1(T1),
    /// The variant routed to slot 2.
    V2(T2),
    /// The variant routed to slot 3.
    V3(T3),
    /// The variant routed to slot 4.
    V4(T4),
    /// The variant routed to slot 5.
    V5(T5),
}

impl<T0, T1, T2, T3, T4, T5> CollectDispatch6<
    T0,
    T1,
    T2,
    T3,
    T4,
    T5,
> for Sum6<T0, T1, T2, T3, T4, T5> {
    open spec fn slot(self) -> int {
        match self {
            Sum6::V0(_) => 0,
            Sum6::V1(_) => 1,
            Sum6::V2(_) => 2,
            Sum6::V3(_) => 3,
            Sum6::V4(_) => 4,
            Sum6::V5(_) => 5,
        }
    }

    open spec fn payload_0(self) -> T0 {
        match self {
            Sum6::V0(p) => p,
            _ => vstd::pervasive::arbitrary(),
        }
    }

    open spec fn payload_1(self) -> T1 {
        match self {
            Sum6::V1(p) => p,
            _ => vstd::pervasive::arbitrary(),
        }
    }

    open spec fn payload_2(self) -> T2 {
        match self {
            Sum6::V2(p) => p,
            _ => vstd::pervasive::arbitrary(),
        }
    }

    open spec fn payload_3(self) -> T3 {
        match self {
            Sum6::V3(p) => p,
            _ => vstd::pervasive::arbitrary(),
        }
    }

    open spec fn payload_4(self) -> T4 {
        match self {
            Sum6::V4(p) => p,
            _ => vstd::pervasive::arbitrary(),
        }
    }

    open spec fn payload_5(self) -> T5 {
        match self {
            Sum6::V5(p) => p,
            _ => vstd::pervasive::arbitrary(),
        }
    }

    proof fn lemma_slot_in_range(e: Self) {
    }

    proof fn lemma_routed(s: Seq<Self>) {
        if s.len() == 0 {
            assert(Self::routed_0(s) =~= Seq::<T0>::empty());
            assert(Self::routed_1(s) =~= Seq::<T1>::empty());
            assert(Self::routed_2(s) =~= Seq::<T2>::empty());
            assert(Self::routed_3(s) =~= Seq::<T3>::empty());
            assert(Self::routed_4(s) =~= Seq::<T4>::empty());
            assert(Self::routed_5(s) =~= Seq::<T5>::empty());
        } else {
            let rest = s.drop_last();
            if s.last().slot() == 0 {
                assert(Self::routed_0(s) =~= Self::routed_0(rest).push(
                    s.last().payload_0(),
                ));
                assert(Self::routed_1(s) =~= Self::routed_1(rest));
                assert(Self::routed_2(s) =~= Self::routed_2(rest));
                assert(Self::routed_3(s) =~= Self::routed_3(rest));
                assert(Self::routed_4(s) =~= Self::routed_4(rest));
                assert(Self::routed_5(s) =~= Self::routed_5(rest));
            } else if s.last().slot() == 1 {
                assert(Self::routed_0(s) =~= Self::routed_0(rest));
                assert(Self::routed_1(s) =~= Self::routed_1(rest).push(
                    s.last().payload_1(),
                ));
                assert(Self::routed_2(s) =~= Self::routed_2(rest));
                assert(Self::routed_3(s) =~= Self::routed_3(rest));
                assert(Self::routed_4(s) =~= Self::routed_4(rest));
                assert(Self::routed_5(s) =~= Self::routed_5(rest));
            } else if s.last().slot() == 2 {
                assert(Self::routed_0(s) =~= Self::routed_0(rest));
                assert(Self::routed_1(s) =~= Self::routed_1(rest));
                assert(Self::routed_2(s) =~= Self::routed_2(rest).push(
                    s.last().payload_2(),
                ));
                assert(Self::routed_3(s) =~= Self::routed_3(rest));
                assert(Self::routed_4(s) =~= Self::routed_4(rest));
                assert(Self::routed_5(s) =~= Self::routed_5(rest));
            } else if s.last().slot() == 3 {
                assert(Self::routed_0(s) =~= Self::routed_0(rest));
                assert(Self::routed_1(s) =~= Self::routed_1(rest));
                assert(Self::routed_2(s) =~= Self::routed_2(rest));
                assert(Self::routed_3(s) =~= Self::routed_3(rest).push(
                    s.last().payload_3(),
                ));
                assert(Self::routed_4(s) =~= Self::routed_4(rest));
                assert(Self::routed_5(s) =~= Self::routed_5(rest));
            } else if s.last().slot() == 4 {
                assert(Self::routed_0(s) =~= Self::routed_0(rest));
                assert(Self::routed_1(s) =~= Self::routed_1(rest));
                assert(Self::routed_2(s) =~= Self::routed_2(rest));
                assert(Self::routed_3(s) =~= Self::routed_3(rest));
                assert(Self::routed_4(s) =~= Self::routed_4(rest).push(
                    s.last().payload_4(),
                ));
                assert(Self::routed_5(s) =~= Self::routed_5(rest));
            } else if s.last().slot() == 5 {
                assert(Self::routed_0(s) =~= Self::routed_0(rest));
                assert(Self::routed_1(s) =~= Self::routed_1(rest));
                assert(Self::routed_2(s) =~= Self::routed_2(rest));
                assert(Self::routed_3(s) =~= Self::routed_3(rest));
                assert(Self::routed_4(s) =~= Self::routed_4(rest));
                assert(Self::routed_5(s) =~= Self::routed_5(rest).push(
                    s.last().payload_5(),
                ));
            } else {
                assert(Self::routed_0(s) =~= Self::routed_0(rest));
                assert(Self::routed_1(s) =~= Self::routed_1(rest));
                assert(Self::routed_2(s) =~= Self::routed_2(rest));
                assert(Self::routed_3(s) =~= Self::routed_3(rest));
                assert(Self::routed_4(s) =~= Self::routed_4(rest));
                assert(Self::routed_5(s) =~= Self::routed_5(rest));
            }
        }
    }

    fn partition<
        C0: Container<T0>,
        C1: Container<T1>,
        C2: Container<T2>,
        C3: Container<T3>,
        C4: Container<T4>,
        C5: Container<T5>,
    >(elements: Vec<Self>) -> (r: (C0, C1, C2, C3, C4, C5)) {
        let mut c0 = C0::create_new();
        let mut c1 = C1::create_new();
        let mut c2 = C2::create_new();
        let mut c3 = C3::create_new();
        let mut c4 = C4::create_new();
        let mut c5 = C5::create_new();
        for e in it: elements.into_iter()
            invariant
                it.seq() == elements@,
                C0::obeys_model() ==> c0@ == absorbed_from::<T0, C0>(
                    Self::routed_0(it.seq().take(it.index() as int)),
                ),
                C1::obeys_model() ==> c1@ == absorbed_from::<T1, C1>(
                    Self::routed_1(it.seq().take(it.index() as int)),
                ),
                C2::obeys_model() ==> c2@ == absorbed_from::<T2, C2>(
                    Self::routed_2(it.seq().take(it.index() as int)),
                ),
                C3::obeys_model() ==> c3@ == absorbed_from::<T3, C3>(
                    Self::routed_3(it.seq().take(it.index() as int)),
                ),
                C4::obeys_model() ==> c4@ == absorbed_from::<T4, C4>(
                    Self::routed_4(it.seq().take(it.index() as int)),
                ),
                C5::obeys_model() ==> c5@ == absorbed_from::<T5, C5>(
                    Self::routed_5(it.seq().take(it.index() as int)),
                ),
        {
            proof {
                let i = it.index() as int;
                let stepped = it.seq().take(i + 1);
                assert(stepped.drop_last() =~= it.seq().take(i));
                assert(stepped.last() == e);
                Self::lemma_routed(stepped);
            }
            match e {
                Sum6::V0(p) => {
                    proof {
                        lemma_absorbed_from_push::<T0, C0>(
                            Self::routed_0(it.seq().take(it.index() as int)),
                            e.payload_0(),
                        );
                    }
                    c0.add_element(p);
                },
                Sum6::V1(p) => {
                    proof {
                        lemma_absorbed_from_push::<T1, C1>(
                            Self::routed_1(it.seq().take(it.index() as int)),
                            e.payload_1(),
                        );
                    }
                    c1.add_element(p);
                },
                Sum6::V2(p) => {
                    proof {
                        lemma_absorbed_from_push::<T2, C2>(
                            Self::routed_2(it.seq().take(it.index() as int)),
                            e.payload_2(),
                        );
                    }
                    c2.add_element(p);
                },
                Sum6::V3(p) => {
                    proof {
                        lemma_absorbed_from_push::<T3, C3>(
                            Self::routed_3(it.seq().take(it.index() as int)),
                            e.payload_3(),
                        );
                    }
                    c3.add_element(p);
                },
                Sum6::V4(p) => {
                    proof {
                        lemma_absorbed_from_push::<T4, C4>(
                            Self::routed_4(it.seq().take(it.index() as int)),
                            e.payload_4(),
                        );
                    }
                    c4.add_element(p);
                },
                Sum6::V5(p) => {
                    proof {
                        lemma_absorbed_from_push::<T5, C5>(
                            Self::routed_5(it.seq().take(it.index() as int)),
                            e.payload_5(),
                        );
                    }
                    c5.add_element(p);
                },
            }
        }
        proof {
            assert(elements@.take(elements@.len() as int) =~= elements@);
        }
        (c0, c1, c2, c3, c4, c5)
    }
}

impl<
    T0,
    T1,
    T2,
    T3,
    T4,
    T5,
    C0: Container<T0>,
    C1: Container<T1>,
    C2: Container<T2>,
    C3: Container<T3>,
    C4: Container<T4>,
    C5: Container<T5>,
> Dispatch<(C0, C1, C2, C3, C4, C5)> for Sum6<T0, T1, T2, T3, T4, T5> {
    open spec fn dispatched(elements: Seq<Self>, output: (C0, C1, C2, C3, C4, C5)) -> bool {
        &&& C0::obeys_model() ==> output.0@ == absorbed_from::<T0, C0>(
            Self::routed_0(elements),
        )
        &&& C1::obeys_model() ==> output.1@ == absorbed_from::<T1, C1>(
            Self::routed_1(elements),
        )
        &&& C2::obeys_model() ==> output.2@ == absorbed_from::<T2, C2>(
            Self::routed_2(elements),
        )
        &&& C3::obeys_model() ==> output.3@ == absorbed_from::<T3, C3>(
            Self::routed_3(elements),
        )
        &&& C4::obeys_model() ==> output.4@ == absorbed_from::<T4, C4>(
            Self::routed_4(elements),
        )
        &&& C5::obeys_model() ==> output.5@ == absorbed_from::<T5, C5>(
            Self::routed_5(elements),
        )
    }

    fn dispatch(elements: Vec<Self>) -> (r: (C0, C1, C2, C3, C4, C5)) {
        Self::partition(elements)
    }
}

/// A sum type with seven variants.
pub enum Sum7<T0, T1, T2, T3, T4, T5, T6> {
    /// The variant routed to slot 0.
    V0(T0),
    /// The variant routed to slot 1.
    V1(T1),
    /// The variant routed to slot 2.
    V2(T2),
    /// The variant routed to slot 3.
    V3(T3),
    /// The variant routed to slot 4.
    V4(T4),
    /// The variant routed to slot 5.
    V5(T5),
    /// The variant routed to slot 6.
    V6(T6),
}

impl<T0, T1, T2, T3, T4, T5, T6> CollectDispatch7<
    T0,
    T1,
    T2,
    T3,
    T4,
    T5,
    T6,
> for Sum7<T0, T1, T2, T3, T4, T5, T6> {
    open spec fn slot(self) -> int {
        match self {
            Sum7::V0(_) => 0,
            Sum7::V1(_) => 1,
            Sum7::V2(_) => 2,
            Sum7::V3(_) => 3,
            Sum7::V4(_) => 4,
            Sum7::V5(_) => 5,
            Sum7::V6(_) => 6,
        }
    }

    open spec fn payload_0(self) -> T0 {
        match self {
            Sum7::V0(p) => p,
            _ => vstd::pervasive::arbitrary(),
        }
    }

    open spec fn payload_1(self) -> T1 {
        match self {
            Sum7::V1(p) => p,
            _ => vstd::pervasive::arbitrary(),
        }
    }

    open spec fn payload_2(self) -> T2 {
        match self {
            Sum7::V2(p) => p,
            _ => vstd::pervasive::arbitrary(),
        }
    }

    open spec fn payload_3(self) -> T3 {
        match self {
            Sum7::V3(p) => p,
            _ => vstd::pervasive::arbitrary(),
        }
    }

    open spec fn payload_4(self) -> T4 {
        match self {
            Sum7::V4(p) => p,
            _ => vstd::pervasive::arbitrary(),
        }
    }

    open spec fn payload_5(self) -> T5 {
        match self {
            Sum7::V5(p) => p,
            _ => vstd::pervasive::arbitrary(),
        }
    }

    open spec fn payload_6(self) -> T6 {
        match self {
            Sum7::V6(p) => p,
            _ => vstd::pervasive::arbitrary(),
        }
    }

    proof fn lemma_slot_in_range(e: Self) {
    }

    proof fn lemma_routed(s: Seq<Self>) {
        if s.len() == 0 {
            assert(Self::routed_0(s) =~= Seq::<T0>::empty());
            assert(Self::routed_1(s) =~= Seq::<T1>::empty());
            assert(Self::routed_2(s) =~= Seq::<T2>::empty());
            assert(Self::routed_3(s) =~= Seq::<T3>::empty());
            assert(Self::routed_4(s) =~= Seq::<T4>::empty());
            assert(Self::routed_5(s) =~= Seq::<T5>::empty());
            assert(Self::routed_6(s) =~= Seq::<T6>::empty());
        } else {
            let rest = s.drop_last();
            if s.last().slot() == 0 {
                assert(Self::routed_0(s) =~= Self::routed_0(rest).push(
                    s.last().payload_0(),
                ));
                assert(Self::routed_1(s) =~= Self::routed_1(rest));
                assert(Self::routed_2(s) =~= Self::routed_2(rest));
                assert(Self::routed_3(s) =~= Self::routed_3(rest));
                assert(Self::routed_4(s) =~= Self::routed_4(rest));
                assert(Self::routed_5(s) =~= Self::routed_5(rest));
                assert(Self::routed_6(s) =~= Self::routed_6(rest));
            } else if s.last().slot() == 1 {
                assert(Self::routed_0(s) =~= Self::routed_0(rest));
                assert(Self::routed_1(s) =~= Self::routed_1(rest).push(
                    s.last().payload_1(),
                ));
                assert(Self::routed_2(s) =~= Self::routed_2(rest));
                assert(Self::routed_3(s) =~= Self::routed_3(rest));
                assert(Self::routed_4(s) =~= Self::routed_4(rest));
                assert(Self::routed_5(s) =~= Self::routed_5(rest));
                assert(Self::routed_6(s) =~= Self::routed_6(rest));
            } else if s.last().slot() == 2 {
                assert(Self::routed_0(s) =~= Self::routed_0(rest));
                assert(Self::routed_1(s) =~= Self::routed_1(rest));
                assert(Self::routed_2(s) =~= Self::routed_2(rest).push(
                    s.last().payload_2(),
                ));
                assert(Self::routed_3(s) =~= Self::routed_3(rest));
                assert(Self::routed_4(s) =~= Self::routed_4(rest));
                assert(Self::routed_5(s) =~= Self::routed_5(rest));
                assert(Self::routed_6(s) =~= Self::routed_6(rest));
            } else if s.last().slot() == 3 {
                assert(Self::routed_0(s) =~= Self::routed_0(rest));
                assert(Self::routed_1(s) =~= Self::routed_1(rest));
                assert(Self::routed_2(s) =~= Self::routed_2(rest));
                assert(Self::routed_3(s) =~= Self::routed_3(rest).push(
                    s.last().payload_3(),
                ));
                assert(Self::routed_4(s) =~= Self::routed_4(rest));
                assert(Self::routed_5(s) =~= Self::routed_5(rest));
                assert(Self::routed_6(s) =~= Self::routed_6(rest));
            } else if s.last().slot() == 4 {
                assert(Self::routed_0(s) =~= Self::routed_0(rest));
                assert(Self::routed_1(s) =~= Self::routed_1(rest));
                assert(Self::routed_2(s) =~= Self::routed_2(rest));
                assert(Self::routed_3(s) =~= Self::routed_3(rest));
                assert(Self::routed_4(s) =~= Self::routed_4(rest).push(
                    s.last().payload_4(),
                ));
                assert(Self::routed_5(s) =~= Self::routed_5(rest));
                assert(Self::routed_6(s) =~= Self::routed_6(rest));
            } else if s.last().slot() == 5 {
                assert(Self::routed_0(s) =~= Self::routed_0(rest));
                assert(Self::routed_1(s) =~= Self::routed_1(rest));
                assert(Self::routed_2(s) =~= Self::routed_2(rest));
                assert(Self::routed_3(s) =~= Self::routed_3(rest));
                assert(Self::routed_4(s) =~= Self::routed_4(rest));
                assert(Self::routed_5(s) =~= Self::routed_5(rest).push(
                    s.last().payload_5(),
                ));
                assert(Self::routed_6(s) =~= Self::routed_6(rest));
            } else if s.last().slot() == 6 {
                assert(Self::routed_0(s) =~= Self::routed_0(rest));
                assert(Self::routed_1(s) =~= Self::routed_1(rest));
                assert(Self::routed_2(s) =~= Self::routed_2(rest));
                assert(Self::routed_3(s) =~= Self::routed_3(rest));
                assert(Self::routed_4(s) =~= Self::routed_4(rest));
                assert(Self::routed_5(s) =~= Self::routed_5(rest));
                assert(Self::routed_6(s) =~= Self::routed_6(rest).push(
                    s.last().payload_6(),
                ));
            } else {
                assert(Self::routed_0(s) =~= Self::routed_0(rest));
                assert(Self::routed_1(s) =~= Self::routed_1(rest));
                assert(Self::routed_2(s) =~= Self::routed_2(rest));
                assert(Self::routed_3(s) =~= Self::routed_3(rest));
                assert(Self::routed_4(s) =~= Self::routed_4(rest));
                assert(Self::routed_5(s) =~= Self::routed_5(rest));
                assert(Self::routed_6(s) =~= Self::routed_6(rest));
            }
        }
    }

    fn partition<
        C0: Container<T0>,
        C1: Container<T1>,
        C2: Container<T2>,
        C3: Container<T3>,
        C4: Container<T4>,
        C5: Container<T5>,
        C6: Container<T6>,
    >(elements: Vec<Self>) -> (r: (C0, C1, C2, C3, C4, C5, C6)) {
        let mut c0 = C0::create_new();
        let mut c1 = C1::create_new();
        let mut c2 = C2::create_new();
        let mut c3 = C3::create_new();
        let mut c4 = C4::create_new();
        let mut c5 = C5::create_new();
        let mut c6 = C6::create_new();
        for e in it: elements.into_iter()
            invariant
                it.seq() == elements@,
                C0::obeys_model() ==> c0@ == absorbed_from::<T0, C0>(
                    Self::routed_0(it.seq().take(it.index() as int)),
                ),
                C1::obeys_model() ==> c1@ == absorbed_from::<T1, C1>(
                    Self::routed_1(it.seq().take(it.index() as int)),
                ),
                C2::obeys_model() ==> c2@ == absorbed_from::<T2, C2>(
                    Self::routed_2(it.seq().take(it.index() as int)),
                ),
                C3::obeys_model() ==> c3@ == absorbed_from::<T3, C3>(
                    Self::routed_3(it.seq().take(it.index() as int)),
                ),
                C4::obeys_model() ==> c4@ == absorbed_from::<T4, C4>(
                    Self::routed_4(it.seq().take(it.index() as int)),
                ),
                C5::obeys_model() ==> c5@ == absorbed_from::<T5, C5>(
                    Self::routed_5(it.seq().take(it.index() as int)),
                ),
                C6::obeys_model() ==> c6@ == absorbed_from::<T6, C6>(
                    Self::routed_6(it.seq().take(it.index() as int)),
                ),
        {
            proof {
                let i = it.index() as int;
                let stepped = it.seq().take(i + 1);
                assert(stepped.drop_last() =~= it.seq().take(i));
                assert(stepped.last() == e);
                Self::lemma_routed(stepped);
            }
            match e {
                Sum7::V0(p) => {
                    proof {
                        lemma_absorbed_from_push::<T0, C0>(
                            Self::routed_0(it.seq().take(it.index() as int)),
                            e.payload_0(),
                        );
                    }
                    c0.add_element(p);
                },
                Sum7::V1(p) => {
                    proof {
                        lemma_absorbed_from_push::<T1, C1>(
                            Self::routed_1(it.seq().take(it.index() as int)),
                            e.payload_1(),
                        );
                    }
                    c1.add_element(p);
                },
                Sum7::V2(p) => {
                    proof {
                        lemma_absorbed_from_push::<T2, C2>(
                            Self::routed_2(it.seq().take(it.index() as int)),
                            e.payload_2(),
                        );
                    }
                    c2.add_element(p);
                },
                Sum7::V3(p) => {
                    proof {
                        lemma_absorbed_from_push::<T3, C3>(
                            Self::routed_3(it.seq().take(it.index() as int)),
                            e.payload_3(),
                        );
                    }
                    c3.add_element(p);
                },
                Sum7::V4(p) => {
                    proof {
                        lemma_absorbed_from_push::<T4, C4>(
                            Self::routed_4(it.seq().take(it.index() as int)),
                            e.payload_4(),
                        );
                    }
                    c4.add_element(p);
                },
                Sum7::V5(p) => {
                    proof {
                        lemma_absorbed_from_push::<T5, C5>(
                            Self::routed_5(it.seq().take(it.index() as int)),
                            e.payload_5(),
                        );
                    }
                    c5.add_element(p);
                },
                Sum7::V6(p) => {
                    proof {
                        lemma_absorbed_from_push::<T6, C6>(
                            Self::routed_6(it.seq().take(it.index() as int)),
                            e.payload_6(),
                        );
                    }
                    c6.add_element(p);
                },
            }
        }
        proof {
            assert(elements@.take(elements@.len() as int) =~= elements@);
        }
        (c0, c1, c2, c3, c4, c5, c6)
    }
}

impl<
    T0,
    T1,
    T2,
    T3,
    T4,
    T5,
    T6,
    C0: Container<T0>,
    C1: Container<T1>,
    C2: Container<T2>,
    C3: Container<T3>,
    C4: Container<T4>,
    C5: Container<T5>,
    C6: Container<T6>,
> Dispatch<(C0, C1, C2, C3, C4, C5, C6)> for Sum7<T0, T1, T2, T3, T4, T5, T6> {
    open spec fn dispatched(elements: Seq<Self>, output: (C0, C1, C2, C3, C4, C5, C6)) -> bool {
        &&& C0::obeys_model() ==> output.0@ == absorbed_from::<T0, C0>(
            Self::routed_0(elements),
        )
        &&& C1::obeys_model() ==> output.1@ == absorbed_from::<T1, C1>(
            Self::routed_1(elements),
        )
        &&& C2::obeys_model() ==> output.2@ == absorbed_from::<T2, C2>(
            Self::routed_2(elements),
        )
        &&& C3::obeys_model() ==> output.3@ == absorbed_from::<T3, C3>(
            Self::routed_3(elements),
        )
        &&& C4::obeys_model() ==> output.4@ == absorbed_from::<T4, C4>(
            Self::routed_4(elements),
        )
        &&& C5::obeys_model() ==> output.5@ == absorbed_from::<T5, C5>(
            Self::routed_5(elements),
        )
        &&& C6::obeys_model() ==> output.6@ == absorbed_from::<T6, C6>(
            Self::routed_6(elements),
        )
    }

    fn dispatch(elements: Vec<Self>) -> (r: (C0, C1, C2, C3, C4, C5, C6)) {
        Self::partition(elements)
    }
}

/// A sum type with eight variants.
pub enum Sum8<T0, T1, T2, T3, T4, T5, T6, T7> {
    /// The variant routed to slot 0.
    V0(T0),
    /// The variant routed to slot 1.
    V1(T1),
    /// The variant routed to slot 2.
    V2(T2),
    /// The variant routed to slot 3.
    V3(T3),
    /// The variant routed to slot 4.
    V4(T4),
    /// The variant routed to slot 5.
    V5(T5),
    /// The variant routed to slot 6.
    V6(T6),
    /// The variant routed to slot 7.
    V7(T7),
}

impl<T0, T1, T2, T3, T4, T5, T6, T7> CollectDispatch8<
    T0,
    T1,
    T2,
    T3,
    T4,
    T5,
    T6,
    T7,
> for Sum8<T0, T1, T2, T3, T4, T5, T6, T7> {
    open spec fn slot(self) -> int {
        match self {
            Sum8::V0(_) => 0,
            Sum8::V1(_) => 1,
            Sum8::V2(_) => 2,
            Sum8::V3(_) => 3,
            Sum8::V4(_) => 4,
            Sum8::V5(_) => 5,
            Sum8::V6(_) => 6,
            Sum8::V7(_) => 7,
        }
    }

    open spec fn payload_0(self) -> T0 {
        match self {
            Sum8::V0(p) => p,
            _ => vstd::pervasive::arbitrary(),
        }
    }

    open spec fn payload_1(self) -> T1 {
        match self {
            Sum8::V1(p) => p,
            _ => vstd::pervasive::arbitrary(),
        }
    }

    open spec fn payload_2(self) -> T2 {
        match self {
            Sum8::V2(p) => p,
            _ => vstd::pervasive::arbitrary(),
        }
    }

    open spec fn payload_3(self) -> T3 {
        match self {
            Sum8::V3(p) => p,
            _ => vstd::pervasive::arbitrary(),
        }
    }

    open spec fn payload_4(self) -> T4 {
        match self {
            Sum8::V4(p) => p,
            _ => vstd::pervasive::arbitrary(),
        }
    }

    open spec fn payload_5(self) -> T5 {
        match self {
            Sum8::V5(p) => p,
            _ => vstd::pervasive::arbitrary(),
        }
    }

    open spec fn payload_6(self) -> T6 {
        match self {
            Sum8::V6(p) => p,
            _ => vstd::pervasive::arbitrary(),
        }
    }

    open spec fn payload_7(self) -> T7 {
        match self {
            Sum8::V7(p) => p,
            _ => vstd::pervasive::arbitrary(),
        }
    }

    proof fn lemma_slot_in_range(e: Self) {
    }

    proof fn lemma_routed(s: Seq<Self>) {
        if s.len() == 0 {
            assert(Self::routed_0(s) =~= Seq::<T0>::empty());
            assert(Self::routed_1(s) =~= Seq::<T1>::empty());
            assert(Self::routed_2(s) =~= Seq::<T2>::empty());
            assert(Self::routed_3(s) =~= Seq::<T3>::empty());
            assert(Self::routed_4(s) =~= Seq::<T4>::empty());
            assert(Self::routed_5(s) =~= Seq::<T5>::empty());
            assert(Self::routed_6(s) =~= Seq::<T6>::empty());
            assert(Self::routed_7(s) =~= Seq::<T7>::empty());
        } else {
            let rest = s.drop_last();
            if s.last().slot() == 0 {
                assert(Self::routed_0(s) =~= Self::routed_0(rest).push(
                    s.last().payload_0(),
                ));
                assert(Self::routed_1(s) =~= Self::routed_1(rest));
                assert(Self::routed_2(s) =~= Self::routed_2(rest));
                assert(Self::routed_3(s) =~= Self::routed_3(rest));
                assert(Self::routed_4(s) =~= Self::routed_4(rest));
                assert(Self::routed_5(s) =~= Self::routed_5(rest));
                assert(Self::routed_6(s) =~= Self::routed_6(rest));
                assert(Self::routed_7(s) =~= Self::routed_7(rest));
            } else if s.last().slot() == 1 {
                assert(Self::routed_0(s) =~= Self::routed_0(rest));
                assert(Self::routed_1(s) =~= Self::routed_1(rest).push(
                    s.last().payload_1(),
                ));
                assert(Self::routed_2(s) =~= Self::routed_2(rest));
                assert(Self::routed_3(s) =~= Self::routed_3(rest));
                assert(Self::routed_4(s) =~= Self::routed_4(rest));
                assert(Self::routed_5(s) =~= Self::routed_5(rest));
                assert(Self::routed_6(s) =~= Self::routed_6(rest));
                assert(Self::routed_7(s) =~= Self::routed_7(rest));
            } else if s.last().slot() == 2 {
                assert(Self::routed_0(s) =~= Self::routed_0(rest));
                assert(Self::routed_1(s) =~= Self::routed_1(rest));
                assert(Self::routed_2(s) =~= Self::routed_2(rest).push(
                    s.last().payload_2(),
                ));
                assert(Self::routed_3(s) =~= Self::routed_3(rest));
                assert(Self::routed_4(s) =~= Self::routed_4(rest));
                assert(Self::routed_5(s) =~= Self::routed_5(rest));
                assert(Self::routed_6(s) =~= Self::routed_6(rest));
                assert(Self::routed_7(s) =~= Self::routed_7(rest));
            } else if s.last().slot() == 3 {
                assert(Self::routed_0(s) =~= Self::routed_0(rest));
                assert(Self::routed_1(s) =~= Self::routed_1(rest));
                assert(Self::routed_2(s) =~= Self::routed_2(rest));
                assert(Self::routed_3(s) =~= Self::routed_3(rest).push(
                    s.last().payload_3(),
                ));
                assert(Self::routed_4(s) =~= Self::routed_4(rest));
                assert(Self::routed_5(s) =~= Self::routed_5(rest));
                assert(Self::routed_6(s) =~= Self::routed_6(rest));
                assert(Self::routed_7(s) =~= Self::routed_7(rest));
            } else if s.last().slot() == 4 {
                assert(Self::routed_0(s) =~= Self::routed_0(rest));
                assert(Self::routed_1(s) =~= Self::routed_1(rest));
                assert(Self::routed_2(s) =~= Self::routed_2(rest));
                assert(Self::routed_3(s) =~= Self::routed_3(rest));
                assert(Self::routed_4(s) =~= Self::routed_4(rest).push(
                    s.last().payload_4(),
                ));
                assert(Self::routed_5(s) =~= Self::routed_5(rest));
                assert(Self::routed_6(s) =~= Self::routed_6(rest));
                assert(Self::routed_7(s) =~= Self::routed_7(rest));
            } else if s.last().slot() == 5 {
                assert(Self::routed_0(s) =~= Self::routed_0(rest));
                assert(Self::routed_1(s) =~= Self::routed_1(rest));
                assert(Self::routed_2(s) =~= Self::routed_2(rest));
                assert(Self::routed_3(s) =~= Self::routed_3(rest));
                assert(Self::routed_4(s) =~= Self::routed_4(rest));
                assert(Self::routed_5(s) =~= Self::routed_5(rest).push(
                    s.last().payload_5(),
                ));
                assert(Self::routed_6(s) =~= Self::routed_6(rest));
                assert(Self::routed_7(s) =~= Self::routed_7(rest));
            } else if s.last().slot() == 6 {
                assert(Self::routed_0(s) =~= Self::routed_0(rest));
                assert(Self::routed_1(s) =~= Self::routed_1(rest));
                assert(Self::routed_2(s) =~= Self::routed_2(rest));
                assert(Self::routed_3(s) =~= Self::routed_3(rest));
                assert(Self::routed_4(s) =~= Self::routed_4(rest));
                assert(Self::routed_5(s) =~= Self::routed_5(rest));
                assert(Self::routed_6(s) =~= Self::routed_6(rest).push(
                    s.last().payload_6(),
                ));
                assert(Self::routed_7(s) =~= Self::routed_7(rest));
            } else if s.last().slot() == 7 {
                assert(Self::routed_0(s) =~= Self::routed_0(rest));
                assert(Self::routed_1(s) =~= Self::routed_1(rest));
                assert(Self::routed_2(s) =~= Self::routed_2(rest));
                assert(Self::routed_3(s) =~= Self::routed_3(rest));
                assert(Self::routed_4(s) =~= Self::routed_4(rest));
                assert(Self::routed_5(s) =~= Self::routed_5(rest));
                assert(Self::routed_6(s) =~= Self::routed_6(rest));
                assert(Self::routed_7(s) =~= Self::routed_7(rest).push(
                    s.last().payload_7(),
                ));
            } else {
                assert(Self::routed_0(s) =~= Self::routed_0(rest));
                assert(Self::routed_1(s) =~= Self::routed_1(rest));
                assert(Self::routed_2(s) =~= Self::routed_2(rest));
                assert(Self::routed_3(s) =~= Self::routed_3(rest));
                assert(Self::routed_4(s) =~= Self::routed_4(rest));
                assert(Self::routed_5(s) =~= Self::routed_5(rest));
                assert(Self::routed_6(s) =~= Self::routed_6(rest));
                assert(Self::routed_7(s) =~= Self::routed_7(rest));
            }
        }
    }

    fn partition<
        C0: Container<T0>,
        C1: Container<T1>,
        C2: Container<T2>,
        C3: Container<T3>,
        C4: Container<T4>,
        C5: Container<T5>,
        C6: Container<T6>,
        C7: Container<T7>,
    >(elements: Vec<Self>) -> (r: (C0, C1, C2, C3, C4, C5, C6, C7)) {
        let mut c0 = C0::create_new();
        let mut c1 = C1::create_new();
        let mut c2 = C2::create_new();
        let mut c3 = C3::create_new();
        let mut c4 = C4::create_new();
        let mut c5 = C5::create_new();
        let mut c6 = C6::create_new();
        let mut c7 = C7::create_new();
        for e in it: elements.into_iter()
            invariant
                it.seq() == elements@,
                C0::obeys_model() ==> c0@ == absorbed_from::<T0, C0>(
                    Self::routed_0(it.seq().take(it.index() as int)),
                ),
                C1::obeys_model() ==> c1@ == absorbed_from::<T1, C1>(
                    Self::routed_1(it.seq().take(it.index() as int)),
                ),
                C2::obeys_model() ==> c2@ == absorbed_from::<T2, C2>(
                    Self::routed_2(it.seq().take(it.index() as int)),
                ),
                C3::obeys_model() ==> c3@ == absorbed_from::<T3, C3>(
                    Self::routed_3(it.seq().take(it.index() as int)),
                ),
                C4::obeys_model() ==> c4@ == absorbed_from::<T4, C4>(
                    Self::routed_4(it.seq().take(it.index() as int)),
                ),
                C5::obeys_model() ==> c5@ == absorbed_from::<T5, C5>(
                    Self::routed_5(it.seq().take(it.index() as int)),
                ),
                C6::obeys_model() ==> c6@ == absorbed_from::<T6, C6>(
                    Self::routed_6(it.seq().take(it.index() as int)),
                ),
                C7::obeys_model() ==> c7@ == absorbed_from::<T7, C7>(
                    Self::routed_7(it.seq().take(it.index() as int)),
                ),
        {
            proof {
                let i = it.index() as int;
                let stepped = it.seq().take(i + 1);
                assert(stepped.drop_last() =~= it.seq().take(i));
                assert(stepped.last() == e);
                Self::lemma_routed(stepped);
            }
            match e {
                Sum8::V0(p) => {
                    proof {
                        lemma_absorbed_from_push::<T0, C0>(
                            Self::routed_0(it.seq().take(it.index() as int)),
                            e.payload_0(),
                        );
                    }
                    c0.add_element(p);
                },
                Sum8::V1(p) => {
                    proof {
                        lemma_absorbed_from_push::<T1, C1>(
                            Self::routed_1(it.seq().take(it.index() as int)),
                            e.payload_1(),
                        );
                    }
                    c1.add_element(p);
                },
                Sum8::V2(p) => {
                    proof {
                        lemma_absorbed_from_push::<T2, C2>(
                            Self::routed_2(it.seq().take(it.index() as int)),
                            e.payload_2(),
                        );
                    }
                    c2.add_element(p);
                },
                Sum8::V3(p) => {
                    proof {
                        lemma_absorbed_from_push::<T3, C3>(
                            Self::routed_3(it.seq().take(it.index() as int)),
                            e.payload_3(),
                        );
                    }
                    c3.add_element(p);
                },
                Sum8::V4(p) => {
                    proof {
                        lemma_absorbed_from_push::<T4, C4>(
                            Self::routed_4(it.seq().take(it.index() as int)),
                            e.payload_4(),
                        );
                    }
                    c4.add_element(p);
                },
                Sum8::V5(p) => {
                    proof {
                        lemma_absorbed_from_push::<T5, C5>(
                            Self::routed_5(it.seq().take(it.index() as int)),
                            e.payload_5(),
                        );
                    }
                    c5.add_element(p);
                },
                Sum8::V6(p) => {
                    proof {
                        lemma_absorbed_from_push::<T6, C6>(
                            Self::routed_6(it.seq().take(it.index() as int)),
                            e.payload_6(),
                        );
                    }
                    c6.add_element(p);
                },
                Sum8::V7(p) => {
                    proof {
                        lemma_absorbed_from_push::<T7, C7>(
                            Self::routed_7(it.seq().take(it.index() as int)),
                            e.payload_7(),
                        );
                    }
                    c7.add_element(p);
                },
            }
        }
        proof {
            assert(elements@.take(elements@.len() as int) =~= elements@);
        }
        (c0, c1, c2, c3, c4, c5, c6, c7)
    }
}

impl<
    T0,
    T1,
    T2,
    T3,
    T4,
    T5,
    T6,
    T7,
    C0: Container<T0>,
    C1: Container<T1>,
    C2: Container<T2>,
    C3: Container<T3>,
    C4: Container<T4>,
    C5: Container<T5>,
    C6: Container<T6>,
    C7: Container<T7>,
> Dispatch<(C0, C1, C2, C3, C4, C5, C6, C7)> for Sum8<T0, T1, T2, T3, T4, T5, T6, T7> {
    open spec fn dispatched(elements: Seq<Self>, output: (C0, C1, C2, C3, C4, C5, C6, C7)) -> bool {
        &&& C0::obeys_model() ==> output.0@ == absorbed_from::<T0, C0>(
            Self::routed_0(elements),
        )
        &&& C1::obeys_model() ==> output.1@ == absorbed_from::<T1, C1>(
            Self::routed_1(elements),
        )
        &&& C2::obeys_model() ==> output.2@ == absorbed_from::<T2, C2>(
            Self::routed_2(elements),
        )
        &&& C3::obeys_model() ==> output.3@ == absorbed_from::<T3, C3>(
            Self::routed_3(elements),
        )
        &&& C4::obeys_model() ==> output.4@ == absorbed_from::<T4, C4>(
            Self::routed_4(elements),
        )
        &&& C5::obeys_model() ==> output.5@ == absorbed_from::<T5, C5>(
            Self::routed_5(elements),
        )
        &&& C6::obeys_model() ==> output.6@ == absorbed_from::<T6, C6>(
            Self::routed_6(elements),
        )
        &&& C7::obeys_model() ==> output.7@ == absorbed_from::<T7, C7>(
            Self::routed_7(elements),
        )
    }

    fn dispatch(elements: Vec<Self>) -> (r: (C0, C1, C2, C3, C4, C5, C6, C7)) {
        Self::partition(elements)
    }
}


} // verus!
