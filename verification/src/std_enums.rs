//! Partition operations for sum types of the standard library: the
//! binary-outcome type `Result` and the borrowed-or-owned type `Cow`.
//!
//! Both are two-variant sum types, so both implement the arity-2 dispatcher
//! contract and the general [`Dispatch`] capability.  In addition, each has a
//! convenience extension trait on sequences of its values: `CollectResult`
//! separates successes from failures, and `CollectCow` separates borrowed
//! from owned data.

use std::borrow::Cow;
use std::borrow::ToOwned;

use vstd::prelude::*;

use crate::container::Container;
use crate::container::absorbed_from;
use crate::container::lemma_absorbed_from_push;
use crate::dispatch::Dispatch;
use crate::dispatchers::CollectDispatch2;

verus! {

broadcast use vstd::std_specs::vec::axiom_spec_into_iter;

/// The payloads of the `Ok` elements of `s`, in their order of appearance.
pub open spec fn ok_payloads<T, E>(s: Seq<Result<T, E>>) -> Seq<T> {
    <Result<T, E> as CollectDispatch2<T, E>>::routed_0(s)
}

/// The payloads of the `Err` elements of `s`, in their order of appearance.
pub open spec fn err_payloads<T, E>(s: Seq<Result<T, E>>) -> Seq<E> {
    <Result<T, E> as CollectDispatch2<T, E>>::routed_1(s)
}

impl<T, E> CollectDispatch2<T, E> for Result<T, E> {
    open spec fn slot(self) -> int {
        match self {
            Ok(_) => 0,
            Err(_) => 1,
        }
    }

    open spec fn payload_0(self) -> T {
        match self {
            Ok(t) => t,
            Err(_) => vstd::pervasive::arbitrary(),
        }
    }

    open spec fn payload_1(self) -> E {
        match self {
            Ok(_) => vstd::pervasive::arbitrary(),
            Err(e) => e,
        }
    }

    proof fn lemma_slot_in_range(e: Self) {
    }

    proof fn lemma_routed(s: Seq<Self>) {
        if s.len() == 0 {
            assert(Self::routed_0(s) =~= Seq::<T>::empty());
            assert(Self::routed_1(s) =~= Seq::<E>::empty());
        } else {
            let rest = s.drop_last();
            if s.last().slot() == 0 {
                assert(Self::routed_0(s) =~= Self::routed_0(rest).push(s.last().payload_0()));
                assert(Self::routed_1(s) =~= Self::routed_1(rest));
            } else {
                assert(Self::routed_0(s) =~= Self::routed_0(rest));
                assert(Self::routed_1(s) =~= Self::routed_1(rest).push(s.last().payload_1()));
            }
        }
    }

    fn partition<C0: Container<T>, C1: Container<E>>(elements: Vec<Self>) -> (r: (C0, C1)) {
        let mut c0 = C0::create_new();
        let mut c1 = C1::create_new();
        for e in it: elements.into_iter()
            invariant
                it.seq() == elements@,
                C0::obeys_model() ==> c0@ == absorbed_from::<T, C0>(
                    Self::routed_0(it.seq().take(it.index() as int)),
                ),
                C1::obeys_model() ==> c1@ == absorbed_from::<E, C1>(
                    Self::routed_1(it.seq().take(it.index() as int)),
                ),
        {
            proof {
                let i = it.index() as int;
                let stepped = it.seq().take(i + 1);
                assert(stepped.drop_last() =~= it.seq().take(i));
                assert(stepped.last() == e);
                Self::lemma_routed(stepped);
            }
            match e {
                Ok(t) => {
                    proof {
                        lemma_absorbed_from_push::<T, C0>(
                            Self::routed_0(it.seq().take(it.index() as int)),
                            e.payload_0(),
                        );
                    }
                    c0.add_element(t);
                },
                Err(e1) => {
                    proof {
                        lemma_absorbed_from_push::<E, C1>(
                            Self::routed_1(it.seq().take(it.index() as int)),
                            e.payload_1(),
                        );
                    }
                    c1.add_element(e1);
                },
            }
        }
        proof {
            assert(elements@.take(elements@.len() as int) =~= elements@);
        }
        (c0, c1)
    }
}

impl<T, E, C: Container<T>, D: Container<E>> Dispatch<(C, D)> for Result<T, E> {
    open spec fn dispatched(elements: Seq<Self>, output: (C, D)) -> bool {
        &&& C::obeys_model() ==> output.0@ == absorbed_from::<T, C>(ok_payloads(elements))
        &&& D::obeys_model() ==> output.1@ == absorbed_from::<E, D>(err_payloads(elements))
    }

    fn dispatch(elements: Vec<Self>) -> (r: (C, D)) {
        Self::partition(elements)
    }
}

/// Collects the values of a sequence of `Result`s by dispatching `Ok`
/// payloads and `Err` payloads into two different containers.
pub trait CollectResult<T, E>: View<V = Seq<Result<T, E>>> + Sized {
    /// Collects the values and dispatches them: successes into the first
    /// container, failures into the second, each in order of appearance.
    fn dispatch_result<C: Container<T>, D: Container<E>>(self) -> (r: (C, D))
        ensures
            C::obeys_model() ==> r.0@ == absorbed_from::<T, C>(ok_payloads(self@)),
            D::obeys_model() ==> r.1@ == absorbed_from::<E, D>(err_payloads(self@)),
    ;
}

impl<T, E> CollectResult<T, E> for Vec<Result<T, E>> {
    fn dispatch_result<C: Container<T>, D: Container<E>>(self) -> (r: (C, D)) {
        <Result<T, E> as CollectDispatch2<T, E>>::partition(self)
    }
}

/// The borrowed references among the elements of `s`, in their order of
/// appearance.
pub open spec fn borrowed_payloads<'a, B: 'a + ToOwned + ?Sized>(s: Seq<Cow<'a, B>>) -> Seq<
    &'a B,
> {
    <Cow<'a, B> as CollectDispatch2<&'a B, <B as ToOwned>::Owned>>::routed_0(s)
}

/// The owned values among the elements of `s`, in their order of appearance.
pub open spec fn owned_payloads<'a, B: 'a + ToOwned + ?Sized>(s: Seq<Cow<'a, B>>) -> Seq<
    <B as ToOwned>::Owned,
> {
    <Cow<'a, B> as CollectDispatch2<&'a B, <B as ToOwned>::Owned>>::routed_1(s)
}

impl<'a, B: 'a + ToOwned + ?Sized> CollectDispatch2<&'a B, <B as ToOwned>::Owned> for Cow<'a, B> {
    open spec fn slot(self) -> int {
        match self {
            Cow::Borrowed(_) => 0,
            Cow::Owned(_) => 1,
        }
    }

    open spec fn payload_0(self) -> &'a B {
        match self {
            Cow::Borrowed(b) => b,
            Cow::Owned(_) => vstd::pervasive::arbitrary(),
        }
    }

    open spec fn payload_1(self) -> <B as ToOwned>::Owned {
        match self {
            Cow::Borrowed(_) => vstd::pervasive::arbitrary(),
            Cow::Owned(o) => o,
        }
    }

    proof fn lemma_slot_in_range(e: Self) {
    }

    proof fn lemma_routed(s: Seq<Self>) {
        if s.len() == 0 {
            assert(Self::routed_0(s) =~= Seq::<&'a B>::empty());
            assert(Self::routed_1(s) =~= Seq::<<B as ToOwned>::Owned>::empty());
        } else {
            let rest = s.drop_last();
            if s.last().slot() == 0 {
                assert(Self::routed_0(s) =~= Self::routed_0(rest).push(s.last().payload_0()));
                assert(Self::routed_1(s) =~= Self::routed_1(rest));
            } else {
                assert(Self::routed_0(s) =~= Self::routed_0(rest));
                assert(Self::routed_1(s) =~= Self::routed_1(rest).push(s.last().payload_1()));
            }
        }
    }

    fn partition<C0: Container<&'a B>, C1: Container<<B as ToOwned>::Owned>>(
        elements: Vec<Self>,
    ) -> (r: (C0, C1)) {
        let mut c0 = C0::create_new();
        let mut c1 = C1::create_new();
        for e in it: elements.into_iter()
            invariant
                it.seq() == elements@,
                C0::obeys_model() ==> c0@ == absorbed_from::<&'a B, C0>(
                    Self::routed_0(it.seq().take(it.index() as int)),
                ),
                C1::obeys_model() ==> c1@ == absorbed_from::<<B as ToOwned>::Owned, C1>(
                    Self::routed_1(it.seq().take(it.index() as int)),
                ),
        {
            proof {
                let i = it.index() as int;
                let stepped = it.seq().take(i + 1);
                assert(stepped.drop_last() =~= it.seq().take(i));
                assert(stepped.last() == e);
                Self::lemma_routed(stepped);
            }
            match e {
                Cow::Borrowed(b) => {
                    proof {
                        lemma_absorbed_from_push::<&'a B, C0>(
                            Self::routed_0(it.seq().take(it.index() as int)),
                            e.payload_0(),
                        );
                    }
                    c0.add_element(b);
                },
                Cow::Owned(o) => {
                    proof {
                        lemma_absorbed_from_push::<<B as ToOwned>::Owned, C1>(
                            Self::routed_1(it.seq().take(it.index() as int)),
                            e.payload_1(),
                        );
                    }
                    c1.add_element(o);
                },
            }
        }
        proof {
            assert(elements@.take(elements@.len() as int) =~= elements@);
        }
        (c0, c1)
    }
}

impl<
    'a,
    B: 'a + ToOwned + ?Sized,
    C: Container<&'a B>,
    D: Container<<B as ToOwned>::Owned>,
> Dispatch<(C, D)> for Cow<'a, B> {
    open spec fn dispatched(elements: Seq<Self>, output: (C, D)) -> bool {
        &&& C::obeys_model() ==> output.0@ == absorbed_from::<&'a B, C>(
            borrowed_payloads(elements),
        )
        &&& D::obeys_model() ==> output.1@ == absorbed_from::<<B as ToOwned>::Owned, D>(
            owned_payloads(elements),
        )
    }

    fn dispatch(elements: Vec<Self>) -> (r: (C, D)) {
        <Cow<'a, B> as CollectDispatch2<&'a B, <B as ToOwned>::Owned>>::partition(elements)
    }
}

/// Collects the values of a sequence of `Cow`s by dispatching borrowed data
/// and owned data into two different containers.
pub trait CollectCow<'a, B: 'a + ToOwned + ?Sized>: View<V = Seq<Cow<'a, B>>> + Sized {
    /// Collects the values and dispatches them: borrowed data into the first
    /// container, owned data into the second, each in order of appearance.
    fn dispatch_cow<C: Container<&'a B>, D: Container<<B as ToOwned>::Owned>>(self) -> (r: (C, D))
        ensures
            C::obeys_model() ==> r.0@ == absorbed_from::<&'a B, C>(borrowed_payloads(self@)),
            D::obeys_model() ==> r.1@ == absorbed_from::<<B as ToOwned>::Owned, D>(
                owned_payloads(self@),
            ),
    ;
}

impl<'a, B: 'a + ToOwned + ?Sized> CollectCow<'a, B> for Vec<Cow<'a, B>> {
    fn dispatch_cow<C: Container<&'a B>, D: Container<<B as ToOwned>::Owned>>(self) -> (r: (
        C,
        D,
    )) {
        <Cow<'a, B> as CollectDispatch2<&'a B, <B as ToOwned>::Owned>>::partition(self)
    }
}

} // verus!
