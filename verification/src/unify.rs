//! Type-level machinery to allow [`Eso::unify`](crate::eso::Eso::unify)
//! and [`Eso::unsplit`](crate::eso::Eso::unsplit) to work.
//!
//! The [`Unify`] trait specifies the rules by which two [`Maybe`]
//! types can be merged: a present marker unifies with a present
//! marker of the same inner type, and an absent marker yields to
//! whatever stands on the other side, because no live value of the
//! absent side ever needs to be produced. The payload of the side
//! that is injected is carried over unchanged, which the `unify_a`
//! and `unify_b` spec functions record.
//!
//! [`Unify3`] applies the [`Unify`] rules between three types.

use vstd::prelude::*;

use crate::eso::Eso;
use crate::maybe::An;
use crate::maybe::Maybe;
use crate::maybe::No;

verus! {

/// A type `A` that can be unified with another type `B`.
///
/// A present marker unifies with a present marker of the same inner
/// type, producing that same marker type; an absent marker unifies
/// with anything, producing the other side, since no live value of
/// the absent side can ever reach the injection.
pub trait Unify<B>: Sized {
    /// The result of unifying `Self` and `B`.
    type Out;

    /// Whether a live value of `Self` can reach [`Unify::inject_a`].
    spec fn a_live(self) -> bool;

    /// Whether a live value of `B` can reach [`Unify::inject_b`].
    spec fn b_live(b: B) -> bool;

    /// What injecting a value of type `Self` produces.
    spec fn unify_a(self) -> Self::Out;

    /// What injecting a value of type `B` produces.
    spec fn unify_b(b: B) -> Self::Out;

    /// Make an `Out` value, given a value of type `Self`.
    fn inject_a(self) -> (r: Self::Out)
        requires
            self.a_live(),
        ensures
            r == self.unify_a(),
    ;

    /// Make an `Out` value, given a value of type `B`.
    fn inject_b(b: B) -> (r: Self::Out)
        requires
            Self::b_live(b),
        ensures
            r == Self::unify_b(b),
    ;
}

impl<T, U> Unify<An<T>> for No<U> {
    type Out = An<T>;

    open spec fn a_live(self) -> bool {
        self.present()
    }

    open spec fn b_live(b: An<T>) -> bool {
        true
    }

    open spec fn unify_a(self) -> An<T> {
        vstd::pervasive::arbitrary()
    }

    open spec fn unify_b(b: An<T>) -> An<T> {
        b
    }

    fn inject_a(self) -> (r: An<T>) {
        vstd::pervasive::unreached()
    }

    fn inject_b(b: An<T>) -> (r: An<T>) {
        b
    }
}

impl<T, U> Unify<No<U>> for An<T> {
    type Out = An<T>;

    open spec fn a_live(self) -> bool {
        true
    }

    open spec fn b_live(b: No<U>) -> bool {
        b.present()
    }

    open spec fn unify_a(self) -> An<T> {
        self
    }

    open spec fn unify_b(b: No<U>) -> An<T> {
        vstd::pervasive::arbitrary()
    }

    fn inject_a(self) -> (r: An<T>) {
        self
    }

    fn inject_b(b: No<U>) -> (r: An<T>) {
        vstd::pervasive::unreached()
    }
}

impl<T> Unify<An<T>> for An<T> {
    type Out = An<T>;

    open spec fn a_live(self) -> bool {
        true
    }

    open spec fn b_live(b: An<T>) -> bool {
        true
    }

    open spec fn unify_a(self) -> An<T> {
        self
    }

    open spec fn unify_b(b: An<T>) -> An<T> {
        b
    }

    fn inject_a(self) -> (r: An<T>) {
        self
    }

    fn inject_b(b: An<T>) -> (r: An<T>) {
        b
    }
}

impl<T, U> Unify<No<U>> for No<T> {
    type Out = No<T>;

    open spec fn a_live(self) -> bool {
        true
    }

    open spec fn b_live(b: No<U>) -> bool {
        b.present()
    }

    open spec fn unify_a(self) -> No<T> {
        self
    }

    open spec fn unify_b(b: No<U>) -> No<T> {
        vstd::pervasive::arbitrary()
    }

    fn inject_a(self) -> (r: No<T>) {
        self
    }

    fn inject_b(b: No<U>) -> (r: No<T>) {
        vstd::pervasive::unreached()
    }
}

impl<AE, AS, AO, BE, BS, BO> Unify<Eso<BE, BS, BO>> for Eso<AE, AS, AO> where
    AE: Unify<BE>,
    AS: Unify<BS>,
    AO: Unify<BO>,
 {
    type Out = Eso<AE::Out, AS::Out, AO::Out>;

    open spec fn a_live(self) -> bool {
        match self {
            Eso::E(e) => e.a_live(),
            Eso::S(s) => s.a_live(),
            Eso::O(o) => o.a_live(),
        }
    }

    open spec fn b_live(b: Eso<BE, BS, BO>) -> bool {
        match b {
            Eso::E(e) => <AE as Unify<BE>>::b_live(e),
            Eso::S(s) => <AS as Unify<BS>>::b_live(s),
            Eso::O(o) => <AO as Unify<BO>>::b_live(o),
        }
    }

    open spec fn unify_a(self) -> Self::Out {
        match self {
            Eso::E(e) => Eso::E(e.unify_a()),
            Eso::S(s) => Eso::S(s.unify_a()),
            Eso::O(o) => Eso::O(o.unify_a()),
        }
    }

    open spec fn unify_b(b: Eso<BE, BS, BO>) -> Self::Out {
        match b {
            Eso::E(e) => Eso::E(<AE as Unify<BE>>::unify_b(e)),
            Eso::S(s) => Eso::S(<AS as Unify<BS>>::unify_b(s)),
            Eso::O(o) => Eso::O(<AO as Unify<BO>>::unify_b(o)),
        }
    }

    fn inject_a(self) -> (r: Self::Out) {
        match self {
            Eso::E(e) => Eso::E(e.inject_a()),
            Eso::S(s) => Eso::S(s.inject_a()),
            Eso::O(o) => Eso::O(o.inject_a()),
        }
    }

    fn inject_b(b: Eso<BE, BS, BO>) -> (r: Self::Out) {
        match b {
            Eso::E(e) => Eso::E(<AE as Unify<BE>>::inject_b(e)),
            Eso::S(s) => Eso::S(<AS as Unify<BS>>::inject_b(s)),
            Eso::O(o) => Eso::O(<AO as Unify<BO>>::inject_b(o)),
        }
    }
}

/// Shorthand for unifying three types by applying [`Unify`] twice.
pub trait Unify3<B, C>: Sized {
    /// The resulting type when unifying `Self`, `B`, and `C`.
    type Out3;

    /// Whether a live value of `Self` can reach [`Unify3::inject3_a`].
    spec fn a3_live(self) -> bool;

    /// Whether a live value of `B` can reach [`Unify3::inject3_b`].
    spec fn b3_live(b: B) -> bool;

    /// Whether a live value of `C` can reach [`Unify3::inject3_c`].
    spec fn c3_live(c: C) -> bool;

    /// What injecting a value of type `Self` produces.
    spec fn unify3_a(self) -> Self::Out3;

    /// What injecting a value of type `B` produces.
    spec fn unify3_b(b: B) -> Self::Out3;

    /// What injecting a value of type `C` produces.
    spec fn unify3_c(c: C) -> Self::Out3;

    /// Make an `Out3` value, given a value of type `Self`.
    fn inject3_a(self) -> (r: Self::Out3)
        requires
            self.a3_live(),
        ensures
            r == self.unify3_a(),
    ;

    /// Make an `Out3` value, given a value of type `B`.
    fn inject3_b(b: B) -> (r: Self::Out3)
        requires
            Self::b3_live(b),
        ensures
            r == Self::unify3_b(b),
    ;

    /// Make an `Out3` value, given a value of type `C`.
    fn inject3_c(c: C) -> (r: Self::Out3)
        requires
            Self::c3_live(c),
        ensures
            r == Self::unify3_c(c),
    ;
}

impl<A, B, C> Unify3<B, C> for A where A: Unify<B>, A::Out: Unify<C> {
    type Out3 = <A::Out as Unify<C>>::Out;

    open spec fn a3_live(self) -> bool {
        self.a_live() && self.unify_a().a_live()
    }

    open spec fn b3_live(b: B) -> bool {
        A::b_live(b) && A::unify_b(b).a_live()
    }

    open spec fn c3_live(c: C) -> bool {
        <A::Out as Unify<C>>::b_live(c)
    }

    open spec fn unify3_a(self) -> Self::Out3 {
        self.unify_a().unify_a()
    }

    open spec fn unify3_b(b: B) -> Self::Out3 {
        A::unify_b(b).unify_a()
    }

    open spec fn unify3_c(c: C) -> Self::Out3 {
        <A::Out as Unify<C>>::unify_b(c)
    }

    fn inject3_a(self) -> (r: Self::Out3) {
        let ab = self.inject_a();
        ab.inject_a()
    }

    fn inject3_b(b: B) -> (r: Self::Out3) {
        let ab = A::inject_b(b);
        ab.inject_a()
    }

    fn inject3_c(c: C) -> (r: Self::Out3) {
        <A::Out as Unify<C>>::inject_b(c)
    }
}

} // verus!
