//! The [`Maybe`] trait and its two implementations [`An`] and [`No`]
//! describe a compile-time optional value.
//!
//! [`An<A>`] marks a payload of type `A` that is present at run time.
//! [`No<A>`] marks the absence of any payload: the library never
//! constructs one in a live position, and every operation that would
//! read a payload out of a marker carries `present()` as a
//! precondition, so on a [`No`] such an operation can only be reached
//! from a contradiction.

use vstd::prelude::*;

verus! {

/// A value of type `A` that exists.
///
/// See the notes on [`Maybe`] for a deeper explanation.
#[derive(Debug, Clone)]
pub struct An<A>(pub A);

/// A value of type `A` that cannot exist.
///
/// The library never places a [`No`] in the live position of a
/// tagged value; its `present()` is `false`, so none of the payload
/// accessors of [`Maybe`] can ever be invoked on one.
#[derive(Debug)]
pub struct No<A> {
    marker: core::marker::PhantomData<A>,
}

impl<A> No<A> {
    /// The one place a [`No`] marker is minted: mapping an absent
    /// marker to an absent marker over another type. No payload is
    /// involved, so nothing about presence changes.
    fn mint() -> (r: No<A>)
        ensures
            !r.present(),
    {
        No { marker: core::marker::PhantomData }
    }
}

/// A type-level optional value.
///
/// The two implementations are [`An<T>`], which holds a payload, and
/// [`No<T>`], which never exists at run time. Every accessor requires
/// `present()`, which is `false` for [`No`], so an accessor on a
/// [`No`] is only callable where the verifier already has a
/// contradiction in scope.
pub trait Maybe: Sized {
    /// The type whose presence or absence is in question.
    type Inner;

    /// Whether a value of this marker can exist at run time.
    spec fn present(self) -> bool;

    /// The payload carried by the marker; meaningful only when
    /// `present()` holds.
    spec fn value(self) -> Self::Inner;

    /// Yield a reference to the inner value.
    fn inner(&self) -> (r: &Self::Inner)
        requires
            self.present(),
        ensures
            *r == self.value(),
    ;

    /// Yield a mutable reference to the inner value.
    fn inner_mut(&mut self) -> (r: &mut Self::Inner)
        requires
            old(self).present(),
        ensures
            *r == old(self).value(),
            final(self).present(),
            final(self).value() == *final(r),
    ;

    /// Recover the inner value from the wrapper.
    fn unwrap(self) -> (r: Self::Inner)
        requires
            self.present(),
        ensures
            r == self.value(),
    ;

    /// Duplicate the wrapper by cloning the inner value.
    fn dup(&self) -> (r: Self) where Self::Inner: Clone
        requires
            self.present(),
        ensures
            r.present(),
            vstd::pervasive::cloned::<Self::Inner>(self.value(), r.value()),
    ;

    /// Run a function on the inner value that either succeeds or
    /// gives back the inner value.
    fn unwrap_try<T, F: FnOnce(Self::Inner) -> Result<T, Self::Inner>>(self, f: F) -> (r: Result<
        T,
        Self,
    >)
        requires
            self.present(),
            call_requires(f, (self.value(),)),
        ensures
            r matches Ok(t) ==> call_ensures(f, (self.value(),), Ok(t)),
            r matches Err(m) ==> m.present() && call_ensures(
                f,
                (self.value(),),
                Err(m.value()),
            ),
    ;

    /// Run a function on the inner value that either succeeds or
    /// gives back the inner value together with an error value.
    fn unwrap_try_x<T, E, F: FnOnce(Self::Inner) -> Result<T, (Self::Inner, E)>>(
        self,
        f: F,
    ) -> (r: Result<T, (Self, E)>)
        requires
            self.present(),
            call_requires(f, (self.value(),)),
        ensures
            r matches Ok(t) ==> call_ensures(f, (self.value(),), Ok(t)),
            r matches Err((m, e)) ==> m.present() && call_ensures(
                f,
                (self.value(),),
                Err((m.value(), e)),
            ),
    ;

}

/// A type-level function describing the result of a [`Maybe::map`]
/// operation.
pub trait MaybeMap<NewInner>: Maybe {
    /// A [`Maybe`] with the inner type replaced by `NewInner`.
    type Out: Maybe<Inner = NewInner>;

    /// Map the payload, if one is present; an absent marker maps to
    /// an absent marker without the function being invoked.
    fn do_map<F: FnOnce(Self::Inner) -> NewInner>(self, f: F) -> (r: Self::Out)
        requires
            self.present() ==> call_requires(f, (self.value(),)),
        ensures
            r.present() == self.present(),
            self.present() ==> call_ensures(f, (self.value(),), r.value()),
    ;
}

/// A trait characterizing a never-existing value.
pub trait Impossible {
    /// Whether a live value of this type can be at hand at run time.
    spec fn reachable(self) -> bool;

    /// Conjure up anything from the nonexistent value.
    ///
    /// A live receiver can never satisfy the precondition, so a call
    /// is only accepted where the surrounding code is already proven
    /// unreachable.
    fn absurd<T>(&self) -> (r: T)
        requires
            self.reachable(),
    ;
}

impl<A> Maybe for An<A> {
    type Inner = A;

    open spec fn present(self) -> bool {
        true
    }

    open spec fn value(self) -> A {
        self.0
    }

    fn inner(&self) -> (r: &A) {
        &self.0
    }

    fn inner_mut(&mut self) -> (r: &mut A) {
        &mut self.0
    }

    fn unwrap(self) -> (r: A) {
        self.0
    }

    fn dup(&self) -> (r: Self) where A: Clone {
        An(self.0.clone())
    }

    fn unwrap_try<T, F: FnOnce(A) -> Result<T, A>>(self, f: F) -> (r: Result<T, Self>) {
        match f(self.0) {
            Ok(t) => Ok(t),
            Err(inner) => Err(An(inner)),
        }
    }

    fn unwrap_try_x<T, E, F: FnOnce(A) -> Result<T, (A, E)>>(self, f: F) -> (r: Result<
        T,
        (Self, E),
    >) {
        match f(self.0) {
            Ok(t) => Ok(t),
            Err((inner, e)) => Err((An(inner), e)),
        }
    }
}

impl<A> An<A> {
    /// Apply a function to the contained value while keeping the
    /// result contained.
    pub fn map<B, F: FnOnce(A) -> B>(self, f: F) -> (r: An<B>)
        requires
            call_requires(f, (self.0,)),
        ensures
            call_ensures(f, (self.0,), r.0),
    {
        self.do_map(f)
    }
}

impl<A, B> MaybeMap<B> for An<A> {
    type Out = An<B>;

    fn do_map<F: FnOnce(A) -> B>(self, f: F) -> (r: An<B>) {
        An(f(self.0))
    }
}

impl<A> Maybe for No<A> {
    type Inner = A;

    open spec fn present(self) -> bool {
        false
    }

    open spec fn value(self) -> A {
        vstd::pervasive::arbitrary()
    }

    fn inner(&self) -> (r: &A) {
        vstd::pervasive::unreached()
    }

    fn inner_mut(&mut self) -> (r: &mut A) {
        vstd::pervasive::unreached()
    }

    fn unwrap(self) -> (r: A) {
        vstd::pervasive::unreached()
    }

    fn dup(&self) -> (r: Self) where A: Clone {
        vstd::pervasive::unreached()
    }

    fn unwrap_try<T, F: FnOnce(A) -> Result<T, A>>(self, f: F) -> (r: Result<T, Self>) {
        vstd::pervasive::unreached()
    }

    fn unwrap_try_x<T, E, F: FnOnce(A) -> Result<T, (A, E)>>(self, f: F) -> (r: Result<
        T,
        (Self, E),
    >) {
        vstd::pervasive::unreached()
    }
}

impl<A> No<A> {
    /// Map an absent marker to an absent marker over another type;
    /// the function is never invoked.
    pub fn map<B, F: FnOnce(A) -> B>(self, f: F) -> (r: No<B>)
        ensures
            !r.present(),
    {
        self.do_map(f)
    }
}

impl<A, B> MaybeMap<B> for No<A> {
    type Out = No<B>;

    fn do_map<F: FnOnce(A) -> B>(self, f: F) -> (r: No<B>) {
        No::mint()
    }
}

impl<A> Impossible for No<A> {
    open spec fn reachable(self) -> bool {
        self.present()
    }

    fn absurd<T>(&self) -> (r: T) {
        vstd::pervasive::unreached()
    }
}

/// Safe conversion between [`Maybe`]s.
///
/// An [`An<A>`] may only be cast into itself; a [`No<A>`] may be
/// cast into any [`An<B>`] or any other [`No<B>`], since the
/// [`No<A>`] cannot exist in the first place, so the cast can never
/// actually happen. Present-to-absent conversions have no
/// implementation at all.
pub trait Relax<Target: Maybe>: Maybe {
    /// The payload after relaxation: the identity in every case that
    /// can occur at run time.
    spec fn relax_value(v: Self::Inner) -> Target::Inner;

    /// Cast `self` into another type of [`Maybe`].
    fn relax(self) -> (r: Target)
        requires
            self.present(),
        ensures
            r.present(),
            r.value() == Self::relax_value(self.value()),
    ;
}

impl<A> Relax<An<A>> for An<A> {
    open spec fn relax_value(v: A) -> A {
        v
    }

    fn relax(self) -> (r: An<A>) {
        self
    }
}

impl<A, B> Relax<An<B>> for No<A> {
    open spec fn relax_value(v: A) -> B {
        vstd::pervasive::arbitrary()
    }

    fn relax(self) -> (r: An<B>) {
        vstd::pervasive::unreached()
    }
}

impl<A, B> Relax<No<B>> for No<A> {
    open spec fn relax_value(v: A) -> B {
        vstd::pervasive::arbitrary()
    }

    fn relax(self) -> (r: No<B>) {
        vstd::pervasive::unreached()
    }
}

} // verus!
