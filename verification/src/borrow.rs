//! The [`Take`] and [`Borrow`] traits abstract over the duality
//! between owned and borrowed types, much in the same way as the
//! standard-library borrow and to-owned traits do, but generalized:
//! a "reference" here need not be a literal Rust reference, and each
//! operation carries a specification relating the two sides.
//!
//! [`Borrow`] produces a reference-like view of a value; [`Take`]
//! clones the thing a generalized reference denotes into an owned
//! form. The spec functions `borrows` and `owns` say, per
//! implementation, what a produced view or owned copy is worth: for
//! the string and slice instances they state equality of contents,
//! and for the generic clone-based instances they state that the
//! result is a clone of the source.

use vstd::prelude::*;

use std::rc::Rc;
use std::sync::Arc;

verus! {

/// A value that can be borrowed as a generalized reference of type
/// `T`.
///
/// The difference to the standard-library borrow trait is that this
/// trait allows view types that are not actually references.
pub trait Borrow<'a, T>: Sized {
    /// When `r` is a faithful view of this value.
    spec fn borrows(self, r: T) -> bool;

    /// Borrow a generalized reference of type `T`.
    fn borrow(&'a self) -> (r: T)
        ensures
            (*self).borrows(r),
    ;
}

/// A version of the standard to-owned trait describing *generalized*
/// references from which an owned form can be cloned.
pub trait Take<O>: Sized {
    /// When `o` is a faithful owned copy of the thing this
    /// generalized reference denotes.
    spec fn owns(self, o: O) -> bool;

    /// Clone the thing denoted by a generalized reference into one
    /// that is owned, consuming the reference.
    fn own(self) -> (r: O)
        ensures
            self.owns(r),
    ;

    /// Clone the thing denoted by a generalized reference into one
    /// that is owned without consuming the reference.
    fn to_owned(&self) -> (r: O)
        ensures
            (*self).owns(r),
    ;
}

impl<'a, T> Borrow<'a, &'a T> for T {
    open spec fn borrows(self, r: &'a T) -> bool {
        *r == self
    }

    fn borrow(&'a self) -> (r: &'a T) {
        self
    }
}

impl<'a, 'b: 'a, T: ?Sized> Borrow<'a, &'a T> for &'b T {
    open spec fn borrows(self, r: &'a T) -> bool {
        r == self
    }

    fn borrow(&'a self) -> (r: &'a T) {
        *self
    }
}

impl<'a> Borrow<'a, &'a str> for String {
    open spec fn borrows(self, r: &'a str) -> bool {
        r@ == self@
    }

    fn borrow(&'a self) -> (r: &'a str) {
        self.as_str()
    }
}

impl<'a, T> Borrow<'a, &'a [T]> for Vec<T> {
    open spec fn borrows(self, r: &'a [T]) -> bool {
        r@ == self@
    }

    fn borrow(&'a self) -> (r: &'a [T]) {
        self.as_slice()
    }
}

impl<'a, T: ?Sized> Borrow<'a, &'a T> for Box<T> {
    open spec fn borrows(self, r: &'a T) -> bool {
        r == self
    }

    fn borrow(&'a self) -> (r: &'a T) {
        &**self
    }
}

impl<'a, T: ?Sized> Borrow<'a, &'a T> for Rc<T> {
    open spec fn borrows(self, r: &'a T) -> bool {
        r == self
    }

    fn borrow(&'a self) -> (r: &'a T) {
        &**self
    }
}

impl<'a, T: ?Sized> Borrow<'a, &'a T> for Arc<T> {
    open spec fn borrows(self, r: &'a T) -> bool {
        r == self
    }

    fn borrow(&'a self) -> (r: &'a T) {
        &**self
    }
}

/// A generalized reference whose referent may have a shareable,
/// indefinitely-lived form; producing that form may fail, in which
/// case the reference stays usable.
pub trait TryInternRef<T>: Sized {
    /// When `t` is a faithful shared form of the referent.
    spec fn interns(self, t: T) -> bool;

    /// Try to produce the shared form without consuming the
    /// reference.
    fn try_intern_ref(&self) -> (r: Option<T>)
        ensures
            r matches Some(t) ==> (*self).interns(t),
    ;
}

/// An owned value that may have a shareable, indefinitely-lived
/// form; producing it may fail, in which case the value comes back
/// unchanged.
pub trait TryIntern<T>: Sized {
    /// When `t` is a faithful shared form of the value.
    spec fn interns(self, t: T) -> bool;

    /// Try to convert into the shared form; on failure the value is
    /// returned unchanged.
    fn try_intern(self) -> (r: Result<T, Self>)
        ensures
            r matches Ok(t) ==> self.interns(t),
            r matches Err(v) ==> v == self,
    ;
}

/// A generalized reference whose referent always has a shareable,
/// indefinitely-lived form.
pub trait InternRef<T>: Sized {
    /// When `t` is a faithful shared form of the referent.
    spec fn interns(self, t: T) -> bool;

    /// Produce the shared form without consuming the reference.
    fn intern_ref(&self) -> (r: T)
        ensures
            (*self).interns(r),
    ;
}

/// An owned value that always has a shareable, indefinitely-lived
/// form.
pub trait Intern<T>: Sized {
    /// When `t` is a faithful shared form of the value.
    spec fn interns(self, t: T) -> bool;

    /// Convert into the shared form.
    fn intern(self) -> (r: T)
        ensures
            self.interns(r),
    ;
}

/// An owned copy of a string serves as a shared form of it: the
/// holder may keep it indefinitely, and making it never fails.
impl<'a> TryInternRef<String> for &'a str {
    open spec fn interns(self, t: String) -> bool {
        t@ == self@
    }

    fn try_intern_ref(&self) -> (r: Option<String>) {
        Some(<str as std::borrow::ToOwned>::to_owned(*self))
    }
}

/// An owned copy of a string serves as a shared form of it.
impl<'a> InternRef<String> for &'a str {
    open spec fn interns(self, t: String) -> bool {
        t@ == self@
    }

    fn intern_ref(&self) -> (r: String) {
        <str as std::borrow::ToOwned>::to_owned(*self)
    }
}

/// An owned string is its own shared form.
impl TryIntern<String> for String {
    open spec fn interns(self, t: String) -> bool {
        t == self
    }

    fn try_intern(self) -> (r: Result<String, Self>) {
        Ok(self)
    }
}

/// An owned string is its own shared form.
impl Intern<String> for String {
    open spec fn interns(self, t: String) -> bool {
        t == self
    }

    fn intern(self) -> (r: String) {
        self
    }
}

impl<'a> Take<String> for &'a str {
    open spec fn owns(self, o: String) -> bool {
        o@ == self@
    }

    fn own(self) -> (r: String) {
        <str as std::borrow::ToOwned>::to_owned(self)
    }

    fn to_owned(&self) -> (r: String) {
        <str as std::borrow::ToOwned>::to_owned(*self)
    }
}

impl<'a, T: Clone> Take<Vec<T>> for &'a [T] {
    open spec fn owns(self, o: Vec<T>) -> bool {
        o@.len() == self@.len() && forall|i: int|
            0 <= i < self@.len() ==> vstd::pervasive::cloned::<T>(self@[i], #[trigger] o@[i])
    }

    fn own(self) -> (r: Vec<T>) {
        <Self as Take<Vec<T>>>::to_owned(&self)
    }

    fn to_owned(&self) -> (r: Vec<T>) {
        let s: &[T] = *self;
        let mut out: Vec<T> = Vec::new();
        let mut i: usize = 0;
        while i < s.len()
            invariant
                i <= s@.len(),
                out@.len() == i,
                forall|j: int|
                    0 <= j < i ==> vstd::pervasive::cloned::<T>(s@[j], #[trigger] out@[j]),
            decreases s@.len() - i,
        {
            out.push(s[i].clone());
            i = i + 1;
        }
        out
    }
}

impl<'a, T: Clone> Take<T> for &'a T {
    open spec fn owns(self, o: T) -> bool {
        vstd::pervasive::cloned::<T>(*self, o)
    }

    fn own(self) -> (r: T) {
        (*self).clone()
    }

    fn to_owned(&self) -> (r: T) {
        (**self).clone()
    }
}

impl<'a, T: Clone> Take<Box<T>> for &'a T {
    open spec fn owns(self, o: Box<T>) -> bool {
        vstd::pervasive::cloned::<T>(*self, *o)
    }

    fn own(self) -> (r: Box<T>) {
        Box::new((*self).clone())
    }

    fn to_owned(&self) -> (r: Box<T>) {
        Box::new((**self).clone())
    }
}

impl<'a, T: Clone> Take<Rc<T>> for &'a T {
    open spec fn owns(self, o: Rc<T>) -> bool {
        vstd::pervasive::cloned::<T>(*self, *o)
    }

    fn own(self) -> (r: Rc<T>) {
        Rc::new((*self).clone())
    }

    fn to_owned(&self) -> (r: Rc<T>) {
        Rc::new((**self).clone())
    }
}

impl<'a, T: Clone> Take<Arc<T>> for &'a T {
    open spec fn owns(self, o: Arc<T>) -> bool {
        vstd::pervasive::cloned::<T>(*self, *o)
    }

    fn own(self) -> (r: Arc<T>) {
        Arc::new((*self).clone())
    }

    fn to_owned(&self) -> (r: Arc<T>) {
        Arc::new((**self).clone())
    }
}

} // verus!
