//! Shorthand traits for requirements on [`Maybe`]s, to keep the
//! `where` clauses short and more readable.
//!
//! Each trait lifts a capability of the marker's inner type to the
//! marker itself, together with the spec relation the capability
//! promises. They are implemented once, for every marker whose inner
//! type has the capability.

use vstd::prelude::*;

use crate::borrow::Borrow;
use crate::borrow::Intern;
use crate::borrow::InternRef;
use crate::borrow::Take;
use crate::borrow::TryIntern;
use crate::borrow::TryInternRef;
use crate::maybe::Maybe;

verus! {

/// A [`Maybe`] whose inner value is [`Take`].
pub trait MTake<T>: Maybe {
    /// When `t` is a faithful owned copy of the marker's payload.
    spec fn m_owns(self, t: T) -> bool;

    /// Clone the payload into an owned form, consuming the marker.
    fn own(self) -> (r: T)
        requires
            self.present(),
        ensures
            self.m_owns(r),
    ;

    /// Clone the payload into an owned form, keeping the marker.
    fn to_owned(&self) -> (r: T)
        requires
            self.present(),
        ensures
            (*self).m_owns(r),
    ;
}

impl<T, MX: Maybe> MTake<T> for MX where MX::Inner: Take<T> {
    open spec fn m_owns(self, t: T) -> bool {
        self.value().owns(t)
    }

    fn own(self) -> (r: T) {
        self.unwrap().own()
    }

    fn to_owned(&self) -> (r: T) {
        self.inner().to_owned()
    }
}

/// A [`Maybe`] whose inner value is [`Borrow`].
pub trait MBorrow<'a, R>: Maybe {
    /// When `r` is a faithful view of the marker's payload.
    spec fn m_borrows(self, r: R) -> bool;

    /// Borrow a generalized reference from the marker's payload.
    fn borrow(&'a self) -> (r: R)
        requires
            self.present(),
        ensures
            (*self).m_borrows(r),
    ;
}

impl<'a, R, MX: Maybe> MBorrow<'a, R> for MX where MX::Inner: Borrow<'a, R> {
    open spec fn m_borrows(self, r: R) -> bool {
        self.value().borrows(r)
    }

    fn borrow(&'a self) -> (r: R) {
        self.inner().borrow()
    }
}

/// A [`Maybe`] whose inner value is [`TryInternRef`].
pub trait MTryInternRef<T>: Maybe {
    /// When `t` is a faithful shared form of the marker's payload.
    spec fn m_interns(self, t: T) -> bool;

    /// Try to produce the shared form, keeping the marker.
    fn try_intern_ref(&self) -> (r: Option<T>)
        requires
            self.present(),
        ensures
            r matches Some(t) ==> (*self).m_interns(t),
    ;
}

impl<T, MX: Maybe> MTryInternRef<T> for MX where MX::Inner: TryInternRef<T> {
    open spec fn m_interns(self, t: T) -> bool {
        self.value().interns(t)
    }

    fn try_intern_ref(&self) -> (r: Option<T>) {
        self.inner().try_intern_ref()
    }
}

/// A [`Maybe`] whose inner value is [`TryIntern`].
pub trait MTryIntern<T>: Maybe {
    /// When `t` is a faithful shared form of the marker's payload.
    spec fn m_interns(self, t: T) -> bool;

    /// Try to convert the payload into its shared form; on failure
    /// the marker comes back carrying the same payload.
    fn try_intern(self) -> (r: Result<T, Self>)
        requires
            self.present(),
        ensures
            r matches Ok(t) ==> self.m_interns(t),
            r matches Err(m) ==> m.present() && m.value() == self.value(),
    ;
}

impl<T, MX: Maybe> MTryIntern<T> for MX where MX::Inner: TryIntern<T> {
    open spec fn m_interns(self, t: T) -> bool {
        self.value().interns(t)
    }

    fn try_intern(self) -> (r: Result<T, Self>) {
        let f = |v: MX::Inner| -> (r2: Result<T, MX::Inner>)
            ensures
                r2 matches Ok(t) ==> v.interns(t),
                r2 matches Err(w) ==> w == v,
            {
                v.try_intern()
            };
        self.unwrap_try(f)
    }
}

/// A [`Maybe`] whose inner value is [`InternRef`].
pub trait MInternRef<T>: Maybe {
    /// When `t` is a faithful shared form of the marker's payload.
    spec fn m_interns(self, t: T) -> bool;

    /// Produce the shared form, keeping the marker.
    fn intern_ref(&self) -> (r: T)
        requires
            self.present(),
        ensures
            (*self).m_interns(r),
    ;
}

impl<T, MX: Maybe> MInternRef<T> for MX where MX::Inner: InternRef<T> {
    open spec fn m_interns(self, t: T) -> bool {
        self.value().interns(t)
    }

    fn intern_ref(&self) -> (r: T) {
        self.inner().intern_ref()
    }
}

/// A [`Maybe`] whose inner value is [`Intern`].
pub trait MIntern<T>: Maybe {
    /// When `t` is a faithful shared form of the marker's payload.
    spec fn m_interns(self, t: T) -> bool;

    /// Convert the payload into its shared form.
    fn intern(self) -> (r: T)
        requires
            self.present(),
        ensures
            self.m_interns(r),
    ;
}

impl<T, MX: Maybe> MIntern<T> for MX where MX::Inner: Intern<T> {
    open spec fn m_interns(self, t: T) -> bool {
        self.value().interns(t)
    }

    fn intern(self) -> (r: T) {
        self.unwrap().intern()
    }
}

/// A [`Maybe`] whose inner value converts into `T`.
pub trait MUnwrapInto<T>: Maybe {
    /// When `t` is a possible conversion of the marker's payload.
    spec fn m_into(self, t: T) -> bool;

    /// Unwrap the marker and convert its payload.
    fn unwrap_into(self) -> (r: T)
        requires
            self.present(),
        ensures
            self.m_into(r),
    ;
}

impl<T, MX: Maybe> MUnwrapInto<T> for MX where MX::Inner: Into<T> {
    open spec fn m_into(self, t: T) -> bool {
        call_ensures(<MX::Inner as Into<T>>::into, (self.value(),), t)
    }

    fn unwrap_into(self) -> (r: T) {
        self.unwrap().into()
    }
}

} // verus!
