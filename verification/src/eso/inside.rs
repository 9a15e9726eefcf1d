//! Functions to access the object an [`Eso`] contains or refers to.

use vstd::prelude::*;

use std::borrow::Cow;

use crate::eso::req::MBorrow;
use crate::eso::req::MTake;
use crate::eso::req::MUnwrapInto;
use crate::eso::Eso;
use crate::maybe::An;
use crate::maybe::Impossible;
use crate::maybe::Maybe;
use crate::maybe::No;

verus! {

impl<ME: Maybe, MS: Maybe, O> Eso<ME, MS, An<O>> {
    /// Get a mutable reference to the contained owned value, cloning
    /// out of a referenced object first if necessary. Afterwards the
    /// value is in the owned case, holding whatever the caller
    /// leaves behind the returned reference.
    pub fn to_mut(&mut self) -> (r: &mut O) where ME: MTake<O>, MS: MTake<O>
        requires
            old(self).wf(),
        ensures
            *final(self) == Eso::<ME, MS, An<O>>::O(An(*final(r))),
            match *old(self) {
                Eso::E(e) => e.m_owns(*r),
                Eso::S(s) => s.m_owns(*r),
                Eso::O(o) => *r == o.value(),
            },
    {
        match self {
            Eso::E(e) => {
                let o = e.to_owned();
                *self = Eso::O(An(o));
            },
            Eso::S(s) => {
                let o = s.to_owned();
                *self = Eso::O(An(o));
            },
            Eso::O(_) => {},
        }
        match self {
            Eso::O(an) => &mut an.0,
            _ => vstd::pervasive::unreached(),
        }
    }

    /// Mutate the owned value; if no owned value is contained, the
    /// referenced value is cloned into an owned form first. This is
    /// the library's sole mutation path, and it always leaves the
    /// value in the owned case.
    pub fn mutate<T, F: FnOnce(&mut O) -> T>(&mut self, f: F) -> (t: T) where
        ME: MTake<O>,
        MS: MTake<O>,

        requires
            old(self).wf(),
            forall|m: &mut O|
                (match *old(self) {
                    Eso::E(e) => e.m_owns(mut_ref_current(m)),
                    Eso::S(s) => s.m_owns(mut_ref_current(m)),
                    Eso::O(o) => mut_ref_current(m) == o.value(),
                }) ==> #[trigger] call_requires(f, (m,)),
        ensures
            *final(self) is O,
            exists|m: &mut O|
                {
                    &&& #[trigger] call_ensures(f, (m,), t)
                    &&& match *old(self) {
                        Eso::E(e) => e.m_owns(mut_ref_current(m)),
                        Eso::S(s) => s.m_owns(mut_ref_current(m)),
                        Eso::O(o) => mut_ref_current(m) == o.value(),
                    }
                    &&& *final(self) == Eso::<ME, MS, An<O>>::O(An(mut_ref_future(m)))
                },
    {
        let r = self.to_mut();
        f(r)
    }
}

impl<ME, MS, MO> Eso<ME, MS, MO> {
    /// Borrow a generalized reference of type `T` from this [`Eso`],
    /// whichever case is live.
    pub fn get_ref<'a, T>(&'a self) -> (r: T) where
        ME: MBorrow<'a, T>,
        MS: MBorrow<'a, T>,
        MO: MBorrow<'a, T>,

        requires
            self.wf(),
        ensures
            match *self {
                Eso::E(e) => e.m_borrows(r),
                Eso::S(s) => s.m_borrows(r),
                Eso::O(o) => o.m_borrows(r),
            },
    {
        match self {
            Eso::E(e) => e.borrow(),
            Eso::S(s) => s.borrow(),
            Eso::O(o) => o.borrow(),
        }
    }

    /// Mutably borrow the owned value contained in this [`Eso`], if
    /// it actually contains an owned value; return `None` if it
    /// holds a reference, leaving the value untouched.
    ///
    /// If clone-on-write behavior is desired, use
    /// [`get_mut`](Eso::get_mut) or [`to_mut`](Eso::to_mut) instead.
    pub fn try_get_mut(&mut self) -> (r: Option<&mut MO::Inner>) where MO: Maybe
        requires
            *old(self) matches Eso::O(o) ==> o.present(),
        ensures
            (r is Some) == (*old(self) is O),
            *old(self) matches Eso::O(o) ==> r matches Some(m) && *m == o.value() && (*final(self)
                matches Eso::O(o2) && o2.present() && o2.value() == *final(m)),
            !(*old(self) is O) ==> *final(self) == *old(self),
    {
        match self {
            Eso::E(_) => None,
            Eso::S(_) => None,
            Eso::O(o) => Some(o.inner_mut()),
        }
    }

    /// Transform into a [`Cow`]: a live reference case is moved into
    /// the borrowed form, a live owned case is converted into the
    /// owned form.
    pub fn into_cow<'a, T: ?Sized + ToOwned>(self) -> (r: Cow<'a, T>) where
        ME: Maybe<Inner = &'a T>,
        MS: Maybe<Inner = &'a T>,
        MO: MUnwrapInto<<T as ToOwned>::Owned>,

        requires
            self.wf(),
        ensures
            self matches Eso::E(e) ==> r matches Cow::Borrowed(b) && b == e.value(),
            self matches Eso::S(s) ==> r matches Cow::Borrowed(b) && b == s.value(),
            self matches Eso::O(o) ==> r matches Cow::Owned(v) && o.m_into(v),
    {
        match self {
            Eso::E(e) => Cow::Borrowed(e.unwrap()),
            Eso::S(s) => Cow::Borrowed(s.unwrap()),
            Eso::O(o) => Cow::Owned(o.unwrap_into()),
        }
    }

    /// Extract the contained value, if all cases may contain the
    /// same type.
    pub fn merge(self) -> (r: ME::Inner) where
        ME: Maybe,
        MS: Maybe<Inner = ME::Inner>,
        MO: Maybe<Inner = ME::Inner>,

        requires
            self.wf(),
        ensures
            match self {
                Eso::E(e) => r == e.value(),
                Eso::S(s) => r == s.value(),
                Eso::O(o) => r == o.value(),
            },
    {
        match self {
            Eso::E(e) => e.unwrap(),
            Eso::S(s) => s.unwrap(),
            Eso::O(o) => o.unwrap(),
        }
    }
}

impl<E, S, O> Eso<An<E>, No<S>, No<O>> {
    /// Safely move the ephemeral reference out of this [`Eso`].
    ///
    /// This method is only callable on an [`Eso`] that is statically
    /// proven to contain an ephemeral reference, and thus performs
    /// no runtime check and cannot fail.
    pub fn safe_unwrap_ephemeral(self) -> (r: E)
        requires
            self.wf(),
        ensures
            self matches Eso::E(An(v)) && r == v,
    {
        match self {
            Eso::E(An(e)) => e,
            Eso::S(s) => s.absurd(),
            Eso::O(o) => o.absurd(),
        }
    }
}

impl<E, S, O> Eso<No<E>, No<S>, An<O>> {
    /// Safely move the owned value out of this [`Eso`].
    ///
    /// This method is only callable on an [`Eso`] that is statically
    /// proven to contain an owned value, and thus performs no
    /// runtime check and cannot fail.
    pub fn safe_unwrap_owned(self) -> (r: O)
        requires
            self.wf(),
        ensures
            self matches Eso::O(An(v)) && r == v,
    {
        match self {
            Eso::O(An(o)) => o,
            Eso::E(e) => e.absurd(),
            Eso::S(s) => s.absurd(),
        }
    }

    /// Safely reference the owned value contained in this [`Eso`],
    /// which is statically proven to contain one.
    pub fn get_owned_ref(&self) -> (r: &O)
        requires
            self.wf(),
        ensures
            *self matches Eso::O(An(v)) && *r == v,
    {
        match self {
            Eso::O(An(o)) => o,
            Eso::E(e) => e.absurd(),
            Eso::S(s) => s.absurd(),
        }
    }

    /// Safely and mutably reference the owned value contained in
    /// this [`Eso`], which is statically proven to contain one.
    pub fn get_mut(&mut self) -> (r: &mut O)
        requires
            old(self).wf(),
        ensures
            *old(self) matches Eso::O(An(v)) && *r == v,
            *final(self) == Eso::<No<E>, No<S>, An<O>>::O(An(*final(r))),
    {
        match self {
            Eso::O(o) => o.inner_mut(),
            Eso::E(e) => e.absurd(),
            Eso::S(s) => s.absurd(),
        }
    }
}

impl<E, S, O> Eso<No<E>, An<S>, No<O>> {
    /// Safely move the static/shared reference out of this [`Eso`].
    ///
    /// This method is only callable on an [`Eso`] that is statically
    /// proven to contain a static/shared reference, and thus
    /// performs no runtime check and cannot fail.
    pub fn safe_unwrap_static(self) -> (r: S)
        requires
            self.wf(),
        ensures
            self matches Eso::S(An(v)) && r == v,
    {
        match self {
            Eso::S(An(s)) => s,
            Eso::E(e) => e.absurd(),
            Eso::O(o) => o.absurd(),
        }
    }
}

} // verus!
