//! Functions to create new [`Eso`]s.

use vstd::prelude::*;

use std::borrow::Cow;

use crate::eso::Eso;
use crate::maybe::An;

verus! {

impl<E, MS, MO> Eso<An<E>, MS, MO> {
    /// Create an [`Eso`] from an ephemeral reference.
    pub fn from_ref(e: E) -> (r: Self)
        ensures
            r == Eso::<An<E>, MS, MO>::E(An(e)),
    {
        Eso::E(An(e))
    }
}

impl<ME, S, MO> Eso<ME, An<S>, MO> {
    /// Create an [`Eso`] from a shared/static reference.
    pub fn from_static(s: S) -> (r: Self)
        ensures
            r == Eso::<ME, An<S>, MO>::S(An(s)),
    {
        Eso::S(An(s))
    }
}

impl<ME, MS, O> Eso<ME, MS, An<O>> {
    /// Create an [`Eso`] from an owned object.
    pub fn from_owned(o: O) -> (r: Self)
        ensures
            r == Eso::<ME, MS, An<O>>::O(An(o)),
    {
        Eso::O(An(o))
    }
}

impl<'a, T: ?Sized + ToOwned, MS> Eso<An<&'a T>, MS, An<<T as ToOwned>::Owned>> {
    /// Create an [`Eso`] from a [`Cow`].
    ///
    /// The reference from a borrowed cow moves into the ephemeral
    /// case; the payload of an owned cow moves into the owned case.
    /// Nothing is cloned.
    pub fn from_cow(cow: Cow<'a, T>) -> (r: Self)
        ensures
            cow matches Cow::Borrowed(b) ==> r == Eso::<An<&'a T>, MS, An<<T as ToOwned>::Owned>>::E(
                An(b),
            ),
            cow matches Cow::Owned(o) ==> r == Eso::<An<&'a T>, MS, An<<T as ToOwned>::Owned>>::O(
                An(o),
            ),
            !(r is S),
    {
        match cow {
            Cow::Borrowed(b) => Eso::E(An(b)),
            Cow::Owned(o) => Eso::O(An(o)),
        }
    }
}

} // verus!
