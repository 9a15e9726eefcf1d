//! Functions to ask about the state of an [`Eso`].

use vstd::prelude::*;

use crate::eso::Eso;

verus! {

impl<ME, MS, MO> Eso<ME, MS, MO> {
    /// Returns `true` if the [`Eso`] is of the [`Eso::E`] case.
    pub fn is_ephemeral(&self) -> (r: bool)
        ensures
            r == (*self is E),
    {
        matches!(self, Eso::E(_))
    }

    /// Returns `true` if the [`Eso`] is of the [`Eso::S`] case.
    pub fn is_static(&self) -> (r: bool)
        ensures
            r == (*self is S),
    {
        matches!(self, Eso::S(_))
    }

    /// Returns `true` if the [`Eso`] is of the [`Eso::O`] case.
    pub fn is_owning(&self) -> (r: bool)
        ensures
            r == (*self is O),
    {
        matches!(self, Eso::O(_))
    }

    /// Returns `true` if the [`Eso`] does not own the contained
    /// value, i.e. it is of the [`Eso::E`] or [`Eso::S`] cases.
    pub fn is_reference(&self) -> (r: bool)
        ensures
            r == !(*self is O),
    {
        !matches!(self, Eso::O(_))
    }

    /// Returns `true` if the [`Eso`] is lasting, i.e. it is not an
    /// ephemeral reference.
    pub fn is_lasting(&self) -> (r: bool)
        ensures
            r == !(*self is E),
    {
        !matches!(self, Eso::E(_))
    }
}

} // verus!
