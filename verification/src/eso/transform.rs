//! Functions to change the state of an [`Eso`]: widening
//! conversions between the reference cases and the owned case.

use vstd::prelude::*;

use crate::eso::req::MBorrow;
use crate::eso::req::MIntern;
use crate::eso::req::MInternRef;
use crate::eso::req::MTake;
use crate::eso::req::MTryIntern;
use crate::eso::req::MTryInternRef;
use crate::eso::Eso;
use crate::maybe::An;
use crate::maybe::Maybe;
use crate::maybe::No;

verus! {

impl<ME, MS, MO> Eso<ME, MS, MO> {
    /// Transform this [`Eso`] into one that can only be a
    /// static/shared reference or an owned value.
    ///
    /// This clones an ephemeral reference into an owned value via
    /// [`Take`](crate::borrow::Take) but moves a shared/static
    /// reference or an owned value into the result unchanged.
    pub fn into_static(self) -> (r: Eso<No<ME::Inner>, MS, An<MO::Inner>>) where
        ME: MTake<MO::Inner>,
        MO: Maybe,

        requires
            self matches Eso::E(e) ==> e.present(),
            self matches Eso::O(o) ==> o.present(),
        ensures
            !(r is E),
            self matches Eso::E(e) ==> r matches Eso::O(An(v)) && e.m_owns(v),
            self matches Eso::S(s) ==> r == Eso::<No<ME::Inner>, MS, An<MO::Inner>>::S(s),
            self matches Eso::O(o) ==> r == Eso::<No<ME::Inner>, MS, An<MO::Inner>>::O(
                An(o.value()),
            ),
    {
        match self {
            Eso::E(e) => Eso::O(An(e.own())),
            Eso::S(s) => Eso::S(s),
            Eso::O(o) => Eso::O(An(o.unwrap())),
        }
    }

    /// Clone this [`Eso`] into one that can only be a static/shared
    /// reference or an owned value.
    ///
    /// An ephemeral reference is cloned into an owned value via
    /// [`Take`](crate::borrow::Take); a shared/static reference or
    /// an owned value is cloned into the result unchanged.
    pub fn to_static(&self) -> (r: Eso<No<ME::Inner>, MS, An<MO::Inner>>) where
        ME: MTake<MO::Inner>,
        MS: Maybe,
        MO: Maybe,
        MS::Inner: Clone,
        MO::Inner: Clone,

        requires
            self.wf(),
        ensures
            !(r is E),
            *self matches Eso::E(e) ==> r matches Eso::O(An(v)) && e.m_owns(v),
            *self matches Eso::S(s) ==> r matches Eso::S(s2) && s2.present()
                && vstd::pervasive::cloned::<MS::Inner>(s.value(), s2.value()),
            *self matches Eso::O(o) ==> r matches Eso::O(An(v)) && vstd::pervasive::cloned::<
                MO::Inner,
            >(o.value(), v),
    {
        match self {
            Eso::E(e) => Eso::O(An(e.to_owned())),
            Eso::S(s) => Eso::S(s.dup()),
            Eso::O(o) => Eso::O(An(o.dup().unwrap())),
        }
    }

    /// Transform this [`Eso`] into one that is definitely an owned
    /// value.
    ///
    /// Either reference case is cloned into an owned form via
    /// [`Take`](crate::borrow::Take); an owned value is moved into
    /// the result unchanged, so applying this twice does no more
    /// work than applying it once.
    pub fn into_owning(self) -> (r: Eso<No<ME::Inner>, No<MS::Inner>, An<MO::Inner>>) where
        ME: MTake<MO::Inner>,
        MS: MTake<MO::Inner>,
        MO: Maybe,

        requires
            self.wf(),
        ensures
            r is O,
            self matches Eso::E(e) ==> r matches Eso::O(An(v)) && e.m_owns(v),
            self matches Eso::S(s) ==> r matches Eso::O(An(v)) && s.m_owns(v),
            self matches Eso::O(o) ==> r == Eso::<No<ME::Inner>, No<MS::Inner>, An<MO::Inner>>::O(
                An(o.value()),
            ),
    {
        match self {
            Eso::E(e) => Eso::O(An(e.own())),
            Eso::S(s) => Eso::O(An(s.own())),
            Eso::O(o) => Eso::O(An(o.unwrap())),
        }
    }

    /// Clone this [`Eso`] into one that is definitely an owned
    /// value.
    ///
    /// Either reference case is cloned into an owned form via
    /// [`Take`](crate::borrow::Take); an owned value is cloned into
    /// the result.
    pub fn to_owning(&self) -> (r: Eso<No<ME::Inner>, No<MS::Inner>, An<MO::Inner>>) where
        ME: MTake<MO::Inner>,
        MS: MTake<MO::Inner>,
        MO: Maybe,
        MO::Inner: Clone,

        requires
            self.wf(),
        ensures
            r is O,
            *self matches Eso::E(e) ==> r matches Eso::O(An(v)) && e.m_owns(v),
            *self matches Eso::S(s) ==> r matches Eso::O(An(v)) && s.m_owns(v),
            *self matches Eso::O(o) ==> r matches Eso::O(An(v)) && vstd::pervasive::cloned::<
                MO::Inner,
            >(o.value(), v),
    {
        match self {
            Eso::E(e) => Eso::O(An(e.to_owned())),
            Eso::S(s) => Eso::O(An(s.to_owned())),
            Eso::O(o) => Eso::O(An(o.dup().unwrap())),
        }
    }

    /// Borrow an ephemeral reference or preserve a static/shared
    /// reference. If the [`Eso`] contains an owned value, borrow a
    /// reference to it.
    pub fn reference<'a>(&'a self) -> (r: Eso<An<ME::Inner>, An<MS::Inner>, No<MO::Inner>>) where
        ME: Maybe,
        MS: Maybe,
        MO: MBorrow<'a, ME::Inner>,
        ME::Inner: Clone,
        MS::Inner: Clone,

        requires
            self.wf(),
        ensures
            !(r is O),
            *self matches Eso::E(e) ==> r matches Eso::E(An(v)) && vstd::pervasive::cloned::<
                ME::Inner,
            >(e.value(), v),
            *self matches Eso::S(s) ==> r matches Eso::S(An(v)) && vstd::pervasive::cloned::<
                MS::Inner,
            >(s.value(), v),
            *self matches Eso::O(o) ==> r matches Eso::E(An(v)) && o.m_borrows(v),
    {
        match self {
            Eso::E(e) => Eso::E(An(e.dup().unwrap())),
            Eso::S(s) => Eso::S(An(s.dup().unwrap())),
            Eso::O(o) => Eso::E(An(o.borrow())),
        }
    }

    /// Try transforming an ephemeral reference into a shared/static
    /// reference by interning it. On failure the value comes back
    /// unchanged, its type showing that it is not yet interned; a
    /// live static case always succeeds, and a live owned case
    /// always fails.
    pub fn try_intern_ephemeral(self) -> (r: Result<
        Eso<No<ME::Inner>, An<MS::Inner>, No<MO::Inner>>,
        Eso<ME, No<MS::Inner>, MO>,
    >) where
        ME: MTryInternRef<MS::Inner>,
        MS: Maybe,
        MO: Maybe,

        requires
            self matches Eso::E(e) ==> e.present(),
            self matches Eso::S(s) ==> s.present(),
        ensures
            self matches Eso::S(s) ==> r matches Ok(v) && v == Eso::<
                No<ME::Inner>,
                An<MS::Inner>,
                No<MO::Inner>,
            >::S(An(s.value())),
            self matches Eso::O(o) ==> r matches Err(v) && v == Eso::<ME, No<MS::Inner>, MO>::O(o),
            self matches Eso::E(e) ==> match r {
                Ok(v) => v matches Eso::S(An(t)) && e.m_interns(t),
                Err(v) => v == Eso::<ME, No<MS::Inner>, MO>::E(e),
            },
    {
        match self {
            Eso::E(e) => match e.try_intern_ref() {
                Some(interned) => Ok(Eso::S(An(interned))),
                None => Err(Eso::E(e)),
            },
            Eso::S(s) => Ok(Eso::S(An(s.unwrap()))),
            Eso::O(o) => Err(Eso::O(o)),
        }
    }

    /// Try transforming an ephemeral reference or an owned value
    /// into a shared/static reference by interning it. On failure
    /// the payload comes back unchanged, its type showing that it is
    /// not yet interned.
    pub fn try_intern(self) -> (r: Result<
        Eso<No<ME::Inner>, An<MS::Inner>, No<MO::Inner>>,
        Eso<ME, No<MS::Inner>, MO>,
    >) where
        ME: MTryInternRef<MS::Inner>,
        MS: Maybe,
        MO: MTryIntern<MS::Inner>,

        requires
            self matches Eso::E(e) ==> e.present(),
            self matches Eso::S(s) ==> s.present(),
            self matches Eso::O(o) ==> o.present(),
        ensures
            self matches Eso::S(s) ==> r matches Ok(v) && v == Eso::<
                No<ME::Inner>,
                An<MS::Inner>,
                No<MO::Inner>,
            >::S(An(s.value())),
            self matches Eso::E(e) ==> match r {
                Ok(v) => v matches Eso::S(An(t)) && e.m_interns(t),
                Err(v) => v == Eso::<ME, No<MS::Inner>, MO>::E(e),
            },
            self matches Eso::O(o) ==> match r {
                Ok(v) => v matches Eso::S(An(t)) && o.m_interns(t),
                Err(v) => v matches Eso::O(o2) && o2.present() && o2.value() == o.value(),
            },
    {
        match self {
            Eso::E(e) => match e.try_intern_ref() {
                Some(interned) => Ok(Eso::S(An(interned))),
                None => Err(Eso::E(e)),
            },
            Eso::S(s) => Ok(Eso::S(An(s.unwrap()))),
            Eso::O(o) => match o.try_intern() {
                Ok(interned) => Ok(Eso::S(An(interned))),
                Err(o) => Err(Eso::O(o)),
            },
        }
    }

    /// Try transforming an ephemeral reference into a shared/static
    /// reference by interning it, and if this does not work, clone
    /// it into an owned value. Either way the result is lasting.
    pub fn intern_or_take(self) -> (r: Eso<No<ME::Inner>, An<MS::Inner>, An<MO::Inner>>) where
        ME: MTryInternRef<MS::Inner> + MTake<MO::Inner>,
        MS: Maybe,
        MO: Maybe,

        requires
            self.wf(),
        ensures
            !(r is E),
            self matches Eso::S(s) ==> r == Eso::<No<ME::Inner>, An<MS::Inner>, An<MO::Inner>>::S(
                An(s.value()),
            ),
            self matches Eso::O(o) ==> r == Eso::<No<ME::Inner>, An<MS::Inner>, An<MO::Inner>>::O(
                An(o.value()),
            ),
            self matches Eso::E(e) ==> (r matches Eso::S(An(t)) && e.m_interns(t)) || (r matches
                Eso::O(An(v)) && e.m_owns(v)),
    {
        match self {
            Eso::E(e) => match e.try_intern_ref() {
                Some(interned) => Eso::S(An(interned)),
                None => Eso::O(An(e.own())),
            },
            Eso::S(s) => Eso::S(An(s.unwrap())),
            Eso::O(o) => Eso::O(An(o.unwrap())),
        }
    }

    /// Transform an ephemeral reference into a shared/static
    /// reference by interning it; a live static or owned case passes
    /// through unchanged.
    pub fn intern_ephemeral(self) -> (r: Eso<No<ME::Inner>, An<MS::Inner>, An<MO::Inner>>) where
        ME: MInternRef<MS::Inner>,
        MS: Maybe,
        MO: Maybe,

        requires
            self.wf(),
        ensures
            !(r is E),
            self matches Eso::E(e) ==> r matches Eso::S(An(t)) && e.m_interns(t),
            self matches Eso::S(s) ==> r == Eso::<No<ME::Inner>, An<MS::Inner>, An<MO::Inner>>::S(
                An(s.value()),
            ),
            self matches Eso::O(o) ==> r == Eso::<No<ME::Inner>, An<MS::Inner>, An<MO::Inner>>::O(
                An(o.value()),
            ),
    {
        match self {
            Eso::E(e) => Eso::S(An(e.intern_ref())),
            Eso::S(s) => Eso::S(An(s.unwrap())),
            Eso::O(o) => Eso::O(An(o.unwrap())),
        }
    }

    /// Transform an ephemeral reference or an owned value into a
    /// shared/static reference by interning it.
    pub fn intern(self) -> (r: Eso<No<ME::Inner>, An<MS::Inner>, No<MO::Inner>>) where
        ME: MInternRef<MS::Inner>,
        MS: Maybe,
        MO: MIntern<MS::Inner>,

        requires
            self.wf(),
        ensures
            r is S,
            self matches Eso::E(e) ==> r matches Eso::S(An(t)) && e.m_interns(t),
            self matches Eso::S(s) ==> r == Eso::<No<ME::Inner>, An<MS::Inner>, No<MO::Inner>>::S(
                An(s.value()),
            ),
            self matches Eso::O(o) ==> r matches Eso::S(An(t)) && o.m_interns(t),
    {
        match self {
            Eso::E(e) => Eso::S(An(e.intern_ref())),
            Eso::S(s) => Eso::S(An(s.unwrap())),
            Eso::O(o) => Eso::S(An(o.intern())),
        }
    }

    /// Borrow an ephemeral reference.
    ///
    /// Clones an already-existing ephemeral reference, and borrows
    /// from a static reference or an owned value.
    pub fn ephemeral<'a>(&'a self) -> (r: Eso<An<ME::Inner>, No<MS::Inner>, No<MO::Inner>>) where
        ME: Maybe,
        MS: MBorrow<'a, ME::Inner>,
        MO: MBorrow<'a, ME::Inner>,
        ME::Inner: Clone,

        requires
            self.wf(),
        ensures
            r is E,
            *self matches Eso::E(e) ==> r matches Eso::E(An(v)) && vstd::pervasive::cloned::<
                ME::Inner,
            >(e.value(), v),
            *self matches Eso::S(s) ==> r matches Eso::E(An(v)) && s.m_borrows(v),
            *self matches Eso::O(o) ==> r matches Eso::E(An(v)) && o.m_borrows(v),
    {
        match self {
            Eso::E(e) => Eso::E(An(e.dup().unwrap())),
            Eso::S(s) => Eso::E(An(s.borrow())),
            Eso::O(o) => Eso::E(An(o.borrow())),
        }
    }
}

} // verus!
