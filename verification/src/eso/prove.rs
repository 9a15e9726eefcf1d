//! Functions to analyze an [`Eso`] and prove the result on the type
//! level: a successful narrowing returns a value whose type shows the
//! other cases absent, and a failed one returns a value whose type
//! shows the probed case absent.

use vstd::prelude::*;

use crate::eso::ConstrainedEsoOfEso;
use crate::eso::Eso;
use crate::maybe::An;
use crate::maybe::Impossible;
use crate::maybe::Maybe;
use crate::maybe::No;
use crate::maybe::Relax;
use crate::shorthand::t;
use crate::shorthand::x;
use crate::unify::Unify3;

verus! {

impl<ME: Maybe, MS: Maybe, MO: Maybe> Eso<ME, MS, MO> {
    /// Match on the ephemeral case, and modify the type parameters
    /// to prove the match, if successful. Otherwise, cast the type
    /// parameters to prove the non-match. Only the static type
    /// changes; no data is moved or cloned.
    pub fn try_split_ephemeral(self) -> (r: Result<x::E<ME, MS, MO>, x::so<ME, MS, MO>>)
        requires
            self.wf(),
        ensures
            (r is Ok) == (self is E),
            self matches Eso::E(e) ==> r matches Ok(v) && v == Eso::<
                An<ME::Inner>,
                No<MS::Inner>,
                No<MO::Inner>,
            >::E(An(e.value())),
            self matches Eso::S(s) ==> r matches Err(v) && v == Eso::<No<ME::Inner>, MS, MO>::S(s),
            self matches Eso::O(o) ==> r matches Err(v) && v == Eso::<No<ME::Inner>, MS, MO>::O(o),
    {
        match self {
            Eso::E(e) => Ok(Eso::E(An(e.unwrap()))),
            Eso::S(s) => Err(Eso::S(s)),
            Eso::O(o) => Err(Eso::O(o)),
        }
    }

    /// Match on the static/shared case, and modify the type
    /// parameters to prove the match, if successful. Otherwise, cast
    /// the type parameters to prove the non-match.
    pub fn try_split_static(self) -> (r: Result<x::S<ME, MS, MO>, x::eo<ME, MS, MO>>)
        requires
            self.wf(),
        ensures
            (r is Ok) == (self is S),
            self matches Eso::S(s) ==> r matches Ok(v) && v == Eso::<
                No<ME::Inner>,
                An<MS::Inner>,
                No<MO::Inner>,
            >::S(An(s.value())),
            self matches Eso::E(e) ==> r matches Err(v) && v == Eso::<ME, No<MS::Inner>, MO>::E(e),
            self matches Eso::O(o) ==> r matches Err(v) && v == Eso::<ME, No<MS::Inner>, MO>::O(o),
    {
        match self {
            Eso::S(s) => Ok(Eso::S(An(s.unwrap()))),
            Eso::E(e) => Err(Eso::E(e)),
            Eso::O(o) => Err(Eso::O(o)),
        }
    }

    /// Match on the owned case, and modify the type parameters to
    /// prove the match, if successful. Otherwise, cast the type
    /// parameters to prove the non-match.
    pub fn try_split_owned(self) -> (r: Result<x::O<ME, MS, MO>, x::es<ME, MS, MO>>)
        requires
            self.wf(),
        ensures
            (r is Ok) == (self is O),
            self matches Eso::O(o) ==> r matches Ok(v) && v == Eso::<
                No<ME::Inner>,
                No<MS::Inner>,
                An<MO::Inner>,
            >::O(An(o.value())),
            self matches Eso::E(e) ==> r matches Err(v) && v == Eso::<ME, MS, No<MO::Inner>>::E(e),
            self matches Eso::S(s) ==> r matches Err(v) && v == Eso::<ME, MS, No<MO::Inner>>::S(s),
    {
        match self {
            Eso::O(o) => Ok(Eso::O(An(o.unwrap()))),
            Eso::E(e) => Err(Eso::E(e)),
            Eso::S(s) => Err(Eso::S(s)),
        }
    }
}

impl<ME: Maybe, MS, MO> Eso<ME, MS, MO> {
    /// Retrieve the contained ephemeral reference, if `self` is
    /// [`Eso::E`]. Otherwise, cast the type parameters to prove the
    /// non-match.
    pub fn try_unwrap_ephemeral(self) -> (r: Result<ME::Inner, x::so<ME, MS, MO>>)
        requires
            self matches Eso::E(e) ==> e.present(),
        ensures
            (r is Ok) == (self is E),
            self matches Eso::E(e) ==> r matches Ok(v) && v == e.value(),
            self matches Eso::S(s) ==> r matches Err(v) && v == Eso::<No<ME::Inner>, MS, MO>::S(s),
            self matches Eso::O(o) ==> r matches Err(v) && v == Eso::<No<ME::Inner>, MS, MO>::O(o),
    {
        match self {
            Eso::E(e) => Ok(e.unwrap()),
            Eso::S(s) => Err(Eso::S(s)),
            Eso::O(o) => Err(Eso::O(o)),
        }
    }
}

impl<ME, MS: Maybe, MO> Eso<ME, MS, MO> {
    /// Retrieve the contained static/shared value, if `self` is
    /// [`Eso::S`]. Otherwise, cast the type parameters to prove the
    /// non-match.
    pub fn try_unwrap_static(self) -> (r: Result<MS::Inner, x::eo<ME, MS, MO>>)
        requires
            self matches Eso::S(s) ==> s.present(),
        ensures
            (r is Ok) == (self is S),
            self matches Eso::S(s) ==> r matches Ok(v) && v == s.value(),
            self matches Eso::E(e) ==> r matches Err(v) && v == Eso::<ME, No<MS::Inner>, MO>::E(e),
            self matches Eso::O(o) ==> r matches Err(v) && v == Eso::<ME, No<MS::Inner>, MO>::O(o),
    {
        match self {
            Eso::S(s) => Ok(s.unwrap()),
            Eso::E(e) => Err(Eso::E(e)),
            Eso::O(o) => Err(Eso::O(o)),
        }
    }
}

impl<ME, MS, MO: Maybe> Eso<ME, MS, MO> {
    /// Retrieve the contained owned value, if `self` is [`Eso::O`].
    /// Otherwise, cast the type parameters to prove the non-match.
    pub fn try_unwrap_owned(self) -> (r: Result<MO::Inner, x::es<ME, MS, MO>>)
        requires
            self matches Eso::O(o) ==> o.present(),
        ensures
            (r is Ok) == (self is O),
            self matches Eso::O(o) ==> r matches Ok(v) && v == o.value(),
            self matches Eso::E(e) ==> r matches Err(v) && v == Eso::<ME, MS, No<MO::Inner>>::E(e),
            self matches Eso::S(s) ==> r matches Err(v) && v == Eso::<ME, MS, No<MO::Inner>>::S(s),
    {
        match self {
            Eso::O(o) => Ok(o.unwrap()),
            Eso::E(e) => Err(Eso::E(e)),
            Eso::S(s) => Err(Eso::S(s)),
        }
    }
}

impl<ME: Maybe, MS: Maybe, MO: Maybe> Eso<ME, MS, MO> {
    /// Relax the type parameters to fit an expected combination of
    /// type parameters. See [`Relax`] for the rules about
    /// relaxation; the payload is carried over unchanged.
    pub fn relax<ME1: Maybe, MS1: Maybe, MO1: Maybe>(self) -> (r: Eso<ME1, MS1, MO1>) where
        ME: Relax<ME1>,
        MS: Relax<MS1>,
        MO: Relax<MO1>,

        requires
            self.wf(),
        ensures
            r.wf(),
            self matches Eso::E(e) ==> r matches Eso::E(e1) && e1.value() == ME::relax_value(
                e.value(),
            ),
            self matches Eso::S(s) ==> r matches Eso::S(s1) && s1.value() == MS::relax_value(
                s.value(),
            ),
            self matches Eso::O(o) ==> r matches Eso::O(o1) && o1.value() == MO::relax_value(
                o.value(),
            ),
    {
        match self {
            Eso::E(e) => Eso::E(e.relax()),
            Eso::S(s) => Eso::S(s.relax()),
            Eso::O(o) => Eso::O(o.relax()),
        }
    }

    /// Clone the [`Eso`] with relaxed type parameters, to fit an
    /// expected configuration. See [`Eso::relax`] for more
    /// information.
    pub fn clone_relax<ME1: Maybe, MS1: Maybe, MO1: Maybe>(&self) -> (r: Eso<ME1, MS1, MO1>) where
        ME: Relax<ME1>,
        MS: Relax<MS1>,
        MO: Relax<MO1>,
        ME::Inner: Clone,
        MS::Inner: Clone,
        MO::Inner: Clone,

        requires
            self.wf(),
        ensures
            r.wf(),
            self matches Eso::E(e) ==> r matches Eso::E(e1) && exists|a: ME::Inner|
                #[trigger] vstd::pervasive::cloned::<ME::Inner>(e.value(), a) && e1.value()
                    == ME::relax_value(a),
            self matches Eso::S(s) ==> r matches Eso::S(s1) && exists|a: MS::Inner|
                #[trigger] vstd::pervasive::cloned::<MS::Inner>(s.value(), a) && s1.value()
                    == MS::relax_value(a),
            self matches Eso::O(o) ==> r matches Eso::O(o1) && exists|a: MO::Inner|
                #[trigger] vstd::pervasive::cloned::<MO::Inner>(o.value(), a) && o1.value()
                    == MO::relax_value(a),
    {
        match self {
            Eso::E(e) => Eso::E(e.dup().relax()),
            Eso::S(s) => Eso::S(s.dup().relax()),
            Eso::O(o) => Eso::O(o.dup().relax()),
        }
    }

    /// Distinguish the three cases of [`Eso`] while maintaining the
    /// inner [`Eso`]-ness of the resulting values.
    pub fn split(self) -> (r: ConstrainedEsoOfEso<ME, MS, MO>)
        requires
            self.wf(),
        ensures
            self matches Eso::E(e) ==> r matches Eso::E(i) && i == Eso::<
                An<ME::Inner>,
                No<MS::Inner>,
                No<MO::Inner>,
            >::E(An(e.value())),
            self matches Eso::S(s) ==> r matches Eso::S(i) && i == Eso::<
                No<ME::Inner>,
                An<MS::Inner>,
                No<MO::Inner>,
            >::S(An(s.value())),
            self matches Eso::O(o) ==> r matches Eso::O(i) && i == Eso::<
                No<ME::Inner>,
                No<MS::Inner>,
                An<MO::Inner>,
            >::O(An(o.value())),
    {
        match self {
            Eso::E(e) => Eso::E(Eso::E(An(e.unwrap()))),
            Eso::S(s) => Eso::S(Eso::S(An(s.unwrap()))),
            Eso::O(o) => Eso::O(Eso::O(An(o.unwrap()))),
        }
    }
}

impl<ME, MS, MO> Eso<ME, MS, MO> {
    /// Merge the three possible values into one by selecting from
    /// the cases according to the rules of [`crate::unify`].
    pub fn unify(self) -> (r: ME::Out3) where ME: Unify3<MS, MO>
        requires
            self matches Eso::E(e) ==> e.a3_live(),
            self matches Eso::S(s) ==> ME::b3_live(s),
            self matches Eso::O(o) ==> ME::c3_live(o),
        ensures
            self matches Eso::E(e) ==> r == e.unify3_a(),
            self matches Eso::S(s) ==> r == ME::unify3_b(s),
            self matches Eso::O(o) ==> r == ME::unify3_c(o),
    {
        match self {
            Eso::E(e) => e.inject3_a(),
            Eso::S(s) => ME::inject3_b(s),
            Eso::O(o) => ME::inject3_c(o),
        }
    }
}

impl<E, S, O, ES, EO, SE, SO, OE, OS> Eso<t::E<E, ES, EO>, t::S<SE, S, SO>, t::O<OE, OS, O>> {
    /// Undo a [`split`](Eso::split). This is a constrained special
    /// case of [`Eso::unify`].
    pub fn unsplit(self) -> (r: t::ESO<E, S, O>)
        requires
            match self {
                Eso::E(i) => i.wf(),
                Eso::S(i) => i.wf(),
                Eso::O(i) => i.wf(),
            },
        ensures
            r.wf(),
            self matches Eso::E(Eso::E(An(v))) ==> r == Eso::<An<E>, An<S>, An<O>>::E(An(v)),
            self matches Eso::S(Eso::S(An(v))) ==> r == Eso::<An<E>, An<S>, An<O>>::S(An(v)),
            self matches Eso::O(Eso::O(An(v))) ==> r == Eso::<An<E>, An<S>, An<O>>::O(An(v)),
    {
        self.unify()
    }
}

impl<E, S, O> Impossible for Eso<No<E>, No<S>, No<O>> {
    open spec fn reachable(self) -> bool {
        self.wf()
    }

    fn absurd<T>(&self) -> (r: T) {
        vstd::pervasive::unreached()
    }
}

} // verus!
