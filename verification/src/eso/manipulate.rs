//! Functions to manipulate the contained references/values of an
//! [`Eso`].

use vstd::prelude::*;

use crate::eso::Eso;
use crate::maybe::Maybe;
use crate::maybe::MaybeMap;

verus! {

impl<ME, MS, MO> Eso<ME, MS, MO> {
    /// Transform `self` by applying a function to the `E` case while
    /// preserving the other cases.
    pub fn map_e<T, F: FnOnce(ME::Inner) -> T>(self, f: F) -> (r: Eso<ME::Out, MS, MO>) where
        ME: MaybeMap<T>,

        requires
            self matches Eso::E(e) ==> (e.present() ==> call_requires(f, (e.value(),))),
        ensures
            self matches Eso::E(e) ==> r matches Eso::E(e2) && e2.present() == e.present() && (
            e.present() ==> call_ensures(f, (e.value(),), e2.value())),
            self matches Eso::S(s) ==> r == Eso::<ME::Out, MS, MO>::S(s),
            self matches Eso::O(o) ==> r == Eso::<ME::Out, MS, MO>::O(o),
    {
        match self {
            Eso::E(e) => Eso::E(e.do_map(f)),
            Eso::S(s) => Eso::S(s),
            Eso::O(o) => Eso::O(o),
        }
    }

    /// Transform `self` by applying a function to the `S` case while
    /// preserving the other cases.
    pub fn map_s<T, F: FnOnce(MS::Inner) -> T>(self, f: F) -> (r: Eso<ME, MS::Out, MO>) where
        MS: MaybeMap<T>,

        requires
            self matches Eso::S(s) ==> (s.present() ==> call_requires(f, (s.value(),))),
        ensures
            self matches Eso::S(s) ==> r matches Eso::S(s2) && s2.present() == s.present() && (
            s.present() ==> call_ensures(f, (s.value(),), s2.value())),
            self matches Eso::E(e) ==> r == Eso::<ME, MS::Out, MO>::E(e),
            self matches Eso::O(o) ==> r == Eso::<ME, MS::Out, MO>::O(o),
    {
        match self {
            Eso::E(e) => Eso::E(e),
            Eso::S(s) => Eso::S(s.do_map(f)),
            Eso::O(o) => Eso::O(o),
        }
    }

    /// Transform `self` by applying a function to the `O` case while
    /// preserving the other cases.
    pub fn map_o<T, F: FnOnce(MO::Inner) -> T>(self, f: F) -> (r: Eso<ME, MS, MO::Out>) where
        MO: MaybeMap<T>,

        requires
            self matches Eso::O(o) ==> (o.present() ==> call_requires(f, (o.value(),))),
        ensures
            self matches Eso::O(o) ==> r matches Eso::O(o2) && o2.present() == o.present() && (
            o.present() ==> call_ensures(f, (o.value(),), o2.value())),
            self matches Eso::E(e) ==> r == Eso::<ME, MS, MO::Out>::E(e),
            self matches Eso::S(s) ==> r == Eso::<ME, MS, MO::Out>::S(s),
    {
        match self {
            Eso::E(e) => Eso::E(e),
            Eso::S(s) => Eso::S(s),
            Eso::O(o) => Eso::O(o.do_map(f)),
        }
    }

    /// Transform `self` by applying a different function to each of
    /// the cases.
    pub fn map<EF, ET, SF, ST, OF, OT>(self, ef: EF, sf: SF, of: OF) -> (r: Eso<
        ME::Out,
        MS::Out,
        MO::Out,
    >) where
        ME: MaybeMap<ET>,
        MS: MaybeMap<ST>,
        MO: MaybeMap<OT>,
        EF: FnOnce(ME::Inner) -> ET,
        SF: FnOnce(MS::Inner) -> ST,
        OF: FnOnce(MO::Inner) -> OT,

        requires
            self matches Eso::E(e) ==> (e.present() ==> call_requires(ef, (e.value(),))),
            self matches Eso::S(s) ==> (s.present() ==> call_requires(sf, (s.value(),))),
            self matches Eso::O(o) ==> (o.present() ==> call_requires(of, (o.value(),))),
        ensures
            self matches Eso::E(e) ==> r matches Eso::E(e2) && e2.present() == e.present() && (
            e.present() ==> call_ensures(ef, (e.value(),), e2.value())),
            self matches Eso::S(s) ==> r matches Eso::S(s2) && s2.present() == s.present() && (
            s.present() ==> call_ensures(sf, (s.value(),), s2.value())),
            self matches Eso::O(o) ==> r matches Eso::O(o2) && o2.present() == o.present() && (
            o.present() ==> call_ensures(of, (o.value(),), o2.value())),
    {
        match self {
            Eso::E(e) => Eso::E(e.do_map(ef)),
            Eso::S(s) => Eso::S(s.do_map(sf)),
            Eso::O(o) => Eso::O(o.do_map(of)),
        }
    }

    /// Select one of the given functions to run based on which of
    /// the cases is live, collapsing to a single value. The function
    /// runs on the inner value of the live marker.
    pub fn merge_with<EF, SF, OF, T>(self, ef: EF, sf: SF, of: OF) -> (r: T) where
        ME: Maybe,
        MS: Maybe,
        MO: Maybe,
        EF: FnOnce(ME::Inner) -> T,
        SF: FnOnce(MS::Inner) -> T,
        OF: FnOnce(MO::Inner) -> T,

        requires
            self.wf(),
            self matches Eso::E(e) ==> call_requires(ef, (e.value(),)),
            self matches Eso::S(s) ==> call_requires(sf, (s.value(),)),
            self matches Eso::O(o) ==> call_requires(of, (o.value(),)),
        ensures
            self matches Eso::E(e) ==> call_ensures(ef, (e.value(),), r),
            self matches Eso::S(s) ==> call_ensures(sf, (s.value(),), r),
            self matches Eso::O(o) ==> call_ensures(of, (o.value(),), r),
    {
        match self {
            Eso::E(e) => ef(e.unwrap()),
            Eso::S(s) => sf(s.unwrap()),
            Eso::O(o) => of(o.unwrap()),
        }
    }

    /// Special case of [`merge_with`](Self::merge_with) to match the
    /// expected name for operations that map a contained value into
    /// the container type.
    pub fn flat_map<EF, SF, OF, ME1, MS1, MO1>(self, ef: EF, sf: SF, of: OF) -> (r: Eso<
        ME1,
        MS1,
        MO1,
    >) where
        ME: Maybe,
        MS: Maybe,
        MO: Maybe,
        EF: FnOnce(ME::Inner) -> Eso<ME1, MS1, MO1>,
        SF: FnOnce(MS::Inner) -> Eso<ME1, MS1, MO1>,
        OF: FnOnce(MO::Inner) -> Eso<ME1, MS1, MO1>,

        requires
            self.wf(),
            self matches Eso::E(e) ==> call_requires(ef, (e.value(),)),
            self matches Eso::S(s) ==> call_requires(sf, (s.value(),)),
            self matches Eso::O(o) ==> call_requires(of, (o.value(),)),
        ensures
            self matches Eso::E(e) ==> call_ensures(ef, (e.value(),), r),
            self matches Eso::S(s) ==> call_ensures(sf, (s.value(),), r),
            self matches Eso::O(o) ==> call_ensures(of, (o.value(),), r),
    {
        self.merge_with(ef, sf, of)
    }

    /// Select one of the given functions to run based on which of
    /// the cases is live. The function runs on the marker itself.
    pub fn outer_map<EF, SF, OF, ME1, MS1, MO1>(self, ef: EF, sf: SF, of: OF) -> (r: Eso<
        ME1,
        MS1,
        MO1,
    >) where
        EF: FnOnce(ME) -> ME1,
        SF: FnOnce(MS) -> MS1,
        OF: FnOnce(MO) -> MO1,

        requires
            self matches Eso::E(e) ==> call_requires(ef, (e,)),
            self matches Eso::S(s) ==> call_requires(sf, (s,)),
            self matches Eso::O(o) ==> call_requires(of, (o,)),
        ensures
            self matches Eso::E(e) ==> r matches Eso::E(e2) && call_ensures(ef, (e,), e2),
            self matches Eso::S(s) ==> r matches Eso::S(s2) && call_ensures(sf, (s,), s2),
            self matches Eso::O(o) ==> r matches Eso::O(o2) && call_ensures(of, (o,), o2),
    {
        match self {
            Eso::E(e) => Eso::E(ef(e)),
            Eso::S(s) => Eso::S(sf(s)),
            Eso::O(o) => Eso::O(of(o)),
        }
    }
}

} // verus!
