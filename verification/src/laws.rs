//! General properties of the tagged value, stated once and proved,
//! so that a reader finds them written down rather than implied by
//! the individual contracts.

use vstd::prelude::*;

use crate::borrow::Borrow;
use crate::borrow::Take;
use crate::eso::Eso;
use crate::maybe::An;
use crate::maybe::No;
use crate::maybe::Maybe;
use crate::unify::Unify;

verus! {

/// Law: the three case predicates are mutually exclusive and
/// exhaustive. For any tagged value, exactly one of "is ephemeral",
/// "is static" and "is owning" holds; this is also why, of the three
/// narrowing probes (`try_split_ephemeral`, `try_split_static`,
/// `try_split_owned`, whose success each contract ties to its case
/// being live), exactly one can succeed on a given value.
pub proof fn lemma_cases_exclusive_exhaustive<ME, MS, MO>(v: Eso<ME, MS, MO>)
    ensures
        (v is E) || (v is S) || (v is O),
        v is E ==> !(v is S) && !(v is O),
        v is S ==> !(v is E) && !(v is O),
        v is O ==> !(v is E) && !(v is S),
{
}

/// Law: unification keeps the payload of the side that is injected.
/// Injecting either side of two present markers of the same type is
/// the identity, and injecting the present side against an absent
/// marker yields the present payload.
pub proof fn lemma_unify_identity<T, U>(a: An<T>, b: An<T>)
    ensures
        <An<T> as Unify<An<T>>>::unify_a(a) == a,
        <An<T> as Unify<An<T>>>::unify_b(b) == b,
        <An<T> as Unify<No<U>>>::unify_a(a) == a,
        <No<U> as Unify<An<T>>>::unify_b(b) == b,
{
}

/// Law: unifying a tagged value with the shape it already has is the
/// identity, whichever of the two injections carries it over.
pub proof fn lemma_unify_eso_identity<E, S, O>(v: Eso<An<E>, An<S>, An<O>>)
    ensures
        <Eso<An<E>, An<S>, An<O>> as Unify<Eso<An<E>, An<S>, An<O>>>>::unify_a(v) == v,
        <Eso<An<E>, An<S>, An<O>> as Unify<Eso<An<E>, An<S>, An<O>>>>::unify_b(v) == v,
{
}

/// Law: widening to the owned case is idempotent. On a well-formed
/// value that can only be owned, the owned clause of
/// [`into_owning`](Eso::into_owning)'s contract is satisfied by the
/// input itself alone, so a second widening is a pass-through.
pub proof fn lemma_into_owning_idempotent<E, S, O>(
    v: Eso<No<E>, No<S>, An<O>>,
    r: Eso<No<E>, No<S>, An<O>>,
)
    requires
        v.wf(),
        v matches Eso::O(o) ==> r == Eso::<No<E>, No<S>, An<O>>::O(An(o.value())),
    ensures
        r == v,
{
}

/// Law: the round trip from an owned string through a borrowed view
/// back to an owned string restores the contents it started with. The first
/// step is what [`get_ref`](Eso::get_ref) promises on an owned
/// value, the second what [`Take`] promises of the view.
pub proof fn lemma_borrow_then_own_round_trip(x: String, v: &str, y: String)
    requires
        <String as Borrow<&str>>::borrows(x, v),
        <&str as Take<String>>::owns(v, y),
    ensures
        y@ == x@,
{
}

} // verus!
