//! The [`Eso`] type and associated traits for advanced reference
//! wrangling.
//!
//! [`Eso`] is meant as a building block for libraries that need more
//! flexibility than the standard copy-on-write type: it distinguishes
//! an **E**phemeral reference, a **S**tatic/shared reference and an
//! **O**wned value, and tracks on the type level which of the three
//! can occur at a given point in the code.

use vstd::prelude::*;

use crate::maybe::Maybe;
use crate::shorthand::x;

verus! {

/// A three-way choice between an **E**phemeral reference (i.e. with
/// a lifetime that is not `'static`), a **S**tatic reference and an
/// **O**wned value.
///
/// All three of the type parameters can be [`An<T>`](crate::maybe::An)
/// or [`No<T>`](crate::maybe::No), which allows construction of
/// subsets of the full functionality, and static tracking of which
/// cases may exist at any given point in the code.
///
/// Every value the library hands out is *well-formed* ([`Eso::wf`]):
/// the case that is live holds a present marker. A [`No`] marker can
/// occur in the type, but never in the live position of a
/// well-formed value, which is how an operation such as
/// [`Eso::safe_unwrap_owned`] can promise to return the payload with
/// no runtime check.
///
/// [`No`]: crate::maybe::No
#[derive(Debug, Clone)]
pub enum Eso<E, S, O> {
    /// An ephemeral value
    E(E),
    /// A shared or static value, meaning that client code can hold
    /// on to an `S` without being limited by any given lifetime.
    S(S),
    /// An owned value, meaning that client code has sole possession
    /// of the contained object (albeit it may be borrowed out by
    /// reference).
    O(O),
}

impl<ME: Maybe, MS: Maybe, MO: Maybe> Eso<ME, MS, MO> {
    /// The invariant every value handed out by the library
    /// satisfies: the live case holds a present marker.
    pub open spec fn wf(self) -> bool {
        match self {
            Eso::E(e) => e.present(),
            Eso::S(s) => s.present(),
            Eso::O(o) => o.present(),
        }
    }
}

/// An [`Eso`] of [`Eso`]s, but the inner [`Eso`]s are constrained to
/// definitely contain the corresponding case.
pub type ConstrainedEsoOfEso<ME, MS, MO> = Eso<x::E<ME, MS, MO>, x::S<ME, MS, MO>, x::O<ME, MS, MO>>;

} // verus!

mod create;

mod inside;

mod manipulate;

mod prove;

mod query;

mod transform;

pub mod req;
