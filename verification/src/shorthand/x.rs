//! Shorthand type aliases for transformations of an
//! [`Eso`](crate::eso::Eso).
//!
//! The input type arguments are marker types. An uppercase letter in
//! the alias name marks the case present over the marker's inner
//! type (`An<T::Inner>`), a missing letter marks it absent
//! (`No<T::Inner>`), and a lowercase letter passes the marker type
//! through unchanged.

use vstd::prelude::*;

use crate::maybe::An;
use crate::maybe::Maybe;
use crate::maybe::No;

verus! {

/// [`Eso`](crate::eso::Eso) with `E` present, `S` present, `O` present.
pub type ESO<ME, MS, MO> = crate::eso::Eso<
    An<<ME as Maybe>::Inner>,
    An<<MS as Maybe>::Inner>,
    An<<MO as Maybe>::Inner>,
>;

/// [`Eso`](crate::eso::Eso) with `E` present, `S` present, `O` absent.
pub type ES<ME, MS, MO> = crate::eso::Eso<
    An<<ME as Maybe>::Inner>,
    An<<MS as Maybe>::Inner>,
    No<<MO as Maybe>::Inner>,
>;

/// [`Eso`](crate::eso::Eso) with `E` present, `S` pass-through, `O` absent.
pub type Es<ME, MS, MO> = crate::eso::Eso<An<<ME as Maybe>::Inner>, MS, No<<MO as Maybe>::Inner>>;

/// [`Eso`](crate::eso::Eso) with `E` pass-through, `S` present, `O` absent.
pub type eS<ME, MS, MO> = crate::eso::Eso<ME, An<<MS as Maybe>::Inner>, No<<MO as Maybe>::Inner>>;

/// [`Eso`](crate::eso::Eso) with `E` pass-through, `S` pass-through, `O` absent.
pub type es<ME, MS, MO> = crate::eso::Eso<ME, MS, No<<MO as Maybe>::Inner>>;

/// [`Eso`](crate::eso::Eso) with `E` absent, `S` present, `O` present.
pub type SO<ME, MS, MO> = crate::eso::Eso<
    No<<ME as Maybe>::Inner>,
    An<<MS as Maybe>::Inner>,
    An<<MO as Maybe>::Inner>,
>;

/// [`Eso`](crate::eso::Eso) with `E` absent, `S` pass-through, `O` present.
pub type sO<ME, MS, MO> = crate::eso::Eso<No<<ME as Maybe>::Inner>, MS, An<<MO as Maybe>::Inner>>;

/// [`Eso`](crate::eso::Eso) with `E` absent, `S` pass-through, `O` pass-through.
pub type so<ME, MS, MO> = crate::eso::Eso<No<<ME as Maybe>::Inner>, MS, MO>;

/// [`Eso`](crate::eso::Eso) with `E` present, `S` absent, `O` pass-through.
pub type Eo<ME, MS, MO> = crate::eso::Eso<An<<ME as Maybe>::Inner>, No<<MS as Maybe>::Inner>, MO>;

/// [`Eso`](crate::eso::Eso) with `E` pass-through, `S` absent, `O` present.
pub type eO<ME, MS, MO> = crate::eso::Eso<ME, No<<MS as Maybe>::Inner>, An<<MO as Maybe>::Inner>>;

/// [`Eso`](crate::eso::Eso) with `E` pass-through, `S` absent, `O` pass-through.
pub type eo<ME, MS, MO> = crate::eso::Eso<ME, No<<MS as Maybe>::Inner>, MO>;

/// [`Eso`](crate::eso::Eso) with only `E` present.
pub type E<ME, MS, MO> = crate::eso::Eso<
    An<<ME as Maybe>::Inner>,
    No<<MS as Maybe>::Inner>,
    No<<MO as Maybe>::Inner>,
>;

/// [`Eso`](crate::eso::Eso) with only `S` present.
pub type S<ME, MS, MO> = crate::eso::Eso<
    No<<ME as Maybe>::Inner>,
    An<<MS as Maybe>::Inner>,
    No<<MO as Maybe>::Inner>,
>;

/// [`Eso`](crate::eso::Eso) with only `O` present.
pub type O<ME, MS, MO> = crate::eso::Eso<
    No<<ME as Maybe>::Inner>,
    No<<MS as Maybe>::Inner>,
    An<<MO as Maybe>::Inner>,
>;

} // verus!
