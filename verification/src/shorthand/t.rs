//! Shorthand type aliases for [`Eso`](crate::eso::Eso) over plain
//! inner types.
//!
//! An uppercase letter in the alias name marks the case present
//! (`An<T>`), a missing letter marks it absent (`No<T>`), and a
//! lowercase letter passes a marker type through unchanged.

use vstd::prelude::*;

use crate::maybe::An;
use crate::maybe::No;

verus! {

/// [`Eso`](crate::eso::Eso) with `E` present, `S` present, `O` present.
pub type ESO<E, S, O> = crate::eso::Eso<An<E>, An<S>, An<O>>;

/// [`Eso`](crate::eso::Eso) with `E` present, `S` present, `O` pass-through.
pub type ESo<E, S, MO> = crate::eso::Eso<An<E>, An<S>, MO>;

/// [`Eso`](crate::eso::Eso) with `E` present, `S` pass-through, `O` present.
pub type EsO<E, MS, O> = crate::eso::Eso<An<E>, MS, An<O>>;

/// [`Eso`](crate::eso::Eso) with `E` pass-through, `S` present, `O` present.
pub type eSO<ME, S, O> = crate::eso::Eso<ME, An<S>, An<O>>;

/// [`Eso`](crate::eso::Eso) with `E` present, `S` pass-through, `O` pass-through.
pub type Eso<E, MS, MO> = crate::eso::Eso<An<E>, MS, MO>;

/// [`Eso`](crate::eso::Eso) with all three parameters passed through unchanged.
pub type eso<ME, MS, MO> = crate::eso::Eso<ME, MS, MO>;

/// [`Eso`](crate::eso::Eso) with `E` pass-through, `S` present, `O` pass-through.
pub type eSo<ME, S, MO> = crate::eso::Eso<ME, An<S>, MO>;

/// [`Eso`](crate::eso::Eso) with `E` pass-through, `S` pass-through, `O` present.
pub type esO<ME, MS, O> = crate::eso::Eso<ME, MS, An<O>>;

/// [`Eso`](crate::eso::Eso) with `E` present, `S` present, `O` absent.
pub type ES<E, S, O> = crate::eso::Eso<An<E>, An<S>, No<O>>;

/// [`Eso`](crate::eso::Eso) with `E` present, `S` pass-through, `O` absent.
pub type Es<E, MS, O> = crate::eso::Eso<An<E>, MS, No<O>>;

/// [`Eso`](crate::eso::Eso) with `E` pass-through, `S` present, `O` absent.
pub type eS<ME, S, O> = crate::eso::Eso<ME, An<S>, No<O>>;

/// [`Eso`](crate::eso::Eso) with `E` pass-through, `S` pass-through, `O` absent.
pub type es<ME, MS, O> = crate::eso::Eso<ME, MS, No<O>>;

/// [`Eso`](crate::eso::Eso) with `E` present, `S` absent, `O` present.
pub type EO<E, S, O> = crate::eso::Eso<An<E>, No<S>, An<O>>;

/// [`Eso`](crate::eso::Eso) with `E` present, `S` absent, `O` pass-through.
pub type Eo<E, S, MO> = crate::eso::Eso<An<E>, No<S>, MO>;

/// [`Eso`](crate::eso::Eso) with `E` pass-through, `S` absent, `O` present.
pub type eO<ME, S, O> = crate::eso::Eso<ME, No<S>, An<O>>;

/// [`Eso`](crate::eso::Eso) with `E` pass-through, `S` absent, `O` pass-through.
pub type eo<ME, S, MO> = crate::eso::Eso<ME, No<S>, MO>;

/// [`Eso`](crate::eso::Eso) with `E` absent, `S` present, `O` present.
pub type SO<E, S, O> = crate::eso::Eso<No<E>, An<S>, An<O>>;

/// [`Eso`](crate::eso::Eso) with `E` absent, `S` present, `O` pass-through.
pub type So<E, S, MO> = crate::eso::Eso<No<E>, An<S>, MO>;

/// [`Eso`](crate::eso::Eso) with `E` absent, `S` pass-through, `O` present.
pub type sO<E, MS, O> = crate::eso::Eso<No<E>, MS, An<O>>;

/// [`Eso`](crate::eso::Eso) with `E` absent, `S` pass-through, `O` pass-through.
pub type so<E, MS, MO> = crate::eso::Eso<No<E>, MS, MO>;

/// [`Eso`](crate::eso::Eso) with only `E` present.
pub type E<E, S, O> = crate::eso::Eso<An<E>, No<S>, No<O>>;

/// [`Eso`](crate::eso::Eso) with `E` pass-through, `S` absent, `O` absent.
pub type e<ME, S, O> = crate::eso::Eso<ME, No<S>, No<O>>;

/// [`Eso`](crate::eso::Eso) with only `S` present.
pub type S<E, S, O> = crate::eso::Eso<No<E>, An<S>, No<O>>;

/// [`Eso`](crate::eso::Eso) with `E` absent, `S` pass-through, `O` absent.
pub type s<E, MS, O> = crate::eso::Eso<No<E>, MS, No<O>>;

/// [`Eso`](crate::eso::Eso) with only `O` present.
pub type O<E, S, O> = crate::eso::Eso<No<E>, No<S>, An<O>>;

/// [`Eso`](crate::eso::Eso) with `E` absent, `S` absent, `O` pass-through.
pub type o<E, S, MO> = crate::eso::Eso<No<E>, No<S>, MO>;

} // verus!
