//! Shorthand type aliases to refer to [`Eso`](crate::eso::Eso) with
//! different combinations of type parameters.
//!
//! The names in [`t`] derive from the three components `E`, `S` and
//! `O`: an uppercase letter means the corresponding case is present
//! (`An<T>`), a missing letter means it is absent (`No<T>`), and a
//! lowercase letter passes a marker type through unchanged.
//!
//! The names in [`x`] follow the same scheme but take marker types as
//! inputs, extracting their inner types; they describe how the result
//! type of a transformation relates to the parameters of the input.

#[allow(non_camel_case_types)]
pub mod t;

#[allow(non_camel_case_types)]
pub mod x;
