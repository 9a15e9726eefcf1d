//! Type-level machinery for building `Cow`-like types while avoiding
//! unnecessary copies of shareable references.
//!
//! The central type is [`Eso`], a three-way choice between an
//! ephemeral reference, a static/shared reference and an owned value.
//! Each of the three cases is wrapped in a presence marker from the
//! [`maybe`] module, so the type itself records which cases can occur
//! at a given point in the program, and every operation carries a
//! contract that pins down how it moves a value between the cases.

pub mod borrow;
pub mod eso;
pub mod laws;
pub mod maybe;
pub mod shorthand;
pub mod unify;

pub use crate::eso::Eso;
pub use crate::maybe::An;
pub use crate::maybe::No;
