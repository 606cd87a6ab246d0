//! Analysis and synthesis for enums with an integer representation.
//!
//! The library reads a plain description of an enum declaration (its name,
//! attributes and unit variants), finds its `#[repr(..)]` integer type,
//! resolves each variant's discriminant, and writes the Rust source text of
//! three transforms: an inherent `from_repr` returning `Option<Self>`, a
//! `From<T>` impl that falls back to an `Unknown` variant, and a copy of the
//! enum whose variants carry their values in doc comments.

pub mod model;
pub mod repr;
pub mod discriminant;
pub mod numeral;
pub mod synth;
pub mod conversion;
