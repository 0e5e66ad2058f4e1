//! Derivation of builder types for records with named fields.
//!
//! A record is described as plain data ([`descriptor`]). Each of its fields is
//! sorted into one of three classes by its declared type and its annotations
//! ([`annotation`], [`identifier`], [`classify`]), contributes four fragments
//! of code ([`fragments`]), and the fragments of all fields are put together
//! into the code of the builder ([`assemble`]). A derivation that fails gives a
//! diagnostic and no code ([`error`]).
//!
//! What the generated builder does when it runs is stated by [`builder`], as a
//! value that takes calls of setters and is built into a record, and [`laws`]
//! holds what follows for every record and every sequence of calls.

pub mod annotation;
pub mod assemble;
pub mod builder;
pub mod classify;
pub mod descriptor;
pub mod error;
pub mod fragments;
pub mod identifier;
pub mod laws;
pub mod views;

pub use annotation::find_each_in_attrs;
pub use assemble::derive_builder;
pub use builder::Builder;
pub use classify::{classify, classify_record};
pub use fragments::parse_field;
