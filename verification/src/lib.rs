//! Planning of the code that `#[derive(Builder)]` generates for a struct.
//!
//! The deriving struct comes in as plain values (`expand::DeriveInputModel`):
//! names, the shapes of the field types, and what the attribute parser met in
//! the `#[builder(..)]` attributes. `expand::do_expend` returns the plan of the
//! generated builder: its fields, setters, getters, `build` entries and the
//! errors to report.

/// Identifiers and their decimal parts.
pub mod names;
/// Shapes of field types and the types the builder writes around them.
pub mod types;
/// The `#[builder(..)]` attributes of fields, item by item.
pub mod attrs;
/// Reading the struct's attributes and fields.
pub mod parse;
/// The pieces of generated code contributed by fields, and their collection.
pub mod tokens;
/// Setters, getters, and the plan of the whole expansion.
pub mod expand;
/// Mapping a result's success value by reference.
pub mod refmap;
/// Properties across the functions of this library.
pub mod laws;
