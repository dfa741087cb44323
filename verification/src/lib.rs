//! Schema analysis and synthesis for record builders.
//!
//! A record declaration is analysed field by field: the declared type of each
//! field is classified into a chain of wrappers, an optional accessor
//! directive is validated, and from both a plan of the builder is derived:
//! storage, accessor methods and the obligation each field has when the
//! record is finally constructed.
//!
//! - [`schema`]: type descriptors, attributes, fields, records, errors.
//! - [`analyzer`]: from a declared type to its wrapper chain and element.
//! - [`directive`]: from an attribute to the name of a per-element setter.
//! - [`annotate`]: both of them, applied to each field of a record; and the
//!   annotation for a builder in which every field holds one value.
//! - [`plan`]: the decision table, and the methods that a plan emits.
//! - [`generate`]: from a declared record to the plan of its builder.
//! - [`runtime`]: the builder that a plan describes, slot by slot.
//! - [`laws`]: what holds of every plan and of every state of a builder.
//! - [`debug_format`]: the plan of a record's diagnostic text.
//! - [`search`]: the first position at which a predicate holds.

pub mod schema;
pub mod search;
pub mod analyzer;
pub mod directive;
pub mod annotate;
pub mod plan;
pub mod generate;
pub mod runtime;
pub mod laws;
pub mod debug_format;
