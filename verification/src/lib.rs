//! Derivation of search-index schemas and document encoders from a
//! declarative description of a record type.
//!
//! A record type is described by the specifications of its fields: name,
//! declared type, capability flags. From them come two things that have to
//! stay in step. The schema holds one descriptor per field, with the options
//! that the flags ask for. The encoder turns an instance of the record into
//! a document: the value of each field under the tag of its type. Descriptor
//! and value of a field carry the same identifier, the position of the field,
//! and that is all that links them.
//!
//! - [`capability`]: the field types, the flags, and which flag applies to
//!   which type.
//! - [`options`]: the options of a descriptor and the recipe that builds them.
//! - [`dispatch`]: the table from one field to its descriptor and its value
//!   recipe.
//! - [`schema`] and [`document`]: the two assemblers.
//! - [`recognize`] and [`record`]: from a record as it is written to the
//!   specifications of its fields.
//! - [`vocabulary`]: the engine's names.
//! - [`laws`]: what holds of every derivation.

pub mod capability;
pub mod dispatch;
pub mod document;
pub mod error;
pub mod laws;
pub mod options;
pub mod recognize;
pub mod record;
pub mod schema;
pub mod vocabulary;

pub use record::derive_tantivy_schema;
