//! A schema compiler: one in-memory description of a relational data model is
//! rendered both to SQL data definition text and to the source text of one
//! data-access type per table.
//!
//! A schema is built from tables, a table from fields. Both emitters read
//! the same value, so field names, field order and field types cannot differ
//! between the two artifacts. What each emitter returns is stated over the
//! plain-text view of the schema.
//!
//! Constructors take any name. The emitters do not: each refuses a schema
//! with a name that cannot stand in the text it writes, reports the first
//! such name, and emits nothing then.

pub mod error;
pub mod field;
pub mod field_type;
pub mod insert;
pub mod schema;
pub mod schema_and_dao;
pub mod source;
pub mod syntax;
pub mod table;
pub mod text;
pub mod validity;

pub use error::EmitError;
pub use field::Field;
pub use schema::Schema;
pub use table::Table;
