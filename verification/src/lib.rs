//! Layered resolution of strongly-typed configuration values.
//!
//! A configuration is described by a [`schema::Schema`]: a flat list of leaf
//! fields, each addressed by its nested path, with a kind, a required flag, a
//! secret marking and an optional default. Sources contribute
//! [`partial::PartialValue`]s (any subset of the fields set); a
//! [`builder::ConfigBuilder`] folds them in attach order, later sources
//! overriding earlier ones field by field, gates secret fields behind each
//! source's capability, and finalizes into a complete value or reports every
//! missing required field at once.

pub mod builder;
pub mod env_source;
pub mod error;
pub mod partial;
pub mod schema;
pub mod source;
pub mod value;
