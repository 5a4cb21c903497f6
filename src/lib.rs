//! Lifecycle hooks that fill in identifier and audit timestamp columns, and
//! the composition of relation definitions between entity types.
pub mod column;
pub mod relation;
