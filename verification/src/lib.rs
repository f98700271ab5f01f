//! Target resolution and work planning for an Oracle monitoring agent.
//!
//! The crate resolves configured identifiers into one connection identity,
//! renders that identity as a connection string, extracts instance
//! identifiers from process command lines, and partitions opened connection
//! spots into planned work and reported failures.

pub mod ora_sql;
pub mod text;
pub mod types;
