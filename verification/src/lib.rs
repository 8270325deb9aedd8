//! Declarative provisioning for a relational database cluster.
//!
//! A configuration lists databases, extensions, users and grants; the
//! library turns each entity into an ordered sequence of SQL statements,
//! routes every statement to the session for its target database, and
//! classifies failures into ignorable (expected on repeat runs) and
//! reportable, so that running the same configuration twice converges.

pub mod render;
pub mod statement;
pub mod config;
pub mod multiplexer;
pub mod execution;
