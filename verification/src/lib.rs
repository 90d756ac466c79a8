//! Core logic of a small aggregation service: given a creature name, a
//! primary provider supplies a raw entity, whose description is extracted,
//! normalized and optionally rewritten through a text-transformation
//! provider. This crate holds the decision and data-transformation logic;
//! the HTTP plumbing around it lives outside.

pub mod api;
pub mod pokemon;
pub mod translations;
