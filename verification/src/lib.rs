//! A flat, fixed-signature call surface over an embedded RDF quad store:
//! marshaling of texts and caller buffers, a heuristic term classifier, quad
//! construction with validation, and a stable negative status-code taxonomy,
//! all verified; the storage engine, SPARQL evaluator and Turtle codec are
//! outside collaborators reached through a few trusted declarations.

pub mod classify;
pub mod engine;
pub mod marshal;
pub mod render;
pub mod api;
pub mod laws;
