//! Derivation engine that maps the fields of an annotated structure
//! declaration to named graphics-pipeline binding slots and synthesizes the
//! glue code a rendering library consumes at draw time.
//!
//! The pipeline per structure: resolve each field's logical binding name from
//! its metadata annotations, classify each field's declared type into a
//! binding kind, aggregate the results into an ordered binding table, and
//! synthesize a code fragment from that table. Invalid conditions surface as
//! diagnostics; any error-severity diagnostic suppresses synthesis for that
//! structure only.

pub mod classify;
pub mod decl;
pub mod diag;
pub mod laws;
pub mod pipeline;
pub mod resolve;
pub mod synth;
pub mod table;
