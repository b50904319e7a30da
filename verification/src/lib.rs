//! Verified core of a flat foreign-function boundary over 2-D polyline
//! geometry operations.
//!
//! The geometry itself (distances, areas, arc math) is computed by an outside
//! collaborator working in floating point; this crate verifies the boundary
//! around it: opaque handle lifecycle, status-code discipline, result
//! marshaling, and the indexed intersection collection.

pub mod codes;
pub mod intersects;
pub mod laws;
pub mod ops;
pub mod pline;
pub mod store;
