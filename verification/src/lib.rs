//! A safety and correctness layer between application code and two native
//! geospatial engines: a projection/transformation engine (coordinate
//! reference systems, coordinate conversion) and a computational-geometry
//! engine (ring/coordinate-sequence geometries).
//!
//! The engines themselves are reached through thin unverified adapters; this
//! crate holds the logic that mediates between them and the application and
//! proves it correct: validation of strings bound for C APIs, translation of
//! native status codes into typed errors, authority-code parsing and
//! rendering, the axis-order policy of each construction path, the
//! transform-failure diagnostics rule, and the ring-closure repair that
//! prepares vector geometries for the geometry engine.

pub mod coord;
pub mod decimal;
pub mod encoding;
pub mod errors;
pub mod geometry;
pub mod srs;
pub mod transform;
pub mod vector;
