//! Presents a body that yields one ordered stream of frames (payload data or
//! trailer fields) as a body with two independent pulls: one for data chunks,
//! one for trailer sets.
//!
//! The library holds the routing and the decisions of the two pull loops;
//! the caller drives the underlying source and hands each result back.
pub mod trailers;
pub mod frame;
pub mod compat;
pub mod size_hint;
