//! A small offline path tracer.
//!
//! The floating-point geometry and shading live with the program that drives the
//! renderer; this library holds the decisions around them, each with a contract:
//! output formats and their pixel buffer, renderer selection, camera lookup, and the
//! depth-bounded state machine of the path tracer.
pub mod output;
pub mod render;
pub mod scene;
pub mod presets;
