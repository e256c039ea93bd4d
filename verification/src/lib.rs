//! A verified core of a real-time ray-traced diffuse global illumination
//! renderer: the per-frame GPU work-scheduling graph (pass dependency
//! tracking, barrier derivation, cross-frame temporal resource
//! management) together with the exact per-pixel policies of the
//! spatiotemporal reservoir-resampling pipeline built on top of it.
//!
//! The graph never reads a resource nothing wrote, temporal streams
//! strictly ping-pong between two physical images across frames, and the
//! reservoir, accumulation and reprojection rules are proved exact over
//! fixed-point values. Shader programs, the GPU device and windowing are
//! outside collaborators, named but opaque.

pub mod filter;
pub mod gbuffer;
pub mod graph;
pub mod luts;
pub mod motion;
pub mod reprojection;
pub mod reservoir;
pub mod resource;
pub mod rtdgi;
pub mod schedule;
pub mod temporal;
