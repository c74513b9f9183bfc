//! A frame-synchronized screen-space post-processing pipeline.
//!
//! The library models the render-side core of a real-time renderer that
//! layers full-screen effects (chromatic aberration, edge outline, volumetric
//! nebula) on top of an already-lit color image:
//!
//! - [`settings`] holds the per-camera effect settings records;
//! - [`world`] holds the simulation-side state the records live in;
//! - [`extract`] copies records into render-side snapshots once per frame;
//! - [`layout`] fixes the GPU byte layout of each record;
//! - [`aggregate`] packs a frame's snapshots into one uniform buffer and
//!   assigns each snapshot its dynamic byte offset;
//! - [`pipeline`] caches one render pipeline per effect and tracks its
//!   asynchronous compilation;
//! - [`graph`] orders the effect nodes between tone mapping and the end of
//!   post-processing;
//! - [`node`] decides, per camera and per frame, whether a node draws and
//!   with which bindings, and swaps the source and destination views;
//! - [`frame`] drives one camera's whole frame through those stages in the
//!   pipeline's fixed order.
//!
//! Scalar shader parameters are carried as 32-bit IEEE-754 bit patterns, so
//! every copy and byte layout in the pipeline is exact. The host renderer
//! converts at the boundary and performs the actual GPU work.

pub mod aggregate;
pub mod extract;
pub mod frame;
pub mod graph;
pub mod layout;
pub mod node;
pub mod pipeline;
pub mod settings;
pub mod world;
