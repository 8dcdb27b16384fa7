//! Render-synchronization core of a minimal presentation client: a single
//! movable rectangle held in a reader/writer-locked scene, a per-pixel
//! rasterizer, an input dispatcher that turns pointer and keyboard events
//! into geometry updates, and a frame-pacing state machine that keeps
//! renders and commits in strict alternation.

pub mod geometry;
pub mod input;
pub mod pacer;
pub mod raster;
pub mod scene;
