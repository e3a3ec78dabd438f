//! A deferred renderer's CPU-side logic: packed per-light uniform storage,
//! light containers with their shadow sentinels, and the GPU state sequence
//! of the render passes.
pub mod buffer;
pub mod light;
pub mod pipeline;
pub mod effects;
pub mod resource;
