//! A handle-table runtime over wgpu, with its bookkeeping verified.
pub mod gpu_calls;
pub mod laws;
pub mod model;
pub mod runtime;
pub mod scene;
pub mod tween;
