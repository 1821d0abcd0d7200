//! Core logic of a handle-based rendering backend: tagged errors that are
//! safe to carry across a host boundary, resource registries that map opaque
//! integer handles to textures and meshes, a draw batcher that minimizes
//! descriptor rebinds while preserving draw order, a swapchain state machine,
//! and a session manager that enforces a single running backend.

pub mod batcher;
pub mod camera;
pub mod device;
pub mod error;
pub mod ffi;
pub mod logger;
pub mod mesh;
pub mod registry;
pub mod renderer;
pub mod session;
pub mod swapchain;
pub mod texture;
