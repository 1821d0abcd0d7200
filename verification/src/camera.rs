//! The camera and the scene description handed to a render call. The
//! backend never computes on camera angles — the projection and view
//! matrices are built by the surrounding program on the way to the GPU — so
//! camera components are carried as the bit patterns of the host's doubles.

use vstd::prelude::*;

use crate::registry::MeshId;

verus! {

/// Bit pattern of the double 45.0, the default field of view.
pub const F64_FORTY_FIVE_BITS: u64 = 0x4046_8000_0000_0000;

/// A camera: position, yaw, pitch and field of view as double bit
/// patterns.
#[derive(Clone, Copy, PartialEq, Eq, Debug)]
pub struct Camera {
    /// Position.
    pub pos: (u64, u64, u64),
    /// Yaw angle.
    pub yaw: u64,
    /// Pitch angle.
    pub pitch: u64,
    /// Field of view.
    pub fov: u64,
}

impl Camera {
    /// Builds a camera from its components.
    pub fn new(pos: (u64, u64, u64), yaw: u64, pitch: u64, fov: u64) -> (r: Camera)
        ensures
            r == (Camera { pos, yaw, pitch, fov }),
    {
        Camera { pos, yaw, pitch, fov }
    }
}

impl Default for Camera {
    fn default() -> (r: Camera)
        ensures
            r == (Camera {
                pos: (0u64, 0u64, 0u64),
                yaw: 0u64,
                pitch: 0u64,
                fov: F64_FORTY_FIVE_BITS,
            }),
    {
        Camera { pos: (0, 0, 0), yaw: 0, pitch: 0, fov: F64_FORTY_FIVE_BITS }
    }
}

/// Everything one render call needs: a camera and the ordered mesh-handle
/// lists for the world pass and the overlay pass.
pub struct Scene {
    /// The camera for the world pass.
    pub camera: Camera,
    /// World meshes, drawn with the perspective camera, in order.
    pub scene_meshes: Vec<MeshId>,
    /// Overlay meshes, drawn with the orthographic camera, in order.
    pub gui_meshes: Vec<MeshId>,
}

} // verus!
