//! Meshes as the registry sees them: immutable geometry shared by handle,
//! plus per-instance mutable state (transform, texture offsets, overlay
//! color, opacity). Two meshes may name the same geometry while carrying
//! independent instance state; that is the cheap-instancing mechanism.

use vstd::prelude::*;

use crate::error::RoastError;
use crate::ffi::{ForeignMat4, ForeignVec2, ForeignVec4, F32_ONE_BITS};

verus! {

/// How to interpret the per-vertex data of a mesh.
#[derive(Clone, Copy, PartialEq, Eq, Structural, Debug)]
pub enum VertexType {
    /// `color_tex` holds a single color.
    COLOR,
    /// `color_tex` holds one texture coordinate.
    TEX1,
    /// `color_tex` holds two texture coordinates.
    TEX2,
}

impl Default for VertexType {
    fn default() -> (r: VertexType)
        ensures
            r == VertexType::COLOR,
    {
        VertexType::COLOR
    }
}

impl VertexType {
    /// Decodes the raw discriminant the host sends for a vertex layout; a
    /// value outside the valid range is an illegal-argument error.
    pub fn from_raw(value: u32) -> (r: Result<VertexType, RoastError>)
        ensures
            match r {
                Ok(vertex_type) => (value == 0 ==> vertex_type == VertexType::COLOR) && (value == 1
                    ==> vertex_type == VertexType::TEX1) && (value == 2 ==> vertex_type
                    == VertexType::TEX2) && value <= 2,
                Err(e) => value > 2 && e is IllegalArgument,
            },
    {
        if value == 0 {
            Ok(VertexType::COLOR)
        } else if value == 1 {
            Ok(VertexType::TEX1)
        } else if value == 2 {
            Ok(VertexType::TEX2)
        } else {
            Err(RoastError::IllegalArgument("Unrecognized vertex type".to_owned()))
        }
    }
}

/// The vertex primitive handed to the shader: a position and either one
/// color or up to two texture coordinates, all as float bit patterns.
#[derive(Clone, Copy, PartialEq, Eq, Debug)]
pub struct Vertex {
    /// Position.
    pub pos: (u32, u32, u32),
    /// Color or texture coordinates.
    pub color_tex: (u32, u32, u32, u32),
}

impl Vertex {
    /// Builds a new vertex with a position and color.
    pub fn pos_color(pos: (u32, u32, u32), color: (u32, u32, u32, u32)) -> (r: Vertex)
        ensures
            r.pos == pos,
            r.color_tex == color,
    {
        Vertex { pos, color_tex: color }
    }

    /// Builds a new vertex with a position and one texture coordinate.
    pub fn pos_tex(pos: (u32, u32, u32), tex: (u32, u32)) -> (r: Vertex)
        ensures
            r.pos == pos,
            r.color_tex == (tex.0, tex.1, 0u32, 0u32),
    {
        Vertex { pos, color_tex: (tex.0, tex.1, 0, 0) }
    }

    /// Builds a new vertex with a position and two texture coordinates.
    pub fn pos_tex2(pos: (u32, u32, u32), tex1: (u32, u32), tex2: (u32, u32)) -> (r: Vertex)
        ensures
            r.pos == pos,
            r.color_tex == (tex1.0, tex1.1, tex2.0, tex2.1),
    {
        Vertex { pos, color_tex: (tex1.0, tex1.1, tex2.0, tex2.1) }
    }
}

/// Immutable geometry: the vertex and index data a mesh draws. Built once
/// when a mesh is registered and never mutated afterwards; geometry clones
/// reference it by handle.
pub struct Geometry {
    /// Vertex data.
    pub vertices: Vec<Vertex>,
    /// Index data.
    pub indices: Vec<u32>,
}

/// The push constants handed to the shader when drawing one mesh.
#[derive(Clone, Copy, PartialEq, Eq, Structural, Debug)]
pub struct PushConstantData {
    /// Model matrix.
    pub model: ForeignMat4,
    /// Both texture offsets, packed as (off0.x, off0.y, off1.x, off1.y).
    pub tex_offsets: ForeignVec4,
    /// Overlay color, or all-ones when the mesh has none.
    pub overlay_color: ForeignVec4,
    /// Opacity in `[0, 1]` as a float bit pattern.
    pub opacity: u32,
    /// How the vertex data is interpreted.
    pub vertex_type: VertexType,
}

/// A mesh: a geometry handle with associated textures and the mutable
/// per-instance state used to draw it.
#[derive(Clone, Copy, PartialEq, Eq, Debug)]
pub struct Mesh {
    /// Handle of the shared geometry this mesh draws.
    pub geometry: u64,
    /// How the geometry's vertex data is interpreted.
    pub vertex_type: VertexType,
    /// Texture handles for the two texture slots; resolution happens at
    /// draw time, so a stale handle degrades to the default texture rather
    /// than failing a frame.
    pub textures: (Option<u64>, Option<u64>),

    /// Model matrix.
    pub transform: ForeignMat4,
    /// One texture offset per texture slot.
    pub texture_offsets: (ForeignVec2, ForeignVec2),
    /// Optional overlay color.
    pub overlay_color: Option<ForeignVec4>,
    /// Opacity in `[0, 1]` as a float bit pattern.
    pub opacity: u32,
}

impl Mesh {
    /// A fresh mesh over the given geometry handle: identity transform,
    /// zero texture offsets, no overlay color, full opacity.
    pub open spec fn fresh_spec(
        geometry: u64,
        vertex_type: VertexType,
        texture0: Option<u64>,
        texture1: Option<u64>,
    ) -> Mesh {
        Mesh {
            geometry,
            vertex_type,
            textures: (texture0, texture1),
            transform: ForeignMat4::identity_spec(),
            texture_offsets: (ForeignVec2::zero_spec(), ForeignVec2::zero_spec()),
            overlay_color: None,
            opacity: F32_ONE_BITS,
        }
    }

    /// The mesh a geometry clone starts as: same geometry, layout and
    /// textures as the source, fresh instance state.
    pub open spec fn geometry_clone_spec(source: Mesh) -> Mesh {
        Mesh::fresh_spec(
            source.geometry,
            source.vertex_type,
            source.textures.0,
            source.textures.1,
        )
    }

    /// Builds a mesh instance over an already registered geometry.
    pub fn build(
        geometry: u64,
        vertex_type: VertexType,
        texture0: Option<u64>,
        texture1: Option<u64>,
    ) -> (r: Mesh)
        ensures
            r == Mesh::fresh_spec(geometry, vertex_type, texture0, texture1),
    {
        Mesh {
            geometry,
            vertex_type,
            textures: (texture0, texture1),
            transform: ForeignMat4::identity(),
            texture_offsets: (ForeignVec2::zero(), ForeignVec2::zero()),
            overlay_color: None,
            opacity: F32_ONE_BITS,
        }
    }

    /// Builds a mesh with the same geometry as an existing mesh and fresh
    /// instance state.
    pub fn with_geometry(geometry: &Mesh) -> (r: Mesh)
        ensures
            r == Mesh::geometry_clone_spec(*geometry),
    {
        Mesh::build(
            geometry.geometry,
            geometry.vertex_type,
            geometry.textures.0,
            geometry.textures.1,
        )
    }

    /// The vertex layout of this mesh.
    pub fn vertex_type(&self) -> (r: VertexType)
        ensures
            r == self.vertex_type,
    {
        self.vertex_type
    }

    /// The push constants drawing this mesh hands to the shader.
    pub open spec fn push_constants_spec(&self) -> PushConstantData {
        PushConstantData {
            model: self.transform,
            tex_offsets: ForeignVec4 {
                x: self.texture_offsets.0.x,
                y: self.texture_offsets.0.y,
                z: self.texture_offsets.1.x,
                w: self.texture_offsets.1.y,
            },
            overlay_color: match self.overlay_color {
                Some(color) => color,
                None => ForeignVec4::one_spec(),
            },
            opacity: self.opacity,
            vertex_type: self.vertex_type,
        }
    }

    /// Fills and returns the push constants for drawing this mesh.
    pub fn fill_push_constants(&self) -> (r: PushConstantData)
        ensures
            r == self.push_constants_spec(),
    {
        PushConstantData {
            model: self.transform,
            tex_offsets: ForeignVec4 {
                x: self.texture_offsets.0.x,
                y: self.texture_offsets.0.y,
                z: self.texture_offsets.1.x,
                w: self.texture_offsets.1.y,
            },
            overlay_color: match self.overlay_color {
                Some(color) => color,
                None => ForeignVec4::one(),
            },
            opacity: self.opacity,
            vertex_type: self.vertex_type,
        }
    }
}

} // verus!
