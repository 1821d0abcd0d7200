//! The backend renderer: owns the resource registries and the swapchain
//! state, and produces one frame per render call as an explicit command
//! sequence. The surrounding program replays those commands against the
//! GPU; everything decided here — what is drawn, in what order, with which
//! bindings, and how swapchain conditions are absorbed — is verified.

use vstd::prelude::*;

use crate::batcher::{mesh_pass_cmds, render_meshes, RenderCmd};
use crate::camera::Scene;
use crate::error::RoastError;
use crate::mesh::{Mesh, Vertex, VertexType};
use crate::registry::{mesh_not_found_msg, MeshId, MeshStore, TextureId, TextureStore};
use crate::swapchain::{AcquireOutcome, PresentOutcome, VulkanState};
use crate::texture::{decode_image, image_decode, Texture, TextureSampling};

verus! {

/// Which sampler a texture is bound with.
#[derive(Clone, Copy, PartialEq, Eq, Structural, Debug)]
pub enum SamplerKind {
    /// The linear, mipmapped sampler for smooth textures.
    Texture,
    /// The nearest-neighbor sampler for pixel textures.
    PixelTexture,
}

/// What one render call produced.
pub struct FrameReport {
    /// Whether a frame was begun and submitted. False means the call was
    /// skipped wholesale: degenerate surface or out-of-date acquisition.
    pub rendered: bool,
    /// The commands recorded for the frame; empty when no frame was begun.
    pub commands: Vec<RenderCmd>,
}

/// The full command sequence of one frame: the world pass, the GUI paint in
/// the second subpass, then the overlay pass, inside one render pass.
pub open spec fn scene_cmds(
    textures: TextureStore,
    meshes: Seq<Mesh>,
    scene_ids: Seq<MeshId>,
    gui_ids: Seq<MeshId>,
) -> Seq<RenderCmd> {
    seq![RenderCmd::BeginPass] + mesh_pass_cmds(textures, meshes, scene_ids, false) + seq![
        RenderCmd::PaintGui,
    ] + mesh_pass_cmds(textures, meshes, gui_ids, true) + seq![RenderCmd::EndPass]
}

/// Whether every handle in `ids` names a registered mesh.
pub open spec fn all_ids_valid(meshes: MeshStore, ids: Seq<MeshId>) -> bool {
    forall|i: int| 0 <= i < ids.len() ==> meshes.valid_id(#[trigger] ids[i])
}

/// Checks every handle in `ids` against the mesh registry.
pub fn validate_ids(meshes: &MeshStore, ids: &Vec<MeshId>) -> (r: bool)
    ensures
        r == all_ids_valid(*meshes, ids@),
{
    let mut i: usize = 0;
    while i < ids.len()
        invariant
            i <= ids@.len(),
            forall|j: int| 0 <= j < i ==> meshes.valid_id(#[trigger] ids@[j]),
        decreases ids@.len() - i,
    {
        if meshes.get(ids[i]).is_none() {
            return false;
        }
        i = i + 1;
    }
    true
}

/// The backend renderer: swapchain state, the two resource registries, and
/// the default texture that unresolvable texture handles fall back to.
pub struct RoastRenderer {
    /// Swapchain manager state.
    pub vulkan: VulkanState,
    /// The texture registry.
    pub textures: TextureStore,
    /// The mesh registry.
    pub meshes: MeshStore,
    /// The texture unresolvable handles fall back to.
    pub default_texture: Texture,
}

impl RoastRenderer {
    /// The registries are internally consistent.
    pub open spec fn wf(&self) -> bool {
        self.meshes.wf()
    }

    /// A fresh renderer with empty registries.
    pub fn new(vulkan: VulkanState, default_texture: Texture) -> (r: RoastRenderer)
        ensures
            r.wf(),
            r.vulkan == vulkan,
            r.default_texture == default_texture,
            r.textures.textures_spec() == Seq::<Texture>::empty(),
            r.meshes.meshes_spec() == Seq::<Mesh>::empty(),
    {
        RoastRenderer {
            vulkan,
            textures: TextureStore::new(),
            meshes: MeshStore::new(),
            default_texture,
        }
    }

    /// Registers an already built texture with this renderer.
    pub fn register_texture(&mut self, texture: Texture) -> (id: TextureId)
        ensures
            id as int == old(self).textures.next_id_spec(),
            final(self).textures.textures_spec() == old(self).textures.textures_spec().push(
                texture,
            ),
            final(self).meshes == old(self).meshes,
            final(self).vulkan == old(self).vulkan,
            final(self).default_texture == old(self).default_texture,
    {
        self.textures.register_texture(texture)
    }

    /// Decodes image bytes and registers the result as a texture. Fails
    /// with a generic error, and registers nothing, exactly when the bytes
    /// do not decode as an image.
    pub fn create_texture(
        &mut self,
        image_bytes: &Vec<u8>,
        sampling: TextureSampling,
        generate_mipmaps: bool,
    ) -> (r: Result<TextureId, RoastError>)
        ensures
            final(self).meshes == old(self).meshes,
            final(self).vulkan == old(self).vulkan,
            final(self).default_texture == old(self).default_texture,
            match r {
                Ok(id) => image_decode(image_bytes@) matches Some(dims)
                    && id as int == old(self).textures.next_id_spec()
                    && final(self).textures.next_id_spec() == old(self).textures.next_id_spec() + 1
                    && final(self).textures.textures_spec().subrange(0, id as int) == old(
                        self,
                    ).textures.textures_spec()
                    && final(self).textures.textures_spec()[id as int].width_spec() == dims.0
                    && final(self).textures.textures_spec()[id as int].height_spec() == dims.1
                    && final(self).textures.textures_spec()[id as int].sampling_spec() == sampling
                    && final(self).textures.textures_spec()[id as int].mipmapped_spec()
                        == generate_mipmaps,
                Err(e) => image_decode(image_bytes@) is None && e is Generic && *final(self)
                    == *old(self),
            },
    {
        match decode_image(image_bytes) {
            Some(decoded) => {
                let texture = Texture::new(&decoded, sampling, generate_mipmaps);
                Ok(self.textures.register_texture(texture))
            },
            None => Err(RoastError::Generic("Could not load image!".to_owned())),
        }
    }

    /// Builds a mesh over new geometry and registers it.
    pub fn create_mesh(
        &mut self,
        vertices: Vec<Vertex>,
        indices: Vec<u32>,
        vertex_type: VertexType,
        texture0: Option<TextureId>,
        texture1: Option<TextureId>,
    ) -> (id: MeshId)
        requires
            old(self).wf(),
        ensures
            final(self).wf(),
            id as int == old(self).meshes.next_id_spec(),
            final(self).meshes.meshes_spec() == old(self).meshes.meshes_spec().push(
                Mesh::fresh_spec(
                    old(self).meshes.geometries_spec().len() as u64,
                    vertex_type,
                    texture0,
                    texture1,
                ),
            ),
            final(self).meshes.geometries_spec().len() == old(self).meshes.geometries_spec().len()
                + 1,
            final(self).textures == old(self).textures,
            final(self).vulkan == old(self).vulkan,
            final(self).default_texture == old(self).default_texture,
    {
        self.meshes.register_mesh(vertices, indices, vertex_type, texture0, texture1)
    }

    /// Registers a mesh that shares an existing mesh's geometry, with fresh
    /// instance state. Fails, registering nothing, exactly when the source
    /// handle does not resolve.
    pub fn create_mesh_with_geometry(&mut self, source: MeshId) -> (r: Result<MeshId, RoastError>)
        requires
            old(self).wf(),
        ensures
            final(self).wf(),
            final(self).textures == old(self).textures,
            final(self).vulkan == old(self).vulkan,
            final(self).default_texture == old(self).default_texture,
            match r {
                Ok(id) => old(self).meshes.valid_id(source)
                    && id as int == old(self).meshes.next_id_spec()
                    && final(self).meshes.meshes_spec() == old(self).meshes.meshes_spec().push(
                        Mesh::geometry_clone_spec(old(self).meshes.meshes_spec()[source as int]),
                    )
                    && final(self).meshes.geometries_spec() == old(self).meshes.geometries_spec(),
                Err(e) => !old(self).meshes.valid_id(source) && e is IllegalState && *final(self)
                    == *old(self),
            },
    {
        self.meshes.register_mesh_from_geometry(source)
    }

    /// Resolves a texture slot to the texture that will actually be bound:
    /// the registered one, or the default texture when the slot is empty or
    /// its handle does not resolve.
    pub fn get_texture_or_default(&self, id: Option<TextureId>) -> (r: &Texture)
        ensures
            match id {
                Some(t) => if self.textures.valid_id(t) {
                    *r == self.textures.textures_spec()[t as int]
                } else {
                    *r == self.default_texture
                },
                None => *r == self.default_texture,
            },
    {
        match id {
            Some(t) => match self.textures.get(t) {
                Some(texture) => texture,
                None => &self.default_texture,
            },
            None => &self.default_texture,
        }
    }

    /// The sampler a texture is bound with, from its sampling mode.
    pub fn get_sampler_for_texture(&self, texture: &Texture) -> (r: SamplerKind)
        ensures
            r == (match texture.sampling_spec() {
                TextureSampling::Smooth => SamplerKind::Texture,
                TextureSampling::Pixel => SamplerKind::PixelTexture,
            }),
    {
        match texture.sampling() {
            TextureSampling::Smooth => SamplerKind::Texture,
            TextureSampling::Pixel => SamplerKind::PixelTexture,
        }
    }

    /// Records the commands of one frame into `builder`: the world pass,
    /// the GUI paint, the overlay pass, all within one render pass.
    pub fn scene_pass(&self, scene: &Scene, builder: &mut Vec<RenderCmd>)
        requires
            self.wf(),
            all_ids_valid(self.meshes, scene.scene_meshes@),
            all_ids_valid(self.meshes, scene.gui_meshes@),
        ensures
            final(builder)@ == old(builder)@ + scene_cmds(
                self.textures,
                self.meshes.meshes_spec(),
                scene.scene_meshes@,
                scene.gui_meshes@,
            ),
    {
        builder.push(RenderCmd::BeginPass);
        render_meshes(&self.textures, &self.meshes, builder, false, &scene.scene_meshes);
        builder.push(RenderCmd::PaintGui);
        render_meshes(&self.textures, &self.meshes, builder, true, &scene.gui_meshes);
        builder.push(RenderCmd::EndPass);
        proof {
            assert(builder@ =~= old(builder)@ + scene_cmds(
                self.textures,
                self.meshes.meshes_spec(),
                scene.scene_meshes@,
                scene.gui_meshes@,
            ));
        }
    }

    /// Renders one frame of the scene. If no frame can be begun (degenerate
    /// surface with pending recreation, or out-of-date acquisition) the
    /// call is skipped wholesale: no commands, no error, registries
    /// untouched. Otherwise the frame's commands are recorded and the frame
    /// is submitted; a stale mesh handle in either list fails the call with
    /// an illegal-state error and drops the frame without submitting it.
    /// Texture handles never fail a frame: they degrade to the default
    /// texture.
    pub fn render(&mut self, scene: &Scene, acquire: AcquireOutcome, present: PresentOutcome) -> (r:
        Result<FrameReport, RoastError>)
        requires
            old(self).wf(),
        ensures
            final(self).wf(),
            final(self).textures == old(self).textures,
            final(self).meshes == old(self).meshes,
            final(self).default_texture == old(self).default_texture,
            match r {
                Ok(report) => if !old(self).vulkan.begins_frame(acquire) {
                    &&& !report.rendered
                    &&& report.commands@ == Seq::<RenderCmd>::empty()
                    &&& final(self).vulkan == old(self).vulkan.begin_frame_spec(acquire).0
                } else {
                    &&& all_ids_valid(old(self).meshes, scene.scene_meshes@)
                    &&& all_ids_valid(old(self).meshes, scene.gui_meshes@)
                    &&& report.rendered
                    &&& report.commands@ == scene_cmds(
                        old(self).textures,
                        old(self).meshes.meshes_spec(),
                        scene.scene_meshes@,
                        scene.gui_meshes@,
                    )
                    &&& final(self).vulkan == old(self).vulkan.begin_frame_spec(
                        acquire,
                    ).0.submit_frame_spec(present)
                },
                Err(e) => {
                    &&& e is IllegalState
                    &&& old(self).vulkan.begins_frame(acquire)
                    &&& !(all_ids_valid(old(self).meshes, scene.scene_meshes@) && all_ids_valid(
                        old(self).meshes,
                        scene.gui_meshes@,
                    ))
                    &&& final(self).vulkan == old(self).vulkan.begin_frame_spec(acquire).0
                },
            },
    {
        let frame = match self.vulkan.begin_frame(acquire) {
            None => {
                return Ok(FrameReport { rendered: false, commands: Vec::new() });
            },
            Some(frame) => frame,
        };

        if !validate_ids(&self.meshes, &scene.scene_meshes) || !validate_ids(
            &self.meshes,
            &scene.gui_meshes,
        ) {
            return Err(RoastError::IllegalState(mesh_not_found_msg()));
        }

        let mut builder: Vec<RenderCmd> = Vec::new();
        self.scene_pass(scene, &mut builder);

        self.vulkan.submit_frame(frame, present);
        Ok(FrameReport { rendered: true, commands: builder })
    }
}

} // verus!
