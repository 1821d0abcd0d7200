//! Resource registries: they decouple the opaque integer handles the host
//! sees from the resources themselves. Handles are arena indices, issued in
//! strictly increasing order and never reused, and nothing is ever removed,
//! so a handle stays valid for the life of its store.

use vstd::prelude::*;

use crate::error::RoastError;
use crate::ffi::{ForeignMat4, ForeignVec2, ForeignVec4};
use crate::mesh::{Geometry, Mesh, Vertex, VertexType};
use crate::texture::Texture;

verus! {

/// Id the host uses to refer to a texture.
pub type TextureId = u64;

/// Id the host uses to refer to a mesh.
pub type MeshId = u64;

/// Message used when a mesh handle does not resolve.
pub fn mesh_not_found_msg() -> (r: String)
    ensures
        r@ == "Mesh pointer does not point to a valid struct"@,
{
    "Mesh pointer does not point to a valid struct".to_owned()
}

/// The texture registry. Handles are indices into the backing arena.
pub struct TextureStore {
    textures: Vec<Texture>,
}

impl TextureStore {
    /// The registered textures, by handle.
    pub closed spec fn textures_spec(&self) -> Seq<Texture> {
        self.textures@
    }

    /// The handle the next registration returns.
    pub open spec fn next_id_spec(&self) -> int {
        self.textures_spec().len() as int
    }

    /// Whether `id` names a registered texture.
    pub open spec fn valid_id(&self, id: TextureId) -> bool {
        (id as int) < self.textures_spec().len()
    }

    /// An empty texture registry.
    pub fn new() -> (r: TextureStore)
        ensures
            r.textures_spec() == Seq::<Texture>::empty(),
    {
        TextureStore { textures: Vec::new() }
    }

    /// Registers a texture and returns its fresh handle: the next unissued
    /// one, strictly larger than every handle issued before.
    pub fn register_texture(&mut self, texture: Texture) -> (id: TextureId)
        ensures
            id as int == old(self).next_id_spec(),
            final(self).textures_spec() == old(self).textures_spec().push(texture),
            final(self).next_id_spec() == old(self).next_id_spec() + 1,
            final(self).valid_id(id),
            !old(self).valid_id(id),
    {
        let id = self.textures.len() as u64;
        self.textures.push(texture);
        id
    }

    /// Looks a texture up by handle.
    pub fn get(&self, id: TextureId) -> (r: Option<&Texture>)
        ensures
            match r {
                Some(texture) => self.valid_id(id) && *texture == self.textures_spec()[id as int],
                None => !self.valid_id(id),
            },
    {
        if id < self.textures.len() as u64 {
            Some(&self.textures[id as usize])
        } else {
            None
        }
    }

    /// Looks a texture up by handle, or fails with an illegal-state error:
    /// a stale texture handle at a read boundary means the host and the
    /// backend have desynchronized.
    pub fn get_required(&self, id: TextureId) -> (r: Result<&Texture, RoastError>)
        ensures
            match r {
                Ok(texture) => self.valid_id(id) && *texture == self.textures_spec()[id as int],
                Err(e) => !self.valid_id(id) && e is IllegalState,
            },
    {
        if id < self.textures.len() as u64 {
            Ok(&self.textures[id as usize])
        } else {
            Err(
                RoastError::IllegalState(
                    "Texture pointer does not point to a valid texture".to_owned(),
                ),
            )
        }
    }

    /// How many textures have been registered.
    pub fn len(&self) -> (r: usize)
        ensures
            r == self.textures_spec().len(),
    {
        self.textures.len()
    }
}

/// The mesh registry: an arena of meshes plus an arena of the geometries
/// they share. Mesh handles are indices into the mesh arena.
pub struct MeshStore {
    geometries: Vec<Geometry>,
    meshes: Vec<Mesh>,
}

impl MeshStore {
    /// The registered meshes, by handle.
    pub closed spec fn meshes_spec(&self) -> Seq<Mesh> {
        self.meshes@
    }

    /// The registered geometries, by geometry handle.
    pub closed spec fn geometries_spec(&self) -> Seq<Geometry> {
        self.geometries@
    }

    /// Every mesh's geometry handle resolves.
    pub open spec fn wf(&self) -> bool {
        forall|i: int| 0 <= i < self.meshes_spec().len()
            ==> (#[trigger] self.meshes_spec()[i]).geometry < self.geometries_spec().len()
    }

    /// The handle the next registration returns.
    pub open spec fn next_id_spec(&self) -> int {
        self.meshes_spec().len() as int
    }

    /// Whether `id` names a registered mesh.
    pub open spec fn valid_id(&self, id: MeshId) -> bool {
        (id as int) < self.meshes_spec().len()
    }

    /// An empty mesh registry.
    pub fn new() -> (r: MeshStore)
        ensures
            r.meshes_spec() == Seq::<Mesh>::empty(),
            r.geometries_spec() == Seq::<Geometry>::empty(),
            r.wf(),
    {
        MeshStore { geometries: Vec::new(), meshes: Vec::new() }
    }

    /// Registers a mesh over new geometry built from the given vertex and
    /// index data, and returns its fresh handle. The new mesh starts with
    /// fresh instance state.
    pub fn register_mesh(
        &mut self,
        vertices: Vec<Vertex>,
        indices: Vec<u32>,
        vertex_type: VertexType,
        texture0: Option<TextureId>,
        texture1: Option<TextureId>,
    ) -> (id: MeshId)
        requires
            old(self).wf(),
        ensures
            final(self).wf(),
            id as int == old(self).next_id_spec(),
            final(self).next_id_spec() == old(self).next_id_spec() + 1,
            final(self).valid_id(id),
            !old(self).valid_id(id),
            final(self).geometries_spec() == old(self).geometries_spec().push(
                Geometry { vertices, indices },
            ),
            final(self).meshes_spec() == old(self).meshes_spec().push(
                Mesh::fresh_spec(
                    old(self).geometries_spec().len() as u64,
                    vertex_type,
                    texture0,
                    texture1,
                ),
            ),
    {
        let geometry_id = self.geometries.len() as u64;
        self.geometries.push(Geometry { vertices, indices });
        let id = self.meshes.len() as u64;
        self.meshes.push(Mesh::build(geometry_id, vertex_type, texture0, texture1));
        id
    }

    /// Registers a mesh that shares the geometry of an existing mesh and
    /// carries fresh instance state. Fails with an illegal-state error when
    /// the source handle does not resolve; a stale handle means the host and
    /// the backend have desynchronized.
    pub fn register_mesh_from_geometry(&mut self, source: MeshId) -> (r: Result<
        MeshId,
        RoastError,
    >)
        requires
            old(self).wf(),
        ensures
            final(self).wf(),
            match r {
                Ok(id) => old(self).valid_id(source)
                    && id as int == old(self).next_id_spec()
                    && final(self).next_id_spec() == old(self).next_id_spec() + 1
                    && final(self).geometries_spec() == old(self).geometries_spec()
                    && final(self).meshes_spec() == old(self).meshes_spec().push(
                        Mesh::geometry_clone_spec(old(self).meshes_spec()[source as int]),
                    ),
                Err(e) => !old(self).valid_id(source)
                    && *final(self) == *old(self)
                    && e is IllegalState,
            },
    {
        if source < self.meshes.len() as u64 {
            let mesh = Mesh::with_geometry(&self.meshes[source as usize]);
            let id = self.meshes.len() as u64;
            self.meshes.push(mesh);
            Ok(id)
        } else {
            Err(RoastError::IllegalState(mesh_not_found_msg()))
        }
    }

    /// Reads one mesh's instance state, or fails with an illegal-state
    /// error when the handle does not resolve.
    pub fn get_required(&self, id: MeshId) -> (r: Result<&Mesh, RoastError>)
        ensures
            match r {
                Ok(mesh) => self.valid_id(id) && *mesh == self.meshes_spec()[id as int],
                Err(e) => !self.valid_id(id) && e is IllegalState,
            },
    {
        if id < self.meshes.len() as u64 {
            Ok(&self.meshes[id as usize])
        } else {
            Err(RoastError::IllegalState(mesh_not_found_msg()))
        }
    }

    /// Replaces one mesh's instance state, leaving every other mesh and all
    /// geometry untouched; fails with an illegal-state error when the
    /// handle does not resolve.
    pub fn set(&mut self, id: MeshId, mesh: Mesh) -> (r: Result<(), RoastError>)
        requires
            old(self).wf(),
            mesh.geometry < old(self).geometries_spec().len(),
        ensures
            final(self).wf(),
            final(self).geometries_spec() == old(self).geometries_spec(),
            match r {
                Ok(()) => old(self).valid_id(id) && final(self).meshes_spec() == old(
                    self,
                ).meshes_spec().update(id as int, mesh),
                Err(e) => !old(self).valid_id(id) && *final(self) == *old(self)
                    && e is IllegalState,
            },
    {
        if id < self.meshes.len() as u64 {
            self.meshes[id as usize] = mesh;
            Ok(())
        } else {
            Err(RoastError::IllegalState(mesh_not_found_msg()))
        }
    }

    /// Reads a mesh's vertex layout.
    pub fn get_vertex_type(&self, id: MeshId) -> (r: Result<VertexType, RoastError>)
        ensures
            match r {
                Ok(v) => self.valid_id(id) && v == self.meshes_spec()[id as int].vertex_type,
                Err(e) => !self.valid_id(id) && e is IllegalState,
            },
    {
        match self.get_required(id) {
            Ok(mesh) => Ok(mesh.vertex_type),
            Err(e) => Err(e),
        }
    }

    /// Reads a mesh's texture handle pair.
    pub fn get_textures(&self, id: MeshId) -> (r: Result<
        (Option<TextureId>, Option<TextureId>),
        RoastError,
    >)
        ensures
            match r {
                Ok(v) => self.valid_id(id) && v == self.meshes_spec()[id as int].textures,
                Err(e) => !self.valid_id(id) && e is IllegalState,
            },
    {
        match self.get_required(id) {
            Ok(mesh) => Ok(mesh.textures),
            Err(e) => Err(e),
        }
    }

    /// Reads a mesh's transform.
    pub fn get_transform(&self, id: MeshId) -> (r: Result<ForeignMat4, RoastError>)
        ensures
            match r {
                Ok(v) => self.valid_id(id) && v == self.meshes_spec()[id as int].transform,
                Err(e) => !self.valid_id(id) && e is IllegalState,
            },
    {
        match self.get_required(id) {
            Ok(mesh) => Ok(mesh.transform),
            Err(e) => Err(e),
        }
    }

    /// Reads a mesh's texture offsets.
    pub fn get_texture_offsets(&self, id: MeshId) -> (r: Result<
        (ForeignVec2, ForeignVec2),
        RoastError,
    >)
        ensures
            match r {
                Ok(v) => self.valid_id(id) && v == self.meshes_spec()[id as int].texture_offsets,
                Err(e) => !self.valid_id(id) && e is IllegalState,
            },
    {
        match self.get_required(id) {
            Ok(mesh) => Ok(mesh.texture_offsets),
            Err(e) => Err(e),
        }
    }

    /// Reads a mesh's overlay color.
    pub fn get_overlay_color(&self, id: MeshId) -> (r: Result<Option<ForeignVec4>, RoastError>)
        ensures
            match r {
                Ok(v) => self.valid_id(id) && v == self.meshes_spec()[id as int].overlay_color,
                Err(e) => !self.valid_id(id) && e is IllegalState,
            },
    {
        match self.get_required(id) {
            Ok(mesh) => Ok(mesh.overlay_color),
            Err(e) => Err(e),
        }
    }

    /// Reads a mesh's opacity.
    pub fn get_opacity(&self, id: MeshId) -> (r: Result<u32, RoastError>)
        ensures
            match r {
                Ok(v) => self.valid_id(id) && v == self.meshes_spec()[id as int].opacity,
                Err(e) => !self.valid_id(id) && e is IllegalState,
            },
    {
        match self.get_required(id) {
            Ok(mesh) => Ok(mesh.opacity),
            Err(e) => Err(e),
        }
    }

    /// Replaces a mesh's texture handle pair, touching nothing else.
    pub fn set_textures(&mut self, id: MeshId, textures: (
        Option<TextureId>,
        Option<TextureId>,
    )) -> (r: Result<(), RoastError>)
        requires
            old(self).wf(),
        ensures
            final(self).wf(),
            final(self).geometries_spec() == old(self).geometries_spec(),
            match r {
                Ok(()) => old(self).valid_id(id) && final(self).meshes_spec() == old(
                    self,
                ).meshes_spec().update(
                    id as int,
                    Mesh { textures, ..old(self).meshes_spec()[id as int] },
                ),
                Err(e) => !old(self).valid_id(id) && *final(self) == *old(self)
                    && e is IllegalState,
            },
    {
        if id < self.meshes.len() as u64 {
            let idx = id as usize;
            let mut mesh = self.meshes[idx];
            mesh.textures = textures;
            self.meshes[idx] = mesh;
            Ok(())
        } else {
            Err(RoastError::IllegalState(mesh_not_found_msg()))
        }
    }

    /// Replaces a mesh's transform, touching nothing else.
    pub fn set_transform(&mut self, id: MeshId, transform: ForeignMat4) -> (r: Result<
        (),
        RoastError,
    >)
        requires
            old(self).wf(),
        ensures
            final(self).wf(),
            final(self).geometries_spec() == old(self).geometries_spec(),
            match r {
                Ok(()) => old(self).valid_id(id) && final(self).meshes_spec() == old(
                    self,
                ).meshes_spec().update(
                    id as int,
                    Mesh { transform, ..old(self).meshes_spec()[id as int] },
                ),
                Err(e) => !old(self).valid_id(id) && *final(self) == *old(self)
                    && e is IllegalState,
            },
    {
        if id < self.meshes.len() as u64 {
            let idx = id as usize;
            let mut mesh = self.meshes[idx];
            mesh.transform = transform;
            self.meshes[idx] = mesh;
            Ok(())
        } else {
            Err(RoastError::IllegalState(mesh_not_found_msg()))
        }
    }

    /// Replaces a mesh's texture offsets, touching nothing else.
    pub fn set_texture_offsets(&mut self, id: MeshId, texture_offsets: (
        ForeignVec2,
        ForeignVec2,
    )) -> (r: Result<(), RoastError>)
        requires
            old(self).wf(),
        ensures
            final(self).wf(),
            final(self).geometries_spec() == old(self).geometries_spec(),
            match r {
                Ok(()) => old(self).valid_id(id) && final(self).meshes_spec() == old(
                    self,
                ).meshes_spec().update(
                    id as int,
                    Mesh { texture_offsets, ..old(self).meshes_spec()[id as int] },
                ),
                Err(e) => !old(self).valid_id(id) && *final(self) == *old(self)
                    && e is IllegalState,
            },
    {
        if id < self.meshes.len() as u64 {
            let idx = id as usize;
            let mut mesh = self.meshes[idx];
            mesh.texture_offsets = texture_offsets;
            self.meshes[idx] = mesh;
            Ok(())
        } else {
            Err(RoastError::IllegalState(mesh_not_found_msg()))
        }
    }

    /// Replaces a mesh's overlay color, touching nothing else.
    pub fn set_overlay_color(&mut self, id: MeshId, overlay_color: Option<ForeignVec4>) -> (r:
        Result<(), RoastError>)
        requires
            old(self).wf(),
        ensures
            final(self).wf(),
            final(self).geometries_spec() == old(self).geometries_spec(),
            match r {
                Ok(()) => old(self).valid_id(id) && final(self).meshes_spec() == old(
                    self,
                ).meshes_spec().update(
                    id as int,
                    Mesh { overlay_color, ..old(self).meshes_spec()[id as int] },
                ),
                Err(e) => !old(self).valid_id(id) && *final(self) == *old(self)
                    && e is IllegalState,
            },
    {
        if id < self.meshes.len() as u64 {
            let idx = id as usize;
            let mut mesh = self.meshes[idx];
            mesh.overlay_color = overlay_color;
            self.meshes[idx] = mesh;
            Ok(())
        } else {
            Err(RoastError::IllegalState(mesh_not_found_msg()))
        }
    }

    /// Replaces a mesh's opacity, touching nothing else.
    pub fn set_opacity(&mut self, id: MeshId, opacity: u32) -> (r: Result<(), RoastError>)
        requires
            old(self).wf(),
        ensures
            final(self).wf(),
            final(self).geometries_spec() == old(self).geometries_spec(),
            match r {
                Ok(()) => old(self).valid_id(id) && final(self).meshes_spec() == old(
                    self,
                ).meshes_spec().update(
                    id as int,
                    Mesh { opacity, ..old(self).meshes_spec()[id as int] },
                ),
                Err(e) => !old(self).valid_id(id) && *final(self) == *old(self)
                    && e is IllegalState,
            },
    {
        if id < self.meshes.len() as u64 {
            let idx = id as usize;
            let mut mesh = self.meshes[idx];
            mesh.opacity = opacity;
            self.meshes[idx] = mesh;
            Ok(())
        } else {
            Err(RoastError::IllegalState(mesh_not_found_msg()))
        }
    }

    /// Looks a mesh up by handle.
    pub fn get(&self, id: MeshId) -> (r: Option<&Mesh>)
        ensures
            match r {
                Some(mesh) => self.valid_id(id) && *mesh == self.meshes_spec()[id as int],
                None => !self.valid_id(id),
            },
    {
        if id < self.meshes.len() as u64 {
            Some(&self.meshes[id as usize])
        } else {
            None
        }
    }

    /// Looks up the geometry a mesh draws.
    pub fn get_geometry(&self, id: MeshId) -> (r: Option<&Geometry>)
        requires
            self.wf(),
        ensures
            match r {
                Some(geometry) => self.valid_id(id) && *geometry == self.geometries_spec()[
                    self.meshes_spec()[id as int].geometry as int
                ],
                None => !self.valid_id(id),
            },
    {
        if id < self.meshes.len() as u64 {
            proof {
                assert(self.meshes_spec()[id as int].geometry < self.geometries_spec().len());
            }
            let geometry_id = self.meshes[id as usize].geometry;
            let geometry_count = self.geometries.len();
            proof {
                assert(geometry_id < geometry_count as u64);
            }
            Some(&self.geometries[geometry_id as usize])
        } else {
            None
        }
    }

    /// How many meshes have been registered.
    pub fn len(&self) -> (r: usize)
        ensures
            r == self.meshes_spec().len(),
    {
        self.meshes.len()
    }
}

/// Geometry sharing: registering a geometry clone of a stored mesh and then
/// replacing the clone's instance state (a new transform, say) leaves the
/// source mesh's transform untouched, while source and clone still name the
/// same geometry, so their vertex and index data remain identical. The two
/// transitions hypothesized are exactly what `register_mesh_from_geometry`
/// and `set` promise.
pub proof fn lemma_geometry_clone_independent(
    s0: MeshStore,
    s1: MeshStore,
    s2: MeshStore,
    source: MeshId,
    clone_id: MeshId,
    updated: Mesh,
)
    requires
        s0.valid_id(source),
        // Registering the clone:
        clone_id as int == s0.next_id_spec(),
        s1.meshes_spec() == s0.meshes_spec().push(
            Mesh::geometry_clone_spec(s0.meshes_spec()[source as int]),
        ),
        s1.geometries_spec() == s0.geometries_spec(),
        // Replacing the clone's instance state, without touching its geometry handle:
        updated.geometry == s1.meshes_spec()[clone_id as int].geometry,
        s2.meshes_spec() == s1.meshes_spec().update(clone_id as int, updated),
        s2.geometries_spec() == s1.geometries_spec(),
    ensures
        source != clone_id,
        s2.meshes_spec()[source as int] == s0.meshes_spec()[source as int],
        s2.meshes_spec()[source as int].transform == s0.meshes_spec()[source as int].transform,
        s2.meshes_spec()[clone_id as int] == updated,
        s2.meshes_spec()[source as int].geometry == s2.meshes_spec()[clone_id as int].geometry,
        s2.geometries_spec() == s0.geometries_spec(),
{
}

/// The handle-issuing step every texture registration performs, as
/// `register_texture` promises it.
pub open spec fn texture_registered(pre: TextureStore, post: TextureStore, id: TextureId) -> bool {
    &&& id as int == pre.next_id_spec()
    &&& post.next_id_spec() == pre.next_id_spec() + 1
}

/// The handle-issuing step every mesh registration performs, as
/// `register_mesh` and `register_mesh_from_geometry` promise it.
pub open spec fn mesh_registered(pre: MeshStore, post: MeshStore, id: MeshId) -> bool {
    &&& id as int == pre.next_id_spec()
    &&& post.next_id_spec() == pre.next_id_spec() + 1
}

/// Texture handles are monotonic: across any two consecutive registrations
/// the second handle is strictly larger, neither handle names a texture
/// that existed before it was issued, and both stay valid afterwards, so a
/// handle is never repeated within the life of the store.
pub proof fn lemma_texture_handle_monotonic(
    s0: TextureStore,
    s1: TextureStore,
    s2: TextureStore,
    h1: TextureId,
    h2: TextureId,
)
    requires
        texture_registered(s0, s1, h1),
        texture_registered(s1, s2, h2),
    ensures
        h2 > h1,
        !s0.valid_id(h1),
        !s1.valid_id(h2),
        s1.valid_id(h1),
        s2.valid_id(h1),
        s2.valid_id(h2),
{
}

/// Mesh handles are monotonic, in the same sense as texture handles, over
/// both ways of registering a mesh.
pub proof fn lemma_mesh_handle_monotonic(
    s0: MeshStore,
    s1: MeshStore,
    s2: MeshStore,
    h1: MeshId,
    h2: MeshId,
)
    requires
        mesh_registered(s0, s1, h1),
        mesh_registered(s1, s2, h2),
    ensures
        h2 > h1,
        !s0.valid_id(h1),
        !s1.valid_id(h2),
        s1.valid_id(h1),
        s2.valid_id(h1),
        s2.valid_id(h2),
{
}

} // verus!
