use roast::error::RoastError;
use roast::ffi::{ForeignMat4, ForeignVec2, ForeignVec4, F32_ONE_BITS};
use roast::mesh::{Mesh, Vertex, VertexType};
use roast::registry::{MeshStore, TextureStore};
use roast::texture::{DecodedImage, Texture, TextureSampling};

fn sample_texture(width: u32, height: u32) -> Texture {
    let image = DecodedImage {
        width,
        height,
        rgba: vec![0u8; (width * height * 4) as usize],
    };
    Texture::new(&image, TextureSampling::Pixel, false)
}

fn triangle_vertices() -> Vec<Vertex> {
    vec![
        Vertex::pos_color((0, 0, 0), (1, 2, 3, 4)),
        Vertex::pos_color((5, 0, 0), (1, 2, 3, 4)),
        Vertex::pos_color((0, 5, 0), (1, 2, 3, 4)),
    ]
}

#[test]
fn texture_handles_strictly_increase() {
    let mut store = TextureStore::new();
    let mut previous: Option<u64> = None;
    for i in 0..5u32 {
        let id = store.register_texture(sample_texture(1 + i, 1));
        if let Some(p) = previous {
            assert!(id > p);
        }
        previous = Some(id);
    }
    assert_eq!(store.len(), 5);
}

#[test]
fn mesh_handles_strictly_increase_across_both_registrations() {
    let mut store = MeshStore::new();
    let first = store.register_mesh(triangle_vertices(), vec![0, 1, 2], VertexType::COLOR, None, None);
    let second = store.register_mesh(triangle_vertices(), vec![0, 1, 2], VertexType::TEX1, Some(0), None);
    let third = store.register_mesh_from_geometry(first).unwrap();
    assert!(second > first);
    assert!(third > second);
    assert_eq!(first, 0);
    assert_eq!(second, 1);
    assert_eq!(third, 2);
}

#[test]
fn geometry_clone_shares_data_but_not_instance_state() {
    let mut store = MeshStore::new();
    let source = store.register_mesh(
        triangle_vertices(),
        vec![0, 1, 2],
        VertexType::TEX1,
        Some(4),
        None,
    );
    let clone = store.register_mesh_from_geometry(source).unwrap();
    assert_ne!(source, clone);

    // The clone starts with fresh instance state but the source's textures.
    let clone_mesh: Mesh = *store.get(clone).unwrap();
    assert_eq!(clone_mesh.transform, ForeignMat4::identity());
    assert_eq!(clone_mesh.textures, (Some(4), None));
    assert_eq!(clone_mesh.opacity, F32_ONE_BITS);

    // Mutating the clone's transform leaves the source untouched.
    let mut moved = ForeignMat4::identity();
    moved.w_axis = ForeignVec4 { x: 77, y: 88, z: 99, w: F32_ONE_BITS };
    store.set_transform(clone, moved).unwrap();

    let source_mesh = store.get(source).unwrap();
    assert_eq!(source_mesh.transform, ForeignMat4::identity());
    let clone_mesh = store.get(clone).unwrap();
    assert_eq!(clone_mesh.transform, moved);

    // Both meshes still draw identical vertex and index data.
    let source_geometry = store.get_geometry(source).unwrap();
    let clone_geometry = store.get_geometry(clone).unwrap();
    assert_eq!(source_geometry.vertices, clone_geometry.vertices);
    assert_eq!(source_geometry.indices, clone_geometry.indices);
}

#[test]
fn clone_of_missing_mesh_is_illegal_state() {
    let mut store = MeshStore::new();
    match store.register_mesh_from_geometry(3) {
        Err(RoastError::IllegalState(_)) => {}
        _ => panic!("expected an illegal-state error"),
    }
}

#[test]
fn mesh_field_operations_read_and_write_exactly_one_mesh() {
    let mut store = MeshStore::new();
    let a = store.register_mesh(triangle_vertices(), vec![0, 1, 2], VertexType::TEX2, Some(1), Some(2));
    let b = store.register_mesh(triangle_vertices(), vec![2, 1, 0], VertexType::COLOR, None, None);

    assert_eq!(store.get_vertex_type(a).unwrap(), VertexType::TEX2);
    assert_eq!(store.get_textures(a).unwrap(), (Some(1), Some(2)));
    assert_eq!(store.get_overlay_color(a).unwrap(), None);
    assert_eq!(store.get_opacity(a).unwrap(), F32_ONE_BITS);

    store.set_textures(a, (None, Some(9))).unwrap();
    store.set_texture_offsets(a, (ForeignVec2 { x: 5, y: 6 }, ForeignVec2 { x: 7, y: 8 })).unwrap();
    store.set_overlay_color(a, Some(ForeignVec4 { x: 1, y: 2, z: 3, w: 4 })).unwrap();
    store.set_opacity(a, 0).unwrap();

    assert_eq!(store.get_textures(a).unwrap(), (None, Some(9)));
    assert_eq!(
        store.get_texture_offsets(a).unwrap(),
        (ForeignVec2 { x: 5, y: 6 }, ForeignVec2 { x: 7, y: 8 })
    );
    assert_eq!(store.get_overlay_color(a).unwrap(), Some(ForeignVec4 { x: 1, y: 2, z: 3, w: 4 }));
    assert_eq!(store.get_opacity(a).unwrap(), 0);

    // The other mesh is untouched.
    assert_eq!(store.get_textures(b).unwrap(), (None, None));
    assert_eq!(store.get_opacity(b).unwrap(), F32_ONE_BITS);

    // A stale handle is an illegal state, not a panic.
    assert!(matches!(store.get_opacity(99), Err(RoastError::IllegalState(_))));
    assert!(matches!(store.set_opacity(99, 1), Err(RoastError::IllegalState(_))));
}

#[test]
fn push_constants_pack_instance_state() {
    let mut store = MeshStore::new();
    let id = store.register_mesh(triangle_vertices(), vec![0, 1, 2], VertexType::TEX1, Some(0), None);
    store.set_texture_offsets(id, (ForeignVec2 { x: 10, y: 11 }, ForeignVec2 { x: 12, y: 13 })).unwrap();
    let mesh = store.get(id).unwrap();
    let push = mesh.fill_push_constants();
    assert_eq!(push.tex_offsets, ForeignVec4 { x: 10, y: 11, z: 12, w: 13 });
    // An absent overlay color becomes the neutral all-ones color.
    assert_eq!(push.overlay_color, ForeignVec4::one());
    assert_eq!(push.opacity, F32_ONE_BITS);
    assert_eq!(push.vertex_type, VertexType::TEX1);
}

#[test]
fn stale_texture_handle_is_illegal_state() {
    let mut store = TextureStore::new();
    let id = store.register_texture(sample_texture(2, 3));
    assert_eq!(store.get_required(id).unwrap().width(), 2);
    assert_eq!(store.get_required(id).unwrap().height(), 3);
    assert!(matches!(store.get_required(id + 1), Err(RoastError::IllegalState(_))));
}
