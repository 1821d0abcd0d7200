//! The draw batcher: turns an ordered mesh-handle list into the commands of
//! one render pass, rebinding the descriptor set only when the upcoming
//! mesh's texture pair actually differs from what is bound. Draw order is
//! never changed — only redundant rebinds are elided — because reordering
//! draws would break transparency.
//!
//! A mesh slot holding `None` keeps whatever that slot currently has bound,
//! so it never forces a rebind by itself; an unresolvable handle falls back
//! to the default texture at bind time instead of failing the frame.

use vstd::prelude::*;

use crate::mesh::{Mesh, PushConstantData};
use crate::registry::{MeshId, MeshStore, TextureId, TextureStore};

verus! {

/// What a texture slot resolves to when a descriptor set is built.
#[derive(Clone, Copy, PartialEq, Eq, Structural, Debug)]
pub enum TextureBinding {
    /// The shared default texture: the slot was empty or its handle did
    /// not resolve.
    Default,
    /// The registered texture with this handle.
    Stored(TextureId),
}

/// One recorded command of a frame.
#[derive(Clone, Copy, PartialEq, Eq, Structural, Debug)]
pub enum RenderCmd {
    /// Begin the render pass.
    BeginPass,
    /// Bind the camera uniforms: the orthographic set for overlay meshes,
    /// the perspective set for world meshes.
    BindCamera { ortho: bool },
    /// Allocate and bind a descriptor set for this texture pair: a rebind.
    BindTextures { texture0: TextureBinding, texture1: TextureBinding },
    /// Draw one mesh with its push constants.
    DrawMesh { mesh: MeshId, push_constants: PushConstantData },
    /// Transition to the second subpass and paint the immediate-mode GUI.
    PaintGui,
    /// End the render pass.
    EndPass,
}

/// The texture pair bound by the most recent rebind, if any. `None` means
/// nothing has been bound yet in this pass.
pub type BoundTextures = Option<(Option<TextureId>, Option<TextureId>)>;

/// Resolves one texture slot: an empty slot and a stale handle both
/// degrade to the default texture.
pub open spec fn resolve_texture_spec(store: TextureStore, id: Option<TextureId>) -> TextureBinding {
    match id {
        None => TextureBinding::Default,
        Some(t) => if store.valid_id(t) {
            TextureBinding::Stored(t)
        } else {
            TextureBinding::Default
        },
    }
}

/// Whether drawing a mesh with this texture pair needs a descriptor rebind
/// given what is currently bound: only a slot the mesh actually uses, bound
/// to something else, forces one.
pub open spec fn needs_rebind(bound: BoundTextures, textures: (Option<TextureId>, Option<TextureId>)) -> bool {
    match bound {
        None => true,
        Some(desc) => {
            ||| (textures.0 is Some && desc.0 != textures.0)
            ||| (textures.1 is Some && desc.1 != textures.1)
        },
    }
}

/// The commands the batcher emits for a mesh-handle list, starting from the
/// given binding state: a rebind exactly where [`needs_rebind`] says so,
/// then the draw, in list order.
pub open spec fn batch_cmds(
    store: TextureStore,
    meshes: Seq<Mesh>,
    ids: Seq<MeshId>,
    bound: BoundTextures,
) -> Seq<RenderCmd>
    decreases ids.len(),
{
    if ids.len() == 0 {
        Seq::empty()
    } else {
        let mesh = meshes[ids[0] as int];
        let draw = seq![
            RenderCmd::DrawMesh { mesh: ids[0], push_constants: mesh.push_constants_spec() },
        ];
        if needs_rebind(bound, mesh.textures) {
            seq![
                RenderCmd::BindTextures {
                    texture0: resolve_texture_spec(store, mesh.textures.0),
                    texture1: resolve_texture_spec(store, mesh.textures.1),
                },
            ] + draw + batch_cmds(store, meshes, ids.drop_first(), Some(mesh.textures))
        } else {
            draw + batch_cmds(store, meshes, ids.drop_first(), bound)
        }
    }
}

/// All commands one mesh list contributes to a pass: nothing for an empty
/// list, else the camera bind followed by the batched draws.
pub open spec fn mesh_pass_cmds(
    store: TextureStore,
    meshes: Seq<Mesh>,
    ids: Seq<MeshId>,
    ortho: bool,
) -> Seq<RenderCmd> {
    if ids.len() == 0 {
        Seq::empty()
    } else {
        seq![RenderCmd::BindCamera { ortho }] + batch_cmds(store, meshes, ids, None)
    }
}

/// Compares two optional texture handles.
fn option_ids_equal(a: Option<TextureId>, b: Option<TextureId>) -> (r: bool)
    ensures
        r == (a == b),
{
    match (a, b) {
        (None, None) => true,
        (Some(x), Some(y)) => x == y,
        _ => false,
    }
}

/// Resolves one texture slot against the store.
fn resolve_texture(store: &TextureStore, id: Option<TextureId>) -> (r: TextureBinding)
    ensures
        r == resolve_texture_spec(*store, id),
{
    match id {
        None => TextureBinding::Default,
        Some(t) => {
            match store.get(t) {
                Some(_) => TextureBinding::Stored(t),
                None => TextureBinding::Default,
            }
        },
    }
}

/// Records the commands that draw `ids` in order: the camera bind when the
/// list is nonempty, and for each mesh a descriptor rebind exactly when the
/// mesh's texture pair requires one, then its draw.
pub fn render_meshes(
    textures: &TextureStore,
    meshes: &MeshStore,
    builder: &mut Vec<RenderCmd>,
    ortho: bool,
    ids: &Vec<MeshId>,
)
    requires
        forall|i: int| 0 <= i < ids@.len() ==> meshes.valid_id(#[trigger] ids@[i]),
    ensures
        final(builder)@ == old(builder)@ + mesh_pass_cmds(
            *textures,
            meshes.meshes_spec(),
            ids@,
            ortho,
        ),
{
    if ids.len() == 0 {
        proof {
            assert(builder@ =~= old(builder)@ + mesh_pass_cmds(
                *textures,
                meshes.meshes_spec(),
                ids@,
                ortho,
            ));
        }
        return ;
    }

    let ghost base = builder@;
    builder.push(RenderCmd::BindCamera { ortho });

    let ghost meshes_view = meshes.meshes_spec();
    let mut bound: BoundTextures = None;
    let mut i: usize = 0;
    proof {
        assert(builder@.skip(base.len() as int + 1) =~= Seq::<RenderCmd>::empty());
        assert(ids@.skip(0) =~= ids@);
        assert(batch_cmds(*textures, meshes_view, ids@, None) =~= builder@.skip(
            base.len() as int + 1,
        ) + batch_cmds(*textures, meshes_view, ids@.skip(0), None));
    }
    while i < ids.len()
        invariant
            i <= ids@.len(),
            forall|k: int| 0 <= k < ids@.len() ==> meshes.valid_id(#[trigger] ids@[k]),
            meshes_view == meshes.meshes_spec(),
            builder@.len() >= base.len() as int + 1,
            builder@.subrange(0, base.len() as int) == base,
            builder@[base.len() as int] == (RenderCmd::BindCamera { ortho }),
            batch_cmds(*textures, meshes_view, ids@, None) == builder@.skip(base.len() as int + 1)
                + batch_cmds(*textures, meshes_view, ids@.skip(i as int), bound),
        decreases ids@.len() - i,
    {
        let id = ids[i];
        let mesh = meshes.get(id).unwrap();

        let ghost prev_bound = bound;
        let ghost prev_builder = builder@;

        let should_rebind = match bound {
            None => true,
            Some(desc) => {
                let mut rebind = false;
                if mesh.textures.0.is_some() {
                    if !option_ids_equal(desc.0, mesh.textures.0) {
                        rebind = true;
                    }
                }
                if mesh.textures.1.is_some() {
                    if !option_ids_equal(desc.1, mesh.textures.1) {
                        rebind = true;
                    }
                }
                rebind
            },
        };
        proof {
            assert(should_rebind == needs_rebind(prev_bound, mesh.textures));
        }

        if should_rebind {
            let texture0 = resolve_texture(textures, mesh.textures.0);
            let texture1 = resolve_texture(textures, mesh.textures.1);
            builder.push(RenderCmd::BindTextures { texture0, texture1 });
            bound = Some(mesh.textures);
        }

        let push_constants = mesh.fill_push_constants();
        builder.push(RenderCmd::DrawMesh { mesh: id, push_constants });

        proof {
            let idsv = ids@;
            let rest = idsv.skip(i as int);
            assert(rest[0] == idsv[i as int]);
            assert(rest.drop_first() =~= idsv.skip(i as int + 1));
            // One unfolding of batch_cmds on the suffix that starts at i.
            let head_cmds = builder@.skip(prev_builder.len() as int);
            assert(builder@.skip(base.len() as int + 1) =~= prev_builder.skip(base.len() as int + 1)
                + head_cmds);
            if needs_rebind(prev_bound, mesh.textures) {
                assert(head_cmds =~= seq![
                    RenderCmd::BindTextures {
                        texture0: resolve_texture_spec(*textures, mesh.textures.0),
                        texture1: resolve_texture_spec(*textures, mesh.textures.1),
                    },
                ] + seq![
                    RenderCmd::DrawMesh { mesh: rest[0], push_constants: mesh.push_constants_spec() },
                ]);
                assert(batch_cmds(*textures, meshes_view, rest, prev_bound) =~= head_cmds
                    + batch_cmds(*textures, meshes_view, rest.drop_first(), bound));
            } else {
                assert(head_cmds =~= seq![
                    RenderCmd::DrawMesh { mesh: rest[0], push_constants: mesh.push_constants_spec() },
                ]);
                assert(batch_cmds(*textures, meshes_view, rest, prev_bound) =~= head_cmds
                    + batch_cmds(*textures, meshes_view, rest.drop_first(), bound));
            }
            assert(batch_cmds(*textures, meshes_view, idsv, None) =~= builder@.skip(base.len() as int + 1)
                + batch_cmds(*textures, meshes_view, idsv.skip(i as int + 1), bound));
        }

        i = i + 1;
    }

    proof {
        assert(ids@.skip(ids@.len() as int) =~= Seq::<MeshId>::empty());
        assert(batch_cmds(*textures, meshes_view, ids@.skip(ids@.len() as int), bound)
            =~= Seq::<RenderCmd>::empty());
        assert(batch_cmds(*textures, meshes_view, ids@, None) =~= builder@.skip(base.len() as int + 1));
        assert(builder@ =~= base + seq![RenderCmd::BindCamera { ortho }] + builder@.skip(
            base.len() as int + 1,
        ));
        assert(builder@ =~= old(builder)@ + mesh_pass_cmds(
            *textures,
            meshes.meshes_spec(),
            ids@,
            ortho,
        ));
    }
}

/// Default-texture fallback: a texture slot that is empty, or whose handle
/// does not name a registered texture, always resolves to the default
/// texture. Together with the render contract — which fails only on stale
/// mesh handles — this is why a dangling texture reference degrades
/// gracefully instead of failing the frame.
pub proof fn lemma_default_texture_fallback(store: TextureStore, id: Option<TextureId>)
    requires
        match id {
            None => true,
            Some(t) => !store.valid_id(t),
        },
    ensures
        resolve_texture_spec(store, id) == TextureBinding::Default,
{
}

/// The mesh handles a command sequence draws, in order.
pub open spec fn draws_of(cmds: Seq<RenderCmd>) -> Seq<MeshId>
    decreases cmds.len(),
{
    if cmds.len() == 0 {
        Seq::empty()
    } else {
        let rest = draws_of(cmds.drop_first());
        match cmds[0] {
            RenderCmd::DrawMesh { mesh, .. } => seq![mesh] + rest,
            _ => rest,
        }
    }
}

/// `draws_of` of a single command.
proof fn lemma_draws_of_single(c: RenderCmd)
    ensures
        draws_of(seq![c]) == match c {
            RenderCmd::DrawMesh { mesh, .. } => seq![mesh],
            _ => Seq::<MeshId>::empty(),
        },
{
    assert(seq![c].drop_first() =~= Seq::<RenderCmd>::empty());
    assert(draws_of(Seq::<RenderCmd>::empty()) =~= Seq::<MeshId>::empty());
    match c {
        RenderCmd::DrawMesh { mesh, .. } => {
            assert(draws_of(seq![c]) =~= seq![mesh]);
        },
        _ => {
            assert(draws_of(seq![c]) =~= Seq::<MeshId>::empty());
        },
    }
}

/// `draws_of` distributes over concatenation.
proof fn lemma_draws_of_add(a: Seq<RenderCmd>, b: Seq<RenderCmd>)
    ensures
        draws_of(a + b) == draws_of(a) + draws_of(b),
    decreases a.len(),
{
    if a.len() == 0 {
        assert(a + b =~= b);
        assert(draws_of(a) + draws_of(b) =~= draws_of(b));
    } else {
        assert((a + b).drop_first() =~= a.drop_first() + b);
        lemma_draws_of_add(a.drop_first(), b);
        match a[0] {
            RenderCmd::DrawMesh { mesh, .. } => {
                assert(draws_of(a + b) =~= seq![mesh] + (draws_of(a.drop_first()) + draws_of(b)));
                assert(draws_of(a) + draws_of(b) =~= seq![mesh] + draws_of(a.drop_first())
                    + draws_of(b));
            },
            _ => {},
        }
    }
}

/// The batcher preserves draw order exactly: whatever the binding state and
/// however many rebinds are elided, the meshes drawn by its commands are the
/// input list, unchanged.
pub proof fn lemma_batch_preserves_order(
    store: TextureStore,
    meshes: Seq<Mesh>,
    ids: Seq<MeshId>,
    bound: BoundTextures,
)
    ensures
        draws_of(batch_cmds(store, meshes, ids, bound)) == ids,
    decreases ids.len(),
{
    if ids.len() == 0 {
        assert(draws_of(batch_cmds(store, meshes, ids, bound)) =~= ids);
    } else {
        let mesh = meshes[ids[0] as int];
        let draw = seq![
            RenderCmd::DrawMesh { mesh: ids[0], push_constants: mesh.push_constants_spec() },
        ];
        if needs_rebind(bound, mesh.textures) {
            let bind = seq![
                RenderCmd::BindTextures {
                    texture0: resolve_texture_spec(store, mesh.textures.0),
                    texture1: resolve_texture_spec(store, mesh.textures.1),
                },
            ];
            let rest = batch_cmds(store, meshes, ids.drop_first(), Some(mesh.textures));
            lemma_batch_preserves_order(store, meshes, ids.drop_first(), Some(mesh.textures));
            lemma_draws_of_add(bind + draw, rest);
            lemma_draws_of_add(bind, draw);
            lemma_draws_of_single(draw[0]);
            lemma_draws_of_single(bind[0]);
            assert(draws_of(draw) =~= seq![ids[0]]);
            assert(draws_of(bind) =~= Seq::<MeshId>::empty());
            assert(draws_of(bind + draw + rest) =~= seq![ids[0]] + ids.drop_first());
            assert(seq![ids[0]] + ids.drop_first() =~= ids);
        } else {
            let rest = batch_cmds(store, meshes, ids.drop_first(), bound);
            lemma_batch_preserves_order(store, meshes, ids.drop_first(), bound);
            lemma_draws_of_add(draw, rest);
            lemma_draws_of_single(draw[0]);
            assert(draws_of(draw) =~= seq![ids[0]]);
            assert(draws_of(draw + rest) =~= seq![ids[0]] + ids.drop_first());
            assert(seq![ids[0]] + ids.drop_first() =~= ids);
        }
    }
}

} // verus!
