//! Properties of the compiled tables that relate the compiler's results to
//! the scene they were compiled from.
use vstd::prelude::*;

use crate::compiler::{
    compile_mesh_spec, compile_meshes_spec, compile_primitive_spec, compiled_primitives, mesh_len,
    mesh_nodes, position_accessor, scene_primitive, DrawMode, GpuPrimitiveView,
};
use crate::compiler::{primitive_views, CompiledScene};
use crate::render::{key_index, lemma_key_index_in_range, lemma_key_index_none};
use crate::scene::{GltfScene, Node};

verus! {

/// `a`'s (mesh, primitive) key comes strictly before `b`'s.
pub open spec fn key_before(a: GpuPrimitiveView, b: GpuPrimitiveView) -> bool {
    a.mesh < b.mesh || (a.mesh == b.mesh && a.primitive < b.primitive)
}

/// Whether primitive `p` of mesh `m` has a position attribute.
pub open spec fn has_position(scene: &GltfScene, m: int, p: int) -> bool {
    position_accessor(scene_primitive(scene, m, p).attributes@) is Some
}

/// Each entry is the compiled form of a primitive with a position attribute
/// of one of the first `n` meshes.
pub open spec fn entries_sound(scene: &GltfScene, s: Seq<GpuPrimitiveView>, n: nat) -> bool {
    forall|j: int|
        #![trigger s[j]]
        0 <= j < s.len() ==> {
            &&& s[j].mesh < n
            &&& s[j].primitive < mesh_len(scene, s[j].mesh as int)
            &&& has_position(scene, s[j].mesh as int, s[j].primitive as int)
            &&& compile_primitive_spec(scene, s[j].mesh, s[j].primitive) == Ok::<
                Option<GpuPrimitiveView>,
                crate::compiler::CompileError,
            >(Some(s[j]))
        }
}

pub open spec fn keys_sorted(s: Seq<GpuPrimitiveView>) -> bool {
    forall|i: int, j: int| 0 <= i < j < s.len() ==> key_before(#[trigger] s[i], #[trigger] s[j])
}

/// Every primitive with a position attribute among the first `n` meshes has an entry.
pub open spec fn entries_complete(scene: &GltfScene, s: Seq<GpuPrimitiveView>, n: nat) -> bool {
    forall|m: int, p: int|
        0 <= m < n && 0 <= p < mesh_len(scene, m) && #[trigger] has_position(scene, m, p) ==> exists|
            j: int,
        |
            0 <= j < s.len() && #[trigger] s[j].mesh == m && s[j].primitive == p
}

proof fn lemma_mesh_table(scene: &GltfScene, m: usize, k: nat)
    requires
        m < scene.meshes@.len(),
        k <= mesh_len(scene, m as int),
        compile_mesh_spec(scene, m, k) is Ok,
    ensures
        ({
            let t = compile_mesh_spec(scene, m, k)->Ok_0;
            &&& entries_sound(scene, t, (m + 1) as nat)
            &&& forall|j: int| 0 <= j < t.len() ==> #[trigger] t[j].mesh == m && t[j].primitive < k
            &&& keys_sorted(t)
            &&& forall|p: int|
                0 <= p < k && #[trigger] has_position(scene, m as int, p) ==> exists|j: int|
                    0 <= j < t.len() && #[trigger] t[j].primitive == p
        }),
    decreases k,
{
    assert(scene.meshes@[m as int].primitives.len() == mesh_len(scene, m as int));
    if k > 0 {
        lemma_mesh_table(scene, m, (k - 1) as nat);
        let t0 = compile_mesh_spec(scene, m, (k - 1) as nat)->Ok_0;
        let t = compile_mesh_spec(scene, m, k)->Ok_0;
        let q = (k - 1) as usize;
        match compile_primitive_spec(scene, m, q) {
            Ok(Some(c)) => {
                assert(t == t0.push(c));
                assert(c.mesh == m && c.primitive == q);
                assert forall|p: int|
                    0 <= p < k && #[trigger] has_position(scene, m as int, p) implies exists|j: int|
                        0 <= j < t.len() && #[trigger] t[j].primitive == p by {
                    if p == q {
                        assert(t[t.len() - 1].primitive == p);
                    } else {
                        let j = choose|j: int| 0 <= j < t0.len() && #[trigger] t0[j].primitive == p;
                        assert(t[j].primitive == p);
                    }
                }
            },
            _ => {
                assert(t == t0);
                assert(!has_position(scene, m as int, q as int));
            },
        }
    }
}

proof fn lemma_meshes_table(scene: &GltfScene, n: nat)
    requires
        n <= scene.meshes@.len(),
        compile_meshes_spec(scene, n) is Ok,
    ensures
        ({
            let s = compile_meshes_spec(scene, n)->Ok_0;
            &&& entries_sound(scene, s, n)
            &&& keys_sorted(s)
            &&& entries_complete(scene, s, n)
        }),
    decreases n,
{
    assert(scene.meshes.len() == scene.meshes@.len());
    if n > 0 {
        let m = (n - 1) as usize;
        lemma_meshes_table(scene, (n - 1) as nat);
        lemma_mesh_table(scene, m, mesh_len(scene, m as int));
        let s0 = compile_meshes_spec(scene, (n - 1) as nat)->Ok_0;
        let t = compile_mesh_spec(scene, m, mesh_len(scene, m as int))->Ok_0;
        let s = compile_meshes_spec(scene, n)->Ok_0;
        assert(s == s0 + t);
        assert forall|j: int| #![trigger s[j]] 0 <= j < s.len() implies {
            &&& s[j].mesh < n
            &&& s[j].primitive < mesh_len(scene, s[j].mesh as int)
            &&& has_position(scene, s[j].mesh as int, s[j].primitive as int)
            &&& compile_primitive_spec(scene, s[j].mesh, s[j].primitive) == Ok::<
                Option<GpuPrimitiveView>,
                crate::compiler::CompileError,
            >(Some(s[j]))
        } by {
            if j < s0.len() {
                assert(s[j] == s0[j]);
            } else {
                assert(s[j] == t[j - s0.len()]);
            }
        }
        assert forall|i: int, j: int| 0 <= i < j < s.len() implies key_before(
            #[trigger] s[i],
            #[trigger] s[j],
        ) by {
            if j < s0.len() {
                assert(s[i] == s0[i] && s[j] == s0[j]);
            } else if i < s0.len() {
                assert(s[i] == s0[i] && s[j] == t[j - s0.len()]);
                assert(t[j - s0.len()].mesh == m);
            } else {
                assert(s[i] == t[i - s0.len()] && s[j] == t[j - s0.len()]);
                assert(t[i - s0.len()].mesh == m);
                assert(t[j - s0.len()].mesh == m);
            }
        }
        assert forall|mm: int, p: int|
            0 <= mm < n && 0 <= p < mesh_len(scene, mm) && #[trigger] has_position(
                scene,
                mm,
                p,
            ) implies exists|j: int|
            0 <= j < s.len() && #[trigger] s[j].mesh == mm && s[j].primitive == p by {
            if mm < m {
                let j = choose|j: int| 0 <= j < s0.len() && #[trigger] s0[j].mesh == mm && s0[j].primitive == p;
                assert(s[j] == s0[j]);
                assert(s[j].mesh == mm);
            } else {
                let j = choose|j: int| 0 <= j < t.len() && #[trigger] t[j].primitive == p;
                assert(s[s0.len() + j] == t[j]);
                assert(t[j].mesh == m);
                assert(s[s0.len() + j].mesh == mm);
            }
        }
    }
}

/// Compiler completeness: when the scene compiles, the primitive table holds
/// exactly one entry per (mesh, primitive) pair with a position attribute,
/// keys strictly increasing, each entry the compiled form of its primitive;
/// and the node-binding table holds exactly one entry per node with a mesh,
/// in node order.
pub proof fn lemma_compile_complete(scene: &GltfScene)
    requires
        compiled_primitives(scene) is Ok,
    ensures
        entries_sound(scene, compiled_primitives(scene)->Ok_0, scene.meshes@.len()),
        keys_sorted(compiled_primitives(scene)->Ok_0),
        entries_complete(scene, compiled_primitives(scene)->Ok_0, scene.meshes@.len()),
        bindings_exact(scene.nodes@, mesh_nodes(scene.nodes@)),
{
    lemma_meshes_table(scene, scene.meshes@.len());
    assert(scene.nodes.len() == scene.nodes@.len());
    lemma_mesh_nodes(scene.nodes@);
}

/// Every primitive with a position attribute is found by its (mesh, primitive)
/// key in a compiled scene's primitive table, and the entry found is that
/// primitive's compiled form.
pub proof fn lemma_lookup_by_key(scene: &GltfScene, c: &CompiledScene, m: usize, p: usize)
    requires
        compiled_primitives(scene) == Ok::<Seq<GpuPrimitiveView>, crate::compiler::CompileError>(
            primitive_views(c.primitive_data@),
        ),
        m < scene.meshes@.len(),
        p < mesh_len(scene, m as int),
        has_position(scene, m as int, p as int),
    ensures
        key_index(c.primitive_data@, m, p) matches Some(j) && 0 <= j < c.primitive_data@.len()
            && compile_primitive_spec(scene, m, p) == Ok::<
            Option<GpuPrimitiveView>,
            crate::compiler::CompileError,
        >(Some(c.primitive_data@[j]@)),
{
    let s = primitive_views(c.primitive_data@);
    lemma_meshes_table(scene, scene.meshes@.len());
    assert(has_position(scene, m as int, p as int));
    let j0 = choose|j: int| 0 <= j < s.len() && #[trigger] s[j].mesh == m as int && s[j].primitive == p as int;
    assert(s[j0] == c.primitive_data@[j0]@);
    if key_index(c.primitive_data@, m, p) is None {
        lemma_key_index_none(c.primitive_data@, m, p, j0);
    }
    lemma_key_index_in_range(c.primitive_data@, m, p);
    let j = key_index(c.primitive_data@, m, p)->Some_0;
    assert(s[j] == c.primitive_data@[j]@);
}

/// `b` lists, in increasing node order, exactly the nodes that have a mesh, each with its mesh.
pub open spec fn bindings_exact(nodes: Seq<Node>, b: Seq<crate::compiler::NodeBinding>) -> bool {
    &&& forall|j: int|
        #![trigger b[j]]
        0 <= j < b.len() ==> b[j].node < nodes.len() && nodes[b[j].node as int].mesh == Some(
            b[j].mesh,
        )
    &&& forall|i: int, j: int| 0 <= i < j < b.len() ==> #[trigger] b[i].node < #[trigger] b[j].node
    &&& forall|i: int|
        0 <= i < nodes.len() && (#[trigger] nodes[i]).mesh is Some ==> exists|j: int|
            0 <= j < b.len() && #[trigger] b[j].node == i
}

proof fn lemma_mesh_nodes(nodes: Seq<Node>)
    requires
        nodes.len() <= usize::MAX,
    ensures
        bindings_exact(nodes, mesh_nodes(nodes)),
    decreases nodes.len(),
{
    if nodes.len() > 0 {
        let rest = nodes.drop_last();
        lemma_mesh_nodes(rest);
        let b0 = mesh_nodes(rest);
        let b = mesh_nodes(nodes);
        assert forall|j: int| #![trigger b[j]] 0 <= j < b.len() implies b[j].node < nodes.len()
            && nodes[b[j].node as int].mesh == Some(b[j].mesh) by {
            if j < b0.len() {
                assert(b[j] == b0[j]);
                assert(nodes[b0[j].node as int] == rest[b0[j].node as int]);
            }
        }
        assert forall|i: int|
            0 <= i < nodes.len() && (#[trigger] nodes[i]).mesh is Some implies exists|j: int|
                0 <= j < b.len() && #[trigger] b[j].node == i by {
            if i < rest.len() {
                assert(rest[i] == nodes[i]);
                let j = choose|j: int| 0 <= j < b0.len() && #[trigger] b0[j].node == i;
                assert(b[j] == b0[j]);
            } else {
                assert(b[b.len() - 1].node == i);
            }
        }
        assert forall|i: int, j: int| 0 <= i < j < b.len() implies #[trigger] b[i].node
            < #[trigger] b[j].node by {
            if j < b0.len() {
                assert(b[i] == b0[i] && b[j] == b0[j]);
            } else {
                assert(b[i] == b0[i]);
            }
        }
    }
}

/// Draw-mode selection: every compiled primitive with an index accessor is
/// drawn indexed with that accessor's element count; every one without is
/// drawn non-indexed with its position accessor's element count.
pub proof fn lemma_draw_mode_selection(scene: &GltfScene, j: int)
    requires
        compiled_primitives(scene) is Ok,
        0 <= j < compiled_primitives(scene)->Ok_0.len(),
    ensures
        ({
            let c = compiled_primitives(scene)->Ok_0[j];
            let prim = scene_primitive(scene, c.mesh as int, c.primitive as int);
            &&& prim.indices matches Some(i) ==> c.draw_mode matches DrawMode::Indexed {
                draw_count,
                ..
            } && draw_count as int == scene.accessors@[i as int].count
            &&& prim.indices is None ==> c.draw_mode == DrawMode::Normal(
                scene.accessors@[position_accessor(prim.attributes@)->Some_0 as int].count as u32,
            ) && scene.accessors@[position_accessor(prim.attributes@)->Some_0 as int].count
                <= u32::MAX
        }),
{
    lemma_meshes_table(scene, scene.meshes@.len());
    let s = compiled_primitives(scene)->Ok_0;
    assert(compile_primitive_spec(scene, s[j].mesh, s[j].primitive) == Ok::<
        Option<GpuPrimitiveView>,
        crate::compiler::CompileError,
    >(Some(s[j])));
}

} // verus!
