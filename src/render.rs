//! The draw sequence of one frame: for each node binding, the compiled
//! primitives of that node's mesh, looked up by (mesh, primitive) key.
use vstd::prelude::*;

use crate::compiler::{mesh_len, CompiledScene, GpuPrimitive};
use crate::scene::GltfScene;

verus! {

/// One draw call: bind node binding `node` and draw compiled primitive `primitive`
/// (both indices into the compiled tables).
#[derive(Clone, Copy, Debug, PartialEq, Eq, Structural)]
pub struct DrawItem {
    pub node: usize,
    pub primitive: usize,
}

/// Position of the first entry keyed (`mesh`, `prim`) in the primitive table.
pub open spec fn key_index(s: Seq<GpuPrimitive>, mesh: usize, prim: usize) -> Option<int>
    decreases s.len(),
{
    if s.len() == 0 {
        None
    } else {
        match key_index(s.drop_last(), mesh, prim) {
            Some(j) => Some(j),
            None => if s.last().mesh == mesh && s.last().primitive == prim {
                Some(s.len() - 1)
            } else {
                None
            },
        }
    }
}

/// Draw items for binding `b` over the first `k` primitives of `mesh`; a
/// primitive that was not compiled is not drawn.
pub open spec fn node_items(s: Seq<GpuPrimitive>, b: usize, mesh: usize, k: nat) -> Seq<DrawItem>
    decreases k,
{
    if k == 0 {
        seq![]
    } else {
        let rest = node_items(s, b, mesh, (k - 1) as nat);
        match key_index(s, mesh, (k - 1) as usize) {
            Some(j) => rest.push(DrawItem { node: b, primitive: j as usize }),
            None => rest,
        }
    }
}

/// Draw items of the first `n` node bindings, in binding order.
pub open spec fn draw_items(scene: &GltfScene, c: &CompiledScene, n: nat) -> Seq<DrawItem>
    decreases n,
{
    if n == 0 {
        seq![]
    } else {
        let rest = draw_items(scene, c, (n - 1) as nat);
        let mesh = c.node_data@[n - 1].mesh;
        if mesh < scene.meshes@.len() {
            rest + node_items(c.primitive_data@, (n - 1) as usize, mesh, mesh_len(scene, mesh as int))
        } else {
            rest
        }
    }
}

impl CompiledScene {
    /// The index of the compiled primitive keyed (`mesh`, `prim`), if any.
    pub fn find_primitive(&self, mesh: usize, prim: usize) -> (r: Option<usize>)
        ensures
            r matches Some(j) ==> key_index(self.primitive_data@, mesh, prim) == Some(j as int),
            r is None ==> key_index(self.primitive_data@, mesh, prim) is None,
            r matches Some(j) ==> j < self.primitive_data@.len() && self.primitive_data@[j as int].mesh
                == mesh && self.primitive_data@[j as int].primitive == prim,
    {
        let mut j: usize = 0;
        while j < self.primitive_data.len()
            invariant
                j <= self.primitive_data@.len(),
                key_index(self.primitive_data@.take(j as int), mesh, prim) is None,
            decreases self.primitive_data@.len() - j,
        {
            assert(self.primitive_data@.take(j + 1).drop_last() =~= self.primitive_data@.take(
                j as int,
            ));
            if self.primitive_data[j].mesh == mesh && self.primitive_data[j].primitive == prim {
                proof {
                    lemma_key_index_prefix(self.primitive_data@, mesh, prim, (j + 1) as nat);
                }
                return Some(j);
            }
            j += 1;
        }
        assert(self.primitive_data@.take(j as int) =~= self.primitive_data@);
        None
    }

    /// The compiled primitive keyed (`mesh`, `prim`), if any.
    pub fn primitive(&self, mesh: usize, prim: usize) -> (r: Option<&GpuPrimitive>)
        ensures
            match key_index(self.primitive_data@, mesh, prim) {
                Some(j) => r matches Some(g) && *g == self.primitive_data@[j],
                None => r is None,
            },
    {
        proof {
            lemma_key_index_in_range(self.primitive_data@, mesh, prim);
        }
        match self.find_primitive(mesh, prim) {
            Some(j) => {
                Some(&self.primitive_data[j])
            },
            None => None,
        }
    }

    /// The draw calls of one frame: for every node binding whose mesh exists,
    /// every compiled primitive of that mesh, in primitive order.
    pub fn draw_list(&self, scene: &GltfScene) -> (r: Vec<DrawItem>)
        ensures
            r@ == draw_items(scene, self, self.node_data@.len()),
    {
        let mut out: Vec<DrawItem> = Vec::new();
        let mut b: usize = 0;
        while b < self.node_data.len()
            invariant
                b <= self.node_data@.len(),
                out@ == draw_items(scene, self, b as nat),
            decreases self.node_data@.len() - b,
        {
            let mesh = self.node_data[b].mesh;
            if mesh < scene.meshes.len() {
                let ghost before = out@;
                let mut p: usize = 0;
                while p < scene.meshes[mesh].primitives.len()
                    invariant
                        b < self.node_data@.len(),
                        mesh == self.node_data@[b as int].mesh,
                        mesh < scene.meshes@.len(),
                        p <= mesh_len(scene, mesh as int),
                        out@ == before + node_items(self.primitive_data@, b, mesh, p as nat),
                    decreases mesh_len(scene, mesh as int) - p,
                {
                    match self.find_primitive(mesh, p) {
                        Some(j) => {
                            out.push(DrawItem { node: b, primitive: j });
                        },
                        None => {},
                    }
                    assert(out@ =~= before + node_items(self.primitive_data@, b, mesh, (p + 1) as nat));
                    p += 1;
                }
            }
            b += 1;
        }
        out
    }
}

pub(crate) proof fn lemma_key_index_in_range(s: Seq<GpuPrimitive>, mesh: usize, prim: usize)
    ensures
        key_index(s, mesh, prim) matches Some(j) ==> 0 <= j < s.len() && s[j].mesh == mesh
            && s[j].primitive == prim,
    decreases s.len(),
{
    if s.len() > 0 {
        lemma_key_index_in_range(s.drop_last(), mesh, prim);
    }
}

pub(crate) proof fn lemma_key_index_none(s: Seq<GpuPrimitive>, mesh: usize, prim: usize, j: int)
    requires
        key_index(s, mesh, prim) is None,
        0 <= j < s.len(),
    ensures
        !(s[j].mesh == mesh && s[j].primitive == prim),
    decreases s.len(),
{
    if j < s.len() - 1 {
        assert(s.drop_last()[j] == s[j]);
        lemma_key_index_none(s.drop_last(), mesh, prim, j);
    }
}

proof fn lemma_key_index_prefix(s: Seq<GpuPrimitive>, mesh: usize, prim: usize, k: nat)
    requires
        0 < k <= s.len(),
        key_index(s.take(k as int), mesh, prim) == Some((k - 1) as int),
    ensures
        key_index(s, mesh, prim) == Some((k - 1) as int),
    decreases s.len() - k,
{
    if k == s.len() {
        assert(s.take(k as int) =~= s);
    } else {
        assert(s.take((k + 1) as int).drop_last() =~= s.take(k as int));
        lemma_key_index_prefix_step(s, mesh, prim, k);
    }
}

proof fn lemma_key_index_prefix_step(s: Seq<GpuPrimitive>, mesh: usize, prim: usize, k: nat)
    requires
        0 < k < s.len(),
        key_index(s.take(k as int), mesh, prim) == Some((k - 1) as int),
    ensures
        key_index(s, mesh, prim) == Some((k - 1) as int),
    decreases s.len() - k,
{
    assert(s.take((k + 1) as int).drop_last() =~= s.take(k as int));
    assert(key_index(s.take((k + 1) as int), mesh, prim) == Some((k - 1) as int));
    if k + 1 == s.len() {
        assert(s.take((k + 1) as int) =~= s);
    } else {
        lemma_key_index_stays(s, mesh, prim, (k + 1) as nat, (k - 1) as int);
    }
}

proof fn lemma_key_index_stays(s: Seq<GpuPrimitive>, mesh: usize, prim: usize, k: nat, j: int)
    requires
        k <= s.len(),
        key_index(s.take(k as int), mesh, prim) == Some(j),
    ensures
        key_index(s, mesh, prim) == Some(j),
    decreases s.len() - k,
{
    if k == s.len() {
        assert(s.take(k as int) =~= s);
    } else {
        assert(s.take((k + 1) as int).drop_last() =~= s.take(k as int));
        lemma_key_index_stays(s, mesh, prim, (k + 1) as nat, j);
    }
}

} // verus!
