//! One-pass compilation of an imported scene into GPU resource plans: a
//! transform binding per node with a mesh, and per (mesh, primitive) pair the
//! vertex buffers, topology and draw mode to build its pipeline and draw call.
use vstd::prelude::*;

use crate::format::{
    accessor_type_to_format, component_type_to_index_format, index_format_of,
    mesh_mode_to_topology, packed_stride, stride_of_component_type, topology_of, vertex_format_of,
    FormatError, IndexFormat, PrimitiveTopology, VertexFormat,
};
use crate::scene::{shader_slot, ByteRange, GltfScene, ImportError, Node, Primitive, Semantic, ShaderLocation};

verus! {

/// Why a scene cannot be compiled; any such failure aborts the whole compile.
#[derive(Clone, Copy, Debug, PartialEq, Eq, Structural)]
pub enum CompileError {
    Format(FormatError),
    Import(ImportError),
    /// An element count does not fit the 32-bit draw count.
    TooManyElements,
}

/// One vertex buffer of a primitive: the accessor bytes to upload and the
/// layout they are read with. Attributes are never interleaved.
#[derive(Clone, Copy, Debug, PartialEq, Eq, Structural)]
pub struct VertexBufferPlan {
    pub shader_location: u32,
    pub format: VertexFormat,
    pub array_stride: usize,
    pub data: ByteRange,
    /// Number of elements in `data`.
    pub count: usize,
}

/// How a compiled primitive is drawn.
#[derive(Clone, Copy, Debug, PartialEq, Eq, Structural)]
pub enum DrawMode {
    /// A non-indexed draw of this many vertices.
    Normal(u32),
    /// An indexed draw reading `draw_count` indices of format `ty` from `data`.
    Indexed { data: ByteRange, ty: IndexFormat, draw_count: u32 },
}

/// Everything needed to build one primitive's pipeline and issue its draw.
#[derive(Debug)]
pub struct GpuPrimitive {
    pub mesh: usize,
    pub primitive: usize,
    pub topology: PrimitiveTopology,
    pub buffers: Vec<VertexBufferPlan>,
    pub draw_mode: DrawMode,
}

pub ghost struct GpuPrimitiveView {
    pub mesh: usize,
    pub primitive: usize,
    pub topology: PrimitiveTopology,
    pub buffers: Seq<VertexBufferPlan>,
    pub draw_mode: DrawMode,
}

impl View for GpuPrimitive {
    type V = GpuPrimitiveView;

    open spec fn view(&self) -> GpuPrimitiveView {
        GpuPrimitiveView {
            mesh: self.mesh,
            primitive: self.primitive,
            topology: self.topology,
            buffers: self.buffers@,
            draw_mode: self.draw_mode,
        }
    }
}

/// The transform binding of one node that has a mesh.
#[derive(Clone, Copy, Debug, PartialEq, Eq, Structural)]
pub struct NodeBinding {
    pub node: usize,
    pub mesh: usize,
}

/// The compiled tables: node bindings in node order, and primitives ordered
/// by (mesh, primitive) key.
#[derive(Debug)]
pub struct CompiledScene {
    pub node_data: Vec<NodeBinding>,
    pub primitive_data: Vec<GpuPrimitive>,
}

pub open spec fn primitive_views(s: Seq<GpuPrimitive>) -> Seq<GpuPrimitiveView> {
    s.map_values(|c: GpuPrimitive| c@)
}

/// Bindings for the nodes that carry a mesh, in node order.
pub open spec fn mesh_nodes(nodes: Seq<Node>) -> Seq<NodeBinding>
    decreases nodes.len(),
{
    if nodes.len() == 0 {
        seq![]
    } else {
        let rest = mesh_nodes(nodes.drop_last());
        match nodes.last().mesh {
            Some(m) => rest.push(NodeBinding { node: (nodes.len() - 1) as usize, mesh: m }),
            None => rest,
        }
    }
}

/// Index of the accessor of the (last declared) position attribute.
pub open spec fn position_accessor(attrs: Seq<(Semantic, usize)>) -> Option<usize>
    decreases attrs.len(),
{
    if attrs.len() == 0 {
        None
    } else if attrs.last().0 == Semantic::Positions {
        Some(attrs.last().1)
    } else {
        position_accessor(attrs.drop_last())
    }
}

/// The vertex buffer of one attribute: `None` for semantics the pipeline
/// does not consume; otherwise the format check, then the byte range.
pub open spec fn attribute_plan(scene: &GltfScene, attr: (Semantic, usize)) -> Result<
    Option<VertexBufferPlan>,
    CompileError,
> {
    match shader_slot(attr.0) {
        None => Ok(None),
        Some(location) => if attr.1 >= scene.accessors@.len() {
            Err(CompileError::Import(ImportError::InvalidReference))
        } else {
            let a = scene.accessors@[attr.1 as int];
            match vertex_format_of(a.normalized, a.dimensions, a.component_type) {
                None => Err(CompileError::Format(FormatError::UnsupportedVertexFormat)),
                Some(format) => match scene.accessor_range(a) {
                    Err(e) => Err(CompileError::Import(e)),
                    Ok(data) => Ok(
                        Some(
                            VertexBufferPlan {
                                shader_location: location,
                                format,
                                array_stride: match scene.views@[a.view->Some_0 as int].stride {
                                    Some(s) => s,
                                    None => packed_stride(a) as usize,
                                },
                                data,
                                count: a.count,
                            },
                        ),
                    ),
                },
            }
        },
    }
}

/// The vertex buffers of an attribute list, in declaration order, or the
/// first error met.
pub open spec fn vertex_plans(scene: &GltfScene, attrs: Seq<(Semantic, usize)>) -> Result<
    Seq<VertexBufferPlan>,
    CompileError,
>
    decreases attrs.len(),
{
    if attrs.len() == 0 {
        Ok(seq![])
    } else {
        match vertex_plans(scene, attrs.drop_last()) {
            Err(e) => Err(e),
            Ok(s) => match attribute_plan(scene, attrs.last()) {
                Err(e) => Err(e),
                Ok(None) => Ok(s),
                Ok(Some(b)) => Ok(s.push(b)),
            },
        }
    }
}

/// Indexed with the index accessor's count when the primitive has one,
/// otherwise non-indexed with `vertex_count`.
pub open spec fn draw_mode_of(scene: &GltfScene, prim: &Primitive, vertex_count: usize) -> Result<
    DrawMode,
    CompileError,
> {
    match prim.indices {
        None => if vertex_count > u32::MAX {
            Err(CompileError::TooManyElements)
        } else {
            Ok(DrawMode::Normal(vertex_count as u32))
        },
        Some(i) => if i >= scene.accessors@.len() {
            Err(CompileError::Import(ImportError::InvalidReference))
        } else {
            let a = scene.accessors@[i as int];
            match scene.accessor_range(a) {
                Err(e) => Err(CompileError::Import(e)),
                Ok(data) => match index_format_of(a.component_type) {
                    None => Err(CompileError::Format(FormatError::UnsupportedIndexFormat)),
                    Some(ty) => if a.count > u32::MAX {
                        Err(CompileError::TooManyElements)
                    } else {
                        Ok(DrawMode::Indexed { data, ty, draw_count: a.count as u32 })
                    },
                },
            }
        },
    }
}

pub open spec fn scene_primitive(scene: &GltfScene, m: int, p: int) -> &Primitive {
    &scene.meshes@[m].primitives@[p]
}

/// Element count of a primitive's position accessor, zero when it has none.
pub open spec fn vertex_count_of(scene: &GltfScene, prim: &Primitive) -> usize {
    match position_accessor(prim.attributes@) {
        Some(pa) => scene.accessors@[pa as int].count,
        None => 0,
    }
}

/// The compiled form of primitive `p` of mesh `m`. Every primitive has its
/// vertex formats, topology and index accessor checked, and the first failure
/// is the result; one that passes them gets an entry only when it has a
/// position attribute.
pub open spec fn compile_primitive_spec(scene: &GltfScene, m: usize, p: usize) -> Result<
    Option<GpuPrimitiveView>,
    CompileError,
> {
    let prim = scene_primitive(scene, m as int, p as int);
    match vertex_plans(scene, prim.attributes@) {
        Err(e) => Err(e),
        Ok(buffers) => match topology_of(prim.mode) {
            None => Err(CompileError::Format(FormatError::UnsupportedTopology)),
            Some(topology) => match draw_mode_of(scene, prim, vertex_count_of(scene, prim)) {
                Err(e) => Err(e),
                Ok(draw_mode) => if position_accessor(prim.attributes@) is None {
                    Ok(None)
                } else {
                    Ok(Some(GpuPrimitiveView { mesh: m, primitive: p, topology, buffers, draw_mode }))
                },
            },
        },
    }
}

/// The compiled primitives of the first `k` primitives of mesh `m`.
pub open spec fn compile_mesh_spec(scene: &GltfScene, m: usize, k: nat) -> Result<
    Seq<GpuPrimitiveView>,
    CompileError,
>
    decreases k,
{
    if k == 0 {
        Ok(seq![])
    } else {
        match compile_mesh_spec(scene, m, (k - 1) as nat) {
            Err(e) => Err(e),
            Ok(s) => match compile_primitive_spec(scene, m, (k - 1) as usize) {
                Err(e) => Err(e),
                Ok(None) => Ok(s),
                Ok(Some(c)) => Ok(s.push(c)),
            },
        }
    }
}

pub open spec fn mesh_len(scene: &GltfScene, m: int) -> nat {
    scene.meshes@[m].primitives@.len()
}

/// The compiled primitives of the first `n` meshes, in (mesh, primitive) order.
pub open spec fn compile_meshes_spec(scene: &GltfScene, n: nat) -> Result<
    Seq<GpuPrimitiveView>,
    CompileError,
>
    decreases n,
{
    if n == 0 {
        Ok(seq![])
    } else {
        match compile_meshes_spec(scene, (n - 1) as nat) {
            Err(e) => Err(e),
            Ok(s) => match compile_mesh_spec(scene, (n - 1) as usize, mesh_len(scene, n - 1)) {
                Err(e) => Err(e),
                Ok(t) => Ok(s + t),
            },
        }
    }
}

/// The whole primitive table of a scene, or the first error met.
pub open spec fn compiled_primitives(scene: &GltfScene) -> Result<Seq<GpuPrimitiveView>, CompileError> {
    compile_meshes_spec(scene, scene.meshes@.len())
}

proof fn lemma_mesh_err_sticks(scene: &GltfScene, m: usize, k: nat, j: nat, e: CompileError)
    requires
        k <= j,
        compile_mesh_spec(scene, m, k) == Err::<Seq<GpuPrimitiveView>, CompileError>(e),
    ensures
        compile_mesh_spec(scene, m, j) == Err::<Seq<GpuPrimitiveView>, CompileError>(e),
    decreases j - k,
{
    if j > k {
        lemma_mesh_err_sticks(scene, m, k, (j - 1) as nat, e);
    }
}

proof fn lemma_meshes_err_sticks(scene: &GltfScene, k: nat, j: nat, e: CompileError)
    requires
        k <= j,
        compile_meshes_spec(scene, k) == Err::<Seq<GpuPrimitiveView>, CompileError>(e),
    ensures
        compile_meshes_spec(scene, j) == Err::<Seq<GpuPrimitiveView>, CompileError>(e),
    decreases j - k,
{
    if j > k {
        lemma_meshes_err_sticks(scene, k, (j - 1) as nat, e);
    }
}

proof fn lemma_position_in_range(scene: &GltfScene, attrs: Seq<(Semantic, usize)>)
    requires
        vertex_plans(scene, attrs) is Ok,
        position_accessor(attrs) is Some,
    ensures
        position_accessor(attrs)->Some_0 < scene.accessors@.len(),
    decreases attrs.len(),
{
    if attrs.last().0 != Semantic::Positions {
        lemma_position_in_range(scene, attrs.drop_last());
    }
}

/// Bindings for every node that has a mesh, in node order.
pub fn node_bindings(scene: &GltfScene) -> (r: Vec<NodeBinding>)
    ensures
        r@ == mesh_nodes(scene.nodes@),
{
    let mut r: Vec<NodeBinding> = Vec::new();
    let mut i: usize = 0;
    while i < scene.nodes.len()
        invariant
            i <= scene.nodes@.len(),
            r@ == mesh_nodes(scene.nodes@.take(i as int)),
        decreases scene.nodes@.len() - i,
    {
        assert(scene.nodes@.take(i + 1).drop_last() =~= scene.nodes@.take(i as int));
        match scene.nodes[i].mesh {
            Some(m) => r.push(NodeBinding { node: i, mesh: m }),
            None => {},
        }
        i += 1;
    }
    assert(scene.nodes@.take(i as int) =~= scene.nodes@);
    r
}

/// The accessor of the last position attribute in the list.
fn find_position(attrs: &Vec<(Semantic, usize)>) -> (r: Option<usize>)
    ensures
        r == position_accessor(attrs@),
{
    let mut r: Option<usize> = None;
    let mut i: usize = 0;
    while i < attrs.len()
        invariant
            i <= attrs@.len(),
            r == position_accessor(attrs@.take(i as int)),
        decreases attrs@.len() - i,
    {
        assert(attrs@.take(i + 1).drop_last() =~= attrs@.take(i as int));
        if attrs[i].0 == Semantic::Positions {
            r = Some(attrs[i].1);
        }
        i += 1;
    }
    assert(attrs@.take(i as int) =~= attrs@);
    r
}

/// The vertex buffer plan of one attribute, `None` when its semantic is not consumed.
pub fn compile_attribute(scene: &GltfScene, semantic: Semantic, accessor: usize) -> (r: Result<
    Option<VertexBufferPlan>,
    CompileError,
>)
    ensures
        r == attribute_plan(scene, (semantic, accessor)),
{
    let location = match ShaderLocation::new(semantic) {
        None => {
            return Ok(None);
        },
        Some(l) => l,
    };
    if accessor >= scene.accessors.len() {
        return Err(CompileError::Import(ImportError::InvalidReference));
    }
    let a = &scene.accessors[accessor];
    let format = match accessor_type_to_format(a) {
        Err(e) => {
            return Err(CompileError::Format(e));
        },
        Ok(f) => f,
    };
    let data = match scene.resolve_accessor(a) {
        Err(e) => {
            return Err(CompileError::Import(e));
        },
        Ok(d) => d,
    };
    let view = match a.view {
        Some(v) => v,
        None => {
            return Err(CompileError::Import(ImportError::MissingBufferView));
        },
    };
    let array_stride = match scene.views[view].stride {
        Some(s) => s,
        None => stride_of_component_type(a),
    };
    Ok(Some(VertexBufferPlan { shader_location: location.0, format, array_stride, data, count: a.count }))
}

/// The vertex buffer plans of all consumed attributes, in declaration order.
pub fn compile_attributes(scene: &GltfScene, attrs: &Vec<(Semantic, usize)>) -> (r: Result<
    Vec<VertexBufferPlan>,
    CompileError,
>)
    ensures
        match vertex_plans(scene, attrs@) {
            Ok(s) => r is Ok && r->Ok_0@ == s,
            Err(e) => r == Err::<Vec<VertexBufferPlan>, CompileError>(e),
        },
{
    let mut out: Vec<VertexBufferPlan> = Vec::new();
    let mut i: usize = 0;
    while i < attrs.len()
        invariant
            i <= attrs@.len(),
            vertex_plans(scene, attrs@.take(i as int)) == Ok::<Seq<VertexBufferPlan>, CompileError>(
                out@,
            ),
        decreases attrs@.len() - i,
    {
        assert(attrs@.take(i + 1).drop_last() =~= attrs@.take(i as int));
        assert(attrs@.take(i + 1).last() == attrs@[i as int]);
        match compile_attribute(scene, attrs[i].0, attrs[i].1) {
            Err(e) => {
                proof {
                    lemma_plans_err_sticks(scene, attrs@, (i + 1) as nat, e);
                }
                return Err(e);
            },
            Ok(None) => {},
            Ok(Some(b)) => out.push(b),
        }
        i += 1;
    }
    assert(attrs@.take(i as int) =~= attrs@);
    Ok(out)
}

proof fn lemma_plans_err_sticks(scene: &GltfScene, attrs: Seq<(Semantic, usize)>, k: nat, e: CompileError)
    requires
        k <= attrs.len(),
        vertex_plans(scene, attrs.take(k as int)) == Err::<Seq<VertexBufferPlan>, CompileError>(e),
    ensures
        vertex_plans(scene, attrs) == Err::<Seq<VertexBufferPlan>, CompileError>(e),
    decreases attrs.len() - k,
{
    if k == attrs.len() {
        assert(attrs.take(k as int) =~= attrs);
    } else {
        assert(attrs.take((k + 1) as int).drop_last() =~= attrs.take(k as int));
        lemma_plans_err_sticks(scene, attrs, (k + 1) as nat, e);
    }
}

/// How primitive `prim` is drawn, given the element count of its position accessor.
pub fn compile_draw_mode(scene: &GltfScene, prim: &Primitive, vertex_count: usize) -> (r: Result<
    DrawMode,
    CompileError,
>)
    ensures
        r == draw_mode_of(scene, prim, vertex_count),
{
    match prim.indices {
        None => {
            if vertex_count > u32::MAX as usize {
                Err(CompileError::TooManyElements)
            } else {
                Ok(DrawMode::Normal(vertex_count as u32))
            }
        },
        Some(i) => {
            if i >= scene.accessors.len() {
                return Err(CompileError::Import(ImportError::InvalidReference));
            }
            let a = &scene.accessors[i];
            let data = match scene.resolve_accessor(a) {
                Err(e) => {
                    return Err(CompileError::Import(e));
                },
                Ok(d) => d,
            };
            let ty = match component_type_to_index_format(a.component_type) {
                Err(e) => {
                    return Err(CompileError::Format(e));
                },
                Ok(t) => t,
            };
            if a.count > u32::MAX as usize {
                Err(CompileError::TooManyElements)
            } else {
                Ok(DrawMode::Indexed { data, ty, draw_count: a.count as u32 })
            }
        },
    }
}

/// Compiles primitive `p` of mesh `m`, checking its formats, topology and
/// index accessor; `None` when it passes and has no position attribute.
pub fn compile_primitive(scene: &GltfScene, m: usize, p: usize) -> (r: Result<
    Option<GpuPrimitive>,
    CompileError,
>)
    requires
        m < scene.meshes@.len(),
        p < mesh_len(scene, m as int),
    ensures
        match compile_primitive_spec(scene, m, p) {
            Ok(None) => r matches Ok(None),
            Ok(Some(c)) => r matches Ok(Some(g)) && g@ == c,
            Err(e) => r == Err::<Option<GpuPrimitive>, CompileError>(e),
        },
{
    let prim = &scene.meshes[m].primitives[p];
    let buffers = match compile_attributes(scene, &prim.attributes) {
        Err(e) => {
            return Err(e);
        },
        Ok(b) => b,
    };
    let topology = match mesh_mode_to_topology(prim.mode) {
        Err(e) => {
            return Err(CompileError::Format(e));
        },
        Ok(t) => t,
    };
    let position = find_position(&prim.attributes);
    let vertex_count = match position {
        Some(pa) => {
            proof {
                lemma_position_in_range(scene, prim.attributes@);
            }
            scene.accessors[pa].count
        },
        None => 0,
    };
    let draw_mode = match compile_draw_mode(scene, prim, vertex_count) {
        Err(e) => {
            return Err(e);
        },
        Ok(d) => d,
    };
    if position.is_none() {
        return Ok(None);
    }
    Ok(Some(GpuPrimitive { mesh: m, primitive: p, topology, buffers, draw_mode }))
}

/// Compiles the scene once: a binding per node with a mesh, and a compiled
/// primitive per (mesh, primitive) pair with a position attribute. The first
/// unsupported format, topology or unresolvable accessor aborts the compile.
pub fn compile(scene: &GltfScene) -> (r: Result<CompiledScene, CompileError>)
    ensures
        match compiled_primitives(scene) {
            Ok(s) => r is Ok && r->Ok_0.node_data@ == mesh_nodes(scene.nodes@) && primitive_views(
                r->Ok_0.primitive_data@,
            ) == s,
            Err(e) => r is Err && r->Err_0 == e,
        },
{
    let node_data = node_bindings(scene);
    let mut primitive_data: Vec<GpuPrimitive> = Vec::new();
    let mut m: usize = 0;
    assert(primitive_views(primitive_data@) =~= seq![]);
    while m < scene.meshes.len()
        invariant
            m <= scene.meshes@.len(),
            compile_meshes_spec(scene, m as nat) == Ok::<Seq<GpuPrimitiveView>, CompileError>(
                primitive_views(primitive_data@),
            ),
        decreases scene.meshes@.len() - m,
    {
        let ghost before = primitive_views(primitive_data@);
        let mut p: usize = 0;
        while p < scene.meshes[m].primitives.len()
            invariant
                m < scene.meshes@.len(),
                p <= mesh_len(scene, m as int),
                compile_meshes_spec(scene, m as nat) == Ok::<Seq<GpuPrimitiveView>, CompileError>(
                    before,
                ),
                compile_mesh_spec(scene, m, p as nat) matches Ok(t) && primitive_views(
                    primitive_data@,
                ) == before + t,
            decreases mesh_len(scene, m as int) - p,
        {
            let ghost t = compile_mesh_spec(scene, m, p as nat)->Ok_0;
            match compile_primitive(scene, m, p) {
                Err(e) => {
                    proof {
                        lemma_mesh_err_sticks(scene, m, (p + 1) as nat, mesh_len(scene, m as int), e);
                        lemma_meshes_err_sticks(scene, (m + 1) as nat, scene.meshes@.len(), e);
                    }
                    return Err(e);
                },
                Ok(None) => {},
                Ok(Some(c)) => {
                    let ghost cv = c@;
                    let ghost old_data = primitive_data@;
                    primitive_data.push(c);
                    assert(primitive_data@ == old_data.push(c));
                    assert(primitive_views(primitive_data@) =~= primitive_views(old_data).push(cv));
                    assert(primitive_views(primitive_data@) =~= before + t.push(cv));
                },
            }
            p += 1;
        }
        m += 1;
    }
    Ok(CompiledScene { node_data, primitive_data })
}

} // verus!
