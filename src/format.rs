//! Translation of accessor metadata (component type, dimensionality,
//! normalization, draw mode) into vertex, index and topology formats.
use vstd::prelude::*;

verus! {

/// Numeric type of one component of an accessor element.
#[derive(Clone, Copy, Debug, PartialEq, Eq, Structural)]
pub enum ComponentType {
    I8,
    U8,
    I16,
    U16,
    U32,
    F32,
}

/// Shape of one accessor element.
#[derive(Clone, Copy, Debug, PartialEq, Eq, Structural)]
pub enum Dimensions {
    Scalar,
    Vec2,
    Vec3,
    Vec4,
    Mat2,
    Mat3,
    Mat4,
}

/// Byte size of one component.
pub open spec fn component_size(ty: ComponentType) -> nat {
    match ty {
        ComponentType::I8 | ComponentType::U8 => 1,
        ComponentType::I16 | ComponentType::U16 => 2,
        ComponentType::U32 | ComponentType::F32 => 4,
    }
}

/// Number of component slots an element occupies in a tightly packed vertex
/// stream; matrix columns are padded to four components.
pub open spec fn dimension_alignment(dims: Dimensions) -> nat {
    match dims {
        Dimensions::Scalar => 1,
        Dimensions::Vec2 => 2,
        Dimensions::Vec3 => 3,
        Dimensions::Vec4 => 4,
        Dimensions::Mat2 => 4,
        Dimensions::Mat3 => 16,
        Dimensions::Mat4 => 16,
    }
}

pub fn size_of_component_type(ty: ComponentType) -> (r: usize)
    ensures
        r == component_size(ty),
{
    match ty {
        ComponentType::I8 | ComponentType::U8 => 1,
        ComponentType::I16 | ComponentType::U16 => 2,
        ComponentType::U32 | ComponentType::F32 => 4,
    }
}


/// Vertex attribute formats a vertex buffer layout can declare.
#[derive(Clone, Copy, Debug, PartialEq, Eq, Structural)]
pub enum VertexFormat {
    Uint8x2,
    Uint8x4,
    Sint8x2,
    Sint8x4,
    Unorm8x2,
    Unorm8x4,
    Snorm8x2,
    Snorm8x4,
    Uint16x2,
    Uint16x4,
    Sint16x2,
    Sint16x4,
    Unorm16x2,
    Unorm16x4,
    Snorm16x2,
    Snorm16x4,
    Float32,
    Float32x2,
    Float32x3,
    Float32x4,
    Uint32,
    Uint32x2,
    Uint32x3,
    Uint32x4,
}

/// Width of the entries of an index buffer.
#[derive(Clone, Copy, Debug, PartialEq, Eq, Structural)]
pub enum IndexFormat {
    Uint16,
    Uint32,
}

/// How the vertices of a mesh primitive are assembled.
#[derive(Clone, Copy, Debug, PartialEq, Eq, Structural)]
pub enum Mode {
    Points,
    Lines,
    LineLoop,
    LineStrip,
    Triangles,
    TriangleStrip,
    TriangleFan,
}

/// Primitive topologies a render pipeline can be built with.
#[derive(Clone, Copy, Debug, PartialEq, Eq, Structural)]
pub enum PrimitiveTopology {
    PointList,
    LineList,
    LineStrip,
    TriangleList,
    TriangleStrip,
}

/// Metadata combinations that have no GPU counterpart.
#[derive(Clone, Copy, Debug, PartialEq, Eq, Structural)]
pub enum FormatError {
    UnsupportedVertexFormat,
    UnsupportedIndexFormat,
    UnsupportedTopology,
}

/// A typed view into a buffer view: what each element is, how many there
/// are, and where they start.
#[derive(Clone, Copy, Debug, PartialEq, Eq, Structural)]
pub struct Accessor {
    pub component_type: ComponentType,
    pub dimensions: Dimensions,
    pub normalized: bool,
    /// Number of elements.
    pub count: usize,
    /// Byte offset of the first element inside the buffer view.
    pub offset: usize,
    /// Index of the buffer view read, absent for sparse accessors.
    pub view: Option<usize>,
}

/// Number of components in one element.
pub open spec fn dimension_components(dims: Dimensions) -> nat {
    match dims {
        Dimensions::Scalar => 1,
        Dimensions::Vec2 => 2,
        Dimensions::Vec3 => 3,
        Dimensions::Vec4 => 4,
        Dimensions::Mat2 => 4,
        Dimensions::Mat3 => 9,
        Dimensions::Mat4 => 16,
    }
}

/// Byte size of one element of the accessor in its buffer.
pub open spec fn element_size(a: Accessor) -> nat {
    component_size(a.component_type) * dimension_components(a.dimensions)
}

/// Stride of a tightly packed stream of the accessor's elements.
pub open spec fn packed_stride(a: Accessor) -> nat {
    component_size(a.component_type) * dimension_alignment(a.dimensions)
}

/// The vertex format of each supported (normalized, dimensions, component
/// type) combination; `None` outside the table.
pub open spec fn vertex_format_of(normalized: bool, dims: Dimensions, ty: ComponentType) -> Option<
    VertexFormat,
> {
    match (normalized, dims, ty) {
        (true, Dimensions::Vec2, ComponentType::I8) => Some(VertexFormat::Snorm8x2),
        (true, Dimensions::Vec2, ComponentType::U8) => Some(VertexFormat::Unorm8x2),
        (true, Dimensions::Vec4, ComponentType::I8) => Some(VertexFormat::Snorm8x4),
        (true, Dimensions::Vec4, ComponentType::U8) => Some(VertexFormat::Unorm8x4),
        (false, Dimensions::Vec2, ComponentType::I8) => Some(VertexFormat::Sint8x2),
        (false, Dimensions::Vec2, ComponentType::U8) => Some(VertexFormat::Uint8x2),
        (false, Dimensions::Vec4, ComponentType::I8) => Some(VertexFormat::Sint8x4),
        (false, Dimensions::Vec4, ComponentType::U8) => Some(VertexFormat::Uint8x4),
        (true, Dimensions::Vec2, ComponentType::I16) => Some(VertexFormat::Snorm16x2),
        (true, Dimensions::Vec2, ComponentType::U16) => Some(VertexFormat::Unorm16x2),
        (true, Dimensions::Vec4, ComponentType::I16) => Some(VertexFormat::Snorm16x4),
        (true, Dimensions::Vec4, ComponentType::U16) => Some(VertexFormat::Unorm16x4),
        (false, Dimensions::Vec2, ComponentType::I16) => Some(VertexFormat::Sint16x2),
        (false, Dimensions::Vec2, ComponentType::U16) => Some(VertexFormat::Uint16x2),
        (false, Dimensions::Vec4, ComponentType::I16) => Some(VertexFormat::Sint16x4),
        (false, Dimensions::Vec4, ComponentType::U16) => Some(VertexFormat::Uint16x4),
        (_, Dimensions::Scalar, ComponentType::F32) => Some(VertexFormat::Float32),
        (_, Dimensions::Vec2, ComponentType::F32) => Some(VertexFormat::Float32x2),
        (_, Dimensions::Vec3, ComponentType::F32) => Some(VertexFormat::Float32x3),
        (_, Dimensions::Vec4, ComponentType::F32) => Some(VertexFormat::Float32x4),
        (_, Dimensions::Scalar, ComponentType::U32) => Some(VertexFormat::Uint32),
        (_, Dimensions::Vec2, ComponentType::U32) => Some(VertexFormat::Uint32x2),
        (_, Dimensions::Vec3, ComponentType::U32) => Some(VertexFormat::Uint32x3),
        (_, Dimensions::Vec4, ComponentType::U32) => Some(VertexFormat::Uint32x4),
        _ => None,
    }
}

/// Index format of a component type; only unsigned 16- and 32-bit indices exist.
pub open spec fn index_format_of(ty: ComponentType) -> Option<IndexFormat> {
    match ty {
        ComponentType::U16 => Some(IndexFormat::Uint16),
        ComponentType::U32 => Some(IndexFormat::Uint32),
        _ => None,
    }
}

/// Topology of a draw mode; fans are drawn as strips, line loops have none.
pub open spec fn topology_of(mode: Mode) -> Option<PrimitiveTopology> {
    match mode {
        Mode::Triangles => Some(PrimitiveTopology::TriangleList),
        Mode::TriangleStrip | Mode::TriangleFan => Some(PrimitiveTopology::TriangleStrip),
        Mode::Lines => Some(PrimitiveTopology::LineList),
        Mode::LineStrip => Some(PrimitiveTopology::LineStrip),
        Mode::Points => Some(PrimitiveTopology::PointList),
        Mode::LineLoop => None,
    }
}

/// Number of bytes one vertex of the format occupies.
pub open spec fn vertex_format_size(f: VertexFormat) -> nat {
    match f {
        VertexFormat::Uint8x2 | VertexFormat::Sint8x2 | VertexFormat::Unorm8x2
        | VertexFormat::Snorm8x2 => 2,
        VertexFormat::Uint8x4 | VertexFormat::Sint8x4 | VertexFormat::Unorm8x4
        | VertexFormat::Snorm8x4 | VertexFormat::Uint16x2 | VertexFormat::Sint16x2
        | VertexFormat::Unorm16x2 | VertexFormat::Snorm16x2 | VertexFormat::Float32
        | VertexFormat::Uint32 => 4,
        VertexFormat::Uint16x4 | VertexFormat::Sint16x4 | VertexFormat::Unorm16x4
        | VertexFormat::Snorm16x4 | VertexFormat::Float32x2 | VertexFormat::Uint32x2 => 8,
        VertexFormat::Float32x3 | VertexFormat::Uint32x3 => 12,
        VertexFormat::Float32x4 | VertexFormat::Uint32x4 => 16,
    }
}

pub fn align_of_component_type(dims: Dimensions) -> (r: usize)
    ensures
        r == dimension_alignment(dims),
{
    match dims {
        Dimensions::Scalar => 1,
        Dimensions::Vec2 => 2,
        Dimensions::Vec3 => 3,
        Dimensions::Vec4 => 4,
        Dimensions::Mat2 => 4,
        Dimensions::Mat3 => 16,
        Dimensions::Mat4 => 16,
    }
}

/// Stride used when a buffer view declares none.
pub fn stride_of_component_type(accessor: &Accessor) -> (r: usize)
    ensures
        r == packed_stride(*accessor),
        r == component_size(accessor.component_type) * dimension_alignment(accessor.dimensions),
{
    let size = size_of_component_type(accessor.component_type);
    let align = align_of_component_type(accessor.dimensions);
    assert(size * align <= 64) by (nonlinear_arith)
        requires
            size <= 4,
            align <= 16,
    ;
    size * align
}

/// Byte size of one element as stored in its buffer view.
pub fn element_size_of(accessor: &Accessor) -> (r: usize)
    ensures
        r == element_size(*accessor),
{
    let size = size_of_component_type(accessor.component_type);
    let n: usize = match accessor.dimensions {
        Dimensions::Scalar => 1,
        Dimensions::Vec2 => 2,
        Dimensions::Vec3 => 3,
        Dimensions::Vec4 => 4,
        Dimensions::Mat2 => 4,
        Dimensions::Mat3 => 9,
        Dimensions::Mat4 => 16,
    };
    assert(size * n <= 64) by (nonlinear_arith)
        requires
            size <= 4,
            n <= 16,
    ;
    size * n
}

pub fn component_type_to_index_format(ty: ComponentType) -> (r: Result<IndexFormat, FormatError>)
    ensures
        match index_format_of(ty) {
            Some(f) => r == Ok::<IndexFormat, FormatError>(f),
            None => r == Err::<IndexFormat, FormatError>(FormatError::UnsupportedIndexFormat),
        },
{
    match ty {
        ComponentType::U16 => Ok(IndexFormat::Uint16),
        ComponentType::U32 => Ok(IndexFormat::Uint32),
        _ => Err(FormatError::UnsupportedIndexFormat),
    }
}

/// The vertex format of an accessor, or `UnsupportedVertexFormat` for a
/// combination outside the supported table.
pub fn accessor_type_to_format(accessor: &Accessor) -> (r: Result<VertexFormat, FormatError>)
    ensures
        match vertex_format_of(accessor.normalized, accessor.dimensions, accessor.component_type) {
            Some(f) => r == Ok::<VertexFormat, FormatError>(f),
            None => r == Err::<VertexFormat, FormatError>(FormatError::UnsupportedVertexFormat),
        },
        r is Ok ==> vertex_format_size(r->Ok_0) == element_size(*accessor),
{
    let normalized = accessor.normalized;
    let dims = accessor.dimensions;
    let ty = accessor.component_type;
    let f = match (normalized, dims, ty) {
        (true, Dimensions::Vec2, ComponentType::I8) => VertexFormat::Snorm8x2,
        (true, Dimensions::Vec2, ComponentType::U8) => VertexFormat::Unorm8x2,
        (true, Dimensions::Vec4, ComponentType::I8) => VertexFormat::Snorm8x4,
        (true, Dimensions::Vec4, ComponentType::U8) => VertexFormat::Unorm8x4,
        (false, Dimensions::Vec2, ComponentType::I8) => VertexFormat::Sint8x2,
        (false, Dimensions::Vec2, ComponentType::U8) => VertexFormat::Uint8x2,
        (false, Dimensions::Vec4, ComponentType::I8) => VertexFormat::Sint8x4,
        (false, Dimensions::Vec4, ComponentType::U8) => VertexFormat::Uint8x4,
        (true, Dimensions::Vec2, ComponentType::I16) => VertexFormat::Snorm16x2,
        (true, Dimensions::Vec2, ComponentType::U16) => VertexFormat::Unorm16x2,
        (true, Dimensions::Vec4, ComponentType::I16) => VertexFormat::Snorm16x4,
        (true, Dimensions::Vec4, ComponentType::U16) => VertexFormat::Unorm16x4,
        (false, Dimensions::Vec2, ComponentType::I16) => VertexFormat::Sint16x2,
        (false, Dimensions::Vec2, ComponentType::U16) => VertexFormat::Uint16x2,
        (false, Dimensions::Vec4, ComponentType::I16) => VertexFormat::Sint16x4,
        (false, Dimensions::Vec4, ComponentType::U16) => VertexFormat::Uint16x4,
        (_, Dimensions::Scalar, ComponentType::F32) => VertexFormat::Float32,
        (_, Dimensions::Vec2, ComponentType::F32) => VertexFormat::Float32x2,
        (_, Dimensions::Vec3, ComponentType::F32) => VertexFormat::Float32x3,
        (_, Dimensions::Vec4, ComponentType::F32) => VertexFormat::Float32x4,
        (_, Dimensions::Scalar, ComponentType::U32) => VertexFormat::Uint32,
        (_, Dimensions::Vec2, ComponentType::U32) => VertexFormat::Uint32x2,
        (_, Dimensions::Vec3, ComponentType::U32) => VertexFormat::Uint32x3,
        (_, Dimensions::Vec4, ComponentType::U32) => VertexFormat::Uint32x4,
        _ => {
            return Err(FormatError::UnsupportedVertexFormat);
        },
    };
    Ok(f)
}

/// The pipeline topology of a draw mode; line loops are refused.
pub fn mesh_mode_to_topology(mode: Mode) -> (r: Result<PrimitiveTopology, FormatError>)
    ensures
        match topology_of(mode) {
            Some(t) => r == Ok::<PrimitiveTopology, FormatError>(t),
            None => r == Err::<PrimitiveTopology, FormatError>(FormatError::UnsupportedTopology),
        },
{
    match mode {
        Mode::Triangles => Ok(PrimitiveTopology::TriangleList),
        Mode::TriangleStrip | Mode::TriangleFan => Ok(PrimitiveTopology::TriangleStrip),
        Mode::Lines => Ok(PrimitiveTopology::LineList),
        Mode::LineStrip => Ok(PrimitiveTopology::LineStrip),
        Mode::Points => Ok(PrimitiveTopology::PointList),
        Mode::LineLoop => Err(FormatError::UnsupportedTopology),
    }
}

} // verus!
