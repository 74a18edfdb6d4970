//! The imported scene as plain data: nodes, meshes, primitives, accessors,
//! buffer views and the raw buffer bytes, with accessor-to-bytes resolution.
use vstd::prelude::*;
use vstd::slice::slice_subrange;

use crate::format::{element_size, Accessor, Mode};

verus! {

/// Role of a vertex attribute.
#[derive(Clone, Copy, Debug, PartialEq, Eq, Structural)]
pub enum Semantic {
    Positions,
    Normals,
    Tangents,
    Colors(u32),
    TexCoords(u32),
    Joints(u32),
    Weights(u32),
}

/// Vertex shader input slot of an attribute the pipeline consumes.
#[derive(Clone, Copy, Debug, PartialEq, Eq, Structural)]
pub struct ShaderLocation(pub u32);

/// Shader slot of each consumed semantic: positions feed slot 0, normals
/// slot 1; every other semantic is not consumed.
pub open spec fn shader_slot(s: Semantic) -> Option<u32> {
    match s {
        Semantic::Positions => Some(0u32),
        Semantic::Normals => Some(1u32),
        _ => None,
    }
}

/// Why a semantic has no shader slot.
#[derive(Clone, Copy, Debug, PartialEq, Eq, Structural)]
pub enum SemanticError {
    UnsupportedSemantic,
}

impl ShaderLocation {
    pub fn new(s: Semantic) -> (r: Option<Self>)
        ensures
            match shader_slot(s) {
                Some(l) => r == Some(ShaderLocation(l)),
                None => r is None,
            },
    {
        match s {
            Semantic::Positions => Some(ShaderLocation(0)),
            Semantic::Normals => Some(ShaderLocation(1)),
            _ => None,
        }
    }
}

impl TryFrom<Semantic> for ShaderLocation {
    type Error = SemanticError;

    fn try_from(v: Semantic) -> (r: Result<Self, Self::Error>)
        ensures
            match shader_slot(v) {
                Some(l) => r == Ok::<ShaderLocation, SemanticError>(ShaderLocation(l)),
                None => r == Err::<ShaderLocation, SemanticError>(SemanticError::UnsupportedSemantic),
            },
    {
        match v {
            Semantic::Positions => Ok(ShaderLocation(0)),
            Semantic::Normals => Ok(ShaderLocation(1)),
            _ => Err(SemanticError::UnsupportedSemantic),
        }
    }
}

impl vstd::std_specs::convert::TryFromSpecImpl<Semantic> for ShaderLocation {
    open spec fn obeys_try_from_spec() -> bool {
        true
    }

    open spec fn try_from_spec(v: Semantic) -> Result<Self, SemanticError> {
        match shader_slot(v) {
            Some(l) => Ok(ShaderLocation(l)),
            None => Err(SemanticError::UnsupportedSemantic),
        }
    }
}

/// A contiguous slice of one buffer.
#[derive(Clone, Copy, Debug, PartialEq, Eq, Structural)]
pub struct BufferView {
    /// Index of the backing buffer.
    pub buffer: usize,
    /// Byte offset of the view inside the buffer.
    pub offset: usize,
    /// Byte length of the view.
    pub length: usize,
    /// Distance between consecutive elements, when the view declares one.
    pub stride: Option<usize>,
}

/// One drawable piece of a mesh.
#[derive(Debug)]
pub struct Primitive {
    /// Attribute semantics with the index of the accessor that holds each.
    pub attributes: Vec<(Semantic, usize)>,
    /// Index of the accessor holding the index list, if the primitive is indexed.
    pub indices: Option<usize>,
    pub mode: Mode,
}

#[derive(Debug)]
pub struct Mesh {
    pub primitives: Vec<Primitive>,
}

/// A scene node; its position in the node list is its index.
#[derive(Clone, Copy, Debug, PartialEq, Eq, Structural)]
pub struct Node {
    pub mesh: Option<usize>,
}

/// Half-open byte range `[start, end)` of one buffer.
#[derive(Clone, Copy, Debug, PartialEq, Eq, Structural)]
pub struct ByteRange {
    pub buffer: usize,
    pub start: usize,
    pub end: usize,
}

/// Why an accessor's bytes cannot be resolved.
#[derive(Clone, Copy, Debug, PartialEq, Eq, Structural)]
pub enum ImportError {
    /// The accessor reads no buffer view (sparse or zero-filled data).
    MissingBufferView,
    /// An index names an accessor, view or buffer that does not exist.
    InvalidReference,
    /// The bytes lie past the end of their view or buffer.
    OutOfBounds,
}

/// An imported scene document together with its binary buffers.
#[derive(Debug)]
pub struct GltfScene {
    pub nodes: Vec<Node>,
    pub meshes: Vec<Mesh>,
    pub accessors: Vec<Accessor>,
    pub views: Vec<BufferView>,
    pub buffers: Vec<Vec<u8>>,
}

impl ByteRange {
    pub open spec fn len(self) -> int {
        self.end - self.start
    }
}

impl GltfScene {
    /// Whether `r` lies inside an existing buffer.
    pub open spec fn range_in_bounds(&self, r: ByteRange) -> bool {
        &&& r.buffer < self.buffers@.len()
        &&& r.start <= r.end
        &&& r.end <= self.buffers@[r.buffer as int]@.len()
    }

    /// The bytes of an in-bounds range.
    pub open spec fn range_data(&self, r: ByteRange) -> Seq<u8> {
        self.buffers@[r.buffer as int]@.subrange(r.start as int, r.end as int)
    }

    /// Where the elements of `a` live: `[view.offset + a.offset, + a.count * element size)`
    /// inside the view's buffer, provided that lies inside the view and the view inside
    /// the buffer.
    pub open spec fn accessor_range(&self, a: Accessor) -> Result<ByteRange, ImportError> {
        match a.view {
            None => Err(ImportError::MissingBufferView),
            Some(v) => if v >= self.views@.len() {
                Err(ImportError::InvalidReference)
            } else {
                let view = self.views@[v as int];
                let start = view.offset + a.offset;
                let end = start + a.count * element_size(a);
                if view.buffer >= self.buffers@.len() {
                    Err(ImportError::InvalidReference)
                } else if view.offset + view.length > self.buffers@[view.buffer as int]@.len() {
                    Err(ImportError::OutOfBounds)
                } else if a.offset + a.count * element_size(a) > view.length {
                    Err(ImportError::OutOfBounds)
                } else {
                    Ok(ByteRange { buffer: view.buffer, start: start as usize, end: end as usize })
                }
            },
        }
    }

    /// Resolves an accessor to the byte range it reads.
    pub fn resolve_accessor(&self, accessor: &Accessor) -> (r: Result<ByteRange, ImportError>)
        ensures
            r == self.accessor_range(*accessor),
            r is Ok ==> self.range_in_bounds(r->Ok_0),
            r is Ok ==> r->Ok_0.len() == accessor.count * element_size(*accessor),
    {
        let v = match accessor.view {
            None => {
                return Err(ImportError::MissingBufferView);
            },
            Some(v) => v,
        };
        if v >= self.views.len() {
            return Err(ImportError::InvalidReference);
        }
        let view = self.views[v];
        if view.buffer >= self.buffers.len() {
            return Err(ImportError::InvalidReference);
        }
        let buffer_len = self.buffers[view.buffer].len();
        let view_end = match view.offset.checked_add(view.length) {
            None => {
                return Err(ImportError::OutOfBounds);
            },
            Some(e) => e,
        };
        if view_end > buffer_len {
            return Err(ImportError::OutOfBounds);
        }
        let elem = crate::format::element_size_of(accessor);
        let bytes = match accessor.count.checked_mul(elem) {
            None => {
                assert(accessor.count * element_size(*accessor) > view.length) by (nonlinear_arith)
                    requires
                        accessor.count * elem > usize::MAX,
                        elem == element_size(*accessor),
                        view.length <= usize::MAX,
                ;
                return Err(ImportError::OutOfBounds);
            },
            Some(b) => b,
        };
        let rel_end = match accessor.offset.checked_add(bytes) {
            None => {
                return Err(ImportError::OutOfBounds);
            },
            Some(e) => e,
        };
        if rel_end > view.length {
            return Err(ImportError::OutOfBounds);
        }
        let start = view.offset + accessor.offset;
        let end = view.offset + rel_end;
        Ok(ByteRange { buffer: view.buffer, start, end })
    }

    /// The bytes an accessor reads, sliced out of its buffer.
    pub fn data_of_accessor(&self, accessor: &Accessor) -> (r: Result<&[u8], ImportError>)
        ensures
            match self.accessor_range(*accessor) {
                Ok(range) => r is Ok && r->Ok_0@ == self.range_data(range),
                Err(e) => r == Err::<&[u8], ImportError>(e),
            },
    {
        match self.resolve_accessor(accessor) {
            Ok(range) => Ok(slice_subrange(self.buffers[range.buffer].as_slice(), range.start, range.end)),
            Err(e) => Err(e),
        }
    }

    /// The bytes of `range`, or `None` when it does not lie inside a buffer.
    pub fn range_bytes(&self, range: &ByteRange) -> (r: Option<&[u8]>)
        ensures
            self.range_in_bounds(*range) ==> r is Some && r->Some_0@ == self.range_data(*range),
            !self.range_in_bounds(*range) ==> r is None,
    {
        if range.buffer < self.buffers.len() && range.start <= range.end && range.end
            <= self.buffers[range.buffer].len() {
            Some(slice_subrange(self.buffers[range.buffer].as_slice(), range.start, range.end))
        } else {
            None
        }
    }
}

} // verus!
