use wgltf::{
    accessor_type_to_format, align_of_component_type, component_type_to_index_format,
    mesh_mode_to_topology, size_of_component_type, stride_of_component_type, Accessor,
    ComponentType, Dimensions, FormatError, IndexFormat, Mode, PrimitiveTopology, VertexFormat,
};

const TYPES: [ComponentType; 6] = [
    ComponentType::I8,
    ComponentType::U8,
    ComponentType::I16,
    ComponentType::U16,
    ComponentType::U32,
    ComponentType::F32,
];

const DIMS: [Dimensions; 7] = [
    Dimensions::Scalar,
    Dimensions::Vec2,
    Dimensions::Vec3,
    Dimensions::Vec4,
    Dimensions::Mat2,
    Dimensions::Mat3,
    Dimensions::Mat4,
];

fn accessor(component_type: ComponentType, dimensions: Dimensions, normalized: bool) -> Accessor {
    Accessor { component_type, dimensions, normalized, count: 1, offset: 0, view: Some(0) }
}

fn expected_format(n: bool, d: Dimensions, t: ComponentType) -> Option<VertexFormat> {
    Some(match (n, d, t) {
        (true, Dimensions::Vec2, ComponentType::I8) => VertexFormat::Snorm8x2,
        (true, Dimensions::Vec2, ComponentType::U8) => VertexFormat::Unorm8x2,
        (true, Dimensions::Vec4, ComponentType::I8) => VertexFormat::Snorm8x4,
        (true, Dimensions::Vec4, ComponentType::U8) => VertexFormat::Unorm8x4,
        (false, Dimensions::Vec2, ComponentType::I8) => VertexFormat::Sint8x2,
        (false, Dimensions::Vec2, ComponentType::U8) => VertexFormat::Uint8x2,
        (false, Dimensions::Vec4, ComponentType::I8) => VertexFormat::Sint8x4,
        (false, Dimensions::Vec4, ComponentType::U8) => VertexFormat::Uint8x4,
        (true, Dimensions::Vec2, ComponentType::I16) => VertexFormat::Snorm16x2,
        (true, Dimensions::Vec2, ComponentType::U16) => VertexFormat::Unorm16x2,
        (true, Dimensions::Vec4, ComponentType::I16) => VertexFormat::Snorm16x4,
        (true, Dimensions::Vec4, ComponentType::U16) => VertexFormat::Unorm16x4,
        (false, Dimensions::Vec2, ComponentType::I16) => VertexFormat::Sint16x2,
        (false, Dimensions::Vec2, ComponentType::U16) => VertexFormat::Uint16x2,
        (false, Dimensions::Vec4, ComponentType::I16) => VertexFormat::Sint16x4,
        (false, Dimensions::Vec4, ComponentType::U16) => VertexFormat::Uint16x4,
        (_, Dimensions::Scalar, ComponentType::F32) => VertexFormat::Float32,
        (_, Dimensions::Vec2, ComponentType::F32) => VertexFormat::Float32x2,
        (_, Dimensions::Vec3, ComponentType::F32) => VertexFormat::Float32x3,
        (_, Dimensions::Vec4, ComponentType::F32) => VertexFormat::Float32x4,
        (_, Dimensions::Scalar, ComponentType::U32) => VertexFormat::Uint32,
        (_, Dimensions::Vec2, ComponentType::U32) => VertexFormat::Uint32x2,
        (_, Dimensions::Vec3, ComponentType::U32) => VertexFormat::Uint32x3,
        (_, Dimensions::Vec4, ComponentType::U32) => VertexFormat::Uint32x4,
        _ => return None,
    })
}

#[test]
fn vertex_format_table_is_total_and_exact() {
    let mut supported = 0;
    for n in [false, true] {
        for d in DIMS {
            for t in TYPES {
                let got = accessor_type_to_format(&accessor(t, d, n));
                match expected_format(n, d, t) {
                    Some(f) => {
                        supported += 1;
                        assert_eq!(got, Ok(f));
                        // asking twice gives the same answer
                        assert_eq!(accessor_type_to_format(&accessor(t, d, n)), got);
                    }
                    None => assert_eq!(got, Err(FormatError::UnsupportedVertexFormat)),
                }
            }
        }
    }
    assert_eq!(supported, 32);
}

#[test]
fn unsigned_byte_vec4_is_uint_not_sint() {
    let a = accessor(ComponentType::U8, Dimensions::Vec4, false);
    assert_eq!(accessor_type_to_format(&a), Ok(VertexFormat::Uint8x4));
}

#[test]
fn vertex_format_rejects_examples() {
    for (t, d, n) in [
        (ComponentType::U8, Dimensions::Vec3, false),
        (ComponentType::I16, Dimensions::Scalar, true),
        (ComponentType::F32, Dimensions::Mat4, false),
        (ComponentType::U32, Dimensions::Mat2, true),
    ] {
        assert_eq!(
            accessor_type_to_format(&accessor(t, d, n)),
            Err(FormatError::UnsupportedVertexFormat)
        );
    }
}

#[test]
fn index_formats() {
    assert_eq!(component_type_to_index_format(ComponentType::U16), Ok(IndexFormat::Uint16));
    assert_eq!(component_type_to_index_format(ComponentType::U32), Ok(IndexFormat::Uint32));
    for t in [ComponentType::I8, ComponentType::U8, ComponentType::I16, ComponentType::F32] {
        assert_eq!(component_type_to_index_format(t), Err(FormatError::UnsupportedIndexFormat));
    }
}

#[test]
fn component_sizes_and_alignments() {
    let sizes = [1usize, 1, 2, 2, 4, 4];
    for (t, s) in TYPES.iter().zip(sizes) {
        assert_eq!(size_of_component_type(*t), s);
    }
    let aligns = [1usize, 2, 3, 4, 4, 16, 16];
    for (d, a) in DIMS.iter().zip(aligns) {
        assert_eq!(align_of_component_type(*d), a);
    }
}

#[test]
fn stride_is_size_times_alignment_for_every_type_and_shape() {
    let mut cases = 0;
    for t in TYPES {
        for d in DIMS {
            let a = accessor(t, d, false);
            assert_eq!(
                stride_of_component_type(&a),
                size_of_component_type(t) * align_of_component_type(d)
            );
            cases += 1;
        }
    }
    assert_eq!(cases, 42);
    assert_eq!(stride_of_component_type(&accessor(ComponentType::F32, Dimensions::Vec3, false)), 12);
    assert_eq!(stride_of_component_type(&accessor(ComponentType::F32, Dimensions::Mat3, false)), 64);
    assert_eq!(stride_of_component_type(&accessor(ComponentType::U16, Dimensions::Mat2, false)), 8);
}

#[test]
fn topologies() {
    assert_eq!(mesh_mode_to_topology(Mode::Triangles), Ok(PrimitiveTopology::TriangleList));
    assert_eq!(mesh_mode_to_topology(Mode::TriangleStrip), Ok(PrimitiveTopology::TriangleStrip));
    assert_eq!(mesh_mode_to_topology(Mode::TriangleFan), Ok(PrimitiveTopology::TriangleStrip));
    assert_eq!(mesh_mode_to_topology(Mode::Lines), Ok(PrimitiveTopology::LineList));
    assert_eq!(mesh_mode_to_topology(Mode::LineStrip), Ok(PrimitiveTopology::LineStrip));
    assert_eq!(mesh_mode_to_topology(Mode::Points), Ok(PrimitiveTopology::PointList));
    assert_eq!(mesh_mode_to_topology(Mode::LineLoop), Err(FormatError::UnsupportedTopology));
}
