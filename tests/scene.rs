use wgltf::{
    compile, node_bindings, Accessor, BufferView, ByteRange, CompileError, ComponentType,
    Dimensions, DrawItem, DrawMode, FormatError, GltfScene, ImportError, IndexFormat, Mesh, Mode,
    Node, Primitive, PrimitiveTopology, Semantic, SemanticError, ShaderLocation, VertexFormat,
};

fn acc(t: ComponentType, d: Dimensions, count: usize, offset: usize, view: Option<usize>) -> Accessor {
    Accessor { component_type: t, dimensions: d, normalized: false, count, offset, view }
}

/// A cube: 24 positions (vec3 f32), 24 normals, 36 u16 indices, one mesh,
/// one primitive, and two nodes of which one carries the mesh.
fn cube_scene() -> GltfScene {
    let positions = 24 * 12;
    let normals = 24 * 12;
    let indices = 36 * 2;
    GltfScene {
        nodes: vec![Node { mesh: None }, Node { mesh: Some(0) }],
        meshes: vec![Mesh {
            primitives: vec![Primitive {
                attributes: vec![(Semantic::Normals, 1), (Semantic::Positions, 0), (Semantic::TexCoords(0), 1)],
                indices: Some(2),
                mode: Mode::Triangles,
            }],
        }],
        accessors: vec![
            acc(ComponentType::F32, Dimensions::Vec3, 24, 0, Some(0)),
            acc(ComponentType::F32, Dimensions::Vec3, 24, 0, Some(1)),
            acc(ComponentType::U16, Dimensions::Scalar, 36, 0, Some(2)),
        ],
        views: vec![
            BufferView { buffer: 0, offset: 0, length: positions, stride: None },
            BufferView { buffer: 0, offset: positions, length: normals, stride: Some(12) },
            BufferView { buffer: 0, offset: positions + normals, length: indices, stride: None },
        ],
        buffers: vec![(0..(positions + normals + indices)).map(|i| i as u8).collect()],
    }
}

#[test]
fn end_to_end_cube_compiles_to_one_indexed_primitive() {
    let scene = cube_scene();
    let compiled = compile(&scene).unwrap();
    assert_eq!(compiled.primitive_data.len(), 1);
    let p = &compiled.primitive_data[0];
    assert_eq!((p.mesh, p.primitive), (0, 0));
    assert_eq!(p.topology, PrimitiveTopology::TriangleList);
    match p.draw_mode {
        DrawMode::Indexed { data, ty, draw_count } => {
            assert_eq!(draw_count, 36);
            assert_eq!(ty, IndexFormat::Uint16);
            assert_eq!(data, ByteRange { buffer: 0, start: 576, end: 648 });
        }
        DrawMode::Normal(_) => panic!("expected an indexed draw"),
    }
    // normals then positions, texture coordinates dropped
    assert_eq!(p.buffers.len(), 2);
    let pos = p.buffers.iter().find(|b| b.shader_location == 0).unwrap();
    assert_eq!(pos.count, 24);
    assert_eq!(pos.data.end - pos.data.start, 24 * 12);
    assert_eq!(pos.format, VertexFormat::Float32x3);
    assert_eq!(pos.array_stride, 12);
    assert_eq!(p.buffers[0].shader_location, 1);
    assert_eq!(p.buffers[0].data, ByteRange { buffer: 0, start: 288, end: 576 });
    assert_eq!(compiled.node_data.len(), 1);
    assert_eq!(compiled.node_data[0].node, 1);
    assert_eq!(compiled.node_data[0].mesh, 0);
    assert_eq!(compiled.primitive(0, 0).map(|g| g.primitive), Some(0));
    assert!(compiled.primitive(0, 1).is_none());
}

#[test]
fn non_indexed_primitive_draws_position_count() {
    let mut scene = cube_scene();
    scene.meshes[0].primitives[0].indices = None;
    // a normal accessor of a different count must not decide the vertex count
    scene.accessors[1].count = 10;
    let compiled = compile(&scene).unwrap();
    assert_eq!(compiled.primitive_data[0].draw_mode, DrawMode::Normal(24));
}

#[test]
fn primitive_without_position_is_not_compiled() {
    let mut scene = cube_scene();
    scene.meshes[0].primitives.push(Primitive {
        attributes: vec![(Semantic::Normals, 1)],
        indices: Some(2),
        mode: Mode::Triangles,
    });
    scene.meshes.push(Mesh {
        primitives: vec![Primitive {
            attributes: vec![(Semantic::Positions, 0)],
            indices: None,
            mode: Mode::Points,
        }],
    });
    scene.nodes.push(Node { mesh: Some(1) });
    scene.nodes.push(Node { mesh: Some(0) });
    let compiled = compile(&scene).unwrap();
    let keys: Vec<(usize, usize)> =
        compiled.primitive_data.iter().map(|p| (p.mesh, p.primitive)).collect();
    assert_eq!(keys, vec![(0, 0), (1, 0)]);
    let nodes: Vec<usize> = compiled.node_data.iter().map(|b| b.node).collect();
    assert_eq!(nodes, vec![1, 2, 3]);
    assert!(compiled.primitive(0, 1).is_none());
    assert_eq!(compiled.primitive(1, 0).unwrap().topology, PrimitiveTopology::PointList);
}

#[test]
fn primitive_without_position_is_still_checked() {
    let mut scene = cube_scene();
    scene.meshes[0].primitives.push(Primitive {
        attributes: vec![(Semantic::Normals, 1)],
        indices: None,
        mode: Mode::LineLoop,
    });
    assert_eq!(compile(&scene).err(), Some(CompileError::Format(FormatError::UnsupportedTopology)));

    let mut scene = cube_scene();
    scene.accessors.push(acc(ComponentType::U8, Dimensions::Scalar, 4, 0, Some(2)));
    scene.meshes[0].primitives.push(Primitive {
        attributes: vec![(Semantic::Normals, 1)],
        indices: Some(3),
        mode: Mode::Triangles,
    });
    assert_eq!(compile(&scene).err(), Some(CompileError::Format(FormatError::UnsupportedIndexFormat)));

    let mut scene = cube_scene();
    scene.accessors.push(acc(ComponentType::U8, Dimensions::Vec3, 4, 0, Some(2)));
    scene.meshes[0].primitives.push(Primitive {
        attributes: vec![(Semantic::Normals, 3)],
        indices: None,
        mode: Mode::Triangles,
    });
    assert_eq!(compile(&scene).err(), Some(CompileError::Format(FormatError::UnsupportedVertexFormat)));
}

#[test]
fn unsupported_formats_abort_the_compile() {
    let mut scene = cube_scene();
    scene.accessors[0].component_type = ComponentType::U8;
    assert_eq!(compile(&scene).err(), Some(CompileError::Format(FormatError::UnsupportedVertexFormat)));

    let mut scene = cube_scene();
    scene.accessors[2].component_type = ComponentType::U8;
    assert_eq!(compile(&scene).err(), Some(CompileError::Format(FormatError::UnsupportedIndexFormat)));

    let mut scene = cube_scene();
    scene.meshes[0].primitives[0].mode = Mode::LineLoop;
    assert_eq!(compile(&scene).err(), Some(CompileError::Format(FormatError::UnsupportedTopology)));
}

#[test]
fn unresolvable_accessors_abort_the_compile() {
    let mut scene = cube_scene();
    scene.accessors[0].view = None;
    assert_eq!(compile(&scene).err(), Some(CompileError::Import(ImportError::MissingBufferView)));

    let mut scene = cube_scene();
    scene.accessors[0].count = 25;
    assert_eq!(compile(&scene).err(), Some(CompileError::Import(ImportError::OutOfBounds)));

    let mut scene = cube_scene();
    scene.meshes[0].primitives[0].indices = Some(9);
    assert_eq!(compile(&scene).err(), Some(CompileError::Import(ImportError::InvalidReference)));
}

#[test]
fn accessor_bytes_are_sliced_from_the_view() {
    let scene = cube_scene();
    let a = acc(ComponentType::U16, Dimensions::Scalar, 3, 4, Some(2));
    let bytes = scene.data_of_accessor(&a).unwrap();
    let start = 576 + 4;
    let expected: Vec<u8> = (start..start + 6).map(|i| i as u8).collect();
    assert_eq!(bytes, &expected[..]);
    assert_eq!(scene.resolve_accessor(&a), Ok(ByteRange { buffer: 0, start: 580, end: 586 }));

    let sparse = acc(ComponentType::U16, Dimensions::Scalar, 3, 0, None);
    assert_eq!(scene.data_of_accessor(&sparse), Err(ImportError::MissingBufferView));
    let past_view = acc(ComponentType::U16, Dimensions::Scalar, 35, 4, Some(2));
    assert_eq!(scene.data_of_accessor(&past_view), Err(ImportError::OutOfBounds));
    let no_view = acc(ComponentType::U16, Dimensions::Scalar, 1, 0, Some(7));
    assert_eq!(scene.data_of_accessor(&no_view), Err(ImportError::InvalidReference));
    let mat3 = acc(ComponentType::F32, Dimensions::Mat3, 2, 0, Some(0));
    assert_eq!(scene.resolve_accessor(&mat3).map(|r| r.end - r.start), Ok(72));
}

#[test]
fn range_bytes_checks_bounds() {
    let scene = cube_scene();
    let r = ByteRange { buffer: 0, start: 2, end: 5 };
    assert_eq!(scene.range_bytes(&r), Some(&[2u8, 3, 4][..]));
    assert_eq!(scene.range_bytes(&ByteRange { buffer: 0, start: 640, end: 700 }), None);
    assert_eq!(scene.range_bytes(&ByteRange { buffer: 1, start: 0, end: 0 }), None);
}

#[test]
fn node_bindings_follow_nodes_with_meshes() {
    let mut scene = cube_scene();
    scene.nodes = vec![Node { mesh: Some(0) }, Node { mesh: None }, Node { mesh: Some(0) }];
    let b = node_bindings(&scene);
    assert_eq!(b.iter().map(|n| n.node).collect::<Vec<_>>(), vec![0, 2]);
}

#[test]
fn draw_list_visits_each_node_mesh_primitive() {
    let mut scene = cube_scene();
    scene.nodes.push(Node { mesh: Some(0) });
    scene.nodes.push(Node { mesh: Some(5) });
    let compiled = compile(&scene).unwrap();
    let items = compiled.draw_list(&scene);
    assert_eq!(
        items,
        vec![DrawItem { node: 0, primitive: 0 }, DrawItem { node: 1, primitive: 0 }]
    );
}

#[test]
fn shader_locations() {
    assert_eq!(ShaderLocation::new(Semantic::Positions), Some(ShaderLocation(0)));
    assert_eq!(ShaderLocation::new(Semantic::Normals), Some(ShaderLocation(1)));
    assert_eq!(ShaderLocation::new(Semantic::TexCoords(0)), None);
    assert_eq!(ShaderLocation::try_from(Semantic::Normals), Ok(ShaderLocation(1)));
    assert_eq!(ShaderLocation::try_from(Semantic::Colors(0)), Err(SemanticError::UnsupportedSemantic));
}
