//! Scene-to-GPU-resource compiler for a glTF viewer: format translation,
//! scene compilation into draw plans, frame-target bookkeeping and a
//! fixed-timestep clock, all with verified contracts.
pub mod clock;
pub mod compiler;
pub mod format;
pub mod info;
pub mod laws;
pub mod render;
pub mod scene;
pub mod targets;

pub use clock::{FixedClock, Tick};
pub use compiler::{
    compile, compile_primitive, node_bindings, CompileError, CompiledScene, DrawMode,
    GpuPrimitive, NodeBinding, VertexBufferPlan,
};
pub use format::{
    accessor_type_to_format, align_of_component_type, component_type_to_index_format,
    element_size_of, mesh_mode_to_topology, size_of_component_type, stride_of_component_type,
    Accessor, ComponentType, Dimensions, FormatError, IndexFormat, Mode, PrimitiveTopology,
    VertexFormat,
};
pub use info::{backend_name, device_type_name, vendor_name, Backend, DeviceType};
pub use render::DrawItem;
pub use scene::{
    BufferView, ByteRange, GltfScene, ImportError, Mesh, Node, Primitive, Semantic, SemanticError,
    ShaderLocation,
};
pub use targets::{
    create_depth_framebuffer, recovery_for, DepthTargetDesc, FrameTargets, Recovery,
    SurfaceErrorKind,
};
