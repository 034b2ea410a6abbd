use vstd::prelude::*;

verus! {

/// Size in bytes of one 32-bit float.
pub const FLOAT_BYTES: u64 = 4;

#[derive(Clone, Copy, Debug, PartialEq, Eq, Structural)]
pub enum VertexFormat {
    /// Two 32-bit floats.
    Float32x2,
}

#[derive(Clone, Copy, Debug, PartialEq, Eq, Structural)]
pub enum StepMode {
    /// The buffer advances once per vertex.
    Vertex,
}

/// One attribute read from a vertex buffer.
#[derive(Clone, Copy, Debug, PartialEq, Eq, Structural)]
pub struct VertexAttribute {
    pub offset: u64,
    pub shader_location: u32,
    pub format: VertexFormat,
}

/// The layout of the single vertex buffer: a stride and exactly one
/// attribute, the position.
#[derive(Clone, Copy, Debug, PartialEq, Eq, Structural)]
pub struct VertexLayout {
    pub array_stride: u64,
    pub step_mode: StepMode,
    pub attribute: VertexAttribute,
}

/// The single uniform binding: which slot, which stages see it, and
/// whether it takes a dynamic offset.
#[derive(Clone, Copy, Debug, PartialEq, Eq, Structural)]
pub struct UniformBinding {
    pub binding: u32,
    pub vertex_visible: bool,
    pub fragment_visible: bool,
    pub has_dynamic_offset: bool,
}

#[derive(Clone, Copy, Debug, PartialEq, Eq, Structural)]
pub enum Topology {
    TriangleList,
}

#[derive(Clone, Copy, Debug, PartialEq, Eq, Structural)]
pub enum FrontFace {
    Ccw,
    Cw,
}

#[derive(Clone, Copy, Debug, PartialEq, Eq, Structural)]
pub enum CullMode {
    NoCulling,
    Front,
    Back,
}

#[derive(Clone, Copy, Debug, PartialEq, Eq, Structural)]
pub enum PolygonMode {
    Fill,
}

#[derive(Clone, Copy, Debug, PartialEq, Eq, Structural)]
pub enum BlendMode {
    /// The fragment's color replaces what the target held.
    Replace,
}

/// Everything fixed about the render pipeline besides the shader module
/// and the surface's pixel format, which the GPU layer supplies.
#[derive(Clone, Copy, Debug, PartialEq, Eq, Structural)]
pub struct PipelineDesc {
    pub vertex_layout: VertexLayout,
    pub uniform: UniformBinding,
    pub topology: Topology,
    pub front_face: FrontFace,
    pub cull_mode: CullMode,
    pub polygon_mode: PolygonMode,
    pub depth_stencil: bool,
    pub sample_count: u32,
    pub sample_mask: u64,
    pub alpha_to_coverage: bool,
    pub blend: BlendMode,
    pub write_all_channels: bool,
}

/// The position attribute: two floats at offset 0, shader location 0.
pub open spec fn spec_vertex_layout() -> VertexLayout {
    VertexLayout {
        array_stride: (2 * FLOAT_BYTES) as u64,
        step_mode: StepMode::Vertex,
        attribute: VertexAttribute { offset: 0, shader_location: 0, format: VertexFormat::Float32x2 },
    }
}

/// Binding 0, seen by the vertex and fragment stages, no dynamic offset.
pub open spec fn spec_uniform_binding() -> UniformBinding {
    UniformBinding { binding: 0, vertex_visible: true, fragment_visible: true, has_dynamic_offset: false }
}

pub open spec fn spec_pipeline_desc() -> PipelineDesc {
    PipelineDesc {
        vertex_layout: spec_vertex_layout(),
        uniform: spec_uniform_binding(),
        topology: Topology::TriangleList,
        front_face: FrontFace::Ccw,
        cull_mode: CullMode::Back,
        polygon_mode: PolygonMode::Fill,
        depth_stencil: false,
        sample_count: 1,
        sample_mask: 1,
        alpha_to_coverage: false,
        blend: BlendMode::Replace,
        write_all_channels: true,
    }
}

/// The layout of the vertex buffer.
pub fn vertex_layout() -> (r: VertexLayout)
    ensures
        r == spec_vertex_layout(),
{
    VertexLayout {
        array_stride: 2 * FLOAT_BYTES,
        step_mode: StepMode::Vertex,
        attribute: VertexAttribute { offset: 0, shader_location: 0, format: VertexFormat::Float32x2 },
    }
}

/// The uniform binding of the time value.
pub fn uniform_binding() -> (r: UniformBinding)
    ensures
        r == spec_uniform_binding(),
{
    UniformBinding { binding: 0, vertex_visible: true, fragment_visible: true, has_dynamic_offset: false }
}

/// The pipeline: triangle list, counter-clockwise front faces with back
/// faces culled, filled polygons, no depth or stencil, one sample with a
/// one-bit mask, replace blending into all channels.
pub fn pipeline_desc() -> (r: PipelineDesc)
    ensures
        r == spec_pipeline_desc(),
{
    PipelineDesc {
        vertex_layout: vertex_layout(),
        uniform: uniform_binding(),
        topology: Topology::TriangleList,
        front_face: FrontFace::Ccw,
        cull_mode: CullMode::Back,
        polygon_mode: PolygonMode::Fill,
        depth_stencil: false,
        sample_count: 1,
        sample_mask: 1,
        alpha_to_coverage: false,
        blend: BlendMode::Replace,
        write_all_channels: true,
    }
}

/// Pipeline construction is deterministic: any two descriptions it yields
/// are equal, accept one two-float attribute with an 8-byte stride, and
/// bind one uniform at slot 0 for both stages; the sample mask matches the
/// single sample.
pub proof fn lemma_pipeline_deterministic(a: PipelineDesc, b: PipelineDesc)
    requires
        a == spec_pipeline_desc(),
        b == spec_pipeline_desc(),
    ensures
        a == b,
        a.vertex_layout.array_stride == 8,
        a.vertex_layout.attribute.format == VertexFormat::Float32x2,
        a.vertex_layout.attribute.shader_location == 0,
        a.uniform.binding == 0 && a.uniform.vertex_visible && a.uniform.fragment_visible,
        !a.uniform.has_dynamic_offset,
        a.sample_count == 1 && a.sample_mask == 1,
{
}

} // verus!
