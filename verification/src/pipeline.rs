//! Pipeline builder: shader stages and fixed-function state, compiled into
//! one immutable, validated pipeline object.
//!
//! This is the only place where the shader unit, the fixed vertex layout
//! and the device's capability meet, and the one invariant that is
//! load-bearing rather than optional is stated here: the pipeline's single
//! color target carries exactly the format the surface was configured
//! with. A mismatch would not fail loudly — it would silently render
//! garbage — so the contracts pin the format all the way through.

use vstd::prelude::*;

use crate::context::{Adapter, Device};
use crate::data::{SurfaceCaps, SurfaceConfiguration, TextureFormat};
use crate::error::InitError;
use crate::surface::is_default_config;

verus! {

/// The format of one vertex attribute. The protocol uses a single
/// attribute kind: a two-component 32-bit float position.
#[derive(Clone, Copy, Debug, PartialEq, Eq, Structural)]
pub enum VertexFormat {
    Float32x2,
}

/// One attribute within a vertex buffer layout.
#[derive(Clone, Copy, Debug, PartialEq, Eq, Structural)]
pub struct VertexAttribute {
    pub format: VertexFormat,
    pub offset: u64,
    pub shader_location: u32,
}

/// The byte layout of one vertex buffer input.
#[derive(Clone, Debug)]
pub struct VertexBufferLayout {
    pub array_stride: u64,
    pub attributes: Vec<VertexAttribute>,
}

/// A named entry point of the shader unit. The unit exposes exactly these
/// two, with compatible signatures: the vertex stage consumes a two-float
/// position and produces a clip-space position; the fragment stage
/// produces one color output.
#[derive(Clone, Copy, Debug, PartialEq, Eq, Structural)]
pub enum EntryPoint {
    Vertex,
    Fragment,
}

/// The primitive topology. The protocol always uses the backend default,
/// a triangle list.
#[derive(Clone, Copy, Debug, PartialEq, Eq, Structural)]
pub enum PrimitiveTopology {
    TriangleList,
}

/// Color writes enabled for every channel — the backend default mask.
pub const COLOR_WRITE_ALL: u32 = 0xF;

/// One color output target of a pipeline: the format it renders into, with
/// the default blend (none) and write mask (all channels).
#[derive(Clone, Copy, Debug, PartialEq, Eq, Structural)]
pub struct ColorTargetState {
    pub format: TextureFormat,
    pub blend_enabled: bool,
    pub write_mask: u32,
}

/// Everything a pipeline is validated against: the two shader entry
/// points, the vertex buffer inputs, the color targets, and the
/// fixed-function state the protocol leaves at backend defaults.
#[derive(Clone, Debug)]
pub struct PipelineDescriptor {
    pub vertex_entry: EntryPoint,
    pub fragment_entry: EntryPoint,
    pub vertex_buffers: Vec<VertexBufferLayout>,
    pub color_targets: Vec<ColorTargetState>,
    pub topology: PrimitiveTopology,
    pub depth_stencil: bool,
    pub sample_count: u32,
}

/// An immutable compiled program: the descriptor it was validated against,
/// frozen.
pub struct Pipeline {
    pub descriptor: PipelineDescriptor,
}

/// The embedder's report of the outside build step: the shader unit
/// compiled and the device accepted the descriptor, or which of the two
/// failed.
#[derive(Clone, Copy, Debug, PartialEq, Eq, Structural)]
pub enum PipelineBuildOutcome {
    Built,
    ShaderError,
    ValidationError,
}

/// The one vertex buffer layout every pipeline of this protocol declares:
/// stride 8 bytes, a single two-component 32-bit float attribute at offset
/// 0, shader location 0. The layout does not depend on the vertex data.
pub open spec fn is_triangle_vertex_layout(layout: VertexBufferLayout) -> bool {
    &&& layout.array_stride == 8
    &&& layout.attributes@.len() == 1
    &&& layout.attributes@[0] == (VertexAttribute {
        format: VertexFormat::Float32x2,
        offset: 0,
        shader_location: 0,
    })
}

/// `ct` is the color target derived from the capability set `caps`: the
/// first supported format, no blending, all channels written.
pub open spec fn is_color_target_for(ct: ColorTargetState, caps: SurfaceCaps) -> bool {
    &&& caps.formats@.len() > 0
    &&& ct.format == caps.formats@[0]
    &&& !ct.blend_enabled
    &&& ct.write_mask == COLOR_WRITE_ALL
}

/// `pd` is the pipeline descriptor this protocol builds over the color
/// target `ct`: the two named entry points, one vertex buffer with the
/// fixed triangle layout, exactly one color target equal to `ct`, and
/// backend defaults everywhere else — triangle-list primitives, no
/// depth/stencil, a single sample.
pub open spec fn is_pipeline_descriptor_for(pd: PipelineDescriptor, ct: ColorTargetState) -> bool {
    &&& pd.vertex_entry == EntryPoint::Vertex
    &&& pd.fragment_entry == EntryPoint::Fragment
    &&& pd.vertex_buffers@.len() == 1
    &&& is_triangle_vertex_layout(pd.vertex_buffers@[0])
    &&& pd.color_targets@.len() == 1
    &&& pd.color_targets@[0] == ct
    &&& pd.topology == PrimitiveTopology::TriangleList
    &&& !pd.depth_stencil
    &&& pd.sample_count == 1
}

/// The color format a pipeline renders into.
pub open spec fn pipeline_color_format(p: Pipeline) -> TextureFormat {
    p.descriptor.color_targets@[0].format
}

/// Derives the single color output target for a surface from the adapter's
/// capability set: the first format the adapter supports for the surface,
/// with default blend and write mask.
pub fn color_target_state(adapter: &Adapter) -> (r: ColorTargetState)
    requires
        adapter.caps.formats@.len() > 0,
    ensures
        is_color_target_for(r, adapter.caps),
{
    let format = adapter.caps.formats[0];
    ColorTargetState { format, blend_enabled: false, write_mask: COLOR_WRITE_ALL }
}

/// Builds the pipeline descriptor over the caller's color target: entry
/// points `vertex` and `fragment` of the one shader unit, the fixed
/// triangle vertex layout, exactly one color target, backend defaults for
/// all remaining state.
pub fn pipeline_descriptor(color_target: ColorTargetState) -> (r: PipelineDescriptor)
    ensures
        is_pipeline_descriptor_for(r, color_target),
{
    let mut attributes: Vec<VertexAttribute> = Vec::new();
    attributes.push(VertexAttribute { format: VertexFormat::Float32x2, offset: 0, shader_location: 0 });
    let mut vertex_buffers: Vec<VertexBufferLayout> = Vec::new();
    vertex_buffers.push(VertexBufferLayout { array_stride: 8, attributes });
    let mut color_targets: Vec<ColorTargetState> = Vec::new();
    color_targets.push(color_target);
    PipelineDescriptor {
        vertex_entry: EntryPoint::Vertex,
        fragment_entry: EntryPoint::Fragment,
        vertex_buffers,
        color_targets,
        topology: PrimitiveTopology::TriangleList,
        depth_stencil: false,
        sample_count: 1,
    }
}

/// Compiles the shader unit and validates the descriptor into a pipeline.
/// The embedder performs the outside build and reports its outcome; a
/// compile failure and a rejected descriptor are distinct fatal errors.
pub fn build_pipeline(device: &Device, color_target: ColorTargetState, outcome: PipelineBuildOutcome)
    -> (r: Result<Pipeline, InitError>)
    ensures
        outcome is Built <==> (r matches Ok(p) && is_pipeline_descriptor_for(
            p.descriptor,
            color_target,
        )),
        outcome is ShaderError <==> r == Err::<Pipeline, InitError>(InitError::ShaderCompileFailed),
        outcome is ValidationError <==> r == Err::<Pipeline, InitError>(
            InitError::PipelineValidationFailed,
        ),
{
    let _ = device;
    match outcome {
        PipelineBuildOutcome::Built => Ok(Pipeline { descriptor: pipeline_descriptor(color_target) }),
        PipelineBuildOutcome::ShaderError => Err(InitError::ShaderCompileFailed),
        PipelineBuildOutcome::ValidationError => Err(InitError::PipelineValidationFailed),
    }
}

/// The pipeline's declared color target format always equals the surface's
/// configured format: both are the first format of the capability set
/// frozen at the adapter step, whichever adapter and backend were
/// selected.
pub proof fn lemma_pipeline_format_matches_surface(
    caps: SurfaceCaps,
    size: crate::data::Extent,
    config: SurfaceConfiguration,
    ct: ColorTargetState,
    pd: PipelineDescriptor,
)
    requires
        is_default_config(config, caps, size),
        is_color_target_for(ct, caps),
        is_pipeline_descriptor_for(pd, ct),
    ensures
        pd.color_targets@[0].format == config.format,
{
}

/// The vertex buffer layout of every pipeline this protocol builds is the
/// same fixed layout — stride 8, one float32x2 attribute at offset 0,
/// shader location 0 — whatever color target the pipeline was built over
/// and whatever vertex data is later uploaded: no part of the descriptor
/// depends on the data.
pub proof fn lemma_vertex_layout_fixed(
    pd1: PipelineDescriptor,
    ct1: ColorTargetState,
    pd2: PipelineDescriptor,
    ct2: ColorTargetState,
)
    requires
        is_pipeline_descriptor_for(pd1, ct1),
        is_pipeline_descriptor_for(pd2, ct2),
    ensures
        pd1.vertex_buffers@.len() == 1,
        is_triangle_vertex_layout(pd1.vertex_buffers@[0]),
        pd1.vertex_buffers@[0].array_stride == pd2.vertex_buffers@[0].array_stride,
        pd1.vertex_buffers@[0].attributes@ == pd2.vertex_buffers@[0].attributes@,
{
    assert(pd1.vertex_buffers@[0].attributes@ =~= pd2.vertex_buffers@[0].attributes@);
}

} // verus!
