//! The single golden path: one frame, acquired, recorded, submitted and
//! presented, or the first fatal error on the way there.
//!
//! Data flows strictly forward through the chain — instance, surface,
//! adapter, device and queue, surface configuration, pipeline, command
//! buffer, presentation — and the driver here performs exactly one frame.
//! Every host-side outcome (whether a compatible adapter exists, whether
//! the device was granted, how the outside pipeline build ended, whether a
//! texture could be acquired) enters as a plain value, so the driver is
//! verified for every combination of them.

use vstd::prelude::*;

use crate::context::{create_instance, create_surface, open_device, select_adapter, Queue, Surface};
use crate::data::{DrawCall, SurfaceCaps, SurfaceConfiguration, WindowHandle};
use crate::error::InitError;
use crate::frame::{create_vertex_buffer, record_frame, CommandBuffer, VertexBuffer};
use crate::pipeline::{
    build_pipeline, color_target_state, is_pipeline_descriptor_for, ColorTargetState, Pipeline,
    PipelineBuildOutcome, COLOR_WRITE_ALL,
};
use crate::submit::{submit_and_present, QueueOp};
use crate::surface::{create_view, is_default_config};

verus! {

/// The outcomes of the host-side steps that the embedder performs for one
/// frame, reported as plain values: the capability set of a compatible
/// adapter if one was found, whether the device request was granted, how
/// the outside pipeline build ended, and whether a presentable texture
/// could be acquired.
pub struct HostOutcomes {
    pub adapter: Option<SurfaceCaps>,
    pub device_granted: bool,
    pub pipeline: PipelineBuildOutcome,
    pub texture_acquired: bool,
}

impl HostOutcomes {
    /// Every host-side step succeeds: the window handle can be bound, a
    /// compatible adapter with at least one supported format exists, the
    /// device is granted, the pipeline builds, a texture is acquired.
    pub open spec fn golden(self, window: WindowHandle) -> bool {
        &&& window.valid
        &&& self.adapter matches Some(caps) && caps.formats@.len() > 0
        &&& self.device_granted
        &&& self.pipeline is Built
        &&& self.texture_acquired
    }
}

/// Everything the completed frame leaves behind, for inspection: the
/// configuration the surface was bound with, the compiled pipeline, the
/// queue with its op log, the vertex buffer, the surface, and the
/// submitted command buffer.
pub struct FrameOutput {
    pub config: SurfaceConfiguration,
    pub pipeline: Pipeline,
    pub queue: Queue,
    pub vertex_buffer: VertexBuffer,
    pub surface: Surface,
    pub command_buffer: CommandBuffer,
}

/// Runs the full sequence — context factory, device session, surface
/// configurator, pipeline builder, frame recorder, submission and
/// presentation — for exactly one frame. For a valid window handle and a
/// host on which every backend step succeeds, the sequence completes
/// without fatal error and presents exactly one frame, with exactly one
/// draw call of 3 vertices and 1 instance recorded, the pipeline's color
/// target format equal to the surface's configured format, and the vertex
/// upload enqueued before the submission. Each fatal error is returned
/// exactly for the host outcome of the stage it names, and the first
/// failing stage in chain order wins.
pub fn render_one_frame(window: &WindowHandle, host: HostOutcomes, vertex_data: Vec<u32>) -> (r:
    Result<FrameOutput, InitError>)
    requires
        window.size.width > 0,
        window.size.height > 0,
        vertex_data@.len() == 6,
    ensures
        r is Ok <==> host.golden(*window),
        r matches Ok(out) ==> {
            &&& host.adapter matches Some(caps) && is_default_config(
                out.config,
                caps,
                window.size,
            )
            &&& out.surface.configured == Some(out.config)
            &&& out.surface.presented == 1
            &&& !out.surface.texture_outstanding
            &&& is_pipeline_descriptor_for(
                out.pipeline.descriptor,
                (ColorTargetState {
                    format: out.config.format,
                    blend_enabled: false,
                    write_mask: COLOR_WRITE_ALL,
                }),
            )
            &&& out.command_buffer.submitted
            &&& out.command_buffer.draws@.len() == 1
            &&& out.command_buffer.draws@[0] == (DrawCall {
                first_vertex: 0,
                vertex_count: 3,
                first_instance: 0,
                instance_count: 1,
            })
            &&& out.vertex_buffer.words@ == vertex_data@
            &&& out.queue.ops@ == seq![
                QueueOp::WriteBuffer { words: Ghost(vertex_data@) },
                QueueOp::Submit { draws: Ghost(out.command_buffer.draws@) },
            ]
        },
        r == Err::<FrameOutput, InitError>(InitError::SurfaceCreationFailed) <==> !window.valid,
        r == Err::<FrameOutput, InitError>(InitError::NoCompatibleAdapter) <==> (window.valid
            && host.adapter is None),
        r == Err::<FrameOutput, InitError>(InitError::DeviceRequestFailed) <==> (window.valid
            && host.adapter is Some && !host.device_granted),
        r == Err::<FrameOutput, InitError>(InitError::SurfaceConfigurationFailed) <==> (window.valid
            && host.device_granted && (host.adapter matches Some(caps) && caps.formats@.len()
            == 0)),
        r == Err::<FrameOutput, InitError>(InitError::ShaderCompileFailed) <==> (window.valid
            && host.device_granted && (host.adapter matches Some(caps) && caps.formats@.len() > 0)
            && host.pipeline is ShaderError),
        r == Err::<FrameOutput, InitError>(InitError::PipelineValidationFailed) <==> (window.valid
            && host.device_granted && (host.adapter matches Some(caps) && caps.formats@.len() > 0)
            && host.pipeline is ValidationError),
        r == Err::<FrameOutput, InitError>(InitError::TextureAcquisitionFailed) <==> (window.valid
            && host.device_granted && (host.adapter matches Some(caps) && caps.formats@.len() > 0)
            && host.pipeline is Built && !host.texture_acquired),
{
    let instance = create_instance();
    let mut surface = match create_surface(&instance, window) {
        Ok(s) => s,
        Err(e) => {
            return Err(e);
        },
    };
    let adapter = match select_adapter(&instance, &surface, host.adapter) {
        Ok(a) => a,
        Err(e) => {
            return Err(e);
        },
    };
    let (device, mut queue) = match open_device(&adapter, host.device_granted) {
        Ok(dq) => dq,
        Err(e) => {
            return Err(e);
        },
    };
    let config = match surface.get_default_config(&adapter, window.size) {
        Ok(c) => c,
        Err(e) => {
            return Err(e);
        },
    };
    surface.configure(&device, &config);
    let color_target = color_target_state(&adapter);
    let pipeline = match build_pipeline(&device, color_target, host.pipeline) {
        Ok(p) => p,
        Err(e) => {
            return Err(e);
        },
    };
    let surface_texture = match surface.get_current_texture(host.texture_acquired) {
        Ok(t) => t,
        Err(e) => {
            return Err(e);
        },
    };
    let mut vertex_buffer = create_vertex_buffer(&device, &vertex_data);
    let view = create_view(&surface_texture);
    let mut command_buffer = record_frame(&device, &pipeline, &view, &vertex_buffer);
    submit_and_present(
        &mut queue,
        &mut command_buffer,
        &mut vertex_buffer,
        vertex_data,
        &mut surface,
        surface_texture,
    );
    proof {
        assert(queue.ops@ =~= seq![
            QueueOp::WriteBuffer { words: Ghost(vertex_data@) },
            QueueOp::Submit { draws: Ghost(command_buffer.draws@) },
        ]);
    }
    Ok(
        FrameOutput {
            config,
            pipeline,
            queue,
            vertex_buffer,
            surface,
            command_buffer,
        },
    )
}

} // verus!
