//! Frame recorder: one render pass, encoded into a one-shot command buffer.
//!
//! The encoder is an explicit two-phase state machine: a pass is opened
//! onto a color view, the pipeline and the vertex buffer are bound inside
//! the open pass, the draw is issued, and the pass must be closed before
//! the encoder can be finalized. Binding a pipeline whose color target
//! format differs from the pass's attachment format is a contract
//! violation — it is refused here, not detected later.

use vstd::prelude::*;

use crate::context::Device;
use crate::data::{BufferUsages, DrawCall, TextureFormat};
use crate::pipeline::Pipeline;
use crate::surface::TextureView;

verus! {

/// A device-resident buffer: the 32-bit words it currently holds and the
/// capabilities it was created with.
pub struct VertexBuffer {
    pub words: Vec<u32>,
    pub usage: BufferUsages,
}

/// Creates a device-resident buffer initialized with the given words, with
/// both the vertex-use and the transfer-destination capability, so the
/// buffer can be draw-bound and also rewritten through the queue.
pub fn create_vertex_buffer(device: &Device, data: &Vec<u32>) -> (r: VertexBuffer)
    ensures
        r.words@ == data@,
        r.usage == (BufferUsages { vertex: true, copy_dst: true }),
{
    let _ = device;
    let mut words: Vec<u32> = Vec::new();
    let mut i: usize = 0;
    while i < data.len()
        invariant
            i <= data.len(),
            words@ == data@.subrange(0, i as int),
        decreases data.len() - i,
    {
        words.push(data[i]);
        proof {
            assert(words@ =~= data@.subrange(0, i as int + 1));
        }
        i = i + 1;
    }
    proof {
        assert(words@ =~= data@);
    }
    VertexBuffer { words, usage: BufferUsages { vertex: true, copy_dst: true } }
}

/// A finalized, one-shot recording of GPU operations. It may be submitted
/// exactly once; `submitted` records whether that has happened.
pub struct CommandBuffer {
    pub draws: Vec<DrawCall>,
    pub submitted: bool,
}

/// A command encoder in the middle of recording. `pass_open` is the phase:
/// between `begin_render_pass` and `end_render_pass` commands can be
/// recorded into the pass; only with the pass closed can the encoder be
/// finalized.
pub struct CommandEncoder {
    pub pass_open: bool,
    pub attachment_format: Option<TextureFormat>,
    pub pipeline_format: Option<TextureFormat>,
    pub vertex_slot: Option<u32>,
    pub draws: Vec<DrawCall>,
}

impl CommandEncoder {
    /// Creates an encoder with the default descriptor: no pass open,
    /// nothing recorded.
    pub fn new(device: &Device) -> (r: CommandEncoder)
        ensures
            !r.pass_open,
            r.attachment_format is None,
            r.pipeline_format is None,
            r.vertex_slot is None,
            r.draws@.len() == 0,
    {
        let _ = device;
        CommandEncoder {
            pass_open: false,
            attachment_format: None,
            pipeline_format: None,
            vertex_slot: None,
            draws: Vec::new(),
        }
    }

    /// Opens one render pass targeting `view` as its single color
    /// attachment, with default load and store operations and no resolve
    /// target. Nothing is bound yet inside the new pass.
    pub fn begin_render_pass(&mut self, view: &TextureView)
        requires
            !old(self).pass_open,
        ensures
            final(self).pass_open,
            final(self).attachment_format == Some(view.format),
            final(self).pipeline_format is None,
            final(self).vertex_slot is None,
            final(self).draws@ == old(self).draws@,
    {
        self.pass_open = true;
        self.attachment_format = Some(view.format);
        self.pipeline_format = None;
        self.vertex_slot = None;
    }

    /// Binds a pipeline inside the open pass. The pipeline must declare
    /// exactly one color target whose format equals the pass's attachment
    /// format — the load-bearing invariant of the whole protocol: a
    /// mismatch would render garbage without an immediate error, so it is
    /// a contract violation here.
    pub fn set_pipeline(&mut self, pipeline: &Pipeline)
        requires
            old(self).pass_open,
            pipeline.descriptor.color_targets@.len() == 1,
            old(self).attachment_format == Some(pipeline.descriptor.color_targets@[0].format),
        ensures
            final(self).pass_open,
            final(self).attachment_format == old(self).attachment_format,
            final(self).pipeline_format == Some(pipeline.descriptor.color_targets@[0].format),
            final(self).vertex_slot == old(self).vertex_slot,
            final(self).draws@ == old(self).draws@,
    {
        self.pipeline_format = Some(pipeline.descriptor.color_targets[0].format);
    }

    /// Binds a vertex buffer at the given slot over its full extent. The
    /// buffer must have been created with the vertex-use capability.
    pub fn set_vertex_buffer(&mut self, slot: u32, buffer: &VertexBuffer)
        requires
            old(self).pass_open,
            buffer.usage.vertex,
        ensures
            final(self).pass_open,
            final(self).attachment_format == old(self).attachment_format,
            final(self).pipeline_format == old(self).pipeline_format,
            final(self).vertex_slot == Some(slot),
            final(self).draws@ == old(self).draws@,
    {
        let _ = buffer;
        self.vertex_slot = Some(slot);
    }

    /// Records one draw call into the open pass. A pipeline and a vertex
    /// buffer must be bound.
    pub fn draw(&mut self, first_vertex: u32, vertex_count: u32, first_instance: u32, instance_count: u32)
        requires
            old(self).pass_open,
            old(self).pipeline_format is Some,
            old(self).vertex_slot is Some,
        ensures
            final(self).pass_open,
            final(self).attachment_format == old(self).attachment_format,
            final(self).pipeline_format == old(self).pipeline_format,
            final(self).vertex_slot == old(self).vertex_slot,
            final(self).draws@ == old(self).draws@.push(
                DrawCall { first_vertex, vertex_count, first_instance, instance_count },
            ),
    {
        self.draws.push(DrawCall { first_vertex, vertex_count, first_instance, instance_count });
    }

    /// Closes the open pass. The pass must be closed — explicitly, as
    /// here — before the encoder can be finalized.
    pub fn end_render_pass(&mut self)
        requires
            old(self).pass_open,
        ensures
            !final(self).pass_open,
            final(self).attachment_format is None,
            final(self).pipeline_format is None,
            final(self).vertex_slot is None,
            final(self).draws@ == old(self).draws@,
    {
        self.pass_open = false;
        self.attachment_format = None;
        self.pipeline_format = None;
        self.vertex_slot = None;
    }

    /// Finalizes the encoder into a one-shot command buffer. Every pass
    /// must be closed first. The buffer holds what was recorded and has
    /// not yet been submitted.
    pub fn finish(self) -> (r: CommandBuffer)
        requires
            !self.pass_open,
        ensures
            r.draws@ == self.draws@,
            !r.submitted,
    {
        CommandBuffer { draws: self.draws, submitted: false }
    }
}

/// Encodes one whole frame: opens a render pass targeting `color_view`,
/// binds the pipeline and the vertex buffer at slot 0 over its full
/// extent, issues exactly one draw call of 3 vertices and 1 instance,
/// closes the pass and finalizes the encoder. The resulting command
/// buffer records exactly that one draw, whatever the buffer's contents.
pub fn record_frame(
    device: &Device,
    pipeline: &Pipeline,
    color_view: &TextureView,
    vertex_buffer: &VertexBuffer,
) -> (r: CommandBuffer)
    requires
        pipeline.descriptor.color_targets@.len() == 1,
        pipeline.descriptor.color_targets@[0].format == color_view.format,
        vertex_buffer.usage.vertex,
    ensures
        r.draws@.len() == 1,
        r.draws@[0] == (DrawCall {
            first_vertex: 0,
            vertex_count: 3,
            first_instance: 0,
            instance_count: 1,
        }),
        !r.submitted,
{
    let mut encoder = CommandEncoder::new(device);
    encoder.begin_render_pass(color_view);
    encoder.set_pipeline(pipeline);
    encoder.set_vertex_buffer(0, vertex_buffer);
    encoder.draw(0, 3, 0, 1);
    encoder.end_render_pass();
    encoder.finish()
}

} // verus!
