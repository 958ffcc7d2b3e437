//! Submission and presentation: the queue's op log, the upload of the
//! vertex data, the single submission, and the handing of the image to the
//! compositor.
//!
//! The queue is the only mutation channel of the protocol. Its op log
//! records buffer writes and submissions in program order, and the queue
//! executes them first-in-first-out: an upload enqueued before a
//! submission is executed before the submitted draw.

use vstd::prelude::*;

use crate::context::{Queue, Surface};
use crate::data::DrawCall;
use crate::frame::{CommandBuffer, VertexBuffer};
use crate::surface::SurfaceTexture;

verus! {

/// One operation enqueued on the queue. The payloads are ghost: the log
/// exists to state in which order the GPU sees the work.
pub enum QueueOp {
    /// A write of `words` into a buffer, starting at its first byte.
    WriteBuffer { words: Ghost<Seq<u32>> },
    /// A submission of one finished command buffer recording `draws`.
    Submit { draws: Ghost<Seq<DrawCall>> },
}

impl Queue {
    /// Enqueues a write of `words` into the start of `buffer`. The buffer
    /// must have the transfer-destination capability, and the write here
    /// always covers the buffer's full extent.
    pub fn write_buffer(&mut self, buffer: &mut VertexBuffer, words: Vec<u32>)
        requires
            old(buffer).usage.copy_dst,
            words@.len() == old(buffer).words@.len(),
        ensures
            final(buffer).words@ == words@,
            final(buffer).usage == old(buffer).usage,
            final(self).ops@ == old(self).ops@.push(QueueOp::WriteBuffer { words: Ghost(words@) }),
    {
        self.ops.push(QueueOp::WriteBuffer { words: Ghost(words@) });
        buffer.words = words;
    }

    /// Submits one finished command buffer. A command buffer may be
    /// submitted exactly once: submission requires that it has not been
    /// submitted before, and marks it submitted.
    pub fn submit(&mut self, command_buffer: &mut CommandBuffer)
        requires
            !old(command_buffer).submitted,
        ensures
            final(command_buffer).submitted,
            final(command_buffer).draws@ == old(command_buffer).draws@,
            final(self).ops@ == old(self).ops@.push(
                QueueOp::Submit { draws: Ghost(old(command_buffer).draws@) },
            ),
    {
        self.ops.push(QueueOp::Submit { draws: Ghost(command_buffer.draws@) });
        command_buffer.submitted = true;
    }
}

/// Uploads the vertex data into the buffer through the queue, submits the
/// single command buffer, and presents the surface texture. The upload is
/// enqueued after the command buffer was recorded but before the
/// submission, in program order; the queue's first-in-first-out semantics
/// then serialize the upload before the submitted draw.
pub fn submit_and_present(
    queue: &mut Queue,
    command_buffer: &mut CommandBuffer,
    vertex_buffer: &mut VertexBuffer,
    vertex_data: Vec<u32>,
    surface: &mut Surface,
    surface_texture: SurfaceTexture,
)
    requires
        !old(command_buffer).submitted,
        old(vertex_buffer).usage.copy_dst,
        vertex_data@.len() == old(vertex_buffer).words@.len(),
        old(surface).texture_outstanding,
        old(surface).presented < u32::MAX,
    ensures
        final(vertex_buffer).words@ == vertex_data@,
        final(vertex_buffer).usage == old(vertex_buffer).usage,
        final(command_buffer).submitted,
        final(command_buffer).draws@ == old(command_buffer).draws@,
        final(queue).ops@ == old(queue).ops@.push(
            QueueOp::WriteBuffer { words: Ghost(vertex_data@) },
        ).push(QueueOp::Submit { draws: Ghost(old(command_buffer).draws@) }),
        !final(surface).texture_outstanding,
        final(surface).presented == old(surface).presented + 1,
        final(surface).configured == old(surface).configured,
{
    queue.write_buffer(vertex_buffer, vertex_data);
    queue.submit(command_buffer);
    surface.present(surface_texture);
}

} // verus!
