//! The plain data model shared by every stage of the protocol.
//!
//! GPU handles themselves are opaque to the model; each type here holds,
//! as plain values, exactly what the protocol logic reads of the
//! corresponding object: a format is an identifying code, a capability
//! set is the list of supported formats frozen at the adapter step, and
//! so on.

use vstd::prelude::*;

verus! {

/// A texture format, identified by a backend-assigned code. The protocol
/// never interprets the code; it only carries formats around and compares
/// them for equality.
#[derive(Clone, Copy, Debug, PartialEq, Eq, Structural)]
pub struct TextureFormat {
    pub code: u32,
}

/// The presentation mode of a configured surface. The protocol always uses
/// the backend default, first-in-first-out presentation.
#[derive(Clone, Copy, Debug, PartialEq, Eq, Structural)]
pub enum PresentMode {
    Fifo,
}

/// A window size in pixels.
#[derive(Clone, Copy, Debug, PartialEq, Eq, Structural)]
pub struct Extent {
    pub width: u32,
    pub height: u32,
}

/// The capability set of an adapter for one surface, frozen at the adapter
/// step: the supported texture formats, in the adapter's preference order.
#[derive(Clone, Debug)]
pub struct SurfaceCaps {
    pub formats: Vec<TextureFormat>,
}

/// The configuration that binds a surface to a device for presentation.
#[derive(Clone, Copy, Debug, PartialEq, Eq, Structural)]
pub struct SurfaceConfiguration {
    pub format: TextureFormat,
    pub width: u32,
    pub height: u32,
    pub present_mode: PresentMode,
}

/// One recorded draw call: `vertex_count` vertices starting at
/// `first_vertex`, for `instance_count` instances starting at
/// `first_instance`.
#[derive(Clone, Copy, Debug, PartialEq, Eq, Structural)]
pub struct DrawCall {
    pub first_vertex: u32,
    pub vertex_count: u32,
    pub first_instance: u32,
    pub instance_count: u32,
}

/// The capabilities a buffer is created with: bindable as a vertex buffer,
/// and writable as a transfer destination through the queue.
#[derive(Clone, Copy, Debug, PartialEq, Eq, Structural)]
pub struct BufferUsages {
    pub vertex: bool,
    pub copy_dst: bool,
}

/// What the protocol reads of the opaque platform window handle: whether
/// the platform backend can bind a surface to it, and the window's pixel
/// size at configuration time.
#[derive(Clone, Copy, Debug, PartialEq, Eq, Structural)]
pub struct WindowHandle {
    pub valid: bool,
    pub size: Extent,
}

} // verus!
