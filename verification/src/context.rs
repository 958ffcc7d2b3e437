//! Context factory and device session: the head of the acquisition chain.
//!
//! The chain instance -> surface -> adapter -> device/queue must be
//! constructed in that order; each constructor here consumes or borrows the
//! previous stage's output, so an out-of-order construction does not type
//! check. The blocking backend requests themselves (binding a surface,
//! enumerating adapters, negotiating a device) are performed by the
//! embedder, which reports each outcome as a plain value; the functions
//! here turn every outcome into the next stage or into its fatal error.

use vstd::prelude::*;

use crate::data::{SurfaceCaps, SurfaceConfiguration, WindowHandle};
use crate::error::InitError;

verus! {

/// The process-wide handle to the graphics backend. Created once with
/// default settings (the first capable backend wins), owns no other
/// resource, and lives for the process duration.
pub struct GpuInstance {}

/// A drawable target bound to a native window handle. The model tracks the
/// protocol state of the surface: the configuration it was bound to the
/// device with, whether a presentable texture is currently outstanding,
/// and how many frames have been presented.
pub struct Surface {
    pub configured: Option<SurfaceConfiguration>,
    pub texture_outstanding: bool,
    pub presented: u32,
}

/// A capability descriptor for a physical GPU, chosen to be compatible
/// with a specific surface. Read-only: the capability set is queried once,
/// at selection time, and every later object references it.
pub struct Adapter {
    pub caps: SurfaceCaps,
}

/// The logical execution context. The device owns all GPU-side resources
/// created through it and must outlive every object built from it.
pub struct Device {}

/// The device's single command-submission channel, and the only mutation
/// path of the protocol: buffer writes and submissions enter its op log in
/// program order and are executed by the GPU in that order.
pub struct Queue {
    pub ops: Vec<crate::submit::QueueOp>,
}

/// Creates the backend instance with default settings: no explicit backend
/// selection, no feature opt-in.
pub fn create_instance() -> GpuInstance {
    GpuInstance {}
}

/// Binds a surface to the caller-supplied native window handle. Fails,
/// fatally for the program, exactly when the platform backend cannot bind
/// the handle.
pub fn create_surface(instance: &GpuInstance, window: &WindowHandle) -> (r: Result<
    Surface,
    InitError,
>)
    ensures
        window.valid ==> (r matches Ok(s) && s == (Surface {
            configured: None,
            texture_outstanding: false,
            presented: 0,
        })),
        !window.valid <==> r == Err::<Surface, InitError>(InitError::SurfaceCreationFailed),
{
    let _ = instance;
    if window.valid {
        Ok(Surface { configured: None, texture_outstanding: false, presented: 0 })
    } else {
        Err(InitError::SurfaceCreationFailed)
    }
}

/// Selects an adapter constrained to be compatible with the given surface.
/// The embedder performs the backend request with implementation-default
/// selection policy and reports the chosen adapter's capability set for
/// the surface, or that no adapter satisfies compatibility; in the latter
/// case the fatal no-adapter path is taken — never a silent fallback.
pub fn select_adapter(instance: &GpuInstance, surface: &Surface, found: Option<SurfaceCaps>) -> (r:
    Result<Adapter, InitError>)
    ensures
        found matches Some(caps) ==> (r matches Ok(a) && a.caps.formats@ == caps.formats@),
        found is None <==> r == Err::<Adapter, InitError>(InitError::NoCompatibleAdapter),
{
    let _ = instance;
    let _ = surface;
    match found {
        Some(caps) => Ok(Adapter { caps }),
        None => Err(InitError::NoCompatibleAdapter),
    }
}

/// Negotiates a logical device with default feature and limit requirements,
/// together with its single associated queue. The embedder reports whether
/// the adapter satisfied the request; a refusal is fatal.
pub fn open_device(adapter: &Adapter, granted: bool) -> (r: Result<(Device, Queue), InitError>)
    ensures
        granted ==> (r matches Ok(dq) && dq.1.ops@.len() == 0),
        !granted <==> r == Err::<(Device, Queue), InitError>(InitError::DeviceRequestFailed),
{
    let _ = adapter;
    if granted {
        Ok((Device {}, Queue { ops: Vec::new() }))
    } else {
        Err(InitError::DeviceRequestFailed)
    }
}

} // verus!
