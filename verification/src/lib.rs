//! A verified model of a single-frame GPU rendering protocol.
//!
//! The library specifies the ordered chain of dependent GPU objects
//! (instance, surface, adapter, device and queue, surface configuration,
//! pipeline, command buffer, presentation) and the invariants that must
//! hold between them while one static triangle is drawn to a window
//! surface. Host-side work that the model cannot perform itself (window
//! creation, the blocking adapter and device requests, the actual driver
//! calls) is done by an embedder, which reports each outcome back as a
//! plain value; every decision, every descriptor, and the legal order of
//! every step is computed and checked here.

pub mod context;
pub mod data;
pub mod error;
pub mod frame;
pub mod pipeline;
pub mod run;
pub mod submit;
pub mod surface;
