//! The fatal-error taxonomy of the protocol.
//!
//! Every failure on the path from context creation to presentation is
//! unrecoverable: nothing is caught or retried, and a single top-level
//! handler reports the failing stage and exits with a non-zero status.

use vstd::prelude::*;

verus! {

/// Which stage of the acquisition or submission chain failed fatally.
#[derive(Clone, Copy, Debug, PartialEq, Eq, Structural)]
pub enum InitError {
    /// The platform backend could not bind a surface to the window handle.
    SurfaceCreationFailed,
    /// No adapter is compatible with the surface.
    NoCompatibleAdapter,
    /// The adapter could not satisfy the default device requirements.
    DeviceRequestFailed,
    /// The adapter reports no valid configuration for the surface.
    SurfaceConfigurationFailed,
    /// The shader unit failed to compile.
    ShaderCompileFailed,
    /// The device rejected the pipeline descriptor.
    PipelineValidationFailed,
    /// No presentable surface texture could be acquired.
    TextureAcquisitionFailed,
}

impl InitError {
    /// The diagnostic text that names this failing stage.
    pub open spec fn spec_message(self) -> Seq<char> {
        match self {
            InitError::SurfaceCreationFailed => "surface creation failed"@,
            InitError::NoCompatibleAdapter => "no compatible adapter"@,
            InitError::DeviceRequestFailed => "device request failed"@,
            InitError::SurfaceConfigurationFailed => "surface configuration failed"@,
            InitError::ShaderCompileFailed => "shader compilation failed"@,
            InitError::PipelineValidationFailed => "pipeline validation failed"@,
            InitError::TextureAcquisitionFailed => "surface texture acquisition failed"@,
        }
    }

    /// A diagnostic identifying which step failed.
    pub fn stage_message(&self) -> (r: &'static str)
        ensures
            r@ == self.spec_message(),
    {
        match self {
            InitError::SurfaceCreationFailed => "surface creation failed",
            InitError::NoCompatibleAdapter => "no compatible adapter",
            InitError::DeviceRequestFailed => "device request failed",
            InitError::SurfaceConfigurationFailed => "surface configuration failed",
            InitError::ShaderCompileFailed => "shader compilation failed",
            InitError::PipelineValidationFailed => "pipeline validation failed",
            InitError::TextureAcquisitionFailed => "surface texture acquisition failed",
        }
    }
}

/// The process exit status for an outcome of the whole run: zero exactly on
/// normal completion, non-zero on any fatal error.
pub fn exit_code<T>(outcome: &Result<T, InitError>) -> (r: i32)
    ensures
        r == 0 <==> outcome is Ok,
{
    match outcome {
        Ok(_) => 0,
        Err(_) => 1,
    }
}

} // verus!
