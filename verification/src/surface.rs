//! Surface configurator and presentable-texture protocol.
//!
//! A surface is given its default configuration for one adapter and window
//! size — the first format the adapter supports for it, the default
//! presentation mode — and is then bound to the device. Afterwards exactly
//! one presentable texture may be outstanding at a time: each acquisition
//! requires the previous texture to have been presented.

use vstd::prelude::*;

use crate::context::{Adapter, Device, Surface};
use crate::data::{Extent, PresentMode, SurfaceCaps, SurfaceConfiguration, TextureFormat};
use crate::error::InitError;

verus! {

/// The currently acquired presentable image of a surface.
pub struct SurfaceTexture {
    pub format: TextureFormat,
}

/// A view onto a texture, as a render pass targets it.
pub struct TextureView {
    pub format: TextureFormat,
}

/// `config` is the default configuration a surface gets for the capability
/// set `caps` and the window size `size`: the first supported format, the
/// given size, and the default presentation mode.
pub open spec fn is_default_config(
    config: SurfaceConfiguration,
    caps: SurfaceCaps,
    size: Extent,
) -> bool {
    &&& caps.formats@.len() > 0
    &&& config.format == caps.formats@[0]
    &&& config.width == size.width
    &&& config.height == size.height
    &&& config.present_mode == PresentMode::Fifo
}

impl Surface {
    /// Derives the surface's default configuration for the given adapter
    /// and window pixel size: format, size and present mode are determined
    /// deterministically from the capability set frozen at the adapter
    /// step. Fails, fatally for the program, exactly when the adapter
    /// reports no format for this surface. A zero size is left undefined
    /// by contract: the caller must supply a positive size.
    pub fn get_default_config(&self, adapter: &Adapter, size: Extent) -> (r: Result<
        SurfaceConfiguration,
        InitError,
    >)
        requires
            size.width > 0,
            size.height > 0,
        ensures
            adapter.caps.formats@.len() > 0 ==> (r matches Ok(c) && is_default_config(
                c,
                adapter.caps,
                size,
            )),
            adapter.caps.formats@.len() == 0 <==> r == Err::<SurfaceConfiguration, InitError>(
                InitError::SurfaceConfigurationFailed,
            ),
    {
        if adapter.caps.formats.len() == 0 {
            Err(InitError::SurfaceConfigurationFailed)
        } else {
            let format = adapter.caps.formats[0];
            Ok(
                SurfaceConfiguration {
                    format,
                    width: size.width,
                    height: size.height,
                    present_mode: PresentMode::Fifo,
                },
            )
        }
    }

    /// Applies a configuration, binding the surface to the device for
    /// presentation. Every texture acquired afterwards has the configured
    /// format.
    pub fn configure(&mut self, device: &Device, config: &SurfaceConfiguration)
        ensures
            final(self).configured == Some(*config),
            final(self).texture_outstanding == old(self).texture_outstanding,
            final(self).presented == old(self).presented,
    {
        let _ = device;
        self.configured = Some(*config);
    }

    /// Acquires the current presentable texture. The surface must be
    /// configured, and no earlier texture may still be outstanding. The
    /// embedder reports whether the backend could provide an image; a
    /// refusal (surface lost, window closed) is fatal.
    pub fn get_current_texture(&mut self, acquired: bool) -> (r: Result<SurfaceTexture, InitError>)
        requires
            old(self).configured is Some,
            !old(self).texture_outstanding,
        ensures
            acquired ==> (r matches Ok(t) && t.format == old(self).configured->0.format
                && final(self).texture_outstanding),
            !acquired <==> r == Err::<SurfaceTexture, InitError>(
                InitError::TextureAcquisitionFailed,
            ),
            !acquired ==> !final(self).texture_outstanding,
            final(self).configured == old(self).configured,
            final(self).presented == old(self).presented,
    {
        if acquired {
            let format = self.configured.unwrap().format;
            self.texture_outstanding = true;
            Ok(SurfaceTexture { format })
        } else {
            Err(InitError::TextureAcquisitionFailed)
        }
    }

    /// Presents the outstanding texture, handing the rendered image back
    /// to the platform compositor and releasing the image to the surface.
    pub fn present(&mut self, texture: SurfaceTexture)
        requires
            old(self).texture_outstanding,
            old(self).presented < u32::MAX,
        ensures
            !final(self).texture_outstanding,
            final(self).presented == old(self).presented + 1,
            final(self).configured == old(self).configured,
    {
        let _ = texture;
        self.texture_outstanding = false;
        self.presented = self.presented + 1;
    }
}

/// Creates a view onto the acquired texture with the default view
/// descriptor: the view keeps the texture's format.
pub fn create_view(texture: &SurfaceTexture) -> (r: TextureView)
    ensures
        r.format == texture.format,
{
    TextureView { format: texture.format }
}

} // verus!
