use vstd::prelude::*;

verus! {

/// `wgpu::TextureFormat`, the pixel format of a surface or texture. The
/// library never looks inside a format: it takes the one that the surface
/// offers and passes it on.
#[verifier::external_type_specification]
#[verifier::external_body]
pub struct ExTextureFormat(wgpu::TextureFormat);

/// `wgpu::CompositeAlphaMode`, the way a surface's alpha channel is treated
/// when the window is composited. Carried through unread, like the format.
#[verifier::external_type_specification]
#[verifier::external_body]
pub struct ExCompositeAlphaMode(wgpu::CompositeAlphaMode);

/// How finished frames are paced against the display.
#[derive(Clone, Copy, Debug, PartialEq, Eq, Structural)]
pub enum PresentMode {
    AutoVsync,
    AutoNoVsync,
    Fifo,
    FifoRelaxed,
    Immediate,
    Mailbox,
}

/// What a texture may be used for.
#[derive(Clone, Copy, Debug, PartialEq, Eq, Structural)]
pub struct TextureUsages {
    pub copy_dst: bool,
    pub texture_binding: bool,
    pub render_attachment: bool,
}

/// The configuration of the presentation surface.
///
/// Width and height follow the window; everything else is fixed when the
/// configuration is made.
pub struct SurfaceConfig {
    pub usage: TextureUsages,
    pub format: wgpu::TextureFormat,
    pub width: u32,
    pub height: u32,
    pub present_mode: PresentMode,
    pub alpha_mode: wgpu::CompositeAlphaMode,
    pub view_formats: Vec<wgpu::TextureFormat>,
}

impl SurfaceConfig {
    /// The part of a configuration that a resize leaves alone.
    pub open spec fn same_target(self, other: SurfaceConfig) -> bool {
        &&& self.usage == other.usage
        &&& self.format == other.format
        &&& self.present_mode == other.present_mode
        &&& self.alpha_mode == other.alpha_mode
        &&& self.view_formats@ == other.view_formats@
    }

    /// The configured size in physical pixels, width first.
    pub open spec fn spec_size(self) -> (u32, u32) {
        (self.width, self.height)
    }

    /// The configuration after a resize to `width` by `height`.
    pub open spec fn resized(self, width: u32, height: u32) -> SurfaceConfig {
        SurfaceConfig { width, height, ..self }
    }

    /// The configured size in physical pixels, width first.
    pub fn size(&self) -> (r: (u32, u32))
        ensures
            r == self.spec_size(),
    {
        (self.width, self.height)
    }

    /// Takes over a new size in physical pixels.
    pub fn reconfigure(&mut self, width: u32, height: u32)
        ensures
            *final(self) == old(self).resized(width, height),
    {
        self.width = width;
        self.height = height;
    }
}

/// After a resize, the size that is read back is exactly the one that was
/// passed in, and nothing else about the configuration has changed.
pub proof fn lemma_resize_then_read(config: SurfaceConfig, width: u32, height: u32)
    ensures
        config.resized(width, height).spec_size() == (width, height),
        config.resized(width, height).same_target(config),
{
}

/// The configuration for a window of `width` by `height` physical pixels that
/// is drawn to in `swapchain_format`: the surface is a render attachment,
/// frames are presented first-in first-out, and the alpha mode is the first
/// that the surface supports.
pub fn create_surface_config(
    swapchain_format: wgpu::TextureFormat,
    width: u32,
    height: u32,
    alpha_modes: &Vec<wgpu::CompositeAlphaMode>,
) -> (config: SurfaceConfig)
    requires
        alpha_modes@.len() > 0,
    ensures
        config.usage == (TextureUsages {
            copy_dst: false,
            texture_binding: false,
            render_attachment: true,
        }),
        config.format == swapchain_format,
        config.width == width,
        config.height == height,
        config.present_mode == PresentMode::Fifo,
        config.alpha_mode == alpha_modes@[0],
        config.view_formats@.len() == 0,
{
    SurfaceConfig {
        usage: TextureUsages { copy_dst: false, texture_binding: false, render_attachment: true },
        format: swapchain_format,
        width,
        height,
        present_mode: PresentMode::Fifo,
        alpha_mode: alpha_modes[0],
        view_formats: Vec::new(),
    }
}

} // verus!
