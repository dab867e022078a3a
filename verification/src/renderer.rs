//! The renderer: owner of the surface configuration and render targets.
//!
//! The GPU device, queue and surface live in the unverified shell; here
//! the renderer is modeled by what the logic decides about them: which
//! surface format is chosen, how the persistent render targets (one 4x
//! multisample color texture, one depth/stencil texture per sample count)
//! are described, and how all of them change on resize. The shell creates
//! the actual textures from these descriptors and replaces them wholesale
//! whenever the generation counter moves: an old target is never drawn
//! with after a resize has been processed.

use vstd::prelude::*;

use crate::bundle::RenderBundle;
use crate::color::Color;
use crate::packed::WgpuPackedBundle;

verus! {

/// A surface color format: an opaque backend id plus whether it is sRGB.
#[derive(Clone, Copy, Debug, PartialEq, Eq, Structural)]
pub struct SurfaceFormat {
    pub id: u32,
    pub srgb: bool,
}

/// The position of the first sRGB format at or after `k`, or the length if
/// there is none.
pub open spec fn first_srgb_from(s: Seq<SurfaceFormat>, k: int) -> int
    recommends
        0 <= k <= s.len(),
    decreases s.len() - k when 0 <= k <= s.len()
{
    if k >= s.len() {
        k
    } else if s[k].srgb {
        k
    } else {
        first_srgb_from(s, k + 1)
    }
}

/// The format the renderer configures the surface with: the first sRGB
/// format the surface offers, or the first offered format if none is sRGB.
pub open spec fn chosen_surface_format(s: Seq<SurfaceFormat>) -> SurfaceFormat {
    let i = first_srgb_from(s, 0);
    if i < s.len() {
        s[i]
    } else {
        s[0]
    }
}

/// Skipping a prefix without sRGB formats does not change the search.
proof fn lemma_first_srgb_skip(s: Seq<SurfaceFormat>, k: int)
    requires
        0 <= k <= s.len(),
        forall|m: int| 0 <= m < k ==> !(#[trigger] s[m]).srgb,
    ensures
        first_srgb_from(s, 0) == first_srgb_from(s, k),
{
    if k > 0 {
        lemma_first_srgb_step(s, k - 1);
    }
}

/// One unrolling step of the search.
proof fn lemma_first_srgb_step(s: Seq<SurfaceFormat>, k: int)
    requires
        0 <= k < s.len(),
        forall|m: int| 0 <= m < k ==> !(#[trigger] s[m]).srgb,
        !s[k].srgb,
    ensures
        first_srgb_from(s, 0) == first_srgb_from(s, k + 1),
    decreases k,
{
    if k > 0 {
        lemma_first_srgb_step(s, k - 1);
    }
}

/// Picks the surface format: the first sRGB one, else the first offered.
pub fn choose_surface_format(formats: &Vec<SurfaceFormat>) -> (f: SurfaceFormat)
    requires
        formats@.len() > 0,
    ensures
        f == chosen_surface_format(formats@),
{
    let n = formats.len();
    let mut i: usize = 0;
    while i < n
        invariant
            n == formats@.len(),
            0 <= i <= n,
            forall|m: int| 0 <= m < i ==> !(#[trigger] formats@[m]).srgb,
        decreases n - i,
    {
        if formats[i].srgb {
            proof {
                lemma_first_srgb_skip(formats@, i as int);
            }
            return formats[i];
        }
        proof {
            lemma_first_srgb_step(formats@, i as int);
        }
        i = i + 1;
    }
    proof {
        lemma_first_srgb_skip(formats@, n as int);
    }
    formats[0]
}

/// The format of a render-target texture: the surface's color format, or
/// the fixed 24-bit-depth, 8-bit-stencil format of the depth/stencil
/// targets.
#[derive(Clone, Copy, Debug, PartialEq, Eq, Structural)]
pub enum TargetTextureFormat {
    Surface(SurfaceFormat),
    DepthStencil,
}

/// A render-target texture descriptor: what the shell creates a texture
/// from, and all the logic ever decides about one.
#[derive(Clone, Copy, Debug, PartialEq, Eq, Structural)]
pub struct TargetTextureDesc {
    pub width: u32,
    pub height: u32,
    pub mip_level_count: u32,
    pub sample_count: u32,
    pub format: TargetTextureFormat,
}

/// The descriptor of the 4x multisample color target at the given size.
pub open spec fn multisample_desc_spec(
    width: u32,
    height: u32,
    format: SurfaceFormat,
) -> TargetTextureDesc {
    TargetTextureDesc {
        width,
        height,
        mip_level_count: 1u32,
        sample_count: 4u32,
        format: TargetTextureFormat::Surface(format),
    }
}

/// The descriptor of a depth/stencil target at the given size and sample
/// count.
pub open spec fn stencil_desc_spec(width: u32, height: u32, sample_count: u32) -> TargetTextureDesc {
    TargetTextureDesc {
        width,
        height,
        mip_level_count: 1u32,
        sample_count,
        format: TargetTextureFormat::DepthStencil,
    }
}

/// Describes the multisample color texture for a viewport.
pub fn create_multisample_texture(width: u32, height: u32, format: SurfaceFormat) -> (d:
    TargetTextureDesc)
    ensures
        d == multisample_desc_spec(width, height, format),
        d.sample_count == 4,
        d.mip_level_count == 1,
{
    TargetTextureDesc {
        width,
        height,
        mip_level_count: 1,
        sample_count: 4,
        format: TargetTextureFormat::Surface(format),
    }
}

/// Describes a depth/stencil texture for a viewport and sample count.
pub fn create_stencil_texture(width: u32, height: u32, sample_count: u32) -> (d: TargetTextureDesc)
    ensures
        d == stencil_desc_spec(width, height, sample_count),
        d.format == TargetTextureFormat::DepthStencil,
        d.mip_level_count == 1,
{
    TargetTextureDesc {
        width,
        height,
        mip_level_count: 1,
        sample_count,
        format: TargetTextureFormat::DepthStencil,
    }
}

/// The surface configuration the renderer maintains.
#[derive(Clone, Copy, Debug, PartialEq, Eq, Structural)]
pub struct SurfaceConfig {
    pub width: u32,
    pub height: u32,
    pub format: SurfaceFormat,
}

/// The renderer model: surface configuration, background color, the three
/// render-target descriptors, and a generation counter that moves exactly
/// when the targets are recreated.
#[derive(Clone, Copy, Debug, PartialEq, Eq, Structural)]
pub struct WgpuRenderer {
    pub config: SurfaceConfig,
    pub background: Color,
    pub multisampling_desc: TargetTextureDesc,
    pub stencil_desc_multisample: TargetTextureDesc,
    pub stencil_desc: TargetTextureDesc,
    pub target_generation: u64,
}

/// The renderer state after a resize request: unchanged if either
/// dimension is zero, else reconfigured and with all three targets
/// re-described at the new size and the generation advanced.
pub open spec fn resize_spec(r: WgpuRenderer, width: u32, height: u32) -> WgpuRenderer {
    if width == 0 || height == 0 {
        r
    } else {
        WgpuRenderer {
            config: SurfaceConfig { width, height, format: r.config.format },
            background: r.background,
            multisampling_desc: multisample_desc_spec(width, height, r.config.format),
            stencil_desc_multisample: stencil_desc_spec(width, height, 4u32),
            stencil_desc: stencil_desc_spec(width, height, 1u32),
            target_generation: ((r.target_generation + 1) as u64),
        }
    }
}

impl WgpuRenderer {
    /// The renderer invariant: a non-empty surface and target descriptors
    /// that match the surface size and format, at their fixed sample
    /// counts.
    pub open spec fn wf(&self) -> bool {
        &&& self.config.width >= 1
        &&& self.config.height >= 1
        &&& self.multisampling_desc == multisample_desc_spec(
            self.config.width,
            self.config.height,
            self.config.format,
        )
        &&& self.stencil_desc_multisample == stencil_desc_spec(
            self.config.width,
            self.config.height,
            4u32,
        )
        &&& self.stencil_desc == stencil_desc_spec(self.config.width, self.config.height, 1u32)
    }

    /// Sets up the renderer for a surface of the given size and format:
    /// describes the initial render targets and starts with a white
    /// background.
    pub fn create(width: u32, height: u32, format: SurfaceFormat) -> (r: WgpuRenderer)
        requires
            width >= 1,
            height >= 1,
        ensures
            r.wf(),
            r.config == (SurfaceConfig { width, height, format }),
            r.background == (Color { r: 255u8, g: 255u8, b: 255u8, a: 255u8 }),
            r.target_generation == 0,
    {
        WgpuRenderer {
            config: SurfaceConfig { width, height, format },
            background: Color::white(),
            multisampling_desc: create_multisample_texture(width, height, format),
            stencil_desc_multisample: create_stencil_texture(width, height, 4),
            stencil_desc: create_stencil_texture(width, height, 1),
            target_generation: 0,
        }
    }

    /// Sets the background color the next frame is cleared with.
    pub fn set_background(&mut self, color: Color)
        ensures
            final(self).background == color,
            final(self).config == old(self).config,
            final(self).multisampling_desc == old(self).multisampling_desc,
            final(self).stencil_desc_multisample == old(self).stencil_desc_multisample,
            final(self).stencil_desc == old(self).stencil_desc,
            final(self).target_generation == old(self).target_generation,
    {
        self.background = color;
    }

    /// Applies a resize notification. A zero width or height (as windowing
    /// layers send while minimized) is ignored: the surface and every
    /// target stay exactly as they were. A real size reconfigures the
    /// surface and re-describes all three targets at the new size before
    /// the next draw; the generation counter moves so the shell replaces
    /// the textures.
    pub fn resize(&mut self, width: u32, height: u32)
        requires
            old(self).wf(),
            old(self).target_generation < u64::MAX,
        ensures
            *final(self) == resize_spec(*old(self), width, height),
            final(self).wf(),
            width == 0 || height == 0 ==> *final(self) == *old(self),
            width >= 1 && height >= 1 ==> final(self).config.width == width
                && final(self).config.height == height && final(self).target_generation == old(
                self,
            ).target_generation + 1,
    {
        if width > 0 && height > 0 {
            self.config = SurfaceConfig { width, height, format: self.config.format };
            self.multisampling_desc = create_multisample_texture(
                width,
                height,
                self.config.format,
            );
            self.stencil_desc_multisample = create_stencil_texture(width, height, 4);
            self.stencil_desc = create_stencil_texture(width, height, 1);
            self.target_generation = self.target_generation + 1;
        }
    }

    /// The current surface size in pixels.
    pub fn size(&self) -> (s: (u32, u32))
        ensures
            s.0 == self.config.width,
            s.1 == self.config.height,
    {
        (self.config.width, self.config.height)
    }

    /// Creates an empty render bundle: no mesh data, no clip area, no
    /// points, no screen-referenced geometry, no images.
    pub fn create_bundle(&self) -> (b: RenderBundle)
        ensures
            b.wf(),
            b.is_empty(),
    {
        RenderBundle::new()
    }

    /// Packs a completed render bundle into its immutable GPU form.
    pub fn pack_bundle(&self, bundle: &RenderBundle) -> (p: WgpuPackedBundle)
        requires
            bundle.wf(),
        ensures
            crate::packed::packed_spec(*bundle, p),
            p.wf(),
    {
        WgpuPackedBundle::new(bundle)
    }

    /// The clear pass that opens a frame: the multisample target is
    /// cleared to the background color and resolved into the frame
    /// texture before any bundle is drawn.
    pub fn begin_frame_clear(&self) -> (c: Color)
        ensures
            c == self.background,
    {
        self.background
    }
}

/// A presentation error, as the surface reports it when a frame is
/// acquired or presented.
#[derive(Clone, Copy, Debug, PartialEq, Eq, Structural)]
pub enum SurfaceErrorKind {
    /// Acquiring the next frame timed out.
    Timeout,
    /// The surface has changed and no longer matches its configuration.
    Outdated,
    /// The surface was lost and must be recreated.
    Lost,
    /// No memory left to allocate a frame.
    OutOfMemory,
}

/// What the render session does about a presentation error.
#[derive(Clone, Copy, Debug, PartialEq, Eq, Structural)]
pub enum PresentationAction {
    /// Reconfigure the surface and targets, then retry on the next redraw.
    ResizeAndRetry,
    /// Transient: ignore and retry on the next frame.
    RetryNextFrame,
    /// Fatal for the render session: propagate so the embedding
    /// application can decide whether to exit.
    Fatal,
}

/// The action each presentation error maps to.
pub open spec fn presentation_action_spec(e: SurfaceErrorKind) -> PresentationAction {
    match e {
        SurfaceErrorKind::Timeout => PresentationAction::RetryNextFrame,
        SurfaceErrorKind::Outdated => PresentationAction::ResizeAndRetry,
        SurfaceErrorKind::Lost => PresentationAction::ResizeAndRetry,
        SurfaceErrorKind::OutOfMemory => PresentationAction::Fatal,
    }
}

/// Classifies a presentation error: a lost or outdated surface triggers a
/// resize-and-retry, a timeout is ignored and retried next frame, and
/// running out of memory is fatal for the render session.
pub fn classify_presentation_error(e: &SurfaceErrorKind) -> (a: PresentationAction)
    ensures
        a == presentation_action_spec(*e),
{
    match e {
        SurfaceErrorKind::Timeout => PresentationAction::RetryNextFrame,
        SurfaceErrorKind::Outdated => PresentationAction::ResizeAndRetry,
        SurfaceErrorKind::Lost => PresentationAction::ResizeAndRetry,
        SurfaceErrorKind::OutOfMemory => PresentationAction::Fatal,
    }
}

/// Resizing to a size with a zero dimension is a no-op, and a following
/// real resize lands exactly on its size: after resizing to `(w, h)`,
/// then to `(0, h)`, the targets still describe `(w, h)`; resizing then
/// to a positive `(w2, h2)` describes exactly `(w2, h2)`.
pub proof fn lemma_resize_zero_ignored(r: WgpuRenderer, w: u32, h: u32, w2: u32, h2: u32)
    requires
        w >= 1,
        h >= 1,
        w2 >= 1,
        h2 >= 1,
        r.target_generation + 2 <= u64::MAX,
    ensures
        resize_spec(resize_spec(r, w, h), 0, h) == resize_spec(r, w, h),
        resize_spec(resize_spec(r, w, h), 0, h).config.width == w,
        resize_spec(resize_spec(r, w, h), 0, h).config.height == h,
        resize_spec(resize_spec(resize_spec(r, w, h), 0, h), w2, h2).config.width == w2,
        resize_spec(resize_spec(resize_spec(r, w, h), 0, h), w2, h2).config.height == h2,
        resize_spec(resize_spec(resize_spec(r, w, h), 0, h), w2, h2).multisampling_desc
            == multisample_desc_spec(w2, h2, r.config.format),
{
}

} // verus!
