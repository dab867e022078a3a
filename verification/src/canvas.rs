//! The per-frame compositor: pass selection and draw planning.
//!
//! A canvas takes an ordered list of packed bundles and turns it into a
//! render-pass plan: which attachments the pass binds (multisample color
//! with a resolve target and 4x depth/stencil when anti-aliasing is on,
//! the frame texture with 1x depth/stencil when off), and the ordered
//! draw commands. Bundles are drawn in the order supplied — later bundles
//! paint over earlier ones — and inside one bundle the clip-area mesh, if
//! present, is drawn first into the stencil attachment so the bundle's
//! color draws are masked by it. The depth and stencil attachments are
//! cleared at the start of every pass. Executing the plan against the GPU
//! is the unverified shell's job; mixing bundles that need different
//! anti-aliasing means one plan, and one pass, per contiguous run of the
//! same option value.

use vstd::prelude::*;

use crate::bundle::RenderBundle;
use crate::packed::WgpuPackedBundle;
use crate::view::{build_view_uniform, view_matrices_in_range, MapView, ViewUniform};

verus! {

/// Per-draw options; anti-aliasing is the one flag the core requires.
#[derive(Clone, Copy, Debug, PartialEq, Eq, Structural)]
pub struct RenderOptions {
    pub antialias: bool,
}

impl Default for RenderOptions {
    /// Anti-aliasing off.
    fn default() -> (r: RenderOptions)
        ensures
            r == (RenderOptions { antialias: false }),
    {
        RenderOptions { antialias: false }
    }
}

/// Which texture a pass writes color into.
#[derive(Clone, Copy, Debug, PartialEq, Eq, Structural)]
pub enum ColorTargetChoice {
    /// The persistent 4x multisample color texture.
    Multisample,
    /// The frame's resolve texture directly.
    Frame,
}

/// The attachment set and load/store behavior of one render pass.
#[derive(Clone, Copy, Debug, PartialEq, Eq, Structural)]
pub struct PassAttachments {
    /// Color target of the pass.
    pub color_target: ColorTargetChoice,
    /// Whether the multisample target resolves into the frame texture.
    pub resolve_to_frame: bool,
    /// The color attachment is loaded, never cleared: what earlier passes
    /// of the frame rendered stays underneath (painter's algorithm).
    pub load_color: bool,
    /// Sample count of the bound depth/stencil texture.
    pub depth_stencil_samples: u32,
    /// The depth attachment is cleared at the start of the pass.
    pub clear_depth: bool,
    /// The value depth clears to, in fixed point: the farthest plane.
    pub depth_clear_value: i64,
    /// The stencil attachment is cleared at the start of the pass.
    pub clear_stencil: bool,
    /// The value stencil clears to.
    pub stencil_clear_value: u32,
    /// Depth and stencil contents are discarded when the pass ends, so no
    /// clip or depth state leaks into a later pass or frame.
    pub discard_depth_stencil: bool,
}

/// The attachments a pass must bind for the given options. Whichever
/// branch is taken: color is loaded, depth clears to the farthest plane
/// (one fixed-point unit), stencil clears to zero, and both are discarded
/// at the end of the pass.
pub open spec fn attachments_spec(options: RenderOptions) -> PassAttachments {
    if options.antialias {
        PassAttachments {
            color_target: ColorTargetChoice::Multisample,
            resolve_to_frame: true,
            load_color: true,
            depth_stencil_samples: 4u32,
            clear_depth: true,
            depth_clear_value: crate::fixed::SCALE,
            clear_stencil: true,
            stencil_clear_value: 0u32,
            discard_depth_stencil: true,
        }
    } else {
        PassAttachments {
            color_target: ColorTargetChoice::Frame,
            resolve_to_frame: false,
            load_color: true,
            depth_stencil_samples: 1u32,
            clear_depth: true,
            depth_clear_value: crate::fixed::SCALE,
            clear_stencil: true,
            stencil_clear_value: 0u32,
            discard_depth_stencil: true,
        }
    }
}

/// Selects the pass attachments: multisample color resolving into the
/// frame and the 4x depth/stencil view when anti-aliasing is on, the frame
/// texture and the 1x depth/stencil view when off. Never reuses one
/// attachment set for a different sample count. In either case the color
/// attachment is loaded, not cleared — later bundles and later passes
/// composite over earlier output — depth clears to the farthest plane,
/// stencil clears to zero, and both are discarded when the pass ends.
pub fn select_attachments(options: RenderOptions) -> (a: PassAttachments)
    ensures
        a == attachments_spec(options),
        options.antialias ==> a.color_target == ColorTargetChoice::Multisample
            && a.resolve_to_frame && a.depth_stencil_samples == 4,
        !options.antialias ==> a.color_target == ColorTargetChoice::Frame
            && !a.resolve_to_frame && a.depth_stencil_samples == 1,
        a.load_color,
        a.clear_depth && a.depth_clear_value == crate::fixed::SCALE,
        a.clear_stencil && a.stencil_clear_value == 0,
        a.discard_depth_stencil,
{
    if options.antialias {
        PassAttachments {
            color_target: ColorTargetChoice::Multisample,
            resolve_to_frame: true,
            load_color: true,
            depth_stencil_samples: 4,
            clear_depth: true,
            depth_clear_value: crate::fixed::SCALE,
            clear_stencil: true,
            stencil_clear_value: 0,
            discard_depth_stencil: true,
        }
    } else {
        PassAttachments {
            color_target: ColorTargetChoice::Frame,
            resolve_to_frame: false,
            load_color: true,
            depth_stencil_samples: 1,
            clear_depth: true,
            depth_clear_value: crate::fixed::SCALE,
            clear_stencil: true,
            stencil_clear_value: 0,
            discard_depth_stencil: true,
        }
    }
}

/// One draw command of a pass, referencing a bundle by its position in the
/// drawn list.
#[derive(Clone, Copy, Debug, PartialEq, Eq, Structural)]
pub enum DrawCommand {
    /// Draw the clip-area mesh into the stencil attachment.
    DrawClip { bundle: usize, index_count: u32 },
    /// Draw the map-referenced fill mesh.
    DrawPoly { bundle: usize, index_count: u32 },
    /// Draw the point instances.
    DrawPoints { bundle: usize, point_count: u32 },
    /// Draw the screen-referenced mesh.
    DrawScreenRef { bundle: usize, index_count: u32 },
    /// Draw one image placement.
    DrawImage { bundle: usize, image: usize },
}

impl DrawCommand {
    /// Whether this command writes the stencil attachment rather than the
    /// color attachment.
    pub open spec fn targets_stencil(&self) -> bool {
        self is DrawClip
    }
}

/// Clip-area commands of one bundle: one stencil draw if present.
pub open spec fn clip_commands(p: WgpuPackedBundle, bi: usize) -> Seq<DrawCommand> {
    match p.clip_area_buffers {
        Option::Some(b) => seq![DrawCommand::DrawClip { bundle: bi, index_count: b.index_count }],
        Option::None => seq![],
    }
}

/// Fill-mesh commands of one bundle.
pub open spec fn poly_commands(p: WgpuPackedBundle, bi: usize) -> Seq<DrawCommand> {
    match p.map_ref_buffers {
        Option::Some(b) => seq![DrawCommand::DrawPoly { bundle: bi, index_count: b.index_count }],
        Option::None => seq![],
    }
}

/// Point-instance commands of one bundle.
pub open spec fn dot_commands(p: WgpuPackedBundle, bi: usize) -> Seq<DrawCommand> {
    match p.dot_buffers {
        Option::Some(d) => seq![DrawCommand::DrawPoints { bundle: bi, point_count: d.point_count }],
        Option::None => seq![],
    }
}

/// Screen-referenced commands of one bundle.
pub open spec fn screen_commands(p: WgpuPackedBundle, bi: usize) -> Seq<DrawCommand> {
    match p.screen_ref_buffers {
        Option::Some(b) => seq![
            DrawCommand::DrawScreenRef { bundle: bi, index_count: b.index_count },
        ],
        Option::None => seq![],
    }
}

/// Image commands of one bundle, one per placement, in placement order.
pub open spec fn image_commands(p: WgpuPackedBundle, bi: usize) -> Seq<DrawCommand> {
    Seq::new(
        p.image_buffers@.len(),
        |i: int| DrawCommand::DrawImage { bundle: bi, image: i as usize },
    )
}

/// All commands one bundle contributes: the stencil-routed clip draw
/// first, then the color draws. An absent collection contributes nothing.
pub open spec fn bundle_commands(p: WgpuPackedBundle, bi: usize) -> Seq<DrawCommand> {
    clip_commands(p, bi) + poly_commands(p, bi) + dot_commands(p, bi) + screen_commands(p, bi)
        + image_commands(p, bi)
}

/// The commands of the first `upto` bundles, in caller order.
pub open spec fn plan_commands(bundles: Seq<WgpuPackedBundle>, upto: int) -> Seq<DrawCommand>
    decreases upto,
{
    if upto <= 0 {
        seq![]
    } else {
        plan_commands(bundles, upto - 1) + bundle_commands(bundles[upto - 1], (upto - 1) as usize)
    }
}

/// A planned render pass: the attachment set and the ordered draw commands.
#[derive(Clone, Debug)]
pub struct DrawPlan {
    pub attachments: PassAttachments,
    pub commands: Vec<DrawCommand>,
}

/// Appends one bundle's commands to a plan.
fn append_bundle_commands(cmds: &mut Vec<DrawCommand>, p: &WgpuPackedBundle, bi: usize)
    ensures
        final(cmds)@ == old(cmds)@ + bundle_commands(*p, bi),
{
    match &p.clip_area_buffers {
        Some(b) => cmds.push(DrawCommand::DrawClip { bundle: bi, index_count: b.index_count }),
        None => (),
    }
    match &p.map_ref_buffers {
        Some(b) => cmds.push(DrawCommand::DrawPoly { bundle: bi, index_count: b.index_count }),
        None => (),
    }
    match &p.dot_buffers {
        Some(d) => cmds.push(DrawCommand::DrawPoints { bundle: bi, point_count: d.point_count }),
        None => (),
    }
    match &p.screen_ref_buffers {
        Some(b) => cmds.push(
            DrawCommand::DrawScreenRef { bundle: bi, index_count: b.index_count },
        ),
        None => (),
    }
    let ghost before_images = cmds@;
    let m = p.image_buffers.len();
    let mut i: usize = 0;
    while i < m
        invariant
            m == p.image_buffers@.len(),
            0 <= i <= m,
            cmds@ == before_images + image_commands(*p, bi).subrange(0, i as int),
        decreases m - i,
    {
        cmds.push(DrawCommand::DrawImage { bundle: bi, image: i });
        proof {
            assert(image_commands(*p, bi).subrange(0, i + 1) =~= image_commands(
                *p,
                bi,
            ).subrange(0, i as int).push(image_commands(*p, bi)[i as int]));
        }
        i = i + 1;
    }
    proof {
        assert(image_commands(*p, bi).subrange(0, m as int) =~= image_commands(*p, bi));
        assert(final(cmds)@ =~= old(cmds)@ + bundle_commands(*p, bi));
    }
}

/// Plans one render pass over an ordered list of packed bundles: the
/// attachments follow the anti-aliasing option, and the commands are
/// exactly each bundle's commands in caller order — the painter's
/// algorithm; later bundles draw over earlier ones.
pub fn plan_draw_bundles(bundles: &Vec<WgpuPackedBundle>, options: RenderOptions) -> (plan:
    DrawPlan)
    ensures
        plan.attachments == attachments_spec(options),
        plan.commands@ == plan_commands(bundles@, bundles@.len() as int),
{
    let attachments = select_attachments(options);
    let mut commands: Vec<DrawCommand> = Vec::new();
    let n = bundles.len();
    let mut i: usize = 0;
    while i < n
        invariant
            n == bundles@.len(),
            0 <= i <= n,
            commands@ == plan_commands(bundles@, i as int),
        decreases n - i,
    {
        append_bundle_commands(&mut commands, &bundles[i], i);
        i = i + 1;
    }
    DrawPlan { attachments, commands }
}

/// A bundle packed from an empty point list contributes no point draw
/// call: its draw plan simply has no point command, and planning it is no
/// error, whatever the anti-aliasing option.
pub proof fn lemma_empty_points_no_point_draw(
    b: RenderBundle,
    p: WgpuPackedBundle,
    bi: usize,
)
    requires
        b.points@.len() == 0,
        crate::packed::packed_spec(b, p),
    ensures
        forall|j: int|
            0 <= j < bundle_commands(p, bi).len() ==> !(#[trigger] bundle_commands(p, bi)[j]
                is DrawPoints),
{
    let s = bundle_commands(p, bi);
    let c1 = clip_commands(p, bi);
    let c2 = poly_commands(p, bi);
    let c3 = dot_commands(p, bi);
    let c4 = screen_commands(p, bi);
    let c5 = image_commands(p, bi);
    assert(c3.len() == 0);
    assert forall|j: int| 0 <= j < s.len() implies !(#[trigger] s[j] is DrawPoints) by {
        if j < c1.len() {
            assert(s[j] == c1[j]);
        } else if j < c1.len() + c2.len() {
            assert(s[j] == c2[j - c1.len()]);
        } else if j < c1.len() + c2.len() + c4.len() {
            assert(s[j] == c4[j - c1.len() - c2.len()]);
        } else {
            assert(s[j] == c5[j - c1.len() - c2.len() - c4.len()]);
        }
    }
}

/// Within one bundle's commands, the clip-area draw, when present, is the
/// first command and the only one routed to the stencil attachment; every
/// color draw of the bundle comes after it and is therefore masked by the
/// stencil the clip draw wrote. Without a clip area no command touches
/// the stencil.
pub proof fn lemma_clip_first_and_only_stencil(p: WgpuPackedBundle, bi: usize)
    ensures
        forall|j: int|
            0 <= j < bundle_commands(p, bi).len() ==> ((#[trigger] bundle_commands(p, bi)[j])
                .targets_stencil() <==> (p.clip_area_buffers is Some && j == 0)),
{
    let s = bundle_commands(p, bi);
    let c1 = clip_commands(p, bi);
    let c2 = poly_commands(p, bi);
    let c3 = dot_commands(p, bi);
    let c4 = screen_commands(p, bi);
    let c5 = image_commands(p, bi);
    assert forall|j: int| 0 <= j < s.len() implies ((#[trigger] s[j]).targets_stencil() <==> (
    p.clip_area_buffers is Some && j == 0)) by {
        if j < c1.len() {
            assert(s[j] == c1[j]);
        } else if j < c1.len() + c2.len() {
            assert(s[j] == c2[j - c1.len()]);
        } else if j < c1.len() + c2.len() + c3.len() {
            assert(s[j] == c3[j - c1.len() - c2.len()]);
        } else if j < c1.len() + c2.len() + c3.len() + c4.len() {
            assert(s[j] == c4[j - c1.len() - c2.len() - c3.len()]);
        } else {
            assert(s[j] == c5[j - c1.len() - c2.len() - c3.len() - c4.len()]);
        }
    }
}

/// The per-frame canvas: the uniform block derived from the view, bound to
/// the frame it was created for. The compositor uploads the uniform before
/// issuing any draw of the frame, so no stale transform is ever drawn with.
#[derive(Clone, Copy, Debug, PartialEq, Eq, Structural)]
pub struct WgpuCanvas {
    /// Viewport width in pixels.
    pub width: u32,
    /// Viewport height in pixels.
    pub height: u32,
    /// The uniform block to upload for this frame.
    pub uniform: ViewUniform,
}

impl WgpuCanvas {
    /// Builds the canvas for one frame from the current view: derives the
    /// uniform block that must be uploaded before any draw call. Returns
    /// `None` exactly when the view's matrix composition leaves the
    /// representable range.
    pub fn new(map_view: &MapView) -> (r: Option<WgpuCanvas>)
        requires
            map_view.wf(),
        ensures
            r matches Some(c) ==> c.width == map_view.width && c.height == map_view.height
                && c.uniform.view_proj == crate::view::view_proj_spec(*map_view)
                && c.uniform.view_rotation == crate::view::rotation_mat_spec(*map_view)
                && c.uniform.inv_screen_w == crate::view::inv_dim_spec(map_view.width as int)
                && c.uniform.inv_screen_h == crate::view::inv_dim_spec(map_view.height as int)
                && c.uniform.resolution == map_view.resolution,
            r is Some <==> view_matrices_in_range(*map_view),
    {
        let uniform = match build_view_uniform(map_view) {
            Some(u) => u,
            None => {
                return None;
            },
        };
        Some(WgpuCanvas { width: map_view.width, height: map_view.height, uniform })
    }

    /// The canvas size in pixels.
    pub fn size(&self) -> (s: (u32, u32))
        ensures
            s.0 == self.width,
            s.1 == self.height,
    {
        (self.width, self.height)
    }

    /// Creates an empty render bundle for this backend: no mesh data, no
    /// clip area, no points, no screen-referenced geometry, no images.
    pub fn create_bundle(&self) -> (b: RenderBundle)
        ensures
            b.wf(),
            b.is_empty(),
    {
        RenderBundle::new()
    }

    /// Packs a completed render bundle into its immutable GPU form.
    pub fn pack_bundle(&self, bundle: &RenderBundle) -> (p: WgpuPackedBundle)
        requires
            bundle.wf(),
        ensures
            crate::packed::packed_spec(*bundle, p),
            p.wf(),
    {
        WgpuPackedBundle::new(bundle)
    }

    /// Plans the draw of an ordered list of packed bundles with the given
    /// options; the unverified shell executes the plan in one render pass.
    pub fn draw_bundles(&self, bundles: &Vec<WgpuPackedBundle>, options: RenderOptions) -> (plan:
        DrawPlan)
        ensures
            plan.attachments == attachments_spec(options),
            plan.commands@ == plan_commands(bundles@, bundles@.len() as int),
    {
        plan_draw_bundles(bundles, options)
    }
}

} // verus!
