//! Frame geometry and the description of the single render pass drawn per frame.
use vstd::prelude::*;

verus! {

/// Width and height of the drawable in physical pixels.
#[derive(Clone, Copy, Debug, PartialEq, Eq, Structural)]
pub struct Dimensions {
    pub width: u32,
    pub height: u32,
}

/// `v` clamped into the range of `u32`.
pub open spec fn clamp_to_u32(v: int) -> int {
    if v < 0 {
        0
    } else if v > u32::MAX {
        u32::MAX as int
    } else {
        v
    }
}

/// Physical size of a logical length under a display scale factor.
pub open spec fn physical_length(logical: int, scale: int) -> int {
    clamp_to_u32(logical * scale)
}

impl Dimensions {
    /// Both sides are positive: only then is a render pass drawn.
    pub open spec fn drawable(self) -> bool {
        self.width > 0 && self.height > 0
    }
}

fn scaled_length(logical: i32, scale: i32) -> (r: u32)
    ensures
        r as int == physical_length(logical as int, scale as int),
{
    proof {
        assert((logical as int) * (scale as int) <= 0x4000_0000_0000_0000) by (nonlinear_arith)
            requires
                -0x8000_0000 <= logical <= 0x7fff_ffff,
                -0x8000_0000 <= scale <= 0x7fff_ffff,
        ;
        assert((logical as int) * (scale as int) >= -0x4000_0000_0000_0000) by (nonlinear_arith)
            requires
                -0x8000_0000 <= logical <= 0x7fff_ffff,
                -0x8000_0000 <= scale <= 0x7fff_ffff,
        ;
    }
    let p: i64 = (logical as i64) * (scale as i64);
    if p < 0 {
        0
    } else if p > u32::MAX as i64 {
        u32::MAX
    } else {
        p as u32
    }
}

/// The pixel dimensions of a drawable whose logical size is `width` x `height`
/// on a display with the given scale factor. A negative product counts as zero,
/// one beyond `u32` as `u32::MAX`.
pub fn get_dimensions(width: i32, height: i32, scale: i32) -> (r: Dimensions)
    ensures
        r.width as int == physical_length(width as int, scale as int),
        r.height as int == physical_length(height as int, scale as int),
{
    Dimensions { width: scaled_length(width, scale), height: scaled_length(height, scale) }
}

/// Extent of a render pass: width, height and number of array layers.
#[derive(Clone, Copy, Debug, PartialEq, Eq, Structural)]
pub struct Extent3d {
    pub width: u32,
    pub height: u32,
    pub depth_or_array_layers: u32,
}

/// Where the storage behind a render target comes from.
#[derive(Clone, Copy, Debug, PartialEq, Eq, Structural)]
pub enum TargetSource {
    /// Storage allocated by the renderer, freed together with the view.
    Owned,
    /// A framebuffer object of the host context, referenced by its id and
    /// never freed by the renderer.
    Foreign { framebuffer: u32 },
}

impl TargetSource {
    pub open spec fn frees_storage_spec(self) -> bool {
        self is Owned
    }

    /// Whether dropping a view over this source frees the storage behind it.
    pub fn frees_storage(&self) -> (r: bool)
        ensures
            r == self.frees_storage_spec(),
    {
        match self {
            TargetSource::Owned => true,
            TargetSource::Foreign { .. } => false,
        }
    }
}

/// Pixel format of a render target.
#[derive(Clone, Copy, Debug, PartialEq, Eq, Structural)]
pub enum PixelFormat {
    /// Four 8-bit channels, colour stored sRGB-encoded.
    Rgba8UnormSrgb,
}

/// Shape of a texture view.
#[derive(Clone, Copy, Debug, PartialEq, Eq, Structural)]
pub enum ViewDimension {
    D2,
}

/// What a view is used for.
#[derive(Clone, Copy, Debug, PartialEq, Eq, Structural)]
pub enum TargetUsage {
    ColorTarget,
}

/// A view that lets a render pass draw into a target.
#[derive(Clone, Copy, Debug, PartialEq, Eq, Structural)]
pub struct TargetView {
    pub source: TargetSource,
    pub format: PixelFormat,
    pub dimension: ViewDimension,
    pub usage: TargetUsage,
}

/// An RGBA colour, eight bits per channel.
#[derive(Clone, Copy, Debug, PartialEq, Eq, Structural)]
pub struct ClearColor {
    pub r: u8,
    pub g: u8,
    pub b: u8,
    pub a: u8,
}

/// What a render pass does with an attachment before drawing.
#[derive(Clone, Copy, Debug, PartialEq, Eq, Structural)]
pub enum LoadOp {
    Clear(ClearColor),
    Load,
}

/// What a render pass does with an attachment after drawing.
#[derive(Clone, Copy, Debug, PartialEq, Eq, Structural)]
pub enum StoreOp {
    Store,
    Discard,
}

/// The colour attachment of a render pass.
#[derive(Clone, Copy, Debug, PartialEq, Eq, Structural)]
pub struct ColorAttachment {
    pub view: TargetView,
    pub load: LoadOp,
    pub store: StoreOp,
}

/// One render pass with a single colour attachment. The flags say whether a
/// depth/stencil attachment, multiview rendering or an occlusion query is
/// used.
#[derive(Clone, Copy, Debug, PartialEq, Eq, Structural)]
pub struct RenderPassPlan {
    pub extent: Extent3d,
    pub sample_count: u32,
    pub color_attachment: ColorAttachment,
    pub depth_stencil: bool,
    pub multiview: bool,
    pub occlusion_query: bool,
}

/// The solid colour each frame is cleared to: opaque blue.
pub open spec fn clear_color_spec() -> ClearColor {
    ClearColor { r: 0, g: 0, b: 255, a: 255 }
}

pub fn clear_color() -> (r: ClearColor)
    ensures
        r == clear_color_spec(),
{
    ClearColor { r: 0, g: 0, b: 255, a: 255 }
}

/// The view through which the host framebuffer `framebuffer` is drawn into:
/// a non-owning, two-dimensional, sRGB RGBA colour target.
pub open spec fn foreign_view_spec(framebuffer: u32) -> TargetView {
    TargetView {
        source: TargetSource::Foreign { framebuffer },
        format: PixelFormat::Rgba8UnormSrgb,
        dimension: ViewDimension::D2,
        usage: TargetUsage::ColorTarget,
    }
}

pub fn foreign_view(framebuffer: u32) -> (r: TargetView)
    ensures
        r == foreign_view_spec(framebuffer),
{
    TargetView {
        source: TargetSource::Foreign { framebuffer },
        format: PixelFormat::Rgba8UnormSrgb,
        dimension: ViewDimension::D2,
        usage: TargetUsage::ColorTarget,
    }
}

/// The render pass that fills the host framebuffer for a frame of the given
/// dimensions, or none when the frame has no pixels.
pub open spec fn plan_spec(framebuffer: u32, dims: Dimensions) -> Option<RenderPassPlan> {
    if dims.drawable() {
        Some(
            RenderPassPlan {
                extent: Extent3d { width: dims.width, height: dims.height, depth_or_array_layers: 1 },
                sample_count: 1,
                color_attachment: ColorAttachment {
                    view: foreign_view_spec(framebuffer),
                    load: LoadOp::Clear(clear_color_spec()),
                    store: StoreOp::Store,
                },
                depth_stencil: false,
                multiview: false,
                occlusion_query: false,
            },
        )
    } else {
        None
    }
}

/// Plans the one render pass of a frame: the whole of `dims`, one layer, one
/// sample, cleared to the fixed colour and stored into the host framebuffer.
/// A frame with a zero side gets no render pass.
pub fn plan_render_pass(framebuffer: u32, dims: Dimensions) -> (r: Option<RenderPassPlan>)
    ensures
        r == plan_spec(framebuffer, dims),
{
    if dims.width > 0 && dims.height > 0 {
        Some(
            RenderPassPlan {
                extent: Extent3d { width: dims.width, height: dims.height, depth_or_array_layers: 1 },
                sample_count: 1,
                color_attachment: ColorAttachment {
                    view: foreign_view(framebuffer),
                    load: LoadOp::Clear(clear_color()),
                    store: StoreOp::Store,
                },
                depth_stencil: false,
                multiview: false,
                occlusion_query: false,
            },
        )
    } else {
        None
    }
}

} // verus!
