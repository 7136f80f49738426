//! Stateless per-edge geometry: converts a visible extent into the pointer
//! input hit rectangle and into the rotation/translation that maps the
//! canonical left-edge drawing frame onto the other three edges.

use vstd::prelude::*;

verus! {

/// Fixed-point scale. Geometric quantities (sizes, extents, trigger margins)
/// are carried in subpixels, one thousand to the pixel, so fractional pixel
/// values remain exact integers.
pub const SUBPIXELS_PER_PIXEL: u64 = 1000;

/// Largest geometric quantity, in subpixels, that the geometry functions
/// accept. Keeps every sum and rounding step comfortably inside `u64`.
pub const MAX_SUBPIXELS: u64 = 0x1000_0000_0000;

/// The screen edge a widget is anchored to.
#[derive(Clone, Copy, Debug, PartialEq, Eq, Structural)]
pub enum Edge {
    Top,
    Left,
    Bottom,
    Right,
}

/// Axis-aligned rectangle in whole pixels, handed to the windowing layer as
/// the pointer input region of the widget surface.
#[derive(Clone, Copy, Debug, PartialEq, Eq, Structural)]
pub struct HitRect {
    pub x: u64,
    pub y: u64,
    pub width: u64,
    pub height: u64,
}

/// Rotation (in degrees, counterclockwise) followed by a translation (in
/// subpixels) that carries the canonical left-edge drawing frame onto a given
/// edge.
#[derive(Clone, Copy, Debug, PartialEq, Eq, Structural)]
pub struct SurfaceTransform {
    pub rotation_deg: u64,
    pub translate_x: i64,
    pub translate_y: i64,
}

/// Subpixel value rounded down to whole pixels.
pub open spec fn px_floor(v: int) -> int {
    v / (SUBPIXELS_PER_PIXEL as int)
}

/// Subpixel value rounded up to whole pixels.
pub open spec fn px_ceil(v: int) -> int {
    (v + (SUBPIXELS_PER_PIXEL as int) - 1) / (SUBPIXELS_PER_PIXEL as int)
}

/// The four hit-rectangle rules. `size` is (thickness, length) of the full
/// surface in subpixels; `visible` is the current visible extent; `trigger`
/// the always-reserved margin. The interactive band (`visible + trigger`) is
/// rounded up on the far (Right/Bottom) side so no sub-pixel gap can make the
/// last row or column unclickable; everything else rounds down.
pub open spec fn spec_input_region_rect(
    edge: Edge,
    size: (u64, u64),
    visible: u64,
    trigger: u64,
) -> HitRect {
    let band_floor = px_floor(visible + trigger) as u64;
    let band_ceil = px_ceil(visible + trigger) as u64;
    let length_px = px_floor(size.1 as int) as u64;
    let back_px = px_floor(size.0 - visible) as u64;
    match edge {
        Edge::Left => HitRect { x: 0, y: 0, width: band_floor, height: length_px },
        Edge::Right => HitRect { x: back_px, y: 0, width: band_ceil, height: length_px },
        Edge::Top => HitRect { x: 0, y: 0, width: length_px, height: band_floor },
        Edge::Bottom => HitRect { x: 0, y: back_px, width: length_px, height: band_ceil },
    }
}

/// Computes the pointer input hit rectangle for the current visible extent.
pub fn input_region_rect(edge: Edge, size: (u64, u64), visible: u64, trigger: u64) -> (r: HitRect)
    requires
        visible <= size.0,
        size.0 <= MAX_SUBPIXELS,
        size.1 <= MAX_SUBPIXELS,
        trigger <= MAX_SUBPIXELS,
    ensures
        r == spec_input_region_rect(edge, size, visible, trigger),
{
    let band = visible + trigger;
    let band_floor = band / SUBPIXELS_PER_PIXEL;
    let band_ceil = (band + (SUBPIXELS_PER_PIXEL - 1)) / SUBPIXELS_PER_PIXEL;
    let length_px = size.1 / SUBPIXELS_PER_PIXEL;
    let back_px = (size.0 - visible) / SUBPIXELS_PER_PIXEL;
    match edge {
        Edge::Left => HitRect { x: 0, y: 0, width: band_floor, height: length_px },
        Edge::Right => HitRect { x: back_px, y: 0, width: band_ceil, height: length_px },
        Edge::Top => HitRect { x: 0, y: 0, width: length_px, height: band_floor },
        Edge::Bottom => HitRect { x: 0, y: back_px, width: length_px, height: band_ceil },
    }
}

/// `r` with its axes exchanged.
pub open spec fn transpose_rect(r: HitRect) -> HitRect {
    HitRect { x: r.y, y: r.x, width: r.height, height: r.width }
}

/// Law: the four hit-rectangle rules are one rule in two orientations. The
/// Top rectangle is the canonical Left one with its axes exchanged, and
/// Bottom is Right with its axes exchanged, so the horizontal edges can
/// never drift out of sync with the vertical ones.
pub proof fn lemma_edges_share_canonical_rect(size: (u64, u64), visible: u64, trigger: u64)
    ensures
        spec_input_region_rect(Edge::Top, size, visible, trigger) == transpose_rect(
            spec_input_region_rect(Edge::Left, size, visible, trigger),
        ),
        spec_input_region_rect(Edge::Bottom, size, visible, trigger) == transpose_rect(
            spec_input_region_rect(Edge::Right, size, visible, trigger),
        ),
{
}

/// The per-edge drawing transform: identity for the canonical Left edge, a
/// rotation plus a translation by the full surface size for the other three.
pub open spec fn spec_rotation_transform(edge: Edge, size: (u64, u64)) -> SurfaceTransform {
    match edge {
        Edge::Left => SurfaceTransform { rotation_deg: 0, translate_x: 0, translate_y: 0 },
        Edge::Right => SurfaceTransform {
            rotation_deg: 180,
            translate_x: -(size.0 as int) as i64,
            translate_y: -(size.1 as int) as i64,
        },
        Edge::Top => SurfaceTransform {
            rotation_deg: 90,
            translate_x: 0,
            translate_y: -(size.1 as int) as i64,
        },
        Edge::Bottom => SurfaceTransform {
            rotation_deg: 270,
            translate_x: -(size.0 as int) as i64,
            translate_y: 0,
        },
    }
}

/// Computes the rotation/translation normalizing drawing onto the canonical
/// left-edge orientation for the given edge.
pub fn rotation_transform(edge: Edge, size: (u64, u64)) -> (t: SurfaceTransform)
    requires
        size.0 <= MAX_SUBPIXELS,
        size.1 <= MAX_SUBPIXELS,
    ensures
        t == spec_rotation_transform(edge, size),
{
    match edge {
        Edge::Left => SurfaceTransform { rotation_deg: 0, translate_x: 0, translate_y: 0 },
        Edge::Right => SurfaceTransform {
            rotation_deg: 180,
            translate_x: -(size.0 as i64),
            translate_y: -(size.1 as i64),
        },
        Edge::Top => SurfaceTransform {
            rotation_deg: 90,
            translate_x: 0,
            translate_y: -(size.1 as i64),
        },
        Edge::Bottom => SurfaceTransform {
            rotation_deg: 270,
            translate_x: -(size.0 as i64),
            translate_y: 0,
        },
    }
}

/// Horizontal translation, in subpixels, applied before drawing a frame so
/// that the strip appears to slide in: the canonical surface is shifted left
/// by the still-hidden part, and on the far (Right/Bottom) edges additionally
/// by the trigger margin.
pub open spec fn spec_motion_translate(edge: Edge, thickness: u64, visible: u64, trigger: u64) -> int {
    let offset: int = match edge {
        Edge::Right | Edge::Bottom => trigger as int,
        _ => 0,
    };
    visible - thickness - offset
}

/// Computes the sliding translation for the current visible extent.
pub fn motion_translate(edge: Edge, thickness: u64, visible: u64, trigger: u64) -> (r: i64)
    requires
        visible <= thickness,
        thickness <= MAX_SUBPIXELS,
        trigger <= MAX_SUBPIXELS,
    ensures
        r == spec_motion_translate(edge, thickness, visible, trigger),
{
    let offset: i64 = match edge {
        Edge::Right | Edge::Bottom => trigger as i64,
        _ => 0,
    };
    visible as i64 - thickness as i64 - offset
}

} // verus!
