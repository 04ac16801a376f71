//! The layout engine: the centered rectangle for each digital size tier, and
//! the analog-face geometry of a frame.
//!
//! The analog face is drawn on a canvas whose x-axis runs over `[0, right]`
//! with `right` the terminal width, and whose y-axis runs over `[0, top]`
//! with `top = 2 * height - 4`: terminal cells are about twice as tall as
//! wide, so the y-axis is stretched to keep the face circular.  Quantities
//! that are not whole canvas units are stored as exact fixed-point
//! numerators: halves for the origin (the midpoint of the canvas), and
//! twentieths for the hand scales, which are 0.6, 0.8 and 0.9 of half the
//! shorter axis.

use vstd::prelude::*;
use crate::mode::SizeTier;

verus! {

/// A rectangle in terminal cells, as an offset and a size.
#[derive(Clone, Copy, Debug, PartialEq, Eq, Structural)]
pub struct Rect {
    pub x: u16,
    pub y: u16,
    pub width: u16,
    pub height: u16,
}

impl Rect {
    /// The far edges stay within the range of a cell coordinate.
    pub open spec fn wf(self) -> bool {
        self.x + self.width <= 65535 && self.y + self.height <= 65535
    }
}

/// Rows taken by the glyph block of a tier: one glyph height plus the rows
/// of the title border.
pub open spec fn tier_height(tier: SizeTier) -> u16 {
    match tier {
        SizeTier::Full => 9,
        SizeTier::Half => 9,
        SizeTier::Quadrant => 6,
        SizeTier::Sextant => 5,
    }
}

/// Columns taken by the glyph block of a tier: glyph width for each of the
/// eight characters of `HH:MM:SS`, plus border padding.
pub open spec fn tier_width(tier: SizeTier) -> u16 {
    match tier {
        SizeTier::Full => 65,
        SizeTier::Half => 34,
        SizeTier::Quadrant => 34,
        SizeTier::Sextant => 34,
    }
}

/// The glyph-block footprint of a tier, as rows and columns.
pub fn tier_footprint(tier: SizeTier) -> (r: (u16, u16))
    ensures
        r.0 == tier_height(tier),
        r.1 == tier_width(tier),
{
    match tier {
        SizeTier::Full => (9, 65),
        SizeTier::Half => (9, 34),
        SizeTier::Quadrant => (6, 34),
        SizeTier::Sextant => (5, 34),
    }
}

/// The tier footprint centered in `screen`: each side is the footprint
/// clamped to the screen, and the leading gap is half the slack, rounded
/// down.
pub open spec fn spec_digital_rect(screen: Rect, tier: SizeTier) -> Rect {
    let h = if tier_height(tier) < screen.height { tier_height(tier) } else { screen.height };
    let w = if tier_width(tier) < screen.width { tier_width(tier) } else { screen.width };
    Rect {
        x: (screen.x + (screen.width - w) / 2) as u16,
        y: (screen.y + (screen.height - h) / 2) as u16,
        width: w,
        height: h,
    }
}

/// Center the glyph block of `tier` within `screen`: a three-way split of
/// leading flex space, fixed content and trailing flex space on each axis,
/// with the content clamped so it never leaves the screen.
pub fn digital_rect(screen: Rect, tier: SizeTier) -> (r: Rect)
    requires
        screen.wf(),
    ensures
        r == spec_digital_rect(screen, tier),
        r.height == if tier_height(tier) < screen.height { tier_height(tier) } else { screen.height },
        r.width == if tier_width(tier) < screen.width { tier_width(tier) } else { screen.width },
        screen.x <= r.x && r.x + r.width <= screen.x + screen.width,
        screen.y <= r.y && r.y + r.height <= screen.y + screen.height,
        r.wf(),
{
    let (th, tw) = tier_footprint(tier);
    let h = if th < screen.height { th } else { screen.height };
    let w = if tw < screen.width { tw } else { screen.width };
    Rect {
        x: screen.x + (screen.width - w) / 2,
        y: screen.y + (screen.height - h) / 2,
        width: w,
        height: h,
    }
}

/// The geometry of one frame.  The analog quantities are derived from the
/// screen alone; `content_rect` is the centered digital rectangle of the
/// active tier, kept so a later click can be tested against what was drawn.
#[derive(Clone, Copy, Debug, PartialEq, Eq, Structural)]
pub struct ScreenGeometry {
    /// The centered digital rectangle, in terminal cells.
    pub content_rect: Rect,
    /// Canvas x extent: the x-axis runs over `[0, right]`.
    pub right: i32,
    /// Canvas y extent: the y-axis runs over `[0, top]`; negative when the
    /// screen is fewer than two rows tall.
    pub top: i32,
    /// The smaller of `right` and `top`.
    pub shorter_axis: i32,
    /// The larger of `right` and `top`.
    pub longer_axis: i32,
    /// True when the y-axis is the shorter one.
    pub axis_is_vertical_short: bool,
    /// Twice the canvas origin, the midpoint of the canvas: `(right, top)`.
    pub origin_x_halves: i32,
    pub origin_y_halves: i32,
    /// Hand scales, in twentieths of a canvas unit.  On a degenerate canvas
    /// (shorter axis at or below zero) all three are zero.
    pub hour_scale_twentieths: i32,
    pub second_scale_twentieths: i32,
    pub minute_scale_twentieths: i32,
}

/// The shorter axis clamped at zero: what the hand scales are fractions of.
pub open spec fn spec_clamped_shorter(screen: Rect) -> int {
    let right = screen.width as int;
    let top = 2 * (screen.height as int) - 4;
    let shorter = if right < top { right } else { top };
    if shorter > 0 { shorter } else { 0 }
}

/// Every field of the frame geometry as a function of the screen and tier.
pub open spec fn spec_analog_geometry(screen: Rect, tier: SizeTier) -> ScreenGeometry {
    let right = screen.width as int;
    let top = 2 * (screen.height as int) - 4;
    let shorter = if right < top { right } else { top };
    let longer = if right < top { top } else { right };
    let s = spec_clamped_shorter(screen);
    ScreenGeometry {
        content_rect: spec_digital_rect(screen, tier),
        right: right as i32,
        top: top as i32,
        shorter_axis: shorter as i32,
        longer_axis: longer as i32,
        axis_is_vertical_short: top < right,
        origin_x_halves: right as i32,
        origin_y_halves: top as i32,
        hour_scale_twentieths: (6 * s) as i32,
        second_scale_twentieths: (8 * s) as i32,
        minute_scale_twentieths: (9 * s) as i32,
    }
}

impl ScreenGeometry {
    /// The relations that `analog_geometry` establishes among the analog
    /// fields, for any screen: extents bounded, axes ordered, origin at the
    /// midpoint, and the hand scales exact fractions of half the shorter
    /// axis — zero on a degenerate canvas, and hour shortest, then second,
    /// then minute on any other.
    pub open spec fn wf(self) -> bool {
        &&& 0 <= self.right <= 65535
        &&& -4 <= self.top <= 2 * 65535 - 4
        &&& self.shorter_axis == if self.right < self.top { self.right as int } else { self.top as int }
        &&& self.longer_axis == if self.right < self.top { self.top as int } else { self.right as int }
        &&& self.axis_is_vertical_short == (self.top < self.right)
        &&& self.origin_x_halves == self.right
        &&& self.origin_y_halves == self.top
        &&& self.hour_scale_twentieths == 6 * (if self.shorter_axis > 0 { self.shorter_axis as int } else { 0 })
        &&& self.second_scale_twentieths == 8 * (if self.shorter_axis > 0 { self.shorter_axis as int } else { 0 })
        &&& self.minute_scale_twentieths == 9 * (if self.shorter_axis > 0 { self.shorter_axis as int } else { 0 })
        &&& self.shorter_axis > 0 ==> 0 < self.hour_scale_twentieths < self.second_scale_twentieths < self.minute_scale_twentieths
        &&& self.shorter_axis <= 0 ==> self.hour_scale_twentieths == 0 && self.second_scale_twentieths == 0 && self.minute_scale_twentieths == 0
    }
}

/// Compute the geometry of a frame from the screen and the active tier.
/// The canvas maps the width directly to the x-axis and stretches the
/// y-axis to `2 * height - 4`; the origin is the canvas midpoint; the hand
/// scales are 0.6, 0.8 and 0.9 of half the shorter axis, and zero when the
/// canvas is degenerate, so a tiny screen yields collapsed hands rather
/// than a division by zero or a scale below zero.
pub fn analog_geometry(screen: Rect, tier: SizeTier) -> (g: ScreenGeometry)
    requires
        screen.wf(),
    ensures
        g == spec_analog_geometry(screen, tier),
        g.wf(),
        g.content_rect == spec_digital_rect(screen, tier),
{
    let right: i32 = screen.width as i32;
    let top: i32 = 2 * (screen.height as i32) - 4;
    let shorter: i32 = if right < top { right } else { top };
    let longer: i32 = if right < top { top } else { right };
    let s: i32 = if shorter > 0 { shorter } else { 0 };
    ScreenGeometry {
        content_rect: digital_rect(screen, tier),
        right,
        top,
        shorter_axis: shorter,
        longer_axis: longer,
        axis_is_vertical_short: top < right,
        origin_x_halves: right,
        origin_y_halves: top,
        hour_scale_twentieths: 6 * s,
        second_scale_twentieths: 8 * s,
        minute_scale_twentieths: 9 * s,
    }
}

} // verus!
