//! Styling of stroked and filled paths (polygons).

use vstd::prelude::*;

verus! {

/// An opaque sRGB color, eight bits per channel.
#[derive(Debug, Clone, Copy, PartialEq, Eq, Structural)]
pub struct Color {
    pub r: u8,
    pub g: u8,
    pub b: u8,
}

impl Color {
    /// Creates a color from its three channels.
    pub fn from_rgb8(r: u8, g: u8, b: u8) -> (c: Self)
        ensures
            c == (Color { r, g, b }),
    {
        Color { r, g, b }
    }
}

/// Shape drawn at the end of a stroke.
#[derive(Debug, Clone, Copy, PartialEq, Eq, Structural)]
pub enum LineCap {
    Butt,
    Round,
    Square,
}

/// Shape drawn at the corners of a stroke.
#[derive(Debug, Clone, Copy, PartialEq, Eq, Structural)]
pub enum LineJoin {
    Arcs,
    Bevel,
    Miter,
    MiterClip,
    Round,
}

/// Path styling bundle. Opacities are stored in thousandths, 0 through 1000,
/// standing for 0.0 through 1.0.
#[derive(Debug, Clone, Copy, PartialEq, Eq, Structural)]
pub struct PathOptions {
    /// Whether to draw a stroke along the path.
    pub stroke: bool,
    /// Stroke color.
    pub color: Color,
    /// Stroke width in pixels.
    pub weight: u32,
    /// Stroke opacity in thousandths.
    pub opacity_permille: u16,
    /// Shape at the end of the stroke.
    pub line_cap: LineCap,
    /// Shape at the corners of the stroke.
    pub line_join: LineJoin,
    /// Whether to fill the path with color.
    pub fill: bool,
    /// Fill color.
    pub fill_color: Color,
    /// Fill opacity in thousandths.
    pub fill_opacity_permille: u16,
}

impl PathOptions {
    /// Each opacity lies in its valid range.
    pub open spec fn well_formed(self) -> bool {
        &&& self.opacity_permille <= 1000
        &&& self.fill_opacity_permille <= 1000
    }
}

impl Default for PathOptions {
    /// A stroked and lightly filled blue path.
    fn default() -> (r: Self)
        ensures
            r == (PathOptions {
                stroke: true,
                color: Color { r: 0x33, g: 0x88, b: 0xff },
                weight: 3,
                opacity_permille: 1000,
                line_cap: LineCap::Round,
                line_join: LineJoin::Round,
                fill: true,
                fill_color: Color { r: 0x33, g: 0x88, b: 0xff },
                fill_opacity_permille: 200,
            }),
            r.well_formed(),
    {
        PathOptions {
            stroke: true,
            color: Color::from_rgb8(0x33, 0x88, 0xff),
            weight: 3,
            opacity_permille: 1000,
            line_cap: LineCap::Round,
            line_join: LineJoin::Round,
            fill: true,
            fill_color: Color::from_rgb8(0x33, 0x88, 0xff),
            fill_opacity_permille: 200,
        }
    }
}

} // verus!
