//! The values exchanged with a graphics backend: rectangles, colours, the
//! animation state of a card, the computed layout, and the drawing commands.

use crate::config::RgbColor;
use vstd::prelude::*;

verus! {

/// Largest magnitude of a coordinate, and largest width or height, that the
/// engine computes with. Sums of two such values still fit a 32-bit integer.
pub const MAX_EXTENT: u32 = 0x3FFF_FFFF;

/// Denominator of an opacity: 1000 is fully opaque.
pub const OPACITY_SCALE: u32 = 1000;

/// Denominator of an animation progress value: 1000 is a finished flip.
pub const PROGRESS_SCALE: u32 = 1000;

#[derive(Clone, Copy, Debug, PartialEq, Eq)]
pub struct Rect {
    pub x: i32,
    pub y: i32,
    pub width: u32,
    pub height: u32,
}

impl Rect {
    pub fn new(x: i32, y: i32, width: u32, height: u32) -> (rect: Self)
        ensures
            rect == (Rect { x, y, width, height }),
    {
        Self { x, y, width, height }
    }

    /// The rectangle lies within the range of coordinates the engine computes with.
    pub open spec fn in_extent(&self) -> bool {
        &&& -(MAX_EXTENT as int) <= self.x <= MAX_EXTENT as int
        &&& -(MAX_EXTENT as int) <= self.y <= MAX_EXTENT as int
        &&& self.width <= MAX_EXTENT
        &&& self.height <= MAX_EXTENT
    }

    /// Whether the rectangle lies within the range of coordinates the
    /// engine computes with.
    pub fn fits_extent(&self) -> (fits: bool)
        ensures
            fits == self.in_extent(),
    {
        -(MAX_EXTENT as i32) <= self.x && self.x <= MAX_EXTENT as i32 && -(MAX_EXTENT as i32)
            <= self.y && self.y <= MAX_EXTENT as i32 && self.width <= MAX_EXTENT && self.height
            <= MAX_EXTENT
    }

    /// The rectangle has no pixel.
    pub open spec fn is_empty(&self) -> bool {
        self.width == 0 || self.height == 0
    }

    /// Whether the rectangle has no pixel.
    pub fn has_no_pixel(&self) -> (empty: bool)
        ensures
            empty == self.is_empty(),
    {
        self.width == 0 || self.height == 0
    }

    /// The pixel `(px, py)` lies inside the rectangle.
    pub open spec fn contains(&self, px: int, py: int) -> bool {
        &&& self.x <= px < self.x + self.width
        &&& self.y <= py < self.y + self.height
    }

    /// The two rectangles share at least one pixel.
    pub open spec fn overlaps(&self, other: &Rect) -> bool {
        &&& self.x < other.x + other.width
        &&& other.x < self.x + self.width
        &&& self.y < other.y + other.height
        &&& other.y < self.y + self.height
        &&& self.width > 0 && self.height > 0
        &&& other.width > 0 && other.height > 0
    }
}

#[derive(Clone, Copy, Debug, PartialEq, Eq)]
pub struct Color {
    pub r: u8,
    pub g: u8,
    pub b: u8,
    pub a: u8,
}

/// The alpha channel for an opacity in thousandths: `opacity * 255 / 1000`
/// rounded down, and 255 for every opacity of 1000 or more.
pub open spec fn alpha_of_opacity(opacity: int) -> int {
    if opacity >= OPACITY_SCALE as int {
        255
    } else if opacity <= 0 {
        0
    } else {
        opacity * 255 / (OPACITY_SCALE as int)
    }
}

impl Color {
    pub fn rgb(r: u8, g: u8, b: u8) -> (color: Self)
        ensures
            color == (Color { r, g, b, a: 255 }),
    {
        Self { r, g, b, a: 255 }
    }

    pub fn rgba(r: u8, g: u8, b: u8, a: u8) -> (color: Self)
        ensures
            color == (Color { r, g, b, a }),
    {
        Self { r, g, b, a }
    }

    /// The colour `color` with the alpha channel that `opacity` (in
    /// thousandths) stands for.
    pub fn from_rgb_color(color: &RgbColor, opacity: u32) -> (result: Self)
        ensures
            result.r == color.r,
            result.g == color.g,
            result.b == color.b,
            result.a == alpha_of_opacity(opacity as int),
    {
        let a: u8 = if opacity >= OPACITY_SCALE {
            255
        } else {
            (opacity * 255 / OPACITY_SCALE) as u8
        };
        Self { r: color.r, g: color.g, b: color.b, a }
    }

    /// The fully opaque colour with the channels of `color`.
    pub fn opaque(color: &RgbColor) -> (result: Self)
        ensures
            result == opaque_color(*color),
    {
        Self { r: color.r, g: color.g, b: color.b, a: 255 }
    }
}

pub open spec fn opaque_color(color: RgbColor) -> Color {
    Color { r: color.r, g: color.g, b: color.b, a: 255 }
}

/// Which card a value belongs to.
#[derive(Clone, Copy, Debug, PartialEq, Eq)]
pub enum TimeDigitPosition {
    Hour,
    Minute,
    Second,
}

/// The flip state of one card for one frame. `progress` counts thousandths.
#[derive(Clone, Copy, Debug, PartialEq, Eq)]
pub struct AnimationState {
    pub current_value: u32,
    pub previous_value: Option<u32>,
    pub is_animating: bool,
    pub progress: u32,
}

impl AnimationState {
    pub open spec fn well_formed(&self) -> bool {
        self.progress <= PROGRESS_SCALE
    }
}

#[derive(Clone, Copy, Debug, PartialEq, Eq)]
pub struct ClockLayout {
    pub hour_rect: Rect,
    pub minute_rect: Rect,
    pub second_rect: Option<Rect>,
    pub is_horizontal: bool,
    pub rect_size: u32,
    pub spacing: i32,
}

/// The rendered text a blit reads from: the digits of a value, or the
/// meridiem label.
#[derive(Clone, Copy, Debug, PartialEq, Eq)]
pub enum TextBitmap {
    Digits(u32),
    Am,
    Pm,
}

/// Which of the two fonts a text is rasterised in: the large one of the
/// digits or the small one of the AM and PM label.
#[derive(Clone, Copy, Debug, PartialEq, Eq)]
pub enum FontRole {
    Time,
    Mode,
}

/// Width and height of a rendered text bitmap, in pixels.
#[derive(Clone, Copy, Debug, PartialEq, Eq)]
pub struct BitmapSize {
    pub width: u32,
    pub height: u32,
}

impl BitmapSize {
    pub open spec fn in_extent(&self) -> bool {
        self.width <= MAX_EXTENT && self.height <= MAX_EXTENT
    }

    pub fn fits_extent(&self) -> (fits: bool)
        ensures
            fits == self.in_extent(),
    {
        self.width <= MAX_EXTENT && self.height <= MAX_EXTENT
    }
}

/// One primitive operation of the rendering backend.
#[derive(Clone, Copy, Debug, PartialEq, Eq)]
pub enum DrawCommand {
    /// Fill the whole canvas with `color`.
    Clear { color: Color },
    /// Show the finished frame.
    Present,
    /// Fill the pixels of `rect`.
    FillRect { rect: Rect, color: Color },
    /// Stroke the one-pixel outline of `rect`.
    OutlineRect { rect: Rect, color: Color },
    /// Set one pixel.
    Point { x: i32, y: i32, color: Color },
    /// Stroke the segment between two pixels, both included.
    Line { x1: i32, y1: i32, x2: i32, y2: i32, color: Color },
    /// Stroke the circular arc around `(center_x, center_y)` between two
    /// angles in degrees, measured clockwise on screen from the positive x axis.
    Arc { center_x: i32, center_y: i32, radius: i32, start_degrees: u32, end_degrees: u32, color: Color },
    /// Copy the part `src` of a text bitmap into `dest`, scaling to fit.
    Blit { bitmap: TextBitmap, src: Rect, dest: Rect },
}

/// One call on the graphics engine that draws a frame.
#[derive(Clone, Copy, Debug, PartialEq, Eq)]
pub enum EngineRequest {
    Clear,
    Present,
    RenderDigit { value: u32, position: TimeDigitPosition, rect: Rect, animation: Option<AnimationState> },
    RenderAmPmIndicator { rect: Rect, is_pm: bool },
}

} // verus!
