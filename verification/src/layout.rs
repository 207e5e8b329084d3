//! Where the cards go on the canvas, and how large the fonts are.

use crate::config::ClockSettings;
use crate::graphics_engine::{ClockLayout, FontRole, Rect, MAX_EXTENT};
use vstd::prelude::*;

verus! {

/// Half of `a`, rounded toward zero.
pub open spec fn half_toward_zero(a: int) -> int {
    if a >= 0 {
        a / 2
    } else {
        -((-a) / 2)
    }
}

/// Cards sit side by side when the canvas is wider than it is high, and
/// one below the other otherwise.
pub open spec fn is_horizontal(settings: ClockSettings) -> bool {
    settings.width > settings.height
}

/// The length of the canvas along the axis on which the cards are lined up.
pub open spec fn primary_length(settings: ClockSettings) -> int {
    if is_horizontal(settings) {
        settings.width as int
    } else {
        settings.height as int
    }
}

/// The length of the canvas across the line of cards.
pub open spec fn cross_length(settings: ClockSettings) -> int {
    if is_horizontal(settings) {
        settings.height as int
    } else {
        settings.width as int
    }
}

/// The edge of a card: 0.65 of the canvas across the line of cards.
pub open spec fn card_size(settings: ClockSettings) -> int {
    65 * cross_length(settings) / 100
}

/// The space between two cards: 0.031 of the canvas along the line of cards.
pub open spec fn card_spacing(settings: ClockSettings) -> int {
    31 * primary_length(settings) / 1000
}

/// The length of the whole block of cards with the spaces between them:
/// two cards and one space, or three cards and two spaces where the
/// seconds are shown.
pub open spec fn block_length(settings: ClockSettings) -> int {
    if settings.show_seconds {
        3 * card_size(settings) + 2 * card_spacing(settings)
    } else {
        2 * card_size(settings) + card_spacing(settings)
    }
}

/// Where the card number `index` starts along the line of cards: the block
/// is centred, and each card follows the one before after one space.
pub open spec fn card_primary(settings: ClockSettings, index: int) -> int {
    half_toward_zero(primary_length(settings) - block_length(settings)) + index * (card_size(
        settings,
    ) + card_spacing(settings))
}

/// Where every card starts across the line of cards: centred.
pub open spec fn card_cross(settings: ClockSettings) -> int {
    half_toward_zero(cross_length(settings) - card_size(settings))
}

/// The rectangle of the card number `index`.
pub open spec fn card_rect(settings: ClockSettings, index: int) -> Rect {
    let size = card_size(settings) as u32;
    if is_horizontal(settings) {
        Rect {
            x: card_primary(settings, index) as i32,
            y: card_cross(settings) as i32,
            width: size,
            height: size,
        }
    } else {
        Rect {
            x: card_cross(settings) as i32,
            y: card_primary(settings, index) as i32,
            width: size,
            height: size,
        }
    }
}

/// The layout of the clock for the given settings.
pub open spec fn layout_of(settings: ClockSettings) -> ClockLayout {
    ClockLayout {
        hour_rect: card_rect(settings, 0),
        minute_rect: card_rect(settings, 1),
        second_rect: if settings.show_seconds {
            Some(card_rect(settings, 2))
        } else {
            None
        },
        is_horizontal: is_horizontal(settings),
        rect_size: card_size(settings) as u32,
        spacing: card_spacing(settings) as i32,
    }
}

/// The second rectangle follows the first along the x axis, `gap` pixels
/// after its right edge, in the same row.
pub open spec fn follows_horizontally(first: Rect, second: Rect, gap: int) -> bool {
    second.x == first.x + first.width + gap && second.y == first.y
}

/// The second rectangle follows the first along the y axis, `gap` pixels
/// below its bottom edge, in the same column.
pub open spec fn follows_vertically(first: Rect, second: Rect, gap: int) -> bool {
    second.y == first.y + first.height + gap && second.x == first.x
}

/// The second rectangle follows the first along the layout's line of cards
/// after the layout's spacing.
pub open spec fn follows(layout: ClockLayout, first: Rect, second: Rect) -> bool {
    if layout.is_horizontal {
        follows_horizontally(first, second, layout.spacing as int)
    } else {
        follows_vertically(first, second, layout.spacing as int)
    }
}

/// Sizes and positions of a layout stay inside the range the engine
/// computes with.
proof fn lemma_layout_bounds(settings: ClockSettings, index: int)
    requires
        settings.well_formed(),
        0 <= index <= 2,
        index == 2 ==> settings.show_seconds,
    ensures
        0 <= card_size(settings) <= cross_length(settings) <= primary_length(settings)
            <= MAX_EXTENT,
        0 <= card_spacing(settings) <= primary_length(settings),
        0 <= card_cross(settings) <= MAX_EXTENT,
        -(MAX_EXTENT as int) <= card_primary(settings, index) <= MAX_EXTENT,
        card_rect(settings, index).in_extent(),
        card_rect(settings, index).width == card_size(settings),
        card_rect(settings, index).height == card_size(settings),
        card_rect(settings, index).x == if is_horizontal(settings) {
            card_primary(settings, index)
        } else {
            card_cross(settings)
        },
        card_rect(settings, index).y == if is_horizontal(settings) {
            card_cross(settings)
        } else {
            card_primary(settings, index)
        },
{
    let long = primary_length(settings);
    let short = cross_length(settings);
    let size = card_size(settings);
    let spacing = card_spacing(settings);
    assert(100 * size <= 65 * short);
    assert(1000 * spacing <= 31 * long);
    let step = size + spacing;
    assert(index * step == 0 || index * step == step || index * step == 2 * step)
        by (nonlinear_arith)
        requires
            0 <= index <= 2,
    ;
    assert(index == 0 ==> index * step == 0) by (nonlinear_arith);
    assert(index == 1 ==> index * step == step) by (nonlinear_arith);
    assert(index == 2 ==> index * step == 2 * step) by (nonlinear_arith);
}

/// For every canvas, the cards lie along the longer axis, each card
/// follows the one before after exactly the spacing, and no two cards
/// share a pixel.
pub proof fn lemma_layout_cards_in_line(settings: ClockSettings)
    requires
        settings.well_formed(),
    ensures
        ({
            let layout = layout_of(settings);
            &&& layout.is_horizontal == (settings.width > settings.height)
            &&& layout.spacing >= 0
            &&& follows(layout, layout.hour_rect, layout.minute_rect)
            &&& !layout.hour_rect.overlaps(&layout.minute_rect)
            &&& layout.second_rect is Some == settings.show_seconds
            &&& layout.second_rect matches Some(second) ==> {
                &&& follows(layout, layout.minute_rect, second)
                &&& !layout.minute_rect.overlaps(&second)
                &&& !layout.hour_rect.overlaps(&second)
            }
        }),
{
    lemma_layout_bounds(settings, 0);
    lemma_layout_bounds(settings, 1);
    let step = card_size(settings) + card_spacing(settings);
    assert(0 * step == 0 && 1 * step == step && 2 * step == step + step) by (nonlinear_arith);
    if settings.show_seconds {
        lemma_layout_bounds(settings, 2);
    }
}

/// Every card of a layout lies in the range the engine computes with.
pub proof fn lemma_layout_in_extent(settings: ClockSettings)
    requires
        settings.well_formed(),
    ensures
        layout_of(settings).hour_rect.in_extent(),
        layout_of(settings).minute_rect.in_extent(),
        layout_of(settings).second_rect matches Some(second) ==> second.in_extent(),
        layout_of(settings).rect_size == card_size(settings),
        layout_of(settings).spacing == card_spacing(settings),
{
    lemma_layout_bounds(settings, 0);
    lemma_layout_bounds(settings, 1);
    if settings.show_seconds {
        lemma_layout_bounds(settings, 2);
    }
}

fn card_rect_at(settings: &ClockSettings, index: u8) -> (rect: Rect)
    requires
        settings.well_formed(),
        index <= 2,
        index == 2 ==> settings.show_seconds,
    ensures
        rect == card_rect(*settings, index as int),
        rect.in_extent(),
{
    proof {
        lemma_layout_bounds(*settings, index as int);
    }
    let horizontal = settings.width > settings.height;
    let long: i64 = if horizontal {
        settings.width as i64
    } else {
        settings.height as i64
    };
    let short: i64 = if horizontal {
        settings.height as i64
    } else {
        settings.width as i64
    };
    let size: i64 = 65 * short / 100;
    let spacing: i64 = 31 * long / 1000;
    let block: i64 = if settings.show_seconds {
        3 * size + 2 * spacing
    } else {
        2 * size + spacing
    };
    let step: i64 = size + spacing;
    let offset: i64 = if index == 0 {
        0
    } else if index == 1 {
        step
    } else {
        2 * step
    };
    let ghost unit = card_size(*settings) + card_spacing(*settings);
    assert(offset == index * unit) by (nonlinear_arith)
        requires
            (index == 0 && offset == 0) || (index == 1 && offset == unit) || (index == 2 && offset
                == 2 * unit),
    ;
    let primary: i64 = (long - block) / 2 + offset;
    let cross: i64 = (short - size) / 2;
    if horizontal {
        Rect { x: primary as i32, y: cross as i32, width: size as u32, height: size as u32 }
    } else {
        Rect { x: cross as i32, y: primary as i32, width: size as u32, height: size as u32 }
    }
}

/// Computes the card rectangles from the canvas size and orientation.
pub fn calculate_layout(settings: &ClockSettings) -> (layout: ClockLayout)
    requires
        settings.well_formed(),
    ensures
        layout == layout_of(*settings),
        layout.hour_rect.in_extent(),
        layout.minute_rect.in_extent(),
        layout.second_rect matches Some(second) ==> second.in_extent(),
        layout.is_horizontal == (settings.width > settings.height),
        follows(layout, layout.hour_rect, layout.minute_rect),
        !layout.hour_rect.overlaps(&layout.minute_rect),
        layout.second_rect is Some == settings.show_seconds,
        layout.second_rect matches Some(second) ==> follows(layout, layout.minute_rect, second)
            && !layout.minute_rect.overlaps(&second) && !layout.hour_rect.overlaps(&second),
{
    proof {
        lemma_layout_cards_in_line(*settings);
        lemma_layout_bounds(*settings, 0);
    }
    let horizontal = settings.width > settings.height;
    let hour_rect = card_rect_at(settings, 0);
    let minute_rect = card_rect_at(settings, 1);
    let second_rect = if settings.show_seconds {
        Some(card_rect_at(settings, 2))
    } else {
        None
    };
    let spacing: u64 = if horizontal {
        31 * (settings.width as u64) / 1000
    } else {
        31 * (settings.height as u64) / 1000
    };
    ClockLayout {
        hour_rect,
        minute_rect,
        second_rect,
        is_horizontal: horizontal,
        rect_size: hour_rect.width,
        spacing: spacing as i32,
    }
}

/// The point size of the font of the digits: 0.55 of the canvas height,
/// and 65535 where that is more.
pub open spec fn time_font_points(height: int) -> int {
    let points = 55 * height / 100;
    if points > u16::MAX {
        u16::MAX as int
    } else {
        points
    }
}

/// The point size of the font of the AM and PM label: the canvas height
/// divided by 16.5, and 65535 where that is more.
pub open spec fn mode_font_points(height: int) -> int {
    let points = 2 * height / 33;
    if points > u16::MAX {
        u16::MAX as int
    } else {
        points
    }
}

pub fn time_font_size(height: u32) -> (points: u16)
    ensures
        points == time_font_points(height as int),
{
    let points: u64 = 55 * (height as u64) / 100;
    if points > 65535 {
        65535
    } else {
        points as u16
    }
}

pub fn mode_font_size(height: u32) -> (points: u16)
    ensures
        points == mode_font_points(height as int),
{
    let points: u64 = 2 * (height as u64) / 33;
    if points > 65535 {
        65535
    } else {
        points as u16
    }
}

/// The point size of the font of the given role on a canvas of the given
/// height.
pub fn font_size(role: FontRole, height: u32) -> (points: u16)
    ensures
        points == match role {
            FontRole::Time => time_font_points(height as int),
            FontRole::Mode => mode_font_points(height as int),
        },
{
    match role {
        FontRole::Time => time_font_size(height),
        FontRole::Mode => mode_font_size(height),
    }
}

/// Computes the layout like `calculate_layout`, for settings that are well
/// formed, and nothing for others.
pub fn try_calculate_layout(settings: &ClockSettings) -> (layout: Option<ClockLayout>)
    ensures
        layout == if settings.well_formed() {
            Some(layout_of(*settings))
        } else {
            None
        },
{
    if settings.is_well_formed() {
        Some(calculate_layout(settings))
    } else {
        None
    }
}

} // verus!
