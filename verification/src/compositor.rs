//! The flip compositor: one card, with its background, border and digits,
//! at rest or in the middle of a flip.
//!
//! The digits come as text bitmaps rendered elsewhere. The compositor needs
//! only their sizes, and says which parts of which bitmap go where.

use crate::config::ClockSettings;
use crate::easing::{
    easing_function, flip_fraction, in_top_phase, reveal_fraction, scale_length, EASED_ONE,
};
use crate::geometry::{
    border_fits, border_fits_in, draw_rounded_rect_border, fill_rounded_rect, rounded_border,
    rounded_fill,
};
use crate::graphics_engine::{
    opaque_color, AnimationState, BitmapSize, Color, DrawCommand, FontRole, Rect, TextBitmap,
    TimeDigitPosition, PROGRESS_SCALE,
};
use crate::layout::half_toward_zero;
use vstd::prelude::*;

verus! {

/// Distance of the AM and PM label from the edge of the hour card.
pub const LABEL_MARGIN: i32 = 10;

/// The character of one decimal digit.
pub open spec fn digit_char(digit: int) -> char {
    if digit == 0 {
        '0'
    } else if digit == 1 {
        '1'
    } else if digit == 2 {
        '2'
    } else if digit == 3 {
        '3'
    } else if digit == 4 {
        '4'
    } else if digit == 5 {
        '5'
    } else if digit == 6 {
        '6'
    } else if digit == 7 {
        '7'
    } else if digit == 8 {
        '8'
    } else {
        '9'
    }
}

/// The decimal digits of `value`, without leading zeros.
pub open spec fn decimal(value: nat) -> Seq<char>
    decreases value,
{
    if value < 10 {
        seq![digit_char(value as int)]
    } else {
        decimal(value / 10).push(digit_char((value % 10) as int))
    }
}

/// The text on a card: the decimal digits of `value`, with a zero in front
/// of a single digit where leading zeros are shown.
pub open spec fn formatted_time(show_leading_zero: bool, value: nat) -> Seq<char> {
    if show_leading_zero && value < 10 {
        seq!['0'] + decimal(value)
    } else {
        decimal(value)
    }
}

fn digit_text(digit: u32) -> (text: &'static str)
    requires
        digit < 10,
    ensures
        text@ == seq![digit_char(digit as int)],
{
    proof {
        reveal_strlit("0");
        reveal_strlit("1");
        reveal_strlit("2");
        reveal_strlit("3");
        reveal_strlit("4");
        reveal_strlit("5");
        reveal_strlit("6");
        reveal_strlit("7");
        reveal_strlit("8");
        reveal_strlit("9");
    }
    let text = if digit == 0 {
        "0"
    } else if digit == 1 {
        "1"
    } else if digit == 2 {
        "2"
    } else if digit == 3 {
        "3"
    } else if digit == 4 {
        "4"
    } else if digit == 5 {
        "5"
    } else if digit == 6 {
        "6"
    } else if digit == 7 {
        "7"
    } else if digit == 8 {
        "8"
    } else {
        "9"
    };
    assert(text@ =~= seq![digit_char(digit as int)]);
    text
}

fn push_decimal(text: &mut String, value: u32)
    ensures
        final(text)@ == old(text)@ + decimal(value as nat),
    decreases value,
{
    if value >= 10 {
        push_decimal(text, value / 10);
    }
    text.append(digit_text(value % 10));
    assert(text@ =~= old(text)@ + decimal(value as nat));
}

/// The text that a card shows for `time`.
pub fn format_time(settings: &ClockSettings, time: u32) -> (text: String)
    ensures
        text@ == formatted_time(settings.show_leading_zero, time as nat),
{
    let mut text = String::new();
    if settings.show_leading_zero && time < 10 {
        text.append(digit_text(0));
    }
    push_decimal(&mut text, time);
    assert(text@ =~= formatted_time(settings.show_leading_zero, time as nat));
    text
}

/// The command that clears the canvas: it is filled with the background
/// colour of the settings, fully opaque.
pub fn clear(settings: &ClockSettings) -> (commands: Vec<DrawCommand>)
    ensures
        commands@ == seq![DrawCommand::Clear { color: opaque_color(settings.background_color) }],
{
    let mut out: Vec<DrawCommand> = Vec::new();
    out.push(DrawCommand::Clear { color: Color::opaque(&settings.background_color) });
    assert(out@ =~= seq![DrawCommand::Clear { color: opaque_color(settings.background_color) }]);
    out
}

/// The command that shows the finished frame.
pub fn present() -> (commands: Vec<DrawCommand>)
    ensures
        commands@ == seq![DrawCommand::Present],
{
    let mut out: Vec<DrawCommand> = Vec::new();
    out.push(DrawCommand::Present);
    assert(out@ =~= seq![DrawCommand::Present]);
    out
}

/// The card can be drawn in `rect`: the gap between its halves is no
/// higher than the card, and its border fits inside.
pub open spec fn card_fits(settings: ClockSettings, rect: Rect) -> bool {
    &&& 0 <= settings.card_gap <= rect.height
    &&& border_fits(rect, settings.card_border_size as int)
}

/// Height of the upper half of a card: half of what the gap leaves.
pub open spec fn top_half_height(settings: ClockSettings, rect: Rect) -> int {
    (rect.height - settings.card_gap) / 2
}

/// Height of the lower half of a card: what the upper half and the gap leave.
pub open spec fn bottom_half_height(settings: ClockSettings, rect: Rect) -> int {
    rect.height - top_half_height(settings, rect) - settings.card_gap
}

/// The corner radius of a card: a tenth of its height where corners are
/// rounded, and zero where they are not.
pub open spec fn corner_radius(settings: ClockSettings, rect: Rect) -> int {
    if settings.card_rounded_corners {
        rect.height as int / 10
    } else {
        0
    }
}

/// The left edge of a bitmap of the given width, centred in the card.
pub open spec fn digit_x(rect: Rect, width: int) -> int {
    rect.x + half_toward_zero(rect.width - width)
}

/// The commands of the card's face: the filled background, then the
/// border where the settings ask for one.
pub open spec fn card_background(settings: ClockSettings, rect: Rect) -> Seq<DrawCommand> {
    let radius = corner_radius(settings, rect);
    let fill = rounded_fill(rect, opaque_color(settings.card_color), radius);
    if settings.card_border_size > 0 {
        fill + rounded_border(
            rect,
            opaque_color(settings.card_border_color),
            radius,
            settings.card_border_size as int,
        )
    } else {
        fill
    }
}

/// The strip between the two halves, in the colour of the card.
pub open spec fn gap_strip(settings: ClockSettings, rect: Rect) -> DrawCommand {
    DrawCommand::FillRect {
        rect: Rect {
            x: rect.x,
            y: (rect.y + top_half_height(settings, rect)) as i32,
            width: rect.width,
            height: settings.card_gap as u32,
        },
        color: opaque_color(settings.card_color),
    }
}

/// A copy from the bitmap of the digits of `value`.
pub open spec fn blit_digits(
    value: u32,
    src_x: int,
    src_y: int,
    src_width: int,
    src_height: int,
    dest_x: int,
    dest_y: int,
    dest_width: int,
    dest_height: int,
) -> DrawCommand {
    DrawCommand::Blit {
        bitmap: TextBitmap::Digits(value),
        src: Rect {
            x: src_x as i32,
            y: src_y as i32,
            width: src_width as u32,
            height: src_height as u32,
        },
        dest: Rect {
            x: dest_x as i32,
            y: dest_y as i32,
            width: dest_width as u32,
            height: dest_height as u32,
        },
    }
}

/// The digits of a card at rest: the upper half of the bitmap in the
/// upper half of the card and the lower half in the lower half, each
/// centred in its half.
pub open spec fn static_digits(
    settings: ClockSettings,
    value: u32,
    size: BitmapSize,
    rect: Rect,
) -> Seq<DrawCommand> {
    let top = top_half_height(settings, rect);
    let bottom = bottom_half_height(settings, rect);
    let half = size.height as int / 2;
    let x = digit_x(rect, size.width as int);
    seq![
        blit_digits(
            value,
            0,
            0,
            size.width as int,
            half,
            x,
            rect.y + half_toward_zero(top - half),
            size.width as int,
            top,
        ),
        blit_digits(
            value,
            0,
            half,
            size.width as int,
            half,
            x,
            rect.y + top + settings.card_gap + half_toward_zero(bottom - half),
            size.width as int,
            bottom,
        ),
    ]
}

/// The digits in the first phase of a flip. The new upper half grows
/// downward from the top of the card, the old upper half shrinks toward
/// the gap, and the old lower half stays.
pub open spec fn top_phase_digits(
    settings: ClockSettings,
    value: u32,
    size: BitmapSize,
    past: u32,
    past_size: BitmapSize,
    rect: Rect,
    progress: int,
) -> Seq<DrawCommand> {
    let top = top_half_height(settings, rect);
    let bottom = bottom_half_height(settings, rect);
    let reveal = reveal_fraction(progress);
    let revealed = scale_length(top, reveal);
    let remaining = scale_length(top, EASED_ONE as int - reveal);
    let past_half = past_size.height as int / 2;
    let past_x = digit_x(rect, past_size.width as int);
    seq![
        blit_digits(
            value,
            0,
            0,
            size.width as int,
            revealed,
            digit_x(rect, size.width as int),
            rect.y as int,
            size.width as int,
            revealed,
        ),
        blit_digits(
            past,
            0,
            0,
            past_size.width as int,
            past_half,
            past_x,
            rect.y + top - remaining,
            past_size.width as int,
            remaining,
        ),
        blit_digits(
            past,
            0,
            past_half,
            past_size.width as int,
            past_half,
            past_x,
            rect.y + top + settings.card_gap,
            past_size.width as int,
            bottom,
        ),
    ]
}

/// The digits in the second phase of a flip. The new upper half is
/// complete, the old lower half shrinks toward the bottom of the card, and
/// the new lower half grows downward from the gap.
pub open spec fn bottom_phase_digits(
    settings: ClockSettings,
    value: u32,
    size: BitmapSize,
    past: u32,
    past_size: BitmapSize,
    rect: Rect,
    progress: int,
) -> Seq<DrawCommand> {
    let top = top_half_height(settings, rect);
    let bottom = bottom_half_height(settings, rect);
    let flip = flip_fraction(progress);
    let remaining = scale_length(bottom, EASED_ONE as int - flip);
    let revealed = scale_length(bottom, flip);
    let half = size.height as int / 2;
    let past_half = past_size.height as int / 2;
    let x = digit_x(rect, size.width as int);
    let lower_y = rect.y + top + settings.card_gap;
    seq![
        blit_digits(value, 0, 0, size.width as int, half, x, rect.y as int, size.width as int, top),
        blit_digits(
            past,
            0,
            past_half + (bottom - remaining),
            past_size.width as int,
            remaining,
            digit_x(rect, past_size.width as int),
            lower_y + (bottom - remaining),
            past_size.width as int,
            remaining,
        ),
        blit_digits(
            value,
            0,
            half,
            size.width as int,
            revealed,
            x,
            lower_y,
            size.width as int,
            revealed,
        ),
    ]
}

/// The digits of a card in the middle of a flip from `past` to `value`.
pub open spec fn flip_digits(
    settings: ClockSettings,
    value: u32,
    size: BitmapSize,
    past: u32,
    past_size: BitmapSize,
    rect: Rect,
    progress: int,
) -> Seq<DrawCommand> {
    if in_top_phase(progress) {
        top_phase_digits(settings, value, size, past, past_size, rect, progress)
    } else {
        bottom_phase_digits(settings, value, size, past, past_size, rect, progress)
    }
}

/// The card is drawn in the middle of a flip only if it is animating and
/// has a value to flip from. Every other card is drawn at rest.
pub open spec fn shows_flip(past_time: Option<u32>, is_animating: bool) -> bool {
    is_animating && past_time is Some
}

/// Everything that draws one card: background, border, digits, and last
/// the gap strip, which hides what the digits drew across the seam.
pub open spec fn card_commands(
    settings: ClockSettings,
    current_time: u32,
    past_time: Option<u32>,
    rect: Rect,
    is_animating: bool,
    progress: int,
    current_size: BitmapSize,
    past_size: BitmapSize,
) -> Seq<DrawCommand> {
    let digits = if shows_flip(past_time, is_animating) {
        flip_digits(
            settings,
            current_time,
            current_size,
            past_time->0,
            past_size,
            rect,
            progress,
        )
    } else {
        static_digits(settings, current_time, current_size, rect)
    };
    card_background(settings, rect) + digits.push(gap_strip(settings, rect))
}

/// A fraction of a length is a length between zero and the whole.
proof fn lemma_scale_length_bounds(length: int, fraction: int)
    requires
        0 <= length,
        0 <= fraction <= EASED_ONE,
    ensures
        0 <= scale_length(length, fraction) <= length,
{
    assert(0 <= length * fraction <= length * 1_000_000_000) by (nonlinear_arith)
        requires
            0 <= length,
            0 <= fraction <= 1_000_000_000,
    ;
}

fn scale(length: u32, fraction: u64) -> (scaled: u32)
    requires
        fraction <= EASED_ONE,
    ensures
        scaled == scale_length(length as int, fraction as int),
        scaled <= length,
{
    proof {
        lemma_scale_length_bounds(length as int, fraction as int);
        assert(length * fraction <= 0xFFFF_FFFF * 1_000_000_000) by (nonlinear_arith)
            requires
                0 <= length <= 0xFFFF_FFFF,
                0 <= fraction <= 1_000_000_000,
        ;
    }
    ((length as u64) * fraction / EASED_ONE) as u32
}

fn blit(
    value: u32,
    src_x: i32,
    src_y: i32,
    src_width: u32,
    src_height: u32,
    dest_x: i32,
    dest_y: i32,
    dest_width: u32,
    dest_height: u32,
) -> (command: DrawCommand)
    ensures
        command == blit_digits(
            value,
            src_x as int,
            src_y as int,
            src_width as int,
            src_height as int,
            dest_x as int,
            dest_y as int,
            dest_width as int,
            dest_height as int,
        ),
{
    DrawCommand::Blit {
        bitmap: TextBitmap::Digits(value),
        src: Rect { x: src_x, y: src_y, width: src_width, height: src_height },
        dest: Rect { x: dest_x, y: dest_y, width: dest_width, height: dest_height },
    }
}

/// The heights of the two halves of a card, upper first.
fn half_heights(settings: &ClockSettings, rect: &Rect) -> (halves: (u32, u32))
    requires
        rect.in_extent(),
        card_fits(*settings, *rect),
    ensures
        halves.0 == top_half_height(*settings, *rect),
        halves.1 == bottom_half_height(*settings, *rect),
        halves.0 + settings.card_gap + halves.1 == rect.height,
{
    let top = (rect.height - settings.card_gap as u32) / 2;
    (top, rect.height - top - settings.card_gap as u32)
}

/// The left edge of a bitmap of the given width, centred in the card.
fn centered_x(rect: &Rect, width: u32) -> (x: i32)
    requires
        rect.in_extent(),
        width <= crate::graphics_engine::MAX_EXTENT,
    ensures
        x == digit_x(*rect, width as int),
{
    rect.x + (rect.width as i32 - width as i32) / 2
}

/// Draws the face of a card: background and border.
fn draw_card_background(settings: &ClockSettings, rect: &Rect) -> (commands: Vec<DrawCommand>)
    requires
        rect.in_extent(),
        card_fits(*settings, *rect),
    ensures
        commands@ == card_background(*settings, *rect),
{
    let radius = if settings.card_rounded_corners {
        (rect.height / 10) as i32
    } else {
        0
    };
    let mut out = fill_rounded_rect(rect, Color::opaque(&settings.card_color), radius);
    if settings.card_border_size > 0 {
        let mut border = draw_rounded_rect_border(
            rect,
            Color::opaque(&settings.card_border_color),
            radius,
            settings.card_border_size,
        );
        out.append(&mut border);
    }
    out
}

/// Appends the digits of a card at rest.
fn draw_static_digits(
    out: &mut Vec<DrawCommand>,
    settings: &ClockSettings,
    value: u32,
    size: BitmapSize,
    rect: &Rect,
)
    requires
        rect.in_extent(),
        card_fits(*settings, *rect),
        size.in_extent(),
    ensures
        final(out)@ == old(out)@ + static_digits(*settings, value, size, *rect),
{
    let (top, bottom) = half_heights(settings, rect);
    let half = size.height / 2;
    let x = centered_x(rect, size.width);
    let upper_y = rect.y + (top as i32 - half as i32) / 2;
    let lower_y = rect.y + top as i32 + settings.card_gap + (bottom as i32 - half as i32) / 2;
    out.push(blit(value, 0, 0, size.width, half, x, upper_y, size.width, top));
    out.push(blit(value, 0, half as i32, size.width, half, x, lower_y, size.width, bottom));
    assert(out@ =~= old(out)@ + static_digits(*settings, value, size, *rect));
}

/// Appends the digits of the first phase of a flip.
fn draw_top_phase(
    out: &mut Vec<DrawCommand>,
    settings: &ClockSettings,
    value: u32,
    size: BitmapSize,
    past: u32,
    past_size: BitmapSize,
    rect: &Rect,
    progress: u32,
    eased: u64,
)
    requires
        rect.in_extent(),
        card_fits(*settings, *rect),
        size.in_extent(),
        past_size.in_extent(),
        eased == crate::easing::easing(progress as int),
        2 * eased < EASED_ONE,
    ensures
        final(out)@ == old(out)@ + top_phase_digits(
            *settings,
            value,
            size,
            past,
            past_size,
            *rect,
            progress as int,
        ),
{
    let (top, bottom) = half_heights(settings, rect);
    let reveal = 2 * eased;
    let revealed = scale(top, reveal);
    let remaining = scale(top, EASED_ONE - reveal);
    let past_half = past_size.height / 2;
    let past_x = centered_x(rect, past_size.width);
    let x = centered_x(rect, size.width);
    let lower_y = rect.y + top as i32 + settings.card_gap;
    out.push(blit(value, 0, 0, size.width, revealed, x, rect.y, size.width, revealed));
    out.push(
        blit(
            past,
            0,
            0,
            past_size.width,
            past_half,
            past_x,
            rect.y + top as i32 - remaining as i32,
            past_size.width,
            remaining,
        ),
    );
    out.push(
        blit(
            past,
            0,
            past_half as i32,
            past_size.width,
            past_half,
            past_x,
            lower_y,
            past_size.width,
            bottom,
        ),
    );
    assert(out@ =~= old(out)@ + top_phase_digits(
        *settings,
        value,
        size,
        past,
        past_size,
        *rect,
        progress as int,
    ));
}

/// Appends the digits of the second phase of a flip.
fn draw_bottom_phase(
    out: &mut Vec<DrawCommand>,
    settings: &ClockSettings,
    value: u32,
    size: BitmapSize,
    past: u32,
    past_size: BitmapSize,
    rect: &Rect,
    progress: u32,
    eased: u64,
)
    requires
        rect.in_extent(),
        card_fits(*settings, *rect),
        size.in_extent(),
        past_size.in_extent(),
        eased == crate::easing::easing(progress as int),
        EASED_ONE <= 2 * eased <= 2 * EASED_ONE,
    ensures
        final(out)@ == old(out)@ + bottom_phase_digits(
            *settings,
            value,
            size,
            past,
            past_size,
            *rect,
            progress as int,
        ),
{
    let (top, bottom) = half_heights(settings, rect);
    let flip = 2 * eased - EASED_ONE;
    let remaining = scale(bottom, EASED_ONE - flip);
    let revealed = scale(bottom, flip);
    let half = size.height / 2;
    let past_half = past_size.height / 2;
    let x = centered_x(rect, size.width);
    let past_x = centered_x(rect, past_size.width);
    let lower_y = rect.y + top as i32 + settings.card_gap;
    let hidden = (bottom - remaining) as i32;
    out.push(blit(value, 0, 0, size.width, half, x, rect.y, size.width, top));
    out.push(
        blit(
            past,
            0,
            past_half as i32 + hidden,
            past_size.width,
            remaining,
            past_x,
            lower_y + hidden,
            past_size.width,
            remaining,
        ),
    );
    out.push(blit(value, 0, half as i32, size.width, revealed, x, lower_y, size.width, revealed));
    assert(out@ =~= old(out)@ + bottom_phase_digits(
        *settings,
        value,
        size,
        past,
        past_size,
        *rect,
        progress as int,
    ));
}

/// The card can be drawn: the rectangle and the bitmap lie in the range
/// the engine computes with and the card fits the rectangle; where a flip
/// is shown, the same holds of the past bitmap, and the progress is at
/// most 1.
pub open spec fn card_drawable(
    settings: ClockSettings,
    rect: Rect,
    past_time: Option<u32>,
    is_animating: bool,
    progress: int,
    current_size: BitmapSize,
    past_size: BitmapSize,
) -> bool {
    &&& rect.in_extent()
    &&& card_fits(settings, rect)
    &&& current_size.in_extent()
    &&& shows_flip(past_time, is_animating) ==> past_size.in_extent() && progress
        <= PROGRESS_SCALE
}

/// Draws one card, and nothing where the card cannot be drawn.
///
/// `current_size` is the size of the bitmap of `format_time(current_time)`,
/// and `past_size` that of the bitmap of the past value's text, which is
/// read only while a flip is shown. `animation_progress` counts
/// thousandths.
pub fn render_digits(
    settings: &ClockSettings,
    current_time: u32,
    past_time: Option<u32>,
    rect: &Rect,
    is_animating: bool,
    animation_progress: u32,
    current_size: BitmapSize,
    past_size: BitmapSize,
) -> (commands: Option<Vec<DrawCommand>>)
    ensures
        commands is Some == card_drawable(
            *settings,
            *rect,
            past_time,
            is_animating,
            animation_progress as int,
            current_size,
            past_size,
        ),
        commands matches Some(drawn) ==> drawn@ == card_commands(
            *settings,
            current_time,
            past_time,
            *rect,
            is_animating,
            animation_progress as int,
            current_size,
            past_size,
        ),
{
    let flips = is_animating && past_time.is_some();
    if !rect.fits_extent() || !card_fits_in(settings, rect) || !current_size.fits_extent() {
        return None;
    }
    if flips && (!past_size.fits_extent() || animation_progress > PROGRESS_SCALE) {
        return None;
    }
    let mut out = draw_card_background(settings, rect);
    match past_time {
        Some(past) if is_animating => {
            let eased = easing_function(animation_progress);
            if 2 * eased < EASED_ONE {
                draw_top_phase(
                    &mut out,
                    settings,
                    current_time,
                    current_size,
                    past,
                    past_size,
                    rect,
                    animation_progress,
                    eased,
                );
            } else {
                draw_bottom_phase(
                    &mut out,
                    settings,
                    current_time,
                    current_size,
                    past,
                    past_size,
                    rect,
                    animation_progress,
                    eased,
                );
            }
        },
        _ => {
            draw_static_digits(&mut out, settings, current_time, current_size, rect);
        },
    }
    let (top, _) = half_heights(settings, rect);
    let strip = DrawCommand::FillRect {
        rect: Rect {
            x: rect.x,
            y: rect.y + top as i32,
            width: rect.width,
            height: settings.card_gap as u32,
        },
        color: Color::opaque(&settings.card_color),
    };
    out.push(strip);
    assert(strip == gap_strip(*settings, *rect));
    assert(out@ =~= card_commands(
        *settings,
        current_time,
        past_time,
        *rect,
        is_animating,
        animation_progress as int,
        current_size,
        past_size,
    ));
    Some(out)
}

/// The value that a card flips from, if its animation state asks for a flip.
pub open spec fn flip_origin(animation: Option<AnimationState>) -> Option<u32> {
    match animation {
        Some(state) if state.is_animating => state.previous_value,
        _ => None,
    }
}

/// The progress of a card's flip, and zero for a card without animation state.
pub open spec fn flip_progress(animation: Option<AnimationState>) -> int {
    match animation {
        Some(state) => state.progress as int,
        None => 0,
    }
}

/// Everything that draws the card of one unit, given its animation state.
/// A card without animation state, one that is not animating, and one that
/// has no value to flip from are all drawn at rest.
pub open spec fn digit_commands(
    settings: ClockSettings,
    value: u32,
    rect: Rect,
    animation: Option<AnimationState>,
    current_size: BitmapSize,
    past_size: BitmapSize,
) -> Seq<DrawCommand> {
    card_commands(
        settings,
        value,
        flip_origin(animation),
        rect,
        flip_origin(animation) is Some,
        flip_progress(animation),
        current_size,
        past_size,
    )
}

/// The value whose text a flip of this card reads besides the current one:
/// the previous value of an animating card, and none for a card at rest.
pub fn flip_source(animation: &Option<AnimationState>) -> (past: Option<u32>)
    ensures
        past == flip_origin(*animation),
{
    match animation {
        Some(state) => if state.is_animating {
            state.previous_value
        } else {
            None
        },
        None => None,
    }
}

/// The card of a unit can be drawn with its animation state: see
/// `card_drawable`. The progress of an animation state that asks for no
/// flip is not looked at.
pub open spec fn renderable(
    settings: ClockSettings,
    rect: Rect,
    animation: Option<AnimationState>,
    current_size: BitmapSize,
    past_size: BitmapSize,
) -> bool {
    card_drawable(
        settings,
        rect,
        flip_origin(animation),
        flip_origin(animation) is Some,
        flip_progress(animation),
        current_size,
        past_size,
    )
}

/// Whether the card can be drawn in `rect`.
pub fn card_fits_in(settings: &ClockSettings, rect: &Rect) -> (fits: bool)
    ensures
        fits == card_fits(*settings, *rect),
{
    settings.card_gap >= 0 && settings.card_gap as u32 <= rect.height && border_fits_in(
        rect,
        settings.card_border_size,
    )
}

/// Draws the card of one unit, and nothing where the card cannot be drawn.
/// Every unit is drawn alike: `position` only names the card.
pub fn render_digit(
    settings: &ClockSettings,
    value: u32,
    position: TimeDigitPosition,
    rect: &Rect,
    animation: Option<AnimationState>,
    current_size: BitmapSize,
    past_size: BitmapSize,
) -> (commands: Option<Vec<DrawCommand>>)
    ensures
        commands is Some == renderable(*settings, *rect, animation, current_size, past_size),
        commands matches Some(drawn) ==> drawn@ == digit_commands(
            *settings,
            value,
            *rect,
            animation,
            current_size,
            past_size,
        ),
{
    let past_time = flip_source(&animation);
    let progress = match animation {
        Some(state) => state.progress,
        None => 0,
    };
    render_digits(
        settings,
        value,
        past_time,
        rect,
        past_time.is_some(),
        progress,
        current_size,
        past_size,
    )
}

/// The text bitmaps that the card of a unit is drawn from: that of its
/// value, and in a flip that of the value it flips from.
pub fn digit_bitmaps(value: u32, animation: &Option<AnimationState>) -> (bitmaps: Vec<TextBitmap>)
    ensures
        bitmaps@ == match flip_origin(*animation) {
            Some(past) => seq![TextBitmap::Digits(value), TextBitmap::Digits(past)],
            None => seq![TextBitmap::Digits(value)],
        },
{
    let mut bitmaps: Vec<TextBitmap> = Vec::new();
    bitmaps.push(TextBitmap::Digits(value));
    if let Some(past) = flip_source(animation) {
        bitmaps.push(TextBitmap::Digits(past));
        assert(bitmaps@ =~= seq![TextBitmap::Digits(value), TextBitmap::Digits(past)]);
    } else {
        assert(bitmaps@ =~= seq![TextBitmap::Digits(value)]);
    }
    bitmaps
}

/// The characters of a text bitmap: the formatted value, or the label.
pub open spec fn bitmap_chars(settings: ClockSettings, bitmap: TextBitmap) -> Seq<char> {
    match bitmap {
        TextBitmap::Digits(value) => formatted_time(settings.show_leading_zero, value as nat),
        TextBitmap::Am => "AM"@,
        TextBitmap::Pm => "PM"@,
    }
}

/// The font of a text bitmap: the large one for digits, the small one for
/// the label.
pub open spec fn bitmap_font(bitmap: TextBitmap) -> FontRole {
    match bitmap {
        TextBitmap::Digits(_) => FontRole::Time,
        TextBitmap::Am => FontRole::Mode,
        TextBitmap::Pm => FontRole::Mode,
    }
}

/// How a text bitmap is rasterised.
#[derive(Debug)]
pub struct TextStyle {
    pub text: String,
    pub color: Color,
    pub font: FontRole,
}

/// What is rasterised for a text bitmap: its text, in the font colour of
/// the settings, fully opaque, in the font of its kind.
pub fn text_style(settings: &ClockSettings, bitmap: TextBitmap) -> (style: TextStyle)
    ensures
        style.text@ == bitmap_chars(*settings, bitmap),
        style.color == opaque_color(settings.font_color),
        style.font == bitmap_font(bitmap),
{
    let color = Color::opaque(&settings.font_color);
    match bitmap {
        TextBitmap::Digits(value) => TextStyle {
            text: format_time(settings, value),
            color,
            font: FontRole::Time,
        },
        TextBitmap::Am => TextStyle {
            text: am_pm_text(false).to_owned(),
            color,
            font: FontRole::Mode,
        },
        TextBitmap::Pm => TextStyle { text: am_pm_text(true).to_owned(), color, font: FontRole::Mode },
    }
}

/// Where the top of the AM and PM label goes: a margin below the top of
/// the hour card for AM, a margin above its bottom for PM.
pub open spec fn label_y(rect: Rect, is_pm: bool, size: BitmapSize) -> int {
    if is_pm {
        rect.y + rect.height - size.height - LABEL_MARGIN
    } else {
        rect.y + LABEL_MARGIN
    }
}

/// The text bitmap of the label: none on the 24-hour clock, and AM or PM
/// on the 12-hour clock.
pub open spec fn label_of(settings: ClockSettings, is_pm: bool) -> Option<TextBitmap> {
    if settings.use_24hour {
        None
    } else if is_pm {
        Some(TextBitmap::Pm)
    } else {
        Some(TextBitmap::Am)
    }
}

/// The text bitmap that the label is drawn from, if there is a label.
pub fn label_bitmap(settings: &ClockSettings, is_pm: bool) -> (bitmap: Option<TextBitmap>)
    ensures
        bitmap == label_of(*settings, is_pm),
{
    if settings.use_24hour {
        None
    } else if is_pm {
        Some(TextBitmap::Pm)
    } else {
        Some(TextBitmap::Am)
    }
}

/// The label, whole, centred over the hour card, where there is one.
pub open spec fn am_pm_commands(
    settings: ClockSettings,
    rect: Rect,
    is_pm: bool,
    size: BitmapSize,
) -> Seq<DrawCommand> {
    match label_of(settings, is_pm) {
        None => Seq::empty(),
        Some(bitmap) => seq![
            DrawCommand::Blit {
                bitmap,
                src: Rect { x: 0, y: 0, width: size.width, height: size.height },
                dest: Rect {
                    x: (rect.x + rect.width as int / 2 - size.width as int / 2) as i32,
                    y: label_y(rect, is_pm, size) as i32,
                    width: size.width,
                    height: size.height,
                },
            },
        ],
    }
}

/// The text of the label.
pub fn am_pm_text(is_pm: bool) -> (text: &'static str)
    ensures
        text@ == if is_pm {
            "PM"@
        } else {
            "AM"@
        },
{
    if is_pm {
        "PM"
    } else {
        "AM"
    }
}

/// The label can be drawn: on the 24-hour clock always, since there is
/// none; otherwise where the card and the bitmap lie in the range the
/// engine computes with and the label's place is a coordinate.
pub open spec fn label_drawable(
    settings: ClockSettings,
    rect: Rect,
    is_pm: bool,
    size: BitmapSize,
) -> bool {
    !settings.use_24hour ==> rect.in_extent() && size.in_extent() && i32::MIN <= label_y(
        rect,
        is_pm,
        size,
    )
}

/// Draws the AM or PM label over the hour card `rect`, and nothing where
/// the label cannot be drawn. `size` is the size of the bitmap of the
/// label's text.
pub fn render_am_pm(settings: &ClockSettings, rect: &Rect, is_pm: bool, size: BitmapSize) -> (commands:
    Option<Vec<DrawCommand>>)
    ensures
        commands is Some == label_drawable(*settings, *rect, is_pm, size),
        commands matches Some(drawn) ==> drawn@ == am_pm_commands(*settings, *rect, is_pm, size),
{
    let mut out: Vec<DrawCommand> = Vec::new();
    if let Some(bitmap) = label_bitmap(settings, is_pm) {
        if !rect.fits_extent() || !size.fits_extent() {
            return None;
        }
        if is_pm && (rect.y as i64 + rect.height as i64 - size.height as i64
            - LABEL_MARGIN as i64) < i32::MIN as i64 {
            return None;
        }
        let x = rect.x + (rect.width / 2) as i32 - (size.width / 2) as i32;
        let y = if is_pm {
            rect.y + rect.height as i32 - size.height as i32 - LABEL_MARGIN
        } else {
            rect.y + LABEL_MARGIN
        };
        out.push(
            DrawCommand::Blit {
                bitmap,
                src: Rect { x: 0, y: 0, width: size.width, height: size.height },
                dest: Rect { x, y, width: size.width, height: size.height },
            },
        );
    }
    assert(out@ =~= am_pm_commands(*settings, *rect, is_pm, size));
    Some(out)
}

/// A card at rest is drawn from the settings, the value, the size of its
/// bitmap and the rectangle alone: whatever the animation state holds
/// besides, as long as it asks for no flip, and whatever the size of a past
/// bitmap, the commands are the same. Drawing it twice draws the same twice.
pub proof fn lemma_static_card_repeatable(
    settings: ClockSettings,
    value: u32,
    rect: Rect,
    size: BitmapSize,
    first: Option<AnimationState>,
    first_past_size: BitmapSize,
    second: Option<AnimationState>,
    second_past_size: BitmapSize,
)
    requires
        flip_origin(first) is None,
        flip_origin(second) is None,
    ensures
        digit_commands(settings, value, rect, first, size, first_past_size) == digit_commands(
            settings,
            value,
            rect,
            second,
            size,
            second_past_size,
        ),
        digit_commands(settings, value, rect, first, size, first_past_size) == card_background(
            settings,
            rect,
        ) + static_digits(settings, value, size, rect).push(gap_strip(settings, rect)),
{
}

/// An animating card with nothing to flip from still shows its digits: it
/// is drawn like a card at rest.
pub proof fn lemma_flip_without_past_is_static(
    settings: ClockSettings,
    value: u32,
    rect: Rect,
    size: BitmapSize,
    past_size: BitmapSize,
    progress: u32,
)
    ensures
        digit_commands(
            settings,
            value,
            rect,
            Some(
                AnimationState {
                    current_value: value,
                    previous_value: None,
                    is_animating: true,
                    progress,
                },
            ),
            size,
            past_size,
        ) == digit_commands(settings, value, rect, None, size, past_size),
{
}

/// The part of a half that the incoming bitmap covers at the given
/// fraction of a phase, and the part that the outgoing bitmap still covers.
/// Together they make up the half, to within the one pixel lost in rounding
/// down, and they never overlap.
pub proof fn lemma_phase_shares_half(half: int, fraction: int)
    requires
        0 <= half,
        0 <= fraction <= EASED_ONE,
    ensures
        0 <= scale_length(half, fraction) <= half,
        0 <= scale_length(half, EASED_ONE as int - fraction) <= half,
        half - 1 <= scale_length(half, fraction) + scale_length(
            half,
            EASED_ONE as int - fraction,
        ) <= half,
{
    lemma_scale_length_bounds(half, fraction);
    lemma_scale_length_bounds(half, EASED_ONE as int - fraction);
    assert(half * fraction + half * (1_000_000_000 - fraction) == half * 1_000_000_000)
        by (nonlinear_arith);
}

/// A longer fraction of a length is no shorter.
pub proof fn lemma_scale_length_monotonic(length: int, smaller: int, larger: int)
    requires
        0 <= length,
        0 <= smaller <= larger,
    ensures
        scale_length(length, smaller) <= scale_length(length, larger),
{
    assert(length * smaller <= length * larger) by (nonlinear_arith)
        requires
            0 <= length,
            0 <= smaller <= larger,
    ;
}

/// While a flip goes on, within either phase, what is shown of the new
/// digits never shrinks and what is shown of the old digits never grows.
pub proof fn lemma_flip_moves_forward(half: int, earlier: int, later: int)
    requires
        0 <= half,
        0 <= earlier <= later <= PROGRESS_SCALE,
    ensures
        in_top_phase(later) ==> in_top_phase(earlier),
        in_top_phase(later) ==> scale_length(half, reveal_fraction(earlier)) <= scale_length(
            half,
            reveal_fraction(later),
        ) && scale_length(half, EASED_ONE as int - reveal_fraction(later)) <= scale_length(
            half,
            EASED_ONE as int - reveal_fraction(earlier),
        ),
        !in_top_phase(earlier) ==> scale_length(half, flip_fraction(earlier)) <= scale_length(
            half,
            flip_fraction(later),
        ) && scale_length(half, EASED_ONE as int - flip_fraction(later)) <= scale_length(
            half,
            EASED_ONE as int - flip_fraction(earlier),
        ),
{
    crate::easing::lemma_easing_monotonic(earlier, later);
    crate::easing::lemma_easing_range(earlier);
    crate::easing::lemma_easing_range(later);
    if in_top_phase(later) {
        lemma_scale_length_monotonic(half, reveal_fraction(earlier), reveal_fraction(later));
        lemma_scale_length_monotonic(
            half,
            EASED_ONE as int - reveal_fraction(later),
            EASED_ONE as int - reveal_fraction(earlier),
        );
    }
    if !in_top_phase(earlier) {
        lemma_scale_length_monotonic(half, flip_fraction(earlier), flip_fraction(later));
        lemma_scale_length_monotonic(
            half,
            EASED_ONE as int - flip_fraction(later),
            EASED_ONE as int - flip_fraction(earlier),
        );
    }
}

/// A flip begins with the old digits in full and nothing of the new ones,
/// and ends with the new digits in full and nothing of the old ones.
pub proof fn lemma_flip_ends(half: int)
    requires
        0 <= half,
    ensures
        in_top_phase(0),
        scale_length(half, reveal_fraction(0)) == 0,
        scale_length(half, EASED_ONE as int - reveal_fraction(0)) == half,
        !in_top_phase(PROGRESS_SCALE as int),
        scale_length(half, flip_fraction(PROGRESS_SCALE as int)) == half,
        scale_length(half, EASED_ONE as int - flip_fraction(PROGRESS_SCALE as int)) == 0,
{
    crate::easing::lemma_easing_fixed_points();
    assert(half * 0 == 0 && half * 1_000_000_000 / 1_000_000_000 == half) by (nonlinear_arith);
}

/// The rows from `y` up to, not including, `y + height` lie between
/// `from` and `to`.
pub open spec fn rows_within(dest: Rect, from: int, to: int) -> bool {
    from <= dest.y && dest.y + dest.height <= to
}

/// The rectangle that a blit copies into.
pub open spec fn blit_dest(command: DrawCommand) -> Rect {
    match command {
        DrawCommand::Blit { dest, .. } => dest,
        _ => Rect { x: 0, y: 0, width: 0, height: 0 },
    }
}

/// In the first phase of a flip the new and the old upper half are drawn
/// into the upper half of the card, the new one above the old one, and the
/// old lower half fills the lower half.
pub proof fn lemma_top_phase_layout(
    settings: ClockSettings,
    value: u32,
    size: BitmapSize,
    past: u32,
    past_size: BitmapSize,
    rect: Rect,
    progress: int,
)
    requires
        rect.in_extent(),
        card_fits(settings, rect),
        0 <= progress <= PROGRESS_SCALE,
        in_top_phase(progress),
    ensures
        ({
            let digits = top_phase_digits(settings, value, size, past, past_size, rect, progress);
            let top = top_half_height(settings, rect);
            let incoming = blit_dest(digits[0]);
            let outgoing = blit_dest(digits[1]);
            let lower = blit_dest(digits[2]);
            &&& incoming.y == rect.y
            &&& outgoing.y + outgoing.height == rect.y + top
            &&& incoming.y + incoming.height <= outgoing.y
            &&& rows_within(lower, rect.y + top + settings.card_gap, rect.y + rect.height)
            &&& lower.height == bottom_half_height(settings, rect)
        }),
{
    crate::easing::lemma_easing_range(progress);
    lemma_phase_shares_half(top_half_height(settings, rect), reveal_fraction(progress));
}

/// In the second phase of a flip the new upper half fills the upper half
/// of the card, and the new and the old lower half are drawn into the lower
/// half, the new one above the old one.
pub proof fn lemma_bottom_phase_layout(
    settings: ClockSettings,
    value: u32,
    size: BitmapSize,
    past: u32,
    past_size: BitmapSize,
    rect: Rect,
    progress: int,
)
    requires
        rect.in_extent(),
        card_fits(settings, rect),
        0 <= progress <= PROGRESS_SCALE,
        !in_top_phase(progress),
    ensures
        ({
            let digits = bottom_phase_digits(
                settings,
                value,
                size,
                past,
                past_size,
                rect,
                progress,
            );
            let top = top_half_height(settings, rect);
            let lower_y = rect.y + top + settings.card_gap;
            let upper = blit_dest(digits[0]);
            let outgoing = blit_dest(digits[1]);
            let incoming = blit_dest(digits[2]);
            &&& rows_within(upper, rect.y as int, rect.y + top)
            &&& upper.height == top
            &&& incoming.y == lower_y
            &&& outgoing.y + outgoing.height == rect.y + rect.height
            &&& incoming.y + incoming.height <= outgoing.y
        }),
{
    crate::easing::lemma_easing_range(progress);
    lemma_phase_shares_half(bottom_half_height(settings, rect), flip_fraction(progress));
}

/// Whatever a card shows, its face is drawn first and the strip over the
/// gap last.
pub proof fn lemma_card_ends_with_gap_strip(
    settings: ClockSettings,
    current_time: u32,
    past_time: Option<u32>,
    rect: Rect,
    is_animating: bool,
    progress: int,
    current_size: BitmapSize,
    past_size: BitmapSize,
)
    ensures
        ({
            let commands = card_commands(
                settings,
                current_time,
                past_time,
                rect,
                is_animating,
                progress,
                current_size,
                past_size,
            );
            let face = card_background(settings, rect);
            &&& commands.len() == face.len() + if shows_flip(past_time, is_animating) {
                4int
            } else {
                3int
            }
            &&& commands.subrange(0, face.len() as int) == face
            &&& commands.last() == gap_strip(settings, rect)
        }),
{
    let commands = card_commands(
        settings,
        current_time,
        past_time,
        rect,
        is_animating,
        progress,
        current_size,
        past_size,
    );
    let face = card_background(settings, rect);
    assert(commands.subrange(0, face.len() as int) =~= face);
}

} // verus!
