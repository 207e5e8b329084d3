//! Which pixels the commands of a fill set, and what follows for rounded
//! rectangles.

use crate::geometry::{
    border_fits, border_ring, border_rings, clamped_radius, in_quarter_disc, inset_rect,
    quarter_circle, quarter_circle_row, quarter_circle_rows, rect_border, rounded_border,
    rounded_fill, Quadrant,
};
use crate::graphics_engine::{Color, DrawCommand, Rect};
use vstd::prelude::*;

verus! {

/// The fill command sets the pixel `(px, py)`: a filled rectangle sets the
/// pixels inside it, a point its own pixel. Other commands fill nothing.
pub open spec fn fills_pixel(command: DrawCommand, px: int, py: int) -> bool {
    match command {
        DrawCommand::FillRect { rect, .. } => rect.contains(px, py),
        DrawCommand::Point { x, y, .. } => x == px && y == py,
        _ => false,
    }
}

/// One of the commands sets the pixel `(px, py)`.
pub open spec fn filled(commands: Seq<DrawCommand>, px: int, py: int) -> bool {
    exists|i: int| 0 <= i < commands.len() && fills_pixel(#[trigger] commands[i], px, py)
}

/// The command is a fill in the given colour.
pub open spec fn fills_with(command: DrawCommand, color: Color) -> bool {
    match command {
        DrawCommand::FillRect { color: c, .. } => c == color,
        DrawCommand::Point { color: c, .. } => c == color,
        _ => false,
    }
}

/// The pixels of a rounded rectangle: with a radius of zero or less, the
/// rectangle; otherwise the two bands between the corners and the four
/// quarter discs around the corners' centres.
pub open spec fn in_rounded_rect(rect: Rect, radius: int, px: int, py: int) -> bool {
    if radius <= 0 {
        rect.contains(px, py)
    } else {
        let r = clamped_radius(rect, radius);
        let left = rect.x + r;
        let right = rect.x + rect.width - r - 1;
        let top = rect.y + r;
        let bottom = rect.y + rect.height - r - 1;
        ||| (left <= px <= right && rect.y <= py < rect.y + rect.height)
        ||| (rect.x <= px < rect.x + rect.width && top <= py <= bottom)
        ||| in_quarter_disc(Quadrant::TopLeft, r, px - left, py - top)
        ||| in_quarter_disc(Quadrant::TopRight, r, px - right, py - top)
        ||| in_quarter_disc(Quadrant::BottomRight, r, px - right, py - bottom)
        ||| in_quarter_disc(Quadrant::BottomLeft, r, px - left, py - bottom)
    }
}

/// What two runs of commands fill together is what either one fills.
pub proof fn lemma_filled_concat(
    first: Seq<DrawCommand>,
    second: Seq<DrawCommand>,
    px: int,
    py: int,
)
    ensures
        filled(first + second, px, py) <==> filled(first, px, py) || filled(second, px, py),
{
    let both = first + second;
    if filled(first, px, py) {
        let i = choose|i: int| 0 <= i < first.len() && fills_pixel(#[trigger] first[i], px, py);
        assert(both[i] == first[i]);
    }
    if filled(second, px, py) {
        let i = choose|i: int| 0 <= i < second.len() && fills_pixel(#[trigger] second[i], px, py);
        assert(both[first.len() + i] == second[i]);
    }
    if filled(both, px, py) {
        let i = choose|i: int| 0 <= i < both.len() && fills_pixel(#[trigger] both[i], px, py);
        if i < first.len() {
            assert(both[i] == first[i]);
        } else {
            assert(both[i] == second[i - first.len()]);
        }
    }
}

proof fn lemma_filled_push(commands: Seq<DrawCommand>, last: DrawCommand, px: int, py: int)
    ensures
        filled(commands.push(last), px, py) <==> filled(commands, px, py) || fills_pixel(
            last,
            px,
            py,
        ),
{
    assert(commands.push(last) =~= commands + seq![last]);
    lemma_filled_concat(commands, seq![last], px, py);
    if fills_pixel(last, px, py) {
        assert(seq![last][0] == last);
    }
}

proof fn lemma_in_disc_within_radius(quadrant: Quadrant, radius: int, dx: int, dy: int)
    requires
        0 <= radius,
        in_quarter_disc(quadrant, radius, dx, dy),
    ensures
        -radius <= dx <= radius,
        -radius <= dy <= radius,
{
    assert(-radius <= dx <= radius && -radius <= dy <= radius) by (nonlinear_arith)
        requires
            0 <= radius,
            dx * dx + dy * dy <= radius * radius,
    ;
}

proof fn lemma_row_filled(
    center_x: int,
    center_y: int,
    radius: int,
    quadrant: Quadrant,
    color: Color,
    dy: int,
    dx_end: int,
    px: int,
    py: int,
)
    requires
        0 <= radius,
        i32::MIN <= center_x - radius && center_x + radius <= i32::MAX,
        i32::MIN <= center_y - radius && center_y + radius <= i32::MAX,
        -radius <= dy <= radius,
        dx_end <= radius + 1,
    ensures
        filled(
            quarter_circle_row(center_x, center_y, radius, quadrant, color, dy, dx_end),
            px,
            py,
        ) <==> py == center_y + dy && -radius <= px - center_x < dx_end && in_quarter_disc(
            quadrant,
            radius,
            px - center_x,
            dy,
        ),
        forall|i: int|
            0 <= i < quarter_circle_row(
                center_x,
                center_y,
                radius,
                quadrant,
                color,
                dy,
                dx_end,
            ).len() ==> fills_with(
                #[trigger] quarter_circle_row(
                    center_x,
                    center_y,
                    radius,
                    quadrant,
                    color,
                    dy,
                    dx_end,
                )[i],
                color,
            ),
    decreases dx_end + radius,
{
    let row = quarter_circle_row(center_x, center_y, radius, quadrant, color, dy, dx_end);
    if dx_end <= -radius {
        assert(row.len() == 0);
    } else {
        let dx = dx_end - 1;
        let before = quarter_circle_row(center_x, center_y, radius, quadrant, color, dy, dx);
        lemma_row_filled(center_x, center_y, radius, quadrant, color, dy, dx, px, py);
        if in_quarter_disc(quadrant, radius, dx, dy) {
            let point = DrawCommand::Point {
                x: (center_x + dx) as i32,
                y: (center_y + dy) as i32,
                color,
            };
            assert(row == before.push(point));
            lemma_filled_push(before, point, px, py);
        }
    }
}

proof fn lemma_rows_filled(
    center_x: int,
    center_y: int,
    radius: int,
    quadrant: Quadrant,
    color: Color,
    dy_end: int,
    px: int,
    py: int,
)
    requires
        0 <= radius,
        i32::MIN <= center_x - radius && center_x + radius <= i32::MAX,
        i32::MIN <= center_y - radius && center_y + radius <= i32::MAX,
        dy_end <= radius + 1,
    ensures
        filled(
            quarter_circle_rows(center_x, center_y, radius, quadrant, color, dy_end),
            px,
            py,
        ) <==> -radius <= py - center_y < dy_end && in_quarter_disc(
            quadrant,
            radius,
            px - center_x,
            py - center_y,
        ),
        forall|i: int|
            0 <= i < quarter_circle_rows(
                center_x,
                center_y,
                radius,
                quadrant,
                color,
                dy_end,
            ).len() ==> fills_with(
                #[trigger] quarter_circle_rows(
                    center_x,
                    center_y,
                    radius,
                    quadrant,
                    color,
                    dy_end,
                )[i],
                color,
            ),
    decreases dy_end + radius,
{
    let rows = quarter_circle_rows(center_x, center_y, radius, quadrant, color, dy_end);
    if dy_end <= -radius {
        assert(rows.len() == 0);
    } else {
        let dy = dy_end - 1;
        let before = quarter_circle_rows(center_x, center_y, radius, quadrant, color, dy);
        let row = quarter_circle_row(center_x, center_y, radius, quadrant, color, dy, radius + 1);
        lemma_rows_filled(center_x, center_y, radius, quadrant, color, dy, px, py);
        lemma_row_filled(center_x, center_y, radius, quadrant, color, dy, radius + 1, px, py);
        lemma_filled_concat(before, row, px, py);
        assert(rows == before + row);
        if in_quarter_disc(quadrant, radius, px - center_x, py - center_y) {
            lemma_in_disc_within_radius(quadrant, radius, px - center_x, py - center_y);
        }
        assert forall|i: int| 0 <= i < rows.len() implies fills_with(#[trigger] rows[i], color) by {
            if i < before.len() {
                assert(rows[i] == before[i]);
            } else {
                assert(rows[i] == row[i - before.len()]);
            }
        }
    }
}

/// A filled quarter disc sets exactly the pixels whose offset from the
/// centre lies in the quarter disc, all in the one colour.
pub proof fn lemma_quarter_circle_filled(
    center_x: int,
    center_y: int,
    radius: int,
    quadrant: Quadrant,
    color: Color,
    px: int,
    py: int,
)
    requires
        0 <= radius,
        i32::MIN <= center_x - radius && center_x + radius <= i32::MAX,
        i32::MIN <= center_y - radius && center_y + radius <= i32::MAX,
    ensures
        filled(quarter_circle(center_x, center_y, radius, quadrant, color), px, py)
            <==> in_quarter_disc(quadrant, radius, px - center_x, py - center_y),
        forall|i: int|
            0 <= i < quarter_circle(center_x, center_y, radius, quadrant, color).len()
                ==> fills_with(
                #[trigger] quarter_circle(center_x, center_y, radius, quadrant, color)[i],
                color,
            ),
{
    lemma_rows_filled(center_x, center_y, radius, quadrant, color, radius + 1, px, py);
    if in_quarter_disc(quadrant, radius, px - center_x, py - center_y) {
        lemma_in_disc_within_radius(quadrant, radius, px - center_x, py - center_y);
    }
}

/// The commands of a rounded fill set exactly the pixels of the rounded
/// rectangle, and every one of them fills in the colour asked for.
pub proof fn lemma_rounded_fill_pixels(rect: Rect, color: Color, radius: int, px: int, py: int)
    requires
        rect.in_extent(),
    ensures
        filled(rounded_fill(rect, color, radius), px, py) <==> in_rounded_rect(
            rect,
            radius,
            px,
            py,
        ),
        forall|i: int|
            0 <= i < rounded_fill(rect, color, radius).len() ==> fills_with(
                #[trigger] rounded_fill(rect, color, radius)[i],
                color,
            ),
{
    let commands = rounded_fill(rect, color, radius);
    if radius <= 0 {
        let plain = DrawCommand::FillRect { rect, color };
        assert(commands == seq![plain]);
        assert(commands[0] == plain);
    } else {
        let r = clamped_radius(rect, radius);
        let left = rect.x + r;
        let right = rect.x + rect.width - r - 1;
        let top = rect.y + r;
        let bottom = rect.y + rect.height - r - 1;
        let upright = DrawCommand::FillRect {
            rect: Rect {
                x: left as i32,
                y: rect.y,
                width: (rect.width - 2 * r) as u32,
                height: rect.height,
            },
            color,
        };
        let level = DrawCommand::FillRect {
            rect: Rect {
                x: rect.x,
                y: top as i32,
                width: rect.width,
                height: (rect.height - 2 * r) as u32,
            },
            color,
        };
        let bands = seq![upright, level];
        let top_left = quarter_circle(left, top, r, Quadrant::TopLeft, color);
        let top_right = quarter_circle(right, top, r, Quadrant::TopRight, color);
        let bottom_right = quarter_circle(right, bottom, r, Quadrant::BottomRight, color);
        let bottom_left = quarter_circle(left, bottom, r, Quadrant::BottomLeft, color);
        assert(commands == bands + top_left + top_right + bottom_right + bottom_left);
        lemma_quarter_circle_filled(left, top, r, Quadrant::TopLeft, color, px, py);
        lemma_quarter_circle_filled(right, top, r, Quadrant::TopRight, color, px, py);
        lemma_quarter_circle_filled(right, bottom, r, Quadrant::BottomRight, color, px, py);
        lemma_quarter_circle_filled(left, bottom, r, Quadrant::BottomLeft, color, px, py);
        lemma_filled_concat(bands, top_left, px, py);
        lemma_filled_concat(bands + top_left, top_right, px, py);
        lemma_filled_concat(bands + top_left + top_right, bottom_right, px, py);
        lemma_filled_concat(bands + top_left + top_right + bottom_right, bottom_left, px, py);
        assert(filled(bands, px, py) <==> fills_pixel(upright, px, py) || fills_pixel(
            level,
            px,
            py,
        )) by {
            assert(bands[0] == upright && bands[1] == level);
        }
        assert forall|i: int| 0 <= i < commands.len() implies fills_with(
            #[trigger] commands[i],
            color,
        ) by {
            let a = bands.len();
            let b = a + top_left.len();
            let c = b + top_right.len();
            let d = c + bottom_right.len();
            if i < a {
                assert(commands[i] == bands[i]);
            } else if i < b {
                assert(commands[i] == top_left[i - a]);
            } else if i < c {
                assert(commands[i] == top_right[i - b]);
            } else if i < d {
                assert(commands[i] == bottom_right[i - c]);
            } else {
                assert(commands[i] == bottom_left[i - d]);
            }
        }
    }
}

/// With a radius of zero or less a rounded fill is the plain filled
/// rectangle of the same bounds and colour, command for command and
/// pixel for pixel.
pub proof fn lemma_fill_without_radius_is_plain(
    rect: Rect,
    color: Color,
    radius: int,
    px: int,
    py: int,
)
    requires
        radius <= 0,
    ensures
        rounded_fill(rect, color, radius) == seq![DrawCommand::FillRect { rect, color }],
        filled(rounded_fill(rect, color, radius), px, py) <==> rect.contains(px, py),
{
    let plain = DrawCommand::FillRect { rect, color };
    assert(seq![plain][0] == plain);
}

/// The pixel lies in one of the four squares of side `radius` in the
/// corners of the rectangle.
pub open spec fn in_corner_square(rect: Rect, radius: int, px: int, py: int) -> bool {
    &&& px < rect.x + radius || px >= rect.x + rect.width - radius
    &&& py < rect.y + radius || py >= rect.y + rect.height - radius
}

/// A rounded rectangle that is not empty stays inside its bounds, and
/// leaves out pixels of its bounds only in the corner squares.
pub proof fn lemma_rounded_rect_between(rect: Rect, radius: int, px: int, py: int)
    requires
        rect.width >= 1,
        rect.height >= 1,
    ensures
        in_rounded_rect(rect, radius, px, py) ==> rect.contains(px, py),
        rect.contains(px, py) && !in_corner_square(rect, clamped_radius(rect, radius), px, py)
            ==> in_rounded_rect(rect, radius, px, py),
{
    if radius > 0 {
        let r = clamped_radius(rect, radius);
        let left = rect.x + r;
        let right = rect.x + rect.width - r - 1;
        let top = rect.y + r;
        let bottom = rect.y + rect.height - r - 1;
        if in_quarter_disc(Quadrant::TopLeft, r, px - left, py - top) {
            lemma_in_disc_within_radius(Quadrant::TopLeft, r, px - left, py - top);
        }
        if in_quarter_disc(Quadrant::TopRight, r, px - right, py - top) {
            lemma_in_disc_within_radius(Quadrant::TopRight, r, px - right, py - top);
        }
        if in_quarter_disc(Quadrant::BottomRight, r, px - right, py - bottom) {
            lemma_in_disc_within_radius(Quadrant::BottomRight, r, px - right, py - bottom);
        }
        if in_quarter_disc(Quadrant::BottomLeft, r, px - left, py - bottom) {
            lemma_in_disc_within_radius(Quadrant::BottomLeft, r, px - left, py - bottom);
        }
    }
}

/// The command works on an empty rectangle, and so draws nothing: a fill
/// or an outline of a rectangle without pixels, or a copy from or into one.
pub open spec fn is_blank(command: DrawCommand) -> bool {
    match command {
        DrawCommand::FillRect { rect, .. } => rect.is_empty(),
        DrawCommand::OutlineRect { rect, .. } => rect.is_empty(),
        DrawCommand::Blit { src, dest, .. } => src.is_empty() || dest.is_empty(),
        _ => false,
    }
}

/// Whether the command draws nothing because its rectangle is empty. A
/// backend leaves such a command out.
pub fn draws_nothing(command: &DrawCommand) -> (blank: bool)
    ensures
        blank == is_blank(*command),
{
    match command {
        DrawCommand::FillRect { rect, .. } => rect.has_no_pixel(),
        DrawCommand::OutlineRect { rect, .. } => rect.has_no_pixel(),
        DrawCommand::Blit { src, dest, .. } => src.has_no_pixel() || dest.has_no_pixel(),
        _ => false,
    }
}

/// A blank command fills no pixel.
pub proof fn lemma_blank_fills_nothing(command: DrawCommand, px: int, py: int)
    requires
        is_blank(command),
    ensures
        !fills_pixel(command, px, py),
{
}

/// The rectangle `inner` lies inside `outer`.
pub open spec fn rect_within(inner: Rect, outer: Rect) -> bool {
    &&& outer.x <= inner.x
    &&& inner.x + inner.width <= outer.x + outer.width
    &&& outer.y <= inner.y
    &&& inner.y + inner.height <= outer.y + outer.height
}

/// The quarter of the bounding square of a circle that an arc of a rounded
/// corner runs through, named by the angle at which the arc starts.
pub open spec fn arc_box(center_x: int, center_y: int, radius: int, start_degrees: int) -> Rect {
    let left = if 90 <= start_degrees < 270 {
        center_x - radius
    } else {
        center_x
    };
    let top = if 180 <= start_degrees {
        center_y - radius
    } else {
        center_y
    };
    Rect { x: left as i32, y: top as i32, width: (radius + 1) as u32, height: (radius + 1) as u32 }
}

/// Everything the stroke command draws lies inside `bounds`: both ends of
/// a line, the outline of a rectangle, the quarter of the bounding square
/// that an arc runs through. Other commands stroke nothing.
pub open spec fn stroke_within(command: DrawCommand, bounds: Rect) -> bool {
    match command {
        DrawCommand::Line { x1, y1, x2, y2, .. } => bounds.contains(x1 as int, y1 as int)
            && bounds.contains(x2 as int, y2 as int),
        DrawCommand::OutlineRect { rect, .. } => rect_within(rect, bounds),
        DrawCommand::Arc { center_x, center_y, radius, start_degrees, .. } => rect_within(
            arc_box(center_x as int, center_y as int, radius as int, start_degrees as int),
            bounds,
        ),
        _ => true,
    }
}

/// A stroke inside a rectangle is inside every rectangle around that one.
pub proof fn lemma_stroke_within_wider(command: DrawCommand, inner: Rect, outer: Rect)
    requires
        stroke_within(command, inner),
        rect_within(inner, outer),
    ensures
        stroke_within(command, outer),
{
}

/// Every arc and every edge of a ring of a rounded border lies inside the
/// rectangle shrunk by the number of the ring: the edges run along its
/// outermost rows and columns and end where the arcs end.
pub proof fn lemma_ring_within_inset(rect: Rect, color: Color, radius: int, ring: int)
    requires
        rect.in_extent(),
        0 <= radius,
        2 * radius <= rect.width,
        2 * radius <= rect.height,
        0 <= ring,
        2 * ring <= rect.width,
        2 * ring <= rect.height,
    ensures
        forall|i: int|
            0 <= i < border_ring(rect, color, radius, ring).len() ==> stroke_within(
                #[trigger] border_ring(rect, color, radius, ring)[i],
                inset_rect(rect, ring),
            ),
        rect_within(inset_rect(rect, ring), rect),
        radius > ring ==> ({
            let commands = border_ring(rect, color, radius, ring);
            let inset = inset_rect(rect, ring);
            let r = radius - ring;
            &&& commands.len() == 8
            &&& commands[4] == DrawCommand::Line {
                x1: (inset.x + r) as i32,
                y1: inset.y,
                x2: (inset.x + inset.width - 1 - r) as i32,
                y2: inset.y,
                color,
            }
            &&& commands[5] == DrawCommand::Line {
                x1: (inset.x + inset.width - 1) as i32,
                y1: (inset.y + r) as i32,
                x2: (inset.x + inset.width - 1) as i32,
                y2: (inset.y + inset.height - 1 - r) as i32,
                color,
            }
            &&& commands[6] == DrawCommand::Line {
                x1: (inset.x + r) as i32,
                y1: (inset.y + inset.height - 1) as i32,
                x2: (inset.x + inset.width - 1 - r) as i32,
                y2: (inset.y + inset.height - 1) as i32,
                color,
            }
            &&& commands[7] == DrawCommand::Line {
                x1: inset.x,
                y1: (inset.y + r) as i32,
                x2: inset.x,
                y2: (inset.y + inset.height - 1 - r) as i32,
                color,
            }
        }),
{
}

/// Everything a border draws, plain or rounded, lies inside the rectangle
/// it borders.
pub proof fn lemma_border_within_rect(rect: Rect, color: Color, radius: int, thickness: int)
    requires
        rect.in_extent(),
        border_fits(rect, thickness),
    ensures
        forall|i: int|
            0 <= i < rounded_border(rect, color, radius, thickness).len() ==> stroke_within(
                #[trigger] rounded_border(rect, color, radius, thickness)[i],
                rect,
            ),
{
    if radius <= 0 {
        let border = rect_border(rect, color, thickness);
        assert forall|i: int| 0 <= i < border.len() implies stroke_within(
            #[trigger] border[i],
            rect,
        ) by {
            lemma_ring_within_inset(rect, color, 0, i);
        }
    } else {
        lemma_rings_within_rect(rect, color, clamped_radius(rect, radius), thickness, thickness);
    }
}

proof fn lemma_rings_within_rect(rect: Rect, color: Color, radius: int, rings: int, thickness: int)
    requires
        rect.in_extent(),
        border_fits(rect, thickness),
        0 <= radius,
        2 * radius <= rect.width,
        2 * radius <= rect.height,
        rings <= thickness,
    ensures
        forall|i: int|
            0 <= i < border_rings(rect, color, radius, rings).len() ==> stroke_within(
                #[trigger] border_rings(rect, color, radius, rings)[i],
                rect,
            ),
    decreases rings,
{
    if rings > 0 {
        let before = border_rings(rect, color, radius, rings - 1);
        let ring = border_ring(rect, color, radius, rings - 1);
        let all = border_rings(rect, color, radius, rings);
        lemma_rings_within_rect(rect, color, radius, rings - 1, thickness);
        lemma_ring_within_inset(rect, color, radius, rings - 1);
        assert(all == before + ring);
        assert forall|i: int| 0 <= i < all.len() implies stroke_within(#[trigger] all[i], rect) by {
            if i < before.len() {
                assert(all[i] == before[i]);
            } else {
                assert(all[i] == ring[i - before.len()]);
                lemma_stroke_within_wider(
                    ring[i - before.len()],
                    inset_rect(rect, rings - 1),
                    rect,
                );
            }
        }
    }
}

} // verus!
