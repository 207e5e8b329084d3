//! Rounded rectangles built from the primitives a backend offers: filled and
//! outlined axis-aligned rectangles, points, lines and arcs.

use crate::graphics_engine::{Color, DrawCommand, Rect};
use vstd::prelude::*;

verus! {

/// One quarter of a disc, named by the corner of a rectangle it rounds off.
#[derive(Clone, Copy, Debug, PartialEq, Eq)]
pub enum Quadrant {
    TopLeft,
    TopRight,
    BottomLeft,
    BottomRight,
}

/// The offset `(dx, dy)` from a circle's centre points into the quadrant.
/// The axes belong to both neighbouring quadrants.
pub open spec fn in_quadrant(quadrant: Quadrant, dx: int, dy: int) -> bool {
    match quadrant {
        Quadrant::TopLeft => dx <= 0 && dy <= 0,
        Quadrant::TopRight => dx >= 0 && dy <= 0,
        Quadrant::BottomLeft => dx <= 0 && dy >= 0,
        Quadrant::BottomRight => dx >= 0 && dy >= 0,
    }
}

/// The offset `(dx, dy)` lies in the quarter disc of the given radius.
pub open spec fn in_quarter_disc(quadrant: Quadrant, radius: int, dx: int, dy: int) -> bool {
    dx * dx + dy * dy <= radius * radius && in_quadrant(quadrant, dx, dy)
}

/// The points of one row of a quarter disc, from the offset `-radius` up to,
/// not including, `dx_end`, left to right.
pub open spec fn quarter_circle_row(
    center_x: int,
    center_y: int,
    radius: int,
    quadrant: Quadrant,
    color: Color,
    dy: int,
    dx_end: int,
) -> Seq<DrawCommand>
    decreases dx_end + radius,
{
    if dx_end <= -radius {
        Seq::empty()
    } else {
        let dx = dx_end - 1;
        let before = quarter_circle_row(center_x, center_y, radius, quadrant, color, dy, dx);
        if in_quarter_disc(quadrant, radius, dx, dy) {
            before.push(
                DrawCommand::Point { x: (center_x + dx) as i32, y: (center_y + dy) as i32, color },
            )
        } else {
            before
        }
    }
}

/// The points of the rows of a quarter disc from the offset `-radius` up to,
/// not including, `dy_end`, top to bottom.
pub open spec fn quarter_circle_rows(
    center_x: int,
    center_y: int,
    radius: int,
    quadrant: Quadrant,
    color: Color,
    dy_end: int,
) -> Seq<DrawCommand>
    decreases dy_end + radius,
{
    if dy_end <= -radius {
        Seq::empty()
    } else {
        quarter_circle_rows(center_x, center_y, radius, quadrant, color, dy_end - 1)
            + quarter_circle_row(
            center_x,
            center_y,
            radius,
            quadrant,
            color,
            dy_end - 1,
            radius + 1,
        )
    }
}

/// A filled quarter disc: every pixel of the square of offsets
/// `-radius ..= radius` around the centre that lies in the quarter disc, row
/// by row. A negative radius gives nothing.
pub open spec fn quarter_circle(
    center_x: int,
    center_y: int,
    radius: int,
    quadrant: Quadrant,
    color: Color,
) -> Seq<DrawCommand> {
    quarter_circle_rows(center_x, center_y, radius, quadrant, color, radius + 1)
}

/// The radius that a rectangle is rounded with: never more than half its
/// width or half its height.
pub open spec fn clamped_radius(rect: Rect, radius: int) -> int {
    let half_width = rect.width as int / 2;
    let half_height = rect.height as int / 2;
    let by_width = if radius < half_width { radius } else { half_width };
    if by_width < half_height { by_width } else { half_height }
}

/// The commands that fill a rounded rectangle. A radius of zero or less
/// gives the plain rectangle. Otherwise two bands cover everything but the
/// corners, and a quarter disc rounds each corner.
pub open spec fn rounded_fill(rect: Rect, color: Color, radius: int) -> Seq<DrawCommand> {
    if radius <= 0 {
        seq![DrawCommand::FillRect { rect, color }]
    } else {
        let r = clamped_radius(rect, radius);
        let x = rect.x as int;
        let y = rect.y as int;
        let w = rect.width as int;
        let h = rect.height as int;
        seq![
            DrawCommand::FillRect {
                rect: Rect { x: (x + r) as i32, y: rect.y, width: (w - 2 * r) as u32, height: rect.height },
                color,
            },
            DrawCommand::FillRect {
                rect: Rect { x: rect.x, y: (y + r) as i32, width: rect.width, height: (h - 2 * r) as u32 },
                color,
            },
        ] + quarter_circle(x + r, y + r, r, Quadrant::TopLeft, color) + quarter_circle(
            x + w - r - 1,
            y + r,
            r,
            Quadrant::TopRight,
            color,
        ) + quarter_circle(x + w - r - 1, y + h - r - 1, r, Quadrant::BottomRight, color)
            + quarter_circle(x + r, y + h - r - 1, r, Quadrant::BottomLeft, color)
    }
}

/// A border of `thickness` rings can be drawn inside the rectangle: the
/// innermost ring still has a width and a height of zero or more.
pub open spec fn border_fits(rect: Rect, thickness: int) -> bool {
    thickness > 0 ==> 2 * (thickness - 1) <= rect.width && 2 * (thickness - 1) <= rect.height
}

/// The rectangle `rect` shrunk by `inset` pixels along all four sides.
pub open spec fn inset_rect(rect: Rect, inset: int) -> Rect {
    Rect {
        x: (rect.x + inset) as i32,
        y: (rect.y + inset) as i32,
        width: (rect.width - 2 * inset) as u32,
        height: (rect.height - 2 * inset) as u32,
    }
}

/// `thickness` nested outlines, each one pixel inside the one before.
pub open spec fn rect_border(rect: Rect, color: Color, thickness: int) -> Seq<DrawCommand> {
    Seq::new(
        if thickness > 0 {
            thickness as nat
        } else {
            0
        },
        |ring: int| DrawCommand::OutlineRect { rect: inset_rect(rect, ring), color },
    )
}

/// The ring number `ring` of a rounded border whose outermost ring has the
/// corner radius `radius`: four arcs and the four edges between them, or
/// the plain outline once the shrunk radius has reached zero. The edges run
/// along the outermost rows and columns of the shrunk rectangle, from where
/// one arc ends to where the next begins.
pub open spec fn border_ring(rect: Rect, color: Color, radius: int, ring: int) -> Seq<
    DrawCommand,
> {
    let x = rect.x + ring;
    let y = rect.y + ring;
    let w = rect.width - 2 * ring;
    let h = rect.height - 2 * ring;
    let r = if radius - ring > 0 { radius - ring } else { 0 };
    if r > 0 {
        seq![
            DrawCommand::Arc {
                center_x: (x + r) as i32,
                center_y: (y + r) as i32,
                radius: r as i32,
                start_degrees: 180,
                end_degrees: 270,
                color,
            },
            DrawCommand::Arc {
                center_x: (x + w - r - 1) as i32,
                center_y: (y + r) as i32,
                radius: r as i32,
                start_degrees: 270,
                end_degrees: 360,
                color,
            },
            DrawCommand::Arc {
                center_x: (x + w - r - 1) as i32,
                center_y: (y + h - r - 1) as i32,
                radius: r as i32,
                start_degrees: 0,
                end_degrees: 90,
                color,
            },
            DrawCommand::Arc {
                center_x: (x + r) as i32,
                center_y: (y + h - r - 1) as i32,
                radius: r as i32,
                start_degrees: 90,
                end_degrees: 180,
                color,
            },
            DrawCommand::Line {
                x1: (x + r) as i32,
                y1: y as i32,
                x2: (x + w - r - 1) as i32,
                y2: y as i32,
                color,
            },
            DrawCommand::Line {
                x1: (x + w - 1) as i32,
                y1: (y + r) as i32,
                x2: (x + w - 1) as i32,
                y2: (y + h - r - 1) as i32,
                color,
            },
            DrawCommand::Line {
                x1: (x + r) as i32,
                y1: (y + h - 1) as i32,
                x2: (x + w - r - 1) as i32,
                y2: (y + h - 1) as i32,
                color,
            },
            DrawCommand::Line {
                x1: x as i32,
                y1: (y + r) as i32,
                x2: x as i32,
                y2: (y + h - r - 1) as i32,
                color,
            },
        ]
    } else {
        seq![DrawCommand::OutlineRect { rect: inset_rect(rect, ring), color }]
    }
}

/// The first `rings` rings of a rounded border, from the outside in.
pub open spec fn border_rings(rect: Rect, color: Color, radius: int, rings: int) -> Seq<
    DrawCommand,
>
    decreases rings,
{
    if rings <= 0 {
        Seq::empty()
    } else {
        border_rings(rect, color, radius, rings - 1) + border_ring(
            rect,
            color,
            radius,
            rings - 1,
        )
    }
}

/// The commands that stroke a rounded border. A radius of zero or less
/// gives the plain border.
pub open spec fn rounded_border(rect: Rect, color: Color, radius: int, thickness: int) -> Seq<
    DrawCommand,
> {
    if radius <= 0 {
        rect_border(rect, color, thickness)
    } else {
        border_rings(rect, color, clamped_radius(rect, radius), thickness)
    }
}

/// The commands of a rectangle that is filled, bordered, or both.
pub open spec fn rect_commands(
    rect: Rect,
    color: Color,
    border_color: Option<Color>,
    border_width: int,
    radius: int,
    filled: bool,
) -> Seq<DrawCommand> {
    let fill = if filled {
        rounded_fill(rect, color, radius)
    } else {
        Seq::empty()
    };
    match border_color {
        Some(stroke) if border_width > 0 => fill + rounded_border(
            rect,
            stroke,
            radius,
            border_width,
        ),
        _ => fill,
    }
}

/// Appends the filled quarter disc around `(center_x, center_y)` to `out`.
pub fn draw_filled_quarter_circle(
    out: &mut Vec<DrawCommand>,
    center_x: i32,
    center_y: i32,
    radius: i32,
    quadrant: Quadrant,
    color: Color,
)
    requires
        radius >= 0 ==> i32::MIN <= center_x - radius && center_x + radius <= i32::MAX,
        radius >= 0 ==> i32::MIN <= center_y - radius && center_y + radius <= i32::MAX,
    ensures
        final(out)@ == old(out)@ + quarter_circle(
            center_x as int,
            center_y as int,
            radius as int,
            quadrant,
            color,
        ),
{
    if radius < 0 {
        assert(out@ =~= old(out)@ + Seq::<DrawCommand>::empty());
        return ;
    }
    let ghost base = out@;
    let r: i64 = radius as i64;
    proof {
        lemma_square_bounded(r as int, r as int);
    }
    let r_squared: i64 = r * r;
    let mut dy: i64 = -r;
    assert(out@ =~= base + Seq::<DrawCommand>::empty());
    while dy <= r
        invariant
            0 <= r == radius,
            r_squared == r * r,
            -r <= dy <= r + 1,
            i32::MIN <= center_x - radius && center_x + radius <= i32::MAX,
            i32::MIN <= center_y - radius && center_y + radius <= i32::MAX,
            out@ == base + quarter_circle_rows(
                center_x as int,
                center_y as int,
                radius as int,
                quadrant,
                color,
                dy as int,
            ),
        decreases r + 1 - dy,
    {
        let ghost rows = quarter_circle_rows(
            center_x as int,
            center_y as int,
            radius as int,
            quadrant,
            color,
            dy as int,
        );
        let mut dx: i64 = -r;
        assert(out@ =~= base + rows + Seq::<DrawCommand>::empty());
        while dx <= r
            invariant
                0 <= r == radius,
                r_squared == r * r,
                -r <= dy <= r,
                -r <= dx <= r + 1,
                i32::MIN <= center_x - radius && center_x + radius <= i32::MAX,
                i32::MIN <= center_y - radius && center_y + radius <= i32::MAX,
                out@ == base + rows + quarter_circle_row(
                    center_x as int,
                    center_y as int,
                    radius as int,
                    quadrant,
                    color,
                    dy as int,
                    dx as int,
                ),
            decreases r + 1 - dx,
        {
            let ghost row = quarter_circle_row(
                center_x as int,
                center_y as int,
                radius as int,
                quadrant,
                color,
                dy as int,
                dx as int,
            );
            proof {
                lemma_square_bounded(dx as int, r as int);
                lemma_square_bounded(dy as int, r as int);
            }
            let distance_squared: i64 = dx * dx + dy * dy;
            let inside = distance_squared <= r_squared && match quadrant {
                Quadrant::TopLeft => dx <= 0 && dy <= 0,
                Quadrant::TopRight => dx >= 0 && dy <= 0,
                Quadrant::BottomLeft => dx <= 0 && dy >= 0,
                Quadrant::BottomRight => dx >= 0 && dy >= 0,
            };
            assert(inside == in_quarter_disc(quadrant, radius as int, dx as int, dy as int));
            if inside {
                let point = DrawCommand::Point {
                    x: (center_x as i64 + dx) as i32,
                    y: (center_y as i64 + dy) as i32,
                    color,
                };
                out.push(point);
                assert(out@ =~= base + rows + row.push(point));
            }
            dx = dx + 1;
        }
        assert(out@ =~= base + (rows + quarter_circle_row(
            center_x as int,
            center_y as int,
            radius as int,
            quadrant,
            color,
            dy as int,
            r + 1,
        )));
        dy = dy + 1;
    }
}

/// Whether a border of `thickness` rings can be drawn inside `rect`.
pub fn border_fits_in(rect: &Rect, thickness: u32) -> (fits: bool)
    ensures
        fits == border_fits(*rect, thickness as int),
{
    if thickness == 0 {
        true
    } else {
        let inset: u64 = 2 * (thickness as u64 - 1);
        inset <= rect.width as u64 && inset <= rect.height as u64
    }
}

/// The radius that `rect` is rounded with when `radius` is asked for.
fn clamp_radius(rect: &Rect, radius: i32) -> (r: i32)
    ensures
        r == clamped_radius(*rect, radius as int),
        radius > 0 ==> 0 <= r,
        2 * r <= rect.width || r <= 0,
        2 * r <= rect.height || r <= 0,
{
    let half_width = (rect.width / 2) as i32;
    let half_height = (rect.height / 2) as i32;
    let by_width = if radius < half_width {
        radius
    } else {
        half_width
    };
    if by_width < half_height {
        by_width
    } else {
        half_height
    }
}

/// Fills a rounded rectangle.
pub fn fill_rounded_rect(rect: &Rect, color: Color, radius: i32) -> (commands: Vec<DrawCommand>)
    requires
        radius > 0 ==> rect.in_extent(),
    ensures
        commands@ == rounded_fill(*rect, color, radius as int),
{
    let mut out: Vec<DrawCommand> = Vec::new();
    if radius <= 0 {
        out.push(DrawCommand::FillRect { rect: *rect, color });
        assert(out@ =~= rounded_fill(*rect, color, radius as int));
        return out;
    }
    let x = rect.x;
    let y = rect.y;
    let w = rect.width as i32;
    let h = rect.height as i32;
    let r = clamp_radius(rect, radius);
    out.push(
        DrawCommand::FillRect {
            rect: Rect { x: x + r, y, width: (w - 2 * r) as u32, height: rect.height },
            color,
        },
    );
    out.push(
        DrawCommand::FillRect {
            rect: Rect { x, y: y + r, width: rect.width, height: (h - 2 * r) as u32 },
            color,
        },
    );
    draw_filled_quarter_circle(&mut out, x + r, y + r, r, Quadrant::TopLeft, color);
    draw_filled_quarter_circle(&mut out, x + w - r - 1, y + r, r, Quadrant::TopRight, color);
    draw_filled_quarter_circle(
        &mut out,
        x + w - r - 1,
        y + h - r - 1,
        r,
        Quadrant::BottomRight,
        color,
    );
    draw_filled_quarter_circle(&mut out, x + r, y + h - r - 1, r, Quadrant::BottomLeft, color);
    assert(out@ =~= rounded_fill(*rect, color, radius as int));
    out
}

/// Strokes a plain border of `thickness` nested outlines.
pub fn draw_rect_border(rect: &Rect, color: Color, thickness: u32) -> (commands: Vec<
    DrawCommand,
>)
    requires
        thickness > 0 ==> rect.in_extent() && border_fits(*rect, thickness as int),
    ensures
        commands@ == rect_border(*rect, color, thickness as int),
{
    let mut out: Vec<DrawCommand> = Vec::new();
    let mut i: u32 = 0;
    while i < thickness
        invariant
            i <= thickness,
            thickness > 0 ==> rect.in_extent() && border_fits(*rect, thickness as int),
            out@ == rect_border(*rect, color, i as int),
        decreases thickness - i,
    {
        out.push(
            DrawCommand::OutlineRect {
                rect: Rect {
                    x: rect.x + i as i32,
                    y: rect.y + i as i32,
                    width: rect.width - 2 * i,
                    height: rect.height - 2 * i,
                },
                color,
            },
        );
        i = i + 1;
        assert(out@ =~= rect_border(*rect, color, i as int));
    }
    assert(out@ =~= rect_border(*rect, color, thickness as int));
    out
}

/// Strokes a rounded border of `thickness` concentric rings.
pub fn draw_rounded_rect_border(rect: &Rect, color: Color, radius: i32, thickness: u32) -> (commands:
    Vec<DrawCommand>)
    requires
        thickness > 0 ==> rect.in_extent() && border_fits(*rect, thickness as int),
    ensures
        commands@ == rounded_border(*rect, color, radius as int, thickness as int),
{
    if radius <= 0 {
        return draw_rect_border(rect, color, thickness);
    }
    let mut out: Vec<DrawCommand> = Vec::new();
    if thickness == 0 {
        assert(out@ =~= rounded_border(*rect, color, radius as int, thickness as int));
        return out;
    }
    let x = rect.x;
    let y = rect.y;
    let w = rect.width as i32;
    let h = rect.height as i32;
    let r = clamp_radius(rect, radius);
    let mut i: u32 = 0;
    while i < thickness
        invariant
            i <= thickness,
            thickness > 0 ==> rect.in_extent() && border_fits(*rect, thickness as int),
            x == rect.x,
            y == rect.y,
            w == rect.width,
            h == rect.height,
            0 <= r,
            2 * r <= rect.width,
            2 * r <= rect.height,
            out@ == border_rings(*rect, color, r as int, i as int),
        decreases thickness - i,
    {
        let ghost before = out@;
        let inset = i as i32;
        let current_x = x + inset;
        let current_y = y + inset;
        let current_w = w - 2 * inset;
        let current_h = h - 2 * inset;
        let current_r = if r - inset > 0 {
            r - inset
        } else {
            0
        };
        if current_r > 0 {
            out.push(
                DrawCommand::Arc {
                    center_x: current_x + current_r,
                    center_y: current_y + current_r,
                    radius: current_r,
                    start_degrees: 180,
                    end_degrees: 270,
                    color,
                },
            );
            out.push(
                DrawCommand::Arc {
                    center_x: current_x + current_w - current_r - 1,
                    center_y: current_y + current_r,
                    radius: current_r,
                    start_degrees: 270,
                    end_degrees: 360,
                    color,
                },
            );
            out.push(
                DrawCommand::Arc {
                    center_x: current_x + current_w - current_r - 1,
                    center_y: current_y + current_h - current_r - 1,
                    radius: current_r,
                    start_degrees: 0,
                    end_degrees: 90,
                    color,
                },
            );
            out.push(
                DrawCommand::Arc {
                    center_x: current_x + current_r,
                    center_y: current_y + current_h - current_r - 1,
                    radius: current_r,
                    start_degrees: 90,
                    end_degrees: 180,
                    color,
                },
            );
            out.push(
                DrawCommand::Line {
                    x1: current_x + current_r,
                    y1: current_y,
                    x2: current_x + current_w - current_r - 1,
                    y2: current_y,
                    color,
                },
            );
            out.push(
                DrawCommand::Line {
                    x1: current_x + current_w - 1,
                    y1: current_y + current_r,
                    x2: current_x + current_w - 1,
                    y2: current_y + current_h - current_r - 1,
                    color,
                },
            );
            out.push(
                DrawCommand::Line {
                    x1: current_x + current_r,
                    y1: current_y + current_h - 1,
                    x2: current_x + current_w - current_r - 1,
                    y2: current_y + current_h - 1,
                    color,
                },
            );
            out.push(
                DrawCommand::Line {
                    x1: current_x,
                    y1: current_y + current_r,
                    x2: current_x,
                    y2: current_y + current_h - current_r - 1,
                    color,
                },
            );
        } else {
            out.push(
                DrawCommand::OutlineRect {
                    rect: Rect {
                        x: current_x,
                        y: current_y,
                        width: current_w as u32,
                        height: current_h as u32,
                    },
                    color,
                },
            );
        }
        assert(out@ =~= before + border_ring(*rect, color, r as int, i as int));
        i = i + 1;
    }
    out
}

/// The rectangle can be drawn as asked: where a rounded fill or a border
/// is computed, the rectangle lies in the range of coordinates the engine
/// computes with, and the border fits inside it.
pub open spec fn rect_drawable(
    rect: Rect,
    border_color: Option<Color>,
    border_width: int,
    radius: int,
    filled: bool,
) -> bool {
    &&& filled && radius > 0 ==> rect.in_extent()
    &&& border_color is Some && border_width > 0 ==> rect.in_extent() && border_fits(
        rect,
        border_width,
    )
}

/// Draws a rectangle: the fill if `filled`, then the border if a border
/// colour is given and the border has a width. Nothing comes back where
/// the rectangle cannot be drawn.
pub fn draw_rect(
    rect: &Rect,
    color: Color,
    border_color: Option<Color>,
    border_width: u32,
    radius: i32,
    filled: bool,
) -> (commands: Option<Vec<DrawCommand>>)
    ensures
        commands is Some == rect_drawable(
            *rect,
            border_color,
            border_width as int,
            radius as int,
            filled,
        ),
        commands matches Some(drawn) ==> drawn@ == rect_commands(
            *rect,
            color,
            border_color,
            border_width as int,
            radius as int,
            filled,
        ),
{
    let in_extent = rect.fits_extent();
    if filled && radius > 0 && !in_extent {
        return None;
    }
    let mut out: Vec<DrawCommand> = if filled {
        fill_rounded_rect(rect, color, radius)
    } else {
        Vec::new()
    };
    if let Some(stroke) = border_color {
        if border_width > 0 {
            if !in_extent || !border_fits_in(rect, border_width) {
                return None;
            }
            let mut border = draw_rounded_rect_border(rect, stroke, radius, border_width);
            out.append(&mut border);
        }
    }
    Some(out)
}

/// Once the rings of a rounded border have shrunk the radius to zero,
/// every further ring is the plain outline of the shrunk rectangle.
pub proof fn lemma_inner_rings_are_plain(rect: Rect, color: Color, radius: int, ring: int)
    requires
        ring >= radius,
    ensures
        border_ring(rect, color, radius, ring) == seq![
            DrawCommand::OutlineRect { rect: inset_rect(rect, ring), color },
        ],
{
}

/// A rounded border is made of eight commands for every ring that still
/// has a radius and one for every ring that has none.
pub proof fn lemma_border_rings_len(rect: Rect, color: Color, radius: int, rings: int)
    requires
        0 <= radius,
        0 <= rings,
    ensures
        border_rings(rect, color, radius, rings).len() == if rings <= radius {
            8 * rings
        } else {
            8 * radius + (rings - radius)
        },
    decreases rings,
{
    if rings > 0 {
        lemma_border_rings_len(rect, color, radius, rings - 1);
    }
}

proof fn lemma_square_bounded(d: int, r: int)
    requires
        -r <= d <= r,
        r <= i32::MAX,
    ensures
        0 <= d * d <= r * r,
        r * r <= 0x3FFF_FFFF_0000_0001,
{
    assert(0 <= d * d <= r * r) by (nonlinear_arith)
        requires
            -r <= d <= r,
    ;
    assert(r * r <= 0x7FFF_FFFF * 0x7FFF_FFFF) by (nonlinear_arith)
        requires
            0 <= r <= 0x7FFF_FFFF,
    ;
}

} // verus!
