use vstd::prelude::*;

use vstd::arithmetic::div_mod::lemma_div_by_multiple;
use vstd::arithmetic::div_mod::lemma_div_is_ordered;
use vstd::arithmetic::div_mod::lemma_div_multiples_vanish;
use vstd::arithmetic::div_mod::lemma_div_pos_is_pos;
use vstd::arithmetic::mul::lemma_mul_basics;
use vstd::arithmetic::mul::lemma_mul_inequality;
use vstd::arithmetic::mul::lemma_mul_is_commutative;
use vstd::arithmetic::mul::lemma_mul_nonnegative;
use vstd::arithmetic::mul::lemma_mul_upper_bound;

verus! {

/// A screen position, in whole pixels. The host GUI works in fractional
/// pixels; whole pixels carry the same layout decisions.
#[derive(Debug, Copy, Clone, PartialEq, Eq, Structural)]
pub struct Pos2 {
    pub x: i32,
    pub y: i32,
}

/// A size or offset, in whole pixels.
#[derive(Debug, Copy, Clone, PartialEq, Eq, Structural)]
pub struct Vec2 {
    pub x: i32,
    pub y: i32,
}

/// An axis-aligned rectangle, given by its two corners.
#[derive(Debug, Copy, Clone, PartialEq, Eq, Structural)]
pub struct Rect {
    pub min: Pos2,
    pub max: Pos2,
}

/// The axis and sense along which successive toasts stack.
#[derive(Debug, Copy, Clone, PartialEq, Eq, Structural, Hash)]
pub enum Direction {
    TopDown,
    BottomUp,
    LeftToRight,
    RightToLeft,
}

impl Direction {
    /// Toast contents are drawn in reverse order on right-to-left layouts to
    /// keep the same look.
    pub fn is_right_to_left(self) -> (r: bool)
        ensures
            r == (self == Direction::RightToLeft),
    {
        match self {
            Direction::RightToLeft => true,
            _ => false,
        }
    }
}

/// Cross-axis alignment of the stacked toasts: near edge or far edge.
#[derive(Debug, Copy, Clone, PartialEq, Eq, Structural)]
pub enum Align {
    Min,
    Max,
}

/// The cross-axis alignment that the end-alignment flag selects.
pub fn cross_align(align_to_end: bool) -> (a: Align)
    ensures
        a == if align_to_end { Align::Max } else { Align::Min },
{
    if align_to_end {
        Align::Max
    } else {
        Align::Min
    }
}

/// An sRGB color with alpha.
#[derive(Debug, Copy, Clone, PartialEq, Eq, Structural)]
pub struct Color32 {
    pub r: u8,
    pub g: u8,
    pub b: u8,
    pub a: u8,
}

impl Color32 {
    pub fn from_rgb(r: u8, g: u8, b: u8) -> (c: Color32)
        ensures
            c == (Color32 { r, g, b, a: 255 }),
    {
        Color32 { r, g, b, a: 255 }
    }
}

/// The rectangle within which toasts stack, for a given direction,
/// end-alignment flag, anchor and viewport size: one of four sub-rectangles
/// of the viewport, split at the anchor's coordinates.
pub open spec fn spec_stacking_rect(
    direction: Direction,
    align_to_end: bool,
    anchor: Pos2,
    screen_size: Vec2,
) -> Rect {
    match (direction, align_to_end) {
        (Direction::LeftToRight, false) | (Direction::TopDown, false) => Rect {
            min: anchor,
            max: Pos2 { x: screen_size.x, y: screen_size.y },
        },
        (Direction::RightToLeft, true) | (Direction::BottomUp, true) => Rect {
            min: Pos2 { x: 0, y: 0 },
            max: anchor,
        },
        (Direction::BottomUp, false) | (Direction::LeftToRight, true) => Rect {
            min: Pos2 { x: anchor.x, y: 0 },
            max: Pos2 { x: screen_size.x, y: anchor.y },
        },
        (Direction::RightToLeft, false) | (Direction::TopDown, true) => Rect {
            min: Pos2 { x: 0, y: anchor.y },
            max: Pos2 { x: anchor.x, y: screen_size.y },
        },
    }
}

/// Computes the rectangle within which toasts stack. Along each axis the
/// viewport is split at the anchor coordinate; which half is used depends on
/// the direction and the end-alignment flag, exactly as
/// [`spec_stacking_rect`] lays it out.
pub fn stacking_rect(
    direction: Direction,
    align_to_end: bool,
    anchor: Pos2,
    screen_size: Vec2,
) -> (rect: Rect)
    ensures
        rect == spec_stacking_rect(direction, align_to_end, anchor, screen_size),
{
    match (direction, align_to_end) {
        (Direction::LeftToRight, false) | (Direction::TopDown, false) => Rect {
            min: anchor,
            max: Pos2 { x: screen_size.x, y: screen_size.y },
        },
        (Direction::RightToLeft, true) | (Direction::BottomUp, true) => Rect {
            min: Pos2 { x: 0, y: 0 },
            max: anchor,
        },
        (Direction::BottomUp, false) | (Direction::LeftToRight, true) => Rect {
            min: Pos2 { x: anchor.x, y: 0 },
            max: Pos2 { x: screen_size.x, y: anchor.y },
        },
        (Direction::RightToLeft, false) | (Direction::TopDown, true) => Rect {
            min: Pos2 { x: 0, y: anchor.y },
            max: Pos2 { x: anchor.x, y: screen_size.y },
        },
    }
}

/// For every direction and end-alignment flag, the stacking rectangle is a
/// valid sub-rectangle of the viewport, and on each axis its edges are the
/// anchor coordinate on one side and the viewport boundary on the other: the
/// viewport is split exactly at the anchor.
pub proof fn lemma_stacking_rect_splits_viewport(
    direction: Direction,
    align_to_end: bool,
    anchor: Pos2,
    screen_size: Vec2,
)
    requires
        0 <= anchor.x <= screen_size.x,
        0 <= anchor.y <= screen_size.y,
    ensures
        ({
            let rect = spec_stacking_rect(direction, align_to_end, anchor, screen_size);
            &&& 0 <= rect.min.x <= rect.max.x <= screen_size.x
            &&& 0 <= rect.min.y <= rect.max.y <= screen_size.y
            &&& (rect.min.x == anchor.x && rect.max.x == screen_size.x) || (rect.min.x == 0
                && rect.max.x == anchor.x)
            &&& (rect.min.y == anchor.y && rect.max.y == screen_size.y) || (rect.min.y == 0
                && rect.max.y == anchor.y)
        }),
{
}

/// The stack origin remembered for the next frame: the component-wise minimum
/// of the top-left corners of all rectangles rendered this frame, or the
/// configured anchor when no toast was rendered.
pub fn next_anchor_pos(rect_mins: &Vec<Pos2>, anchor: Pos2) -> (p: Pos2)
    ensures
        rect_mins@.len() == 0 ==> p == anchor,
        rect_mins@.len() > 0 ==> forall|j: int|
            0 <= j < rect_mins@.len() ==> p.x <= #[trigger] rect_mins@[j].x && p.y
                <= rect_mins@[j].y,
        rect_mins@.len() > 0 ==> exists|j: int|
            0 <= j < rect_mins@.len() && p.x == #[trigger] rect_mins@[j].x,
        rect_mins@.len() > 0 ==> exists|j: int|
            0 <= j < rect_mins@.len() && p.y == #[trigger] rect_mins@[j].y,
{
    if rect_mins.len() == 0 {
        return anchor;
    }
    let mut best_x: i32 = rect_mins[0].x;
    let mut best_y: i32 = rect_mins[0].y;
    let mut i: usize = 1;
    while i < rect_mins.len()
        invariant
            1 <= i <= rect_mins@.len(),
            forall|j: int| 0 <= j < i ==> best_x <= #[trigger] rect_mins@[j].x,
            forall|j: int| 0 <= j < i ==> best_y <= #[trigger] rect_mins@[j].y,
            exists|j: int| 0 <= j < i && best_x == #[trigger] rect_mins@[j].x,
            exists|j: int| 0 <= j < i && best_y == #[trigger] rect_mins@[j].y,
        decreases rect_mins@.len() - i,
    {
        if rect_mins[i].x < best_x {
            best_x = rect_mins[i].x;
        }
        if rect_mins[i].y < best_y {
            best_y = rect_mins[i].y;
        }
        i = i + 1;
    }
    Pos2 { x: best_x, y: best_y }
}

/// The corner rounding of the progress bar and its outline: half the bar's
/// height.
pub fn progress_bar_rounding(width: u32) -> (r: u32)
    ensures
        r == width / 2,
{
    width / 2
}

/// The outline of the countdown overlay inside a toast window `rect`: a bar
/// of the given height, inset 10 pixels on each side and ending 2 pixels
/// above the window's bottom edge.
pub open spec fn spec_progress_outline_rect(rect: Rect, width: u32) -> Rect {
    Rect {
        min: Pos2 { x: (rect.min.x + 10) as i32, y: (rect.max.y - 2 - width) as i32 },
        max: Pos2 { x: (rect.max.x - 10) as i32, y: (rect.max.y - 2) as i32 },
    }
}

/// How far the filled part's right edge has moved left from the outline's:
/// the elapsed share `(den - num) / den` of the outline's width.
pub open spec fn spec_progress_fill_shrink(rect: Rect, num: u64, den: u64) -> int {
    (rect.max.x - rect.min.x - 20) * (den - num) / (den as int)
}

/// The filled part of the countdown overlay: flush with the outline except
/// for its right edge, which moves left as the fraction `num / den` runs
/// down.
pub open spec fn spec_progress_fill_rect(rect: Rect, width: u32, num: u64, den: u64) -> Rect {
    Rect {
        min: Pos2 { x: (rect.min.x + 10) as i32, y: (rect.max.y - 2 - width) as i32 },
        max: Pos2 {
            x: (rect.max.x - 10 - spec_progress_fill_shrink(rect, num, den)) as i32,
            y: (rect.max.y - 2) as i32,
        },
    }
}

/// The two rectangles of the countdown overlay inside the toast window
/// `rect`: first the outline, then the filled part showing the remaining
/// fraction `num / den` of the toast's lifetime. A full fraction fills the
/// outline exactly; an empty one leaves the filled part with no width. The
/// coordinate bounds keep the pixel arithmetic inside the machine range, and
/// the window must be at least as wide as its two 10-pixel margins.
pub fn progress_bar_rects(rect: Rect, width: u32, num: u64, den: u64) -> (r: (Rect, Rect))
    requires
        -1_000_000_000 <= rect.min.x,
        rect.max.x <= 1_000_000_000,
        -1_000_000_000 <= rect.min.y,
        rect.max.y <= 1_000_000_000,
        rect.min.x + 20 <= rect.max.x,
        rect.min.y <= rect.max.y,
        width <= 1_000_000_000,
        0 < den,
        num <= den,
    ensures
        r.0 == spec_progress_outline_rect(rect, width),
        r.1 == spec_progress_fill_rect(rect, width, num, den),
        r.1.min == r.0.min,
        r.1.max.y == r.0.max.y,
        r.0.min.x <= r.1.max.x <= r.0.max.x,
        num == den ==> r.1 == r.0,
        num == 0 ==> r.1.max.x == r.1.min.x,
{
    let ghost wi: int = rect.max.x - rect.min.x - 20;
    let ghost resti: int = den - num;
    let ghost shrinki: int = spec_progress_fill_shrink(rect, num, den);
    proof {
        lemma_mul_nonnegative(wi, resti);
        lemma_mul_inequality(resti, den as int, wi);
        lemma_mul_is_commutative(resti, wi);
        lemma_mul_is_commutative(den as int, wi);
        lemma_div_pos_is_pos(wi * resti, den as int);
        lemma_div_is_ordered(wi * resti, wi * (den as int), den as int);
        lemma_div_by_multiple(wi, den as int);
        assert(0 <= shrinki <= wi);
        if num == den {
            lemma_mul_basics(wi);
            lemma_mul_basics(den as int);
            lemma_div_multiples_vanish(0, den as int);
            assert(shrinki == 0);
        }
    }
    let w: i64 = rect.max.x as i64 - rect.min.x as i64 - 20;
    let rest: u64 = den - num;
    proof {
        lemma_mul_upper_bound(w as int, 0x1_0000_0000, rest as int, 0xffff_ffff_ffff_ffff);
    }
    let shrink_wide: u128 = (w as u128) * (rest as u128) / (den as u128);
    proof {
        assert(shrink_wide == shrinki);
    }
    let shrink: i64 = shrink_wide as i64;
    let fill_max_x: i32 = (rect.max.x as i64 - 10 - shrink) as i32;
    let outline = Rect {
        min: Pos2 { x: rect.min.x + 10, y: rect.max.y - 2 - (width as i32) },
        max: Pos2 { x: rect.max.x - 10, y: rect.max.y - 2 },
    };
    let fill = Rect {
        min: Pos2 { x: rect.min.x + 10, y: rect.max.y - 2 - (width as i32) },
        max: Pos2 { x: fill_max_x, y: rect.max.y - 2 },
    };
    (outline, fill)
}

} // verus!
