//! Screen geometry in fixed point.
//!
//! A coordinate counts 1/65536 of a pixel (or of a point, where a function says so),
//! so every whole pixel and every usual display scale is exact.  Coordinates that
//! come from outside stay within [`LIMIT`], which is 2^24 pixels.
use vstd::prelude::*;

verus! {

/// Fixed-point units per pixel.
pub const UNIT: i64 = 65536;

/// Largest magnitude of a coordinate that comes from outside: 2^24 pixels.
pub const LIMIT: i64 = 0x100_0000_0000;

/// Largest magnitude of a coordinate that is computed from such coordinates.
pub const WIDE_LIMIT: i64 = 0x400_0000_0000;

/// Largest magnitude of a coordinate in points that is computed from physical ones.
pub const FAR_LIMIT: i64 = 0x4_0000_0000_0000;

/// Largest magnitude of a coordinate in points that comes from outside: 2^18 points.
pub const POINT_LIMIT: i64 = 0x4_0000_0000;

/// Largest magnitude of a distance that a rectangle is asked to move.
pub const MOVE_LIMIT: i128 = 0x1_0000_0000_0000_0000_0000_0000;

/// Smallest display scale, in units of 1/65536 physical pixels per point.
pub const MIN_SCALE: u32 = 0x100;

/// Largest display scale, in the same units.
pub const MAX_SCALE: u32 = 0x40_0000;

/// How far from a handle a press still grabs it: 12 points.
pub const GRAB_RADIUS: i64 = 786432;

/// A position.
#[derive(Clone, Copy, PartialEq, Eq, Structural, Debug)]
pub struct Pos2 {
    pub x: i64,
    pub y: i64,
}

/// A distance between two positions, or a size.
#[derive(Clone, Copy, PartialEq, Eq, Structural, Debug)]
pub struct Vec2 {
    pub x: i64,
    pub y: i64,
}

/// A rectangle, given by its top-left and bottom-right corners.
#[derive(Clone, Copy, PartialEq, Eq, Structural, Debug)]
pub struct Rect {
    pub min: Pos2,
    pub max: Pos2,
}

pub open spec fn lesser(a: i64, b: i64) -> i64 {
    if a <= b {
        a
    } else {
        b
    }
}

pub open spec fn greater(a: i64, b: i64) -> i64 {
    if a >= b {
        a
    } else {
        b
    }
}

/// Rounds to the nearest whole pixel, halves away from zero.
pub open spec fn rounded(v: int) -> int {
    if v >= 0 {
        (v + 32768) / 65536
    } else {
        -((32768 - v) / 65536)
    }
}

/// Squared distance between two positions.
pub open spec fn dist2(a: Pos2, b: Pos2) -> int {
    (a.x - b.x) * (a.x - b.x) + (a.y - b.y) * (a.y - b.y)
}

impl Pos2 {
    /// Both coordinates have magnitude at most `b`.
    pub open spec fn within(self, b: int) -> bool {
        -b <= self.x <= b && -b <= self.y <= b
    }
}

impl Vec2 {
    /// Both coordinates have magnitude at most `b`.
    pub open spec fn within(self, b: int) -> bool {
        -b <= self.x <= b && -b <= self.y <= b
    }

    /// A size: not negative, and at most [`LIMIT`].
    pub open spec fn is_size(self) -> bool {
        0 <= self.x <= LIMIT && 0 <= self.y <= LIMIT
    }
}

impl Rect {
    /// Both corners have coordinates of magnitude at most `b`.
    pub open spec fn within(self, b: int) -> bool {
        self.min.within(b) && self.max.within(b)
    }

    /// The corners are in order.
    pub open spec fn ordered(self) -> bool {
        self.min.x <= self.max.x && self.min.y <= self.max.y
    }

    /// The rectangle lies in the area from the origin to `size`.
    pub open spec fn inside(self, size: Vec2) -> bool {
        0 <= self.min.x && self.max.x <= size.x && 0 <= self.min.y && self.max.y <= size.y
    }

    /// The position lies in the rectangle, edges included.
    pub open spec fn has(self, p: Pos2) -> bool {
        self.min.x <= p.x <= self.max.x && self.min.y <= p.y <= self.max.y
    }

    /// The smallest rectangle that has both positions.
    pub open spec fn spanned(a: Pos2, b: Pos2) -> Rect {
        Rect {
            min: Pos2 { x: lesser(a.x, b.x), y: lesser(a.y, b.y) },
            max: Pos2 { x: greater(a.x, b.x), y: greater(a.y, b.y) },
        }
    }

    /// The rectangle moved by `dx` and `dy`.
    pub open spec fn shifted(self, dx: int, dy: int) -> Rect {
        Rect {
            min: Pos2 { x: (self.min.x + dx) as i64, y: (self.min.y + dy) as i64 },
            max: Pos2 { x: (self.max.x + dx) as i64, y: (self.max.y + dy) as i64 },
        }
    }

    /// The positions common to both rectangles.
    pub open spec fn common(self, other: Rect) -> Rect {
        Rect {
            min: Pos2 {
                x: greater(self.min.x, other.min.x),
                y: greater(self.min.y, other.min.y),
            },
            max: Pos2 {
                x: lesser(self.max.x, other.max.x),
                y: lesser(self.max.y, other.max.y),
            },
        }
    }

    /// The rectangle with two opposite corners at `a` and `b`.
    pub fn from_two_pos(a: Pos2, b: Pos2) -> (r: Rect)
        ensures
            r == Rect::spanned(a, b),
            r.ordered(),
    {
        let (x0, x1): (i64, i64) = if a.x <= b.x {
            (a.x, b.x)
        } else {
            (b.x, a.x)
        };
        let (y0, y1): (i64, i64) = if a.y <= b.y {
            (a.y, b.y)
        } else {
            (b.y, a.y)
        };
        Rect { min: Pos2 { x: x0, y: y0 }, max: Pos2 { x: x1, y: y1 } }
    }

    /// Whether the position lies in the rectangle, edges included.
    pub fn contains(&self, p: Pos2) -> (b: bool)
        ensures
            b == self.has(p),
    {
        self.min.x <= p.x && p.x <= self.max.x && self.min.y <= p.y && p.y <= self.max.y
    }

    /// The rectangle moved by `d`.
    pub fn translate(&self, d: Vec2) -> (r: Rect)
        requires
            self.within(WIDE_LIMIT as int),
            d.within(WIDE_LIMIT as int),
        ensures
            r == self.shifted(d.x as int, d.y as int),
    {
        Rect {
            min: Pos2 { x: self.min.x + d.x, y: self.min.y + d.y },
            max: Pos2 { x: self.max.x + d.x, y: self.max.y + d.y },
        }
    }

    /// The positions common to both rectangles; not ordered where they do not meet.
    pub fn intersect(&self, other: Rect) -> (r: Rect)
        ensures
            r == self.common(other),
    {
        Rect {
            min: Pos2 {
                x: if self.min.x >= other.min.x {
                    self.min.x
                } else {
                    other.min.x
                },
                y: if self.min.y >= other.min.y {
                    self.min.y
                } else {
                    other.min.y
                },
            },
            max: Pos2 {
                x: if self.max.x <= other.max.x {
                    self.max.x
                } else {
                    other.max.x
                },
                y: if self.max.y <= other.max.y {
                    self.max.y
                } else {
                    other.max.y
                },
            },
        }
    }
}

/// Rounds a coordinate to the nearest whole pixel, halves away from zero.
pub fn round_px(v: i64) -> (r: i64)
    requires
        -0x7fff_ffff_ffff_0000 <= v <= 0x7fff_ffff_ffff_0000,
    ensures
        r == rounded(v as int),
{
    if v >= 0 {
        (v + 32768) / 65536
    } else {
        -((32768 - v) / 65536)
    }
}

/// The display scale is one that a monitor can have.
pub open spec fn scale_ok(scale: u32) -> bool {
    MIN_SCALE <= scale <= MAX_SCALE
}

/// A position in points as one in physical pixels, rounded down to the unit.
pub open spec fn to_phys(p: Pos2, scale: u32) -> Pos2 {
    Pos2 { x: (p.x * scale / 65536) as i64, y: (p.y * scale / 65536) as i64 }
}

/// A position in physical pixels as one in points, rounded down to the unit.
pub open spec fn to_points(p: Pos2, scale: u32) -> Pos2 {
    Pos2 { x: (p.x * 65536 / scale as int) as i64, y: (p.y * 65536 / scale as int) as i64 }
}

/// A rectangle in physical pixels as one in points.
pub open spec fn rect_to_points(r: Rect, scale: u32) -> Rect {
    Rect { min: to_points(r.min, scale), max: to_points(r.max, scale) }
}

/// Division, rounded down.
fn floor_div(a: i64, b: i64) -> (q: i64)
    requires
        -0x4000_0000_0000_0000 <= a <= 0x4000_0000_0000_0000,
        0 < b <= 0x1_0000_0000,
    ensures
        q == a as int / b as int,
{
    if a >= 0 {
        a / b
    } else {
        let up: i64 = (b - 1 - a) / b;
        proof {
            let (x, y) = (a as int, b as int);
            let n = y - 1 - x;
            vstd::arithmetic::div_mod::lemma_fundamental_div_mod(n, y);
            assert(x == (-(n / y)) * y + (y - 1 - n % y)) by (nonlinear_arith)
                requires
                    n == y * (n / y) + n % y,
                    n == y - 1 - x,
            ;
            vstd::arithmetic::div_mod::lemma_fundamental_div_mod_converse(
                x,
                y,
                -(n / y),
                y - 1 - n % y,
            );
            assert(0 <= n / y <= n) by (nonlinear_arith)
                requires
                    n >= 0,
                    y >= 1,
            ;
        }
        -up
    }
}

proof fn lemma_scaled_bound(v: int, b: int, by: int, over: int, out: int)
    requires
        -b <= v <= b,
        0 < over,
        0 <= by,
        b * by <= out * over,
    ensures
        -out <= v * by / over <= out,
        -(out * over) <= v * by <= out * over,
{
    assert(-(b * by) <= v * by <= b * by) by (nonlinear_arith)
        requires
            -b <= v <= b,
            0 <= by,
    ;
    assert(-out <= v * by / over <= out) by (nonlinear_arith)
        requires
            -(out * over) <= v * by <= out * over,
            0 < over,
    ;
}

/// A position in points as one in physical pixels.
pub fn phys_of(p: Pos2, scale: u32) -> (q: Pos2)
    requires
        p.within(POINT_LIMIT as int),
        scale <= MAX_SCALE,
    ensures
        q == to_phys(p, scale),
        q.within(LIMIT as int),
{
    let s: i64 = scale as i64;
    proof {
        assert(POINT_LIMIT * s <= LIMIT * 65536) by (nonlinear_arith)
            requires
                0 <= s <= MAX_SCALE,
        ;
        lemma_scaled_bound(p.x as int, POINT_LIMIT as int, s as int, 65536, LIMIT as int);
        lemma_scaled_bound(p.y as int, POINT_LIMIT as int, s as int, 65536, LIMIT as int);
    }
    Pos2 { x: floor_div(p.x * s, 65536), y: floor_div(p.y * s, 65536) }
}

/// A position in physical pixels as one in points.
pub fn points_of(p: Pos2, scale: u32) -> (q: Pos2)
    requires
        p.within(WIDE_LIMIT as int),
        scale >= MIN_SCALE,
    ensures
        q == to_points(p, scale),
        q.within(FAR_LIMIT as int),
{
    let s: i64 = scale as i64;
    proof {
        assert(WIDE_LIMIT * 65536 <= FAR_LIMIT * s) by (nonlinear_arith)
            requires
                s >= MIN_SCALE,
        ;
        lemma_scaled_bound(p.x as int, WIDE_LIMIT as int, 65536, s as int, FAR_LIMIT as int);
        lemma_scaled_bound(p.y as int, WIDE_LIMIT as int, 65536, s as int, FAR_LIMIT as int);
    }
    Pos2 { x: floor_div(p.x * 65536, s), y: floor_div(p.y * 65536, s) }
}

/// A rectangle in physical pixels as one in points.
pub fn rect_points_of(r: Rect, scale: u32) -> (q: Rect)
    requires
        r.within(WIDE_LIMIT as int),
        scale >= MIN_SCALE,
    ensures
        q == rect_to_points(r, scale),
        q.within(FAR_LIMIT as int),
{
    Rect { min: points_of(r.min, scale), max: points_of(r.max, scale) }
}

/// At a scale of 1, points are pixels.
pub proof fn law_unit_scale_is_exact(p: Pos2)
    ensures
        to_phys(p, 65536) == p,
        to_points(p, 65536) == p,
{
}

/// What is further right in points is not further left in pixels, and the other way
/// round.
pub proof fn law_scaling_keeps_order(a: Pos2, b: Pos2, scale: u32)
    requires
        scale_ok(scale),
        a.within(POINT_LIMIT as int),
        b.within(POINT_LIMIT as int),
        a.x <= b.x,
    ensures
        to_phys(a, scale).x <= to_phys(b, scale).x,
        to_points(a, scale).x <= to_points(b, scale).x,
{
    let s = scale as int;
    assert(POINT_LIMIT * s <= LIMIT * 65536) by (nonlinear_arith)
        requires
            0 <= s <= MAX_SCALE,
    ;
    lemma_scaled_bound(a.x as int, POINT_LIMIT as int, s, 65536, LIMIT as int);
    lemma_scaled_bound(b.x as int, POINT_LIMIT as int, s, 65536, LIMIT as int);
    assert(WIDE_LIMIT * 65536 <= FAR_LIMIT * s) by (nonlinear_arith)
        requires
            s >= MIN_SCALE,
    ;
    lemma_scaled_bound(a.x as int, WIDE_LIMIT as int, 65536, s, FAR_LIMIT as int);
    lemma_scaled_bound(b.x as int, WIDE_LIMIT as int, 65536, s, FAR_LIMIT as int);
    assert(a.x * s <= b.x * s) by (nonlinear_arith)
        requires
            a.x <= b.x,
            0 <= s,
    ;
    vstd::arithmetic::div_mod::lemma_div_is_ordered(a.x * 65536, b.x * 65536, s);
}

/// Midpoint of two coordinates, rounded down.
fn midpoint(a: i64, b: i64) -> (m: i64)
    requires
        -FAR_LIMIT <= a <= FAR_LIMIT,
        -FAR_LIMIT <= b <= FAR_LIMIT,
    ensures
        m == (a + b) / 2,
{
    let s: i64 = a + b;
    if s >= 0 {
        s / 2
    } else {
        -((1 - s) / 2)
    }
}

/// The grab handles of a rectangle: the corners and the midpoints of the edges,
/// clockwise from the top-left corner.
pub open spec fn handles(r: Rect) -> Seq<Pos2> {
    let cx = ((r.min.x + r.max.x) / 2) as i64;
    let cy = ((r.min.y + r.max.y) / 2) as i64;
    seq![
        r.min,
        Pos2 { x: cx, y: r.min.y },
        Pos2 { x: r.max.x, y: r.min.y },
        Pos2 { x: r.max.x, y: cy },
        r.max,
        Pos2 { x: cx, y: r.max.y },
        Pos2 { x: r.min.x, y: r.max.y },
        Pos2 { x: r.min.x, y: cy },
    ]
}

/// Corner and edge-midpoint handles; the index order matters for [`resize_rect`].
pub fn handle_positions(r: Rect) -> (res: [Pos2; 8])
    requires
        r.within(FAR_LIMIT as int),
    ensures
        res@ == handles(r),
{
    let cx: i64 = midpoint(r.min.x, r.max.x);
    let cy: i64 = midpoint(r.min.y, r.max.y);
    let res = [
        r.min,
        Pos2 { x: cx, y: r.min.y },
        Pos2 { x: r.max.x, y: r.min.y },
        Pos2 { x: r.max.x, y: cy },
        r.max,
        Pos2 { x: cx, y: r.max.y },
        Pos2 { x: r.min.x, y: r.max.y },
        Pos2 { x: r.min.x, y: cy },
    ];
    assert(res@ =~= handles(r));
    res
}

/// Squared distance between two positions.
pub fn distance_squared(a: Pos2, b: Pos2) -> (d: i128)
    requires
        a.within(FAR_LIMIT as int),
        b.within(FAR_LIMIT as int),
    ensures
        d == dist2(a, b),
        d >= 0,
{
    let dx: i128 = a.x as i128 - b.x as i128;
    let dy: i128 = a.y as i128 - b.y as i128;
    assert(0 <= dx * dx <= 0x8_0000_0000_0000 * 0x8_0000_0000_0000) by (nonlinear_arith)
        requires
            -0x8_0000_0000_0000 <= dx <= 0x8_0000_0000_0000,
    ;
    assert(0 <= dy * dy <= 0x8_0000_0000_0000 * 0x8_0000_0000_0000) by (nonlinear_arith)
        requires
            -0x8_0000_0000_0000 <= dy <= 0x8_0000_0000_0000,
    ;
    dx * dx + dy * dy
}

/// What [`hit_handle`] answers for a press at `p`: the nearest handle within the
/// grab radius, the first of them where several are equally near.
pub open spec fn grabs(r: Rect, p: Pos2, res: Option<usize>) -> bool {
    match res {
        Some(i) => {
            &&& i < 8
            &&& dist2(handles(r)[i as int], p) <= GRAB_RADIUS * GRAB_RADIUS
            &&& forall|k: int|
                0 <= k < 8 ==> dist2(handles(r)[i as int], p) <= dist2(#[trigger] handles(r)[k], p)
            &&& forall|k: int|
                0 <= k < i ==> dist2(handles(r)[i as int], p) < dist2(#[trigger] handles(r)[k], p)
        },
        None => forall|k: int|
            0 <= k < 8 ==> dist2(#[trigger] handles(r)[k], p) > GRAB_RADIUS * GRAB_RADIUS,
    }
}

/// The one answer of [`hit_handle`] for a press at `p`.
pub open spec fn grabbed(r: Rect, p: Pos2) -> Option<usize> {
    choose|res: Option<usize>| grabs(r, p, res)
}

/// There is only one answer that [`grabs`] admits.
pub proof fn law_grab_is_unique(r: Rect, p: Pos2, a: Option<usize>, b: Option<usize>)
    requires
        grabs(r, p, a),
        grabs(r, p, b),
    ensures
        a == b,
{
    if a is Some && b is Some {
        let (i, k) = (a->0, b->0);
        assert(dist2(handles(r)[i as int], p) <= dist2(handles(r)[k as int], p));
        assert(dist2(handles(r)[k as int], p) <= dist2(handles(r)[i as int], p));
    } else if a is Some {
        assert(dist2(handles(r)[a->0 as int], p) > GRAB_RADIUS * GRAB_RADIUS);
    } else if b is Some {
        assert(dist2(handles(r)[b->0 as int], p) > GRAB_RADIUS * GRAB_RADIUS);
    }
}

/// The first nearest handle among the first `k`.
spec fn nearest(r: Rect, p: Pos2, k: int) -> int
    decreases k,
{
    if k <= 1 {
        0
    } else {
        let best = nearest(r, p, k - 1);
        if dist2(handles(r)[k - 1], p) < dist2(handles(r)[best], p) {
            k - 1
        } else {
            best
        }
    }
}

proof fn lemma_nearest(r: Rect, p: Pos2, k: int)
    requires
        1 <= k <= 8,
    ensures
        0 <= nearest(r, p, k) < k,
        forall|j: int|
            0 <= j < k ==> dist2(handles(r)[nearest(r, p, k)], p) <= dist2(
                #[trigger] handles(r)[j],
                p,
            ),
        forall|j: int|
            0 <= j < nearest(r, p, k) ==> dist2(handles(r)[nearest(r, p, k)], p) < dist2(
                #[trigger] handles(r)[j],
                p,
            ),
    decreases k,
{
    if k > 1 {
        lemma_nearest(r, p, k - 1);
    }
}

/// Every press has an answer.
pub proof fn law_grab_is_decided(r: Rect, p: Pos2)
    ensures
        grabs(r, p, grabbed(r, p)),
{
    lemma_nearest(r, p, 8);
    let best = nearest(r, p, 8);
    if dist2(handles(r)[best], p) <= GRAB_RADIUS * GRAB_RADIUS {
        assert(grabs(r, p, Some(best as usize)));
    } else {
        assert(grabs(r, p, None));
    }
}

/// The handle that a press at `pointer` grabs, if any.
pub fn hit_handle(sel_pts: Rect, pointer: Pos2) -> (res: Option<usize>)
    requires
        sel_pts.within(FAR_LIMIT as int),
        pointer.within(FAR_LIMIT as int),
    ensures
        grabs(sel_pts, pointer, res),
        res == grabbed(sel_pts, pointer),
{
    let hs = handle_positions(sel_pts);
    assert(hs@ == handles(sel_pts));
    let reach: i128 = GRAB_RADIUS as i128 * GRAB_RADIUS as i128;
    let mut best: usize = 0;
    let mut best_d: i128 = distance_squared(hs[0], pointer);
    let mut k: usize = 1;
    while k < 8
        invariant
            1 <= k <= 8,
            best < k,
            hs@ == handles(sel_pts),
            hs@.len() == 8,
            sel_pts.within(FAR_LIMIT as int),
            pointer.within(FAR_LIMIT as int),
            best_d == dist2(handles(sel_pts)[best as int], pointer),
            forall|j: int|
                0 <= j < k ==> best_d <= dist2(#[trigger] handles(sel_pts)[j], pointer),
            forall|j: int|
                0 <= j < best ==> best_d < dist2(#[trigger] handles(sel_pts)[j], pointer),
        decreases 8 - k,
    {
        assert(hs@[k as int].within(FAR_LIMIT as int));
        let d: i128 = distance_squared(hs[k], pointer);
        assert(d == dist2(handles(sel_pts)[k as int], pointer));
        if d < best_d {
            best = k;
            best_d = d;
        }
        k = k + 1;
    }
    let res = if best_d <= reach {
        Some(best)
    } else {
        None
    };
    proof {
        assert(grabs(sel_pts, pointer, res));
        law_grab_is_unique(sel_pts, pointer, res, grabbed(sel_pts, pointer));
    }
    res
}

/// Whether dragging the handle moves the left edge.  Indices past the last handle
/// count as the left midpoint.
pub open spec fn moves_left(handle: usize) -> bool {
    handle == 0 || handle == 6 || handle >= 7
}

/// Whether dragging the handle moves the top edge.
pub open spec fn moves_top(handle: usize) -> bool {
    handle == 0 || handle == 1 || handle == 2
}

/// Whether dragging the handle moves the right edge.
pub open spec fn moves_right(handle: usize) -> bool {
    handle == 2 || handle == 3 || handle == 4
}

/// Whether dragging the handle moves the bottom edge.
pub open spec fn moves_bottom(handle: usize) -> bool {
    handle == 4 || handle == 5 || handle == 6
}

/// The rectangle after its handle was dragged to `p`: the edges that the handle
/// holds go to `p`, the others stay; an edge may be dragged past the opposite one.
pub open spec fn resized(r: Rect, handle: usize, p: Pos2) -> Rect {
    Rect::spanned(
        Pos2 {
            x: if moves_left(handle) {
                p.x
            } else {
                r.min.x
            },
            y: if moves_top(handle) {
                p.y
            } else {
                r.min.y
            },
        },
        Pos2 {
            x: if moves_right(handle) {
                p.x
            } else {
                r.max.x
            },
            y: if moves_bottom(handle) {
                p.y
            } else {
                r.max.y
            },
        },
    )
}

/// Drags a handle of the rectangle to `p`.
pub fn resize_rect(r: Rect, handle: usize, p: Pos2) -> (res: Rect)
    ensures
        res == resized(r, handle, p),
        res.ordered(),
{
    let mut min: Pos2 = r.min;
    let mut max: Pos2 = r.max;
    match handle {
        0 => {
            min = p;
        },
        1 => {
            min = Pos2 { x: min.x, y: p.y };
        },
        2 => {
            max = Pos2 { x: p.x, y: max.y };
            min = Pos2 { x: min.x, y: p.y };
        },
        3 => {
            max = Pos2 { x: p.x, y: max.y };
        },
        4 => {
            max = p;
        },
        5 => {
            max = Pos2 { x: max.x, y: p.y };
        },
        6 => {
            min = Pos2 { x: p.x, y: min.y };
            max = Pos2 { x: max.x, y: p.y };
        },
        _ => {
            min = Pos2 { x: p.x, y: min.y };
        },
    }
    Rect::from_two_pos(min, max)
}

/// How far the span from `lo` to `hi` has to move to lie in the span from 0 to `bound`.
/// Where it is too long for that, its end goes to `bound`.
pub open spec fn push_back(lo: int, hi: int, bound: int) -> int {
    let into = if lo < 0 {
        -lo
    } else {
        0
    };
    if hi + into > bound {
        bound - hi
    } else {
        into
    }
}

/// The rectangle moved back into the area from the origin to `bounds`.
pub open spec fn clamped(r: Rect, bounds: Vec2) -> Rect {
    r.shifted(
        push_back(r.min.x as int, r.max.x as int, bounds.x as int),
        push_back(r.min.y as int, r.max.y as int, bounds.y as int),
    )
}

/// Moves the rectangle, without changing its size, so that it lies in the area from
/// the origin to `bounds`.
pub fn clamp_rect(r: Rect, bounds: Vec2) -> (res: Rect)
    requires
        r.within(2 * WIDE_LIMIT),
        bounds.within(WIDE_LIMIT as int),
    ensures
        res == clamped(r, bounds),
{
    let mut r: Rect = r;
    if r.min.x < 0 {
        let d: i64 = -r.min.x;
        r = Rect {
            min: Pos2 { x: r.min.x + d, y: r.min.y },
            max: Pos2 { x: r.max.x + d, y: r.max.y },
        };
    }
    if r.min.y < 0 {
        let d: i64 = -r.min.y;
        r = Rect {
            min: Pos2 { x: r.min.x, y: r.min.y + d },
            max: Pos2 { x: r.max.x, y: r.max.y + d },
        };
    }
    if r.max.x > bounds.x {
        let d: i64 = bounds.x - r.max.x;
        r = Rect {
            min: Pos2 { x: r.min.x + d, y: r.min.y },
            max: Pos2 { x: r.max.x + d, y: r.max.y },
        };
    }
    if r.max.y > bounds.y {
        let d: i64 = bounds.y - r.max.y;
        r = Rect {
            min: Pos2 { x: r.min.x, y: r.min.y + d },
            max: Pos2 { x: r.max.x, y: r.max.y + d },
        };
    }
    r
}

/// How far the span from `lo` to `hi` moves if it is moved by `d` and then back into the
/// span from 0 to `bound`.
pub open spec fn move_and_push(lo: int, hi: int, d: int, bound: int) -> int {
    d + push_back(lo + d, hi + d, bound)
}

/// The rectangle moved by `dx` and `dy`, and then back into the area from the origin to
/// `bounds`.
pub open spec fn moved_within(r: Rect, dx: int, dy: int, bounds: Vec2) -> Rect {
    r.shifted(
        move_and_push(r.min.x as int, r.max.x as int, dx, bounds.x as int),
        move_and_push(r.min.y as int, r.max.y as int, dy, bounds.y as int),
    )
}

/// How far a span moves along one axis.
fn axis_move(lo: i64, hi: i64, d: i128, bound: i64) -> (m: i64)
    requires
        -WIDE_LIMIT <= lo <= hi <= WIDE_LIMIT,
        -WIDE_LIMIT <= bound <= WIDE_LIMIT,
        -MOVE_LIMIT <= d <= MOVE_LIMIT,
    ensures
        m == move_and_push(lo as int, hi as int, d as int, bound as int),
        -2 * WIDE_LIMIT <= m <= 2 * WIDE_LIMIT,
{
    let l: i128 = lo as i128 + d;
    let h: i128 = hi as i128 + d;
    let into: i128 = if l < 0 {
        -l
    } else {
        0
    };
    let back: i128 = if h + into > bound as i128 {
        bound as i128 - h
    } else {
        into
    };
    (d + back) as i64
}

/// Moves the rectangle as far as asked, but not out of the area from the origin to
/// `bounds`.
pub fn move_within(r: Rect, dx: i128, dy: i128, bounds: Vec2) -> (res: Rect)
    requires
        r.ordered(),
        r.within(WIDE_LIMIT as int),
        bounds.within(WIDE_LIMIT as int),
        -MOVE_LIMIT <= dx <= MOVE_LIMIT,
        -MOVE_LIMIT <= dy <= MOVE_LIMIT,
    ensures
        res == moved_within(r, dx as int, dy as int, bounds),
{
    let x: i64 = axis_move(r.min.x, r.max.x, dx, bounds.x);
    let y: i64 = axis_move(r.min.y, r.max.y, dy, bounds.y);
    Rect {
        min: Pos2 { x: r.min.x + x, y: r.min.y + y },
        max: Pos2 { x: r.max.x + x, y: r.max.y + y },
    }
}

/// A clamped rectangle keeps its size, and lies inside the bounds if it fits there.
pub proof fn law_clamp_lands_inside(r: Rect, bounds: Vec2)
    requires
        r.within(2 * WIDE_LIMIT),
        bounds.within(WIDE_LIMIT as int),
    ensures
        clamped(r, bounds).max.x - clamped(r, bounds).min.x == r.max.x - r.min.x,
        clamped(r, bounds).max.y - clamped(r, bounds).min.y == r.max.y - r.min.y,
        clamped(r, bounds).max.x <= bounds.x && clamped(r, bounds).max.y <= bounds.y,
        r.max.x - r.min.x <= bounds.x && r.max.y - r.min.y <= bounds.y ==> clamped(
            r,
            bounds,
        ).inside(bounds),
{
}

/// Clamping moves nothing that already lies inside, so clamping twice is clamping once.
pub proof fn law_clamp_settles(r: Rect, bounds: Vec2)
    requires
        r.within(2 * WIDE_LIMIT),
        bounds.within(WIDE_LIMIT as int),
    ensures
        r.inside(bounds) ==> clamped(r, bounds) == r,
        clamped(clamped(r, bounds), bounds) == clamped(r, bounds),
{
}

/// A handle that is let go where it stands leaves the rectangle as it was.
pub proof fn law_resize_in_place(r: Rect, handle: usize)
    requires
        r.within(WIDE_LIMIT as int),
        r.ordered(),
        handle < 8,
    ensures
        resized(r, handle, handles(r)[handle as int]) == r,
{
}

/// A resized rectangle reaches the pointer along every edge that the handle holds, and
/// keeps the edges that it does not hold.
pub proof fn law_resize_reaches_pointer(r: Rect, handle: usize, p: Pos2)
    requires
        r.ordered(),
    ensures
        ({
            let s = resized(r, handle, p);
            &&& s.ordered()
            &&& (moves_left(handle) || moves_right(handle)) ==> s.min.x == p.x || s.max.x == p.x
            &&& (moves_top(handle) || moves_bottom(handle)) ==> s.min.y == p.y || s.max.y == p.y
            &&& moves_left(handle) ==> s.min.x == r.max.x || s.max.x == r.max.x
            &&& moves_right(handle) ==> s.min.x == r.min.x || s.max.x == r.min.x
            &&& moves_top(handle) ==> s.min.y == r.max.y || s.max.y == r.max.y
            &&& moves_bottom(handle) ==> s.min.y == r.min.y || s.max.y == r.min.y
            &&& !moves_left(handle) && !moves_right(handle) ==> s.min.x == r.min.x && s.max.x
                == r.max.x
            &&& !moves_top(handle) && !moves_bottom(handle) ==> s.min.y == r.min.y && s.max.y
                == r.max.y
        }),
{
}

/// Every handle lies on the rectangle, and a press right on a corner grabs a handle there.
pub proof fn law_handles_on_rect(r: Rect, k: int, res: Option<usize>)
    requires
        r.within(WIDE_LIMIT as int),
        r.ordered(),
        0 <= k < 8,
        grabs(r, handles(r)[k], res),
    ensures
        r.has(handles(r)[k]),
        res matches Some(i) && i <= k && handles(r)[i as int] == handles(r)[k],
{
    let p = handles(r)[k];
    assert(dist2(p, p) == 0);
    assert(res is Some);
    let i = res->0;
    let q = handles(r)[i as int];
    assert((q.x - p.x) * (q.x - p.x) >= 0 && ((q.x - p.x) * (q.x - p.x) == 0 ==> q.x == p.x))
        by (nonlinear_arith);
    assert((q.y - p.y) * (q.y - p.y) >= 0 && ((q.y - p.y) * (q.y - p.y) == 0 ==> q.y == p.y))
        by (nonlinear_arith);
    assert(dist2(q, p) <= dist2(handles(r)[k], p));
}

/// Rounding gives the nearest whole pixel; of two equally near ones, the one further from
/// zero.
pub proof fn law_rounding_is_nearest(v: int)
    ensures
        -32768 <= v - 65536 * rounded(v) <= 32768,
        v - 65536 * rounded(v) == 32768 ==> v < 0,
        v - 65536 * rounded(v) == -32768 ==> v > 0,
{
}

/// The distance is that of Euclid: along an axis it is the difference, over a right angle
/// the squares add up, and it is the same both ways.
pub proof fn law_distance_is_euclidean(a: Pos2, b: Pos2)
    ensures
        ({
            let corner = Pos2 { x: b.x, y: a.y };
            &&& dist2(a, b) == dist2(b, a)
            &&& dist2(a, b) == dist2(a, corner) + dist2(corner, b)
            &&& dist2(a, corner) == (b.x - a.x) * (b.x - a.x)
            &&& dist2(corner, b) == (b.y - a.y) * (b.y - a.y)
            &&& dist2(a, b) >= 0
            &&& dist2(a, b) == 0 ==> a == b
        }),
{
    let (u, v) = (b.x - a.x, b.y - a.y);
    assert((a.x - b.x) * (a.x - b.x) == u * u) by (nonlinear_arith)
        requires
            u == b.x - a.x,
    ;
    assert((a.y - b.y) * (a.y - b.y) == v * v) by (nonlinear_arith)
        requires
            v == b.y - a.y,
    ;
    assert(u * u >= 0 && (u * u == 0 ==> u == 0)) by (nonlinear_arith);
    assert(v * v >= 0 && (v * v == 0 ==> v == 0)) by (nonlinear_arith);
    assert((b.x - b.x) * (b.x - b.x) == 0);
    assert((a.y - a.y) * (a.y - a.y) == 0);
}

/// The rectangle between two positions has both as opposite corners, whichever way round
/// they are given.
pub proof fn law_span_has_both_corners(a: Pos2, b: Pos2)
    ensures
        ({
            let r = Rect::spanned(a, b);
            &&& r == Rect::spanned(b, a)
            &&& r.min.x <= a.x <= r.max.x && r.min.x <= b.x <= r.max.x
            &&& r.min.y <= a.y <= r.max.y && r.min.y <= b.y <= r.max.y
            &&& r.min.x + r.max.x == a.x + b.x
            &&& r.min.y + r.max.y == a.y + b.y
            &&& r.min.x == a.x || r.min.x == b.x
            &&& r.min.y == a.y || r.min.y == b.y
        }),
{
}

/// A rectangle has exactly the positions between its edges, and the edges.
pub proof fn law_rect_has_its_positions(r: Rect, p: Pos2)
    ensures
        r.has(p) <==> !(p.x < r.min.x || p.x > r.max.x || p.y < r.min.y || p.y > r.max.y),
        r.ordered() ==> r.has(r.min) && r.has(r.max),
{
}

/// A moved rectangle has exactly the moved positions.
pub proof fn law_moving_takes_positions_along(r: Rect, p: Pos2, dx: int, dy: int)
    requires
        r.within(WIDE_LIMIT as int),
        p.within(WIDE_LIMIT as int),
        -WIDE_LIMIT <= dx <= WIDE_LIMIT,
        -WIDE_LIMIT <= dy <= WIDE_LIMIT,
    ensures
        r.has(p) <==> r.shifted(dx, dy).has(Pos2 { x: (p.x + dx) as i64, y: (p.y + dy) as i64 }),
        r.shifted(dx, dy).min.x - r.min.x == dx && r.shifted(dx, dy).max.x - r.max.x == dx,
        r.shifted(dx, dy).min.y - r.min.y == dy && r.shifted(dx, dy).max.y - r.max.y == dy,
{
}

/// The common part of two rectangles has the positions that both have, and no others.
pub proof fn law_common_part(r: Rect, other: Rect, p: Pos2)
    ensures
        r.common(other).has(p) <==> r.has(p) && other.has(p),
        r.common(other) == other.common(r),
        r.common(r) == r,
{
}

/// Scaling loses less than a unit: a position in points times the scale is the position in
/// pixels, rounded down, and the other way round.
pub proof fn law_scaling_rounds_down(p: Pos2, scale: u32)
    requires
        p.within(WIDE_LIMIT as int),
    ensures
        ({
            let (q, t) = (to_phys(p, scale), to_points(p, scale));
            &&& p.within(POINT_LIMIT as int) && scale <= MAX_SCALE ==> q.x * 65536 <= p.x * scale
                < (q.x + 1) * 65536 && q.y * 65536 <= p.y * scale < (q.y + 1) * 65536
            &&& scale >= MIN_SCALE ==> t.x * scale <= p.x * 65536 < (t.x + 1) * scale && t.y * scale
                <= p.y * 65536 < (t.y + 1) * scale
        }),
{
    let s = scale as int;
    if p.within(POINT_LIMIT as int) && scale <= MAX_SCALE {
        assert(POINT_LIMIT * s <= LIMIT * 65536) by (nonlinear_arith)
            requires
                0 <= s <= MAX_SCALE,
        ;
        lemma_scaled_bound(p.x as int, POINT_LIMIT as int, s, 65536, LIMIT as int);
        lemma_scaled_bound(p.y as int, POINT_LIMIT as int, s, 65536, LIMIT as int);
    }
    if scale >= MIN_SCALE {
        assert(WIDE_LIMIT * 65536 <= FAR_LIMIT * s) by (nonlinear_arith)
            requires
                s >= MIN_SCALE,
        ;
        lemma_scaled_bound(p.x as int, WIDE_LIMIT as int, 65536, s, FAR_LIMIT as int);
        lemma_scaled_bound(p.y as int, WIDE_LIMIT as int, 65536, s, FAR_LIMIT as int);
        lemma_floor(p.x * 65536, s);
        lemma_floor(p.y * 65536, s);
    }
}

proof fn lemma_floor(a: int, b: int)
    requires
        b > 0,
    ensures
        (a / b) * b <= a < (a / b + 1) * b,
{
    vstd::arithmetic::div_mod::lemma_fundamental_div_mod(a, b);
    assert((a / b) * b == b * (a / b) && (a / b + 1) * b == b * (a / b) + b) by (nonlinear_arith);
}

/// A rectangle in points is the rectangle in pixels, corner by corner.
pub proof fn law_rect_scales_by_corners(r: Rect, scale: u32)
    ensures
        rect_to_points(r, scale).min == to_points(r.min, scale),
        rect_to_points(r, scale).max == to_points(r.max, scale),
{
}

/// The handles go round the rectangle clockwise from the top-left corner: every second one
/// is a corner, those between lie in the middle of an edge, and opposite ones lie opposite
/// each other, up to a unit of rounding.
pub proof fn law_handles_go_round(r: Rect, k: int)
    requires
        r.within(FAR_LIMIT as int),
        0 <= k < 8,
    ensures
        ({
            let h = handles(r);
            let (a, b, c) = (h[k], h[(k + 1) % 8], h[(k + 2) % 8]);
            &&& h.len() == 8
            &&& h[0].x == r.min.x && h[0].y == r.min.y
            &&& h[2].x == r.max.x && h[2].y == r.min.y
            &&& h[4].x == r.max.x && h[4].y == r.max.y
            &&& h[6].x == r.min.x && h[6].y == r.max.y
            &&& k % 2 == 0 ==> 0 <= a.x + c.x - 2 * b.x <= 1 && 0 <= a.y + c.y - 2 * b.y <= 1
            &&& -1 <= h[k].x + h[(k + 4) % 8].x - r.min.x - r.max.x <= 0
            &&& -1 <= h[k].y + h[(k + 4) % 8].y - r.min.y - r.max.y <= 0
        }),
{
}

/// A press grabs a handle exactly when one is at most 12 points away, and then no other
/// handle is nearer.
pub proof fn law_grab_reaches_twelve_points(r: Rect, p: Pos2, k: int)
    requires
        0 <= k < 8,
    ensures
        ({
            let h = handles(r);
            let reach = 12 * 65536 * (12 * 65536);
            &&& grabbed(r, p) is Some <==> exists|j: int|
                0 <= j < 8 && dist2(#[trigger] h[j], p) <= reach
            &&& grabbed(r, p) matches Some(i) ==> {
                &&& i < 8
                &&& dist2(h[i as int], p) <= reach
                &&& dist2(h[i as int], p) <= dist2(h[k], p)
                &&& k < i ==> dist2(h[i as int], p) < dist2(h[k], p)
            }
        }),
{
    law_grab_is_decided(r, p);
    let h = handles(r);
    assert(dist2(h[k], p) == dist2(handles(r)[k], p));
    assert(GRAB_RADIUS * GRAB_RADIUS == 12 * 65536 * (12 * 65536));
    if let Some(i) = grabbed(r, p) {
        assert(dist2(h[i as int], p) <= 12 * 65536 * (12 * 65536));
    }
}

/// A handle moves exactly the edges on which it lies, and moves them to the pointer; the
/// other edges stay.  Dragged past the opposite edge, the two change places.
pub proof fn law_handle_moves_its_edges(r: Rect, k: usize, p: Pos2)
    requires
        r.within(FAR_LIMIT as int),
        r.min.x + 2 <= r.max.x,
        r.min.y + 2 <= r.max.y,
        k < 8,
    ensures
        ({
            let h = handles(r)[k as int];
            let s = resized(r, k, p);
            // Which edges the handle lies on.
            let (left, right) = (h.x == r.min.x, h.x == r.max.x);
            let (top, bottom) = (h.y == r.min.y, h.y == r.max.y);
            &&& s.min.x <= s.max.x && s.min.y <= s.max.y
            &&& left ==> s.min.x + s.max.x == p.x + r.max.x && (s.min.x == p.x || s.max.x == p.x)
            &&& right ==> s.min.x + s.max.x == r.min.x + p.x && (s.min.x == p.x || s.max.x == p.x)
            &&& !left && !right ==> s.min.x == r.min.x && s.max.x == r.max.x
            &&& top ==> s.min.y + s.max.y == p.y + r.max.y && (s.min.y == p.y || s.max.y == p.y)
            &&& bottom ==> s.min.y + s.max.y == r.min.y + p.y && (s.min.y == p.y || s.max.y == p.y)
            &&& !top && !bottom ==> s.min.y == r.min.y && s.max.y == r.max.y
            &&& left || right || top || bottom
        }),
{
}

/// Every index past the last handle counts as the last one.
pub proof fn law_further_handles_count_as_last(r: Rect, k: usize, p: Pos2)
    requires
        k >= 8,
    ensures
        resized(r, k, p) == resized(r, 7, p),
{
}

/// A span that was moved by `d` and pushed back keeps its length; it goes where it was moved
/// to if it fits there, else to the edge that it crossed, and to the far edge if it is too
/// long.
pub proof fn law_pushed_span(lo: int, hi: int, d: int, bound: int)
    ensures
        ({
            let m = move_and_push(lo, hi, d, bound);
            &&& hi - lo <= bound && 0 <= lo + d && hi + d <= bound ==> m == d
            &&& hi - lo <= bound && lo + d < 0 ==> lo + m == 0
            &&& hi - lo <= bound && hi + d > bound ==> hi + m == bound
            &&& hi - lo > bound ==> hi + m == bound
        }),
{
}

/// A clamped rectangle touches the edge that it crossed: along each axis by itself it stays
/// if it lies inside, goes to the near edge if it began before it, and to the far edge if it
/// ended past it or is too long.
pub proof fn law_clamp_touches_crossed_edge(r: Rect, bounds: Vec2)
    requires
        r.within(2 * WIDE_LIMIT),
        bounds.within(WIDE_LIMIT as int),
    ensures
        ({
            let c = clamped(r, bounds);
            let (w, h) = (r.max.x - r.min.x, r.max.y - r.min.y);
            &&& c.max.x - c.min.x == w && c.max.y - c.min.y == h
            &&& w <= bounds.x && 0 <= r.min.x && r.max.x <= bounds.x ==> c.min.x == r.min.x
            &&& w <= bounds.x && r.min.x < 0 ==> c.min.x == 0
            &&& w > bounds.x || r.max.x > bounds.x ==> c.max.x == bounds.x
            &&& h <= bounds.y && 0 <= r.min.y && r.max.y <= bounds.y ==> c.min.y == r.min.y
            &&& h <= bounds.y && r.min.y < 0 ==> c.min.y == 0
            &&& h > bounds.y || r.max.y > bounds.y ==> c.max.y == bounds.y
        }),
{
}

/// Moving within an area is moving and then clamping, along each axis by itself.
pub proof fn law_move_within_is_move_and_clamp(r: Rect, dx: int, dy: int, bounds: Vec2)
    requires
        r.ordered(),
        r.within(WIDE_LIMIT as int),
        bounds.within(WIDE_LIMIT as int),
    ensures
        -WIDE_LIMIT <= dx <= WIDE_LIMIT && -WIDE_LIMIT <= dy <= WIDE_LIMIT ==> moved_within(
            r,
            dx,
            dy,
            bounds,
        ) == clamped(r.shifted(dx, dy), bounds),
        moved_within(r, dx, dy, bounds).max.x - moved_within(r, dx, dy, bounds).min.x == r.max.x
            - r.min.x,
        moved_within(r, dx, dy, bounds).max.y - moved_within(r, dx, dy, bounds).min.y == r.max.y
            - r.min.y,
        moved_within(r, dx, dy, bounds).min.x == r.min.x + move_and_push(
            r.min.x as int,
            r.max.x as int,
            dx,
            bounds.x as int,
        ),
        moved_within(r, dx, dy, bounds).min.y == r.min.y + move_and_push(
            r.min.y as int,
            r.max.y as int,
            dy,
            bounds.y as int,
        ),
{
}

/// The same of every rectangle, however small: which edges a handle moves is told by where
/// it lies on a rectangle of two units.
pub proof fn law_handle_moves_same_edges_of_all(r: Rect, k: usize, p: Pos2)
    requires
        k < 8,
    ensures
        ({
            let unit = Rect { min: Pos2 { x: 0, y: 0 }, max: Pos2 { x: 2, y: 2 } };
            let (h, s) = (handles(unit)[k as int], resized(r, k, p));
            let at_x = s.min.x == p.x || s.max.x == p.x;
            let at_y = s.min.y == p.y || s.max.y == p.y;
            &&& s.min.x <= s.max.x && s.min.y <= s.max.y
            &&& h.x == 0 || h.x == 1 || h.x == 2
            &&& h.y == 0 || h.y == 1 || h.y == 2
            &&& h.x == 0 ==> s.min.x + s.max.x == p.x + r.max.x && at_x
            &&& h.x == 1 ==> s.min.x + s.max.x == r.min.x + r.max.x && (s.min.x == r.min.x
                || s.min.x == r.max.x)
            &&& h.x == 2 ==> s.min.x + s.max.x == r.min.x + p.x && at_x
            &&& h.y == 0 ==> s.min.y + s.max.y == p.y + r.max.y && at_y
            &&& h.y == 1 ==> s.min.y + s.max.y == r.min.y + r.max.y && (s.min.y == r.min.y
                || s.min.y == r.max.y)
            &&& h.y == 2 ==> s.min.y + s.max.y == r.min.y + p.y && at_y
        }),
{
}

} // verus!
