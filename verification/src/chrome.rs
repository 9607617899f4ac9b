//! Where the overlay draws what it shows around the selection.
//!
//! Everything here is in points, in the fixed point of [`crate::geom`], unless a
//! function says otherwise.
use vstd::prelude::*;

use crate::geom::{round_px, Pos2, Rect, Vec2};
use crate::text::size_label;

verus! {

/// Distance between the cursor and the loupe: 24 points.
pub const LOUPE_GAP: i64 = 1572864;

/// Side of the loupe: 120 points.
pub const LOUPE_SIZE: i64 = 7864320;

/// The position lies in the rectangle, edges excluded.
pub open spec fn interior(r: Rect, p: Pos2) -> bool {
    r.min.x < p.x < r.max.x && r.min.y < p.y < r.max.y
}

/// The strips that darken the screen around the hole: above, below, left and right of it.
pub open spec fn around(hole: Rect, screen: Rect) -> Seq<Rect> {
    seq![
        Rect { min: screen.min, max: Pos2 { x: screen.max.x, y: hole.min.y } },
        Rect { min: Pos2 { x: screen.min.x, y: hole.max.y }, max: screen.max },
        Rect {
            min: Pos2 { x: screen.min.x, y: hole.min.y },
            max: Pos2 { x: hole.min.x, y: hole.max.y },
        },
        Rect {
            min: Pos2 { x: hole.max.x, y: hole.min.y },
            max: Pos2 { x: screen.max.x, y: hole.max.y },
        },
    ]
}

/// The darkened part of the screen: everything but the selection.
pub fn dim_strips(sel: Option<Rect>, screen: Rect) -> (strips: Vec<Rect>)
    ensures
        strips@ == (match sel {
            Some(sel) => around(sel.common(screen), screen),
            None => seq![screen],
        }),
{
    let mut strips: Vec<Rect> = Vec::new();
    match sel {
        Some(sel) => {
            let s = sel.intersect(screen);
            strips.push(Rect { min: screen.min, max: Pos2 { x: screen.max.x, y: s.min.y } });
            strips.push(Rect { min: Pos2 { x: screen.min.x, y: s.max.y }, max: screen.max });
            strips.push(
                Rect {
                    min: Pos2 { x: screen.min.x, y: s.min.y },
                    max: Pos2 { x: s.min.x, y: s.max.y },
                },
            );
            strips.push(
                Rect {
                    min: Pos2 { x: s.max.x, y: s.min.y },
                    max: Pos2 { x: screen.max.x, y: s.max.y },
                },
            );
            assert(strips@ =~= around(s, screen));
        },
        None => {
            strips.push(screen);
            assert(strips@ =~= seq![screen]);
        },
    }
    strips
}

/// Where the selection meets the screen, the strips cover the screen but for the
/// selection, leave its inside free, and do not overlap each other.
pub proof fn law_dim_leaves_selection_free(sel: Rect, screen: Rect, p: Pos2)
    requires
        screen.ordered(),
        sel.common(screen).ordered(),
    ensures
        ({
            let hole = sel.common(screen);
            let strips = around(hole, screen);
            &&& screen.has(p) ==> hole.has(p) || exists|k: int|
                0 <= k < strips.len() && (#[trigger] strips[k]).has(p)
            &&& interior(hole, p) ==> forall|k: int|
                0 <= k < strips.len() ==> !(#[trigger] strips[k]).has(p)
            &&& forall|k: int, j: int|
                #![trigger strips[k], strips[j]]
                0 <= k < j < strips.len() && interior(strips[k], p) ==> !interior(strips[j], p)
            &&& forall|k: int|
                0 <= k < strips.len() && (#[trigger] strips[k]).has(p) ==> screen.has(p)
        }),
{
    let hole = sel.common(screen);
    let strips = around(hole, screen);
    assert(strips.len() == 4);
    if screen.has(p) && !hole.has(p) {
        if p.y <= hole.min.y {
            assert(strips[0].has(p));
        } else if p.y >= hole.max.y {
            assert(strips[1].has(p));
        } else if p.x <= hole.min.x {
            assert(strips[2].has(p));
        } else {
            assert(strips[3].has(p));
        }
    }
}

/// The size label of a selection given in physical pixels, rounded to whole pixels.
pub fn badge_label(sel_phys: Rect) -> (s: String)
    requires
        sel_phys.ordered(),
        sel_phys.within(crate::geom::WIDE_LIMIT as int),
    ensures
        s@ == crate::text::size_text(
            crate::geom::rounded(sel_phys.max.x - sel_phys.min.x) as nat,
            crate::geom::rounded(sel_phys.max.y - sel_phys.min.y) as nat,
        ),
{
    let w: i64 = round_px(sel_phys.max.x - sel_phys.min.x);
    let h: i64 = round_px(sel_phys.max.y - sel_phys.min.y);
    size_label(w as u64, h as u64)
}

/// The badge with the size label: 4 points outside the bottom-right corner of the
/// selection or, where that leaves the screen, as far inside it.  `text` is the size of
/// the label; the badge is 6 points wider and 3 points higher on each side.
pub open spec fn badge(corner: Pos2, text: Vec2, screen_max: Pos2) -> Rect {
    let w = text.x + 786432;
    let h = text.y + 393216;
    let leaves = corner.x + 262144 + w > screen_max.x || corner.y + 262144 + h > screen_max.y;
    let x = if leaves {
        corner.x - w - 262144
    } else {
        corner.x + 262144
    };
    let y = if leaves {
        corner.y - h - 262144
    } else {
        corner.y + 262144
    };
    Rect {
        min: Pos2 { x: x as i64, y: y as i64 },
        max: Pos2 { x: (x + w) as i64, y: (y + h) as i64 },
    }
}

/// Places the badge with the size label.
pub fn badge_rect(corner: Pos2, text: Vec2, screen_max: Pos2) -> (r: Rect)
    requires
        corner.within(crate::geom::FAR_LIMIT as int),
        text.within(crate::geom::FAR_LIMIT as int),
        screen_max.within(crate::geom::FAR_LIMIT as int),
    ensures
        r == badge(corner, text, screen_max),
{
    let w: i64 = text.x + 786432;
    let h: i64 = text.y + 393216;
    let mut x: i64 = corner.x + 262144;
    let mut y: i64 = corner.y + 262144;
    if x + w > screen_max.x || y + h > screen_max.y {
        x = corner.x - w - 262144;
        y = corner.y - h - 262144;
    }
    Rect { min: Pos2 { x, y }, max: Pos2 { x: x + w, y: y + h } }
}

/// The badge ends on the screen if the selection does.
pub proof fn law_badge_stays_on_screen(corner: Pos2, text: Vec2, screen_max: Pos2)
    requires
        corner.within(crate::geom::FAR_LIMIT as int),
        text.is_size(),
        screen_max.within(crate::geom::FAR_LIMIT as int),
        corner.x <= screen_max.x,
        corner.y <= screen_max.y,
    ensures
        badge(corner, text, screen_max).max.x <= screen_max.x,
        badge(corner, text, screen_max).max.y <= screen_max.y,
{
}

/// Where something of length `len` goes along one axis: `gap` after `cur` or, where it
/// would end past `end`, as far before it.
pub open spec fn beside(cur: int, gap: int, len: int, end: int) -> int {
    if cur + gap + len > end {
        cur - gap - len
    } else {
        cur + gap
    }
}

/// Where the loupe goes: 24 points right of and below the cursor, flipped along each axis
/// along which it would leave the screen.  It is a square of 120 points.
pub fn loupe_rect(cur: Pos2, screen_max: Pos2) -> (r: Rect)
    requires
        cur.within(crate::geom::FAR_LIMIT as int),
    ensures
        r.min.x == beside(cur.x as int, LOUPE_GAP as int, LOUPE_SIZE as int, screen_max.x as int),
        r.min.y == beside(cur.y as int, LOUPE_GAP as int, LOUPE_SIZE as int, screen_max.y as int),
        r.max.x == r.min.x + LOUPE_SIZE,
        r.max.y == r.min.y + LOUPE_SIZE,
{
    let (gap, len): (i64, i64) = (LOUPE_GAP, LOUPE_SIZE);
    let mut x: i64 = cur.x + gap;
    let mut y: i64 = cur.y + gap;
    if x + len > screen_max.x {
        x = cur.x - gap - len;
    }
    if y + len > screen_max.y {
        y = cur.y - gap - len;
    }
    Rect { min: Pos2 { x, y }, max: Pos2 { x: x + len, y: y + len } }
}

/// The part of the frozen image that the loupe shows, in physical pixels: 15 points each
/// way around the cursor, which the loupe makes eight times as large.
pub open spec fn loupe_part(cur: Pos2, scale: u32) -> Rect {
    let half = (15 * scale) as int / 2;
    Rect {
        min: Pos2 { x: (cur.x - half) as i64, y: (cur.y - half) as i64 },
        max: Pos2 { x: (cur.x + half) as i64, y: (cur.y + half) as i64 },
    }
}

/// The part of the frozen image that the loupe shows.
pub fn loupe_source(cur: Pos2, scale: u32) -> (r: Rect)
    requires
        cur.within(crate::geom::WIDE_LIMIT as int),
    ensures
        r == loupe_part(cur, scale),
{
    let half: i64 = 15 * scale as i64 / 2;
    Rect {
        min: Pos2 { x: cur.x - half, y: cur.y - half },
        max: Pos2 { x: cur.x + half, y: cur.y + half },
    }
}

/// The loupe shows the image eight times as large as the screen does, up to a rounding of
/// one unit of the image.
pub proof fn law_loupe_zooms_eight_times(cur: Pos2, scale: u32)
    requires
        cur.within(crate::geom::WIDE_LIMIT as int),
    ensures
        ({
            let part = loupe_part(cur, scale);
            let shown = LOUPE_SIZE * scale / 65536;
            &&& shown - 8 <= 8 * (part.max.x - part.min.x) <= shown
            &&& part.has(cur)
        }),
{
}

/// The loupe never covers the cursor, and ends on the screen if the cursor is there.
pub proof fn law_loupe_is_beside_cursor(cur: int, end: int)
    requires
        cur <= end,
    ensures
        ({
            let x = beside(cur, LOUPE_GAP as int, LOUPE_SIZE as int, end);
            (cur < x || x + LOUPE_SIZE < cur) && x + LOUPE_SIZE <= end
        }),
{
}

/// Top of the toolbar of a selection from `top` to `bottom`: 10 points below it or, where
/// its 36 points would end past `end`, as far above it.
pub open spec fn toolbar_top(top: int, bottom: int, end: int) -> int {
    if bottom + 10 * 65536 + 36 * 65536 > end {
        top - 10 * 65536 - 36 * 65536
    } else {
        bottom + 10 * 65536
    }
}

/// Where the toolbar goes: 10 points below the selection or, where its 36 points would
/// leave the screen, as far above it.
pub fn toolbar_pos(sel: Rect, screen_max: Pos2) -> (p: Pos2)
    requires
        sel.within(crate::geom::FAR_LIMIT as int),
    ensures
        p.x == sel.min.x,
        p.y == toolbar_top(sel.min.y as int, sel.max.y as int, screen_max.y as int),
{
    let (gap, bar): (i64, i64) = (10 * 65536, 36 * 65536);
    let mut y: i64 = sel.max.y + gap;
    if y + bar > screen_max.y {
        y = sel.min.y - gap - bar;
    }
    Pos2 { x: sel.min.x, y }
}

/// The toolbar is 36 points high and leaves exactly 10 points between itself and the
/// selection; it is below wherever it ends on the screen there, and above otherwise.
pub proof fn law_toolbar_keeps_its_distance(top: int, bottom: int, end: int)
    requires
        top <= bottom,
    ensures
        ({
            let y = toolbar_top(top, bottom, end);
            let fits = bottom + 46 * 65536 <= end;
            &&& fits ==> y - bottom == 655360 && y + 36 * 65536 <= end
            &&& !fits ==> top - (y + 36 * 65536) == 655360
        }),
{
}

/// The badge is 12 points wider and 6 points higher than its label.  Its nearest corner is 4
/// points from the corner of the selection both ways: outside where all of it is on the
/// screen there, and inside otherwise.
pub proof fn law_badge_keeps_its_distance(corner: Pos2, text: Vec2, screen_max: Pos2)
    requires
        corner.within(crate::geom::FAR_LIMIT as int),
        text.within(crate::geom::FAR_LIMIT as int),
        screen_max.within(crate::geom::FAR_LIMIT as int),
    ensures
        ({
            let r = badge(corner, text, screen_max);
            let (w, h) = (text.x + 12 * 65536, text.y + 6 * 65536);
            let fits = corner.x + 4 * 65536 + w <= screen_max.x && corner.y + 4 * 65536 + h
                <= screen_max.y;
            &&& r.max.x - r.min.x == w && r.max.y - r.min.y == h
            &&& fits ==> r.min.x - corner.x == 4 * 65536 && r.min.y - corner.y == 4 * 65536
            &&& !fits ==> corner.x - r.max.x == 4 * 65536 && corner.y - r.max.y == 4 * 65536
        }),
{
}

/// Something beside the cursor leaves exactly the gap between itself and the cursor; it is
/// after the cursor wherever it ends before `end` there, and before it otherwise.
pub proof fn law_beside_keeps_the_gap(cur: int, gap: int, len: int, end: int)
    ensures
        ({
            let x = beside(cur, gap, len, end);
            &&& cur + gap + len <= end ==> x - cur == gap
            &&& cur + gap + len > end ==> cur - (x + len) == gap
        }),
{
}

/// The loupe is a square of 120 points, 24 points from the cursor.
pub proof fn law_loupe_measures()
    ensures
        LOUPE_SIZE == 120 * 65536,
        LOUPE_GAP == 24 * 65536,
{
}

/// The part under the loupe reaches equally far from the cursor to all sides, seven and a
/// half points rounded down.
pub proof fn law_loupe_part_is_centred(cur: Pos2, scale: u32)
    requires
        cur.within(crate::geom::WIDE_LIMIT as int),
    ensures
        ({
            let r = loupe_part(cur, scale);
            let reach = r.max.x - cur.x;
            &&& cur.x - r.min.x == reach
            &&& cur.y - r.min.y == reach && r.max.y - cur.y == reach
            &&& 15 * scale - 1 <= 2 * reach <= 15 * scale
        }),
{
}

/// A rectangle has its edges outside of its interior, and everything else of it inside.
pub proof fn law_interior_is_without_edges(r: Rect, p: Pos2)
    ensures
        interior(r, p) <==> r.has(p) && p.x != r.min.x && p.x != r.max.x && p.y != r.min.y && p.y
            != r.max.y,
{
}

/// Wherever the hole is, the strips around it reach from it to the edges of the screen: the
/// first two over its whole width, above and below the hole, and the others beside the hole,
/// between its top and its bottom.
pub proof fn law_strips_reach_to_hole(hole: Rect, screen: Rect)
    ensures
        ({
            let s = around(hole, screen);
            &&& s.len() == 4
            &&& s[0].min == screen.min && s[0].max.x == screen.max.x && s[0].max.y == hole.min.y
            &&& s[1].max == screen.max && s[1].min.x == screen.min.x && s[1].min.y == hole.max.y
            &&& s[2].min.x == screen.min.x && s[2].max.x == hole.min.x
            &&& s[3].min.x == hole.max.x && s[3].max.x == screen.max.x
            &&& s[2].min.y == hole.min.y && s[2].max.y == hole.max.y
            &&& s[3].min.y == hole.min.y && s[3].max.y == hole.max.y
        }),
{
}

} // verus!
