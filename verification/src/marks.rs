//! What a capture is made of: tools, annotations, selections, and the input events.
use vstd::prelude::*;

use crate::geom::{Pos2, Rect};

verus! {

/// A colour with straight alpha.
#[derive(Clone, Copy, PartialEq, Eq, Structural, Debug)]
pub struct Color {
    pub r: u8,
    pub g: u8,
    pub b: u8,
    pub a: u8,
}

/// The five annotation colours.
pub open spec fn palette() -> Seq<Color> {
    seq![
        Color { r: 229, g: 72, b: 77, a: 255 },
        Color { r: 255, g: 197, b: 61, a: 255 },
        Color { r: 70, g: 180, b: 90, a: 255 },
        Color { r: 62, g: 133, b: 240, a: 255 },
        Color { r: 0, g: 0, b: 0, a: 255 },
    ]
}

/// The five annotation colours: red, yellow, green, blue, black.
pub fn colors() -> (res: [Color; 5])
    ensures
        res@ == palette(),
{
    let res = [
        Color { r: 229, g: 72, b: 77, a: 255 },
        Color { r: 255, g: 197, b: 61, a: 255 },
        Color { r: 70, g: 180, b: 90, a: 255 },
        Color { r: 62, g: 133, b: 240, a: 255 },
        Color { r: 0, g: 0, b: 0, a: 255 },
    ];
    assert(res@ =~= palette());
    res
}

/// What a drag or click on the selection does.
#[derive(Clone, Copy, PartialEq, Eq, Structural, Debug)]
pub enum Tool {
    Select,
    Pen,
    Line,
    Arrow,
    Rect,
    Text,
}

/// A finished annotation.
#[derive(Clone)]
pub enum Annotation {
    Pen { points: Vec<Pos2>, color: Color },
    Line { from: Pos2, to: Pos2, color: Color },
    Arrow { from: Pos2, to: Pos2, color: Color },
    Rect { rect: Rect, color: Color },
    Text { pos: Pos2, text: String, color: Color },
}

/// An annotation as a mathematical value.
#[verifier::ext_equal]
pub enum Mark {
    Pen { points: Seq<Pos2>, color: Color },
    Line { from: Pos2, to: Pos2, color: Color },
    Arrow { from: Pos2, to: Pos2, color: Color },
    Rect { rect: Rect, color: Color },
    Text { pos: Pos2, text: Seq<char>, color: Color },
}

impl View for Annotation {
    type V = Mark;

    open spec fn view(&self) -> Mark {
        match *self {
            Annotation::Pen { points, color } => Mark::Pen { points: points@, color },
            Annotation::Line { from, to, color } => Mark::Line { from, to, color },
            Annotation::Arrow { from, to, color } => Mark::Arrow { from, to, color },
            Annotation::Rect { rect, color } => Mark::Rect { rect, color },
            Annotation::Text { pos, text, color } => Mark::Text { pos, text: text@, color },
        }
    }
}

impl Mark {
    /// The annotation moved by `-dx` and `-dy`.
    pub open spec fn relative_to(self, dx: int, dy: int) -> Mark {
        let back = |p: Pos2| Pos2 { x: (p.x - dx) as i64, y: (p.y - dy) as i64 };
        match self {
            Mark::Pen { points, color } => Mark::Pen { points: points.map_values(back), color },
            Mark::Line { from, to, color } => Mark::Line { from: back(from), to: back(to), color },
            Mark::Arrow { from, to, color } => Mark::Arrow {
                from: back(from),
                to: back(to),
                color,
            },
            Mark::Rect { rect, color } => Mark::Rect {
                rect: Rect { min: back(rect.min), max: back(rect.max) },
                color,
            },
            Mark::Text { pos, text, color } => Mark::Text { pos: back(pos), text, color },
        }
    }
}

fn back(p: Pos2, origin: Pos2) -> (q: Pos2)
    requires
        p.within(crate::geom::LIMIT as int),
        origin.within(crate::geom::WIDE_LIMIT as int * 65536),
    ensures
        q.x == p.x - origin.x,
        q.y == p.y - origin.y,
{
    Pos2 { x: p.x - origin.x, y: p.y - origin.y }
}

impl Annotation {
    /// The annotation as seen from `origin`.
    pub fn relative(&self, origin: Pos2) -> (a: Annotation)
        requires
            crate::session::mark_ok(self@),
            origin.within(crate::geom::WIDE_LIMIT as int * 65536),
        ensures
            a@ == self@.relative_to(origin.x as int, origin.y as int),
    {
        match self {
            Annotation::Pen { points, color } => {
                let mut moved: Vec<Pos2> = Vec::new();
                let n: usize = points.len();
                for k in 0..n
                    invariant
                        n == points@.len(),
                        forall|j: int|
                            0 <= j < n ==> (#[trigger] points@[j]).within(crate::geom::LIMIT as int),
                        origin.within(crate::geom::WIDE_LIMIT as int * 65536),
                        moved@.len() == k,
                        forall|j: int|
                            0 <= j < k ==> (#[trigger] moved@[j]).x == points@[j].x - origin.x
                                && moved@[j].y == points@[j].y - origin.y,
                {
                    moved.push(back(points[k], origin));
                }
                let a = Annotation::Pen { points: moved, color: *color };
                assert(a@ =~~= self@.relative_to(origin.x as int, origin.y as int));
                a
            },
            Annotation::Line { from, to, color } => Annotation::Line {
                from: back(*from, origin),
                to: back(*to, origin),
                color: *color,
            },
            Annotation::Arrow { from, to, color } => Annotation::Arrow {
                from: back(*from, origin),
                to: back(*to, origin),
                color: *color,
            },
            Annotation::Rect { rect, color } => Annotation::Rect {
                rect: Rect { min: back(rect.min, origin), max: back(rect.max, origin) },
                color: *color,
            },
            Annotation::Text { pos, text, color } => Annotation::Text {
                pos: back(*pos, origin),
                text: text.clone(),
                color: *color,
            },
        }
    }
}

/// The selected area.
#[derive(Clone, Copy, PartialEq, Eq, Structural, Debug)]
pub enum Selection {
    Empty,
    Dragging { start: Pos2, cur: Pos2 },
    Placed { rect: Rect },
}

/// A drag that is under way on a placed selection.
pub enum DragOp {
    MoveSel { last: Pos2 },
    Resize { handle: usize },
    Pen { points: Vec<Pos2> },
    Shape { start: Pos2, cur: Pos2 },
}

/// A drag as a mathematical value.
#[verifier::ext_equal]
pub enum Stroke {
    MoveSel { last: Pos2 },
    Resize { handle: usize },
    Pen { points: Seq<Pos2> },
    Shape { start: Pos2, cur: Pos2 },
}

impl View for DragOp {
    type V = Stroke;

    open spec fn view(&self) -> Stroke {
        match *self {
            DragOp::MoveSel { last } => Stroke::MoveSel { last },
            DragOp::Resize { handle } => Stroke::Resize { handle },
            DragOp::Pen { points } => Stroke::Pen { points: points@ },
            DragOp::Shape { start, cur } => Stroke::Shape { start, cur },
        }
    }
}

/// Text that is being typed.
pub struct TextDraft {
    pub pos: Pos2,
    pub buffer: String,
}

/// How the user ends a capture.
#[derive(Clone, Copy, PartialEq, Eq, Structural, Debug)]
pub enum Outcome {
    Cancel,
    Copy,
    Save,
}

/// Where the pointer is, in physical pixels and in points.
#[derive(Clone, Copy, PartialEq, Eq, Structural, Debug)]
pub struct Pointer {
    pub phys: Pos2,
    pub pts: Pos2,
}

/// What the mouse did on one monitor during one frame.
#[derive(Clone, Copy, PartialEq, Eq, Structural, Debug)]
pub struct Gesture {
    /// The pointer, where it is over the monitor.
    pub pointer: Option<Pointer>,
    /// Where the button went down, in physical pixels.
    pub press_origin: Option<Pos2>,
    /// The selection as it is drawn, in points.
    pub sel_pts: Rect,
    pub drag_started: bool,
    pub dragged: bool,
    pub drag_stopped: bool,
    pub clicked: bool,
}

impl Gesture {
    /// All coordinates are within the limit.
    pub open spec fn wf(self) -> bool {
        let limit = crate::geom::LIMIT as int;
        &&& self.pointer matches Some(p) ==> p.phys.within(limit) && p.pts.within(limit)
        &&& self.press_origin matches Some(p) ==> p.within(limit)
        &&& self.sel_pts.within(crate::geom::FAR_LIMIT as int)
    }

    /// Where a drag is anchored: at the press if that is known, else at the pointer.
    pub open spec fn anchor(self) -> Option<Pos2> {
        match self.press_origin {
            Some(p) => Some(p),
            None => match self.pointer {
                Some(p) => Some(p.phys),
                None => None,
            },
        }
    }
}

/// What the mouse did on one monitor during one frame, as the window reports it: all
/// positions are in points.
#[derive(Clone, Copy, PartialEq, Eq, Structural, Debug)]
pub struct Mouse {
    /// The pointer, where it is over the monitor.
    pub pointer: Option<Pos2>,
    /// Where the button went down.
    pub press_origin: Option<Pos2>,
    /// Physical pixels per point, in units of 1/65536.
    pub scale: u32,
    pub drag_started: bool,
    pub dragged: bool,
    pub drag_stopped: bool,
    pub clicked: bool,
}

impl Mouse {
    /// All positions and the scale are within the limits.
    pub open spec fn wf(self) -> bool {
        let limit = crate::geom::POINT_LIMIT as int;
        &&& crate::geom::scale_ok(self.scale)
        &&& self.pointer matches Some(p) ==> p.within(limit)
        &&& self.press_origin matches Some(p) ==> p.within(limit)
    }
}

/// The keys that the overlay knows.
#[derive(Clone, Copy, PartialEq, Eq, Structural, Debug)]
pub enum Key {
    Escape,
    Enter,
    C,
    S,
    Z,
    ArrowLeft,
    ArrowRight,
    ArrowUp,
    ArrowDown,
    Other,
}

/// One keyboard event, with the modifiers that were down when it happened.
#[derive(Clone, Copy, PartialEq, Eq, Structural, Debug)]
pub enum KeyEvent {
    /// The copy shortcut, already recognised as such.
    Copy,
    Key { key: Key, pressed: bool, ctrl: bool, shift: bool },
}

/// The annotation colours are red, yellow, green, blue and black, all of them opaque.
pub proof fn law_palette_is_opaque_and_distinct(j: int, k: int)
    requires
        0 <= j < k < 5,
    ensures
        ({
            let rgb = |c: Color| c.r * 65536 + c.g * 256 + c.b;
            let p = palette();
            &&& p.len() == 5
            &&& p[j].a == 255 && p[k].a == 255
            &&& p[j] != p[k]
            &&& rgb(p[0]) == 0xE5484D && rgb(p[1]) == 0xFFC53D && rgb(p[2]) == 0x46B45A
            &&& rgb(p[3]) == 0x3E85F0 && rgb(p[4]) == 0
        }),
{
}

/// An annotation stands for a mark of its own kind with the same coordinates, colour and
/// text.
pub proof fn law_annotation_is_its_mark(a: Annotation)
    ensures
        a matches Annotation::Pen { points, color } ==> a@ == (Mark::Pen { points: points@, color }),
        a matches Annotation::Line { from, to, color } ==> a@ == (Mark::Line { from, to, color }),
        a matches Annotation::Arrow { from, to, color } ==> a@ == (Mark::Arrow { from, to, color }),
        a matches Annotation::Rect { rect, color } ==> a@ == (Mark::Rect { rect, color }),
        a matches Annotation::Text { pos, text, color } ==> a@ == (Mark::Text {
            pos,
            text: text@,
            color,
        }),
{
}

/// Seen from another corner an annotation keeps its kind, its colour and its text, and each
/// of its coordinates is what it was minus that corner.
pub proof fn law_seen_from_corner(m: Mark, dx: int, dy: int)
    requires
        crate::session::mark_ok(m),
        -0x400_0000_0000 * 65536 <= dx <= 0x400_0000_0000 * 65536,
        -0x400_0000_0000 * 65536 <= dy <= 0x400_0000_0000 * 65536,
    ensures
        ({
            let seen = m.relative_to(dx, dy);
            &&& m matches Mark::Pen { points: was, color: c } ==> (seen matches Mark::Pen {
                points: now,
                color,
            } && color == c && now.len() == was.len() && forall|k: int|
                0 <= k < was.len() ==> (#[trigger] now[k]).x + dx == was[k].x && now[k].y + dy
                    == was[k].y)
            &&& m matches Mark::Line { from: f, to: t, color: c } ==> (seen matches Mark::Line {
                from,
                to,
                color,
            } && color == c && from.x + dx == f.x && from.y + dy == f.y && to.x + dx == t.x && to.y
                + dy == t.y)
            &&& m matches Mark::Arrow { from: f, to: t, color: c } ==> (seen matches Mark::Arrow {
                from,
                to,
                color,
            } && color == c && from.x + dx == f.x && from.y + dy == f.y && to.x + dx == t.x && to.y
                + dy == t.y)
            &&& m matches Mark::Rect { rect: r, color: c } ==> (seen matches Mark::Rect {
                rect,
                color,
            } && color == c && rect.min.x + dx == r.min.x && rect.min.y + dy == r.min.y && rect.max.x
                + dx == r.max.x && rect.max.y + dy == r.max.y)
            &&& m matches Mark::Text { pos: p, text: w, color: c } ==> (seen matches Mark::Text {
                pos,
                text,
                color,
            } && color == c && text == w && pos.x + dx == p.x && pos.y + dy == p.y)
        }),
{
}

/// Going to another corner and back leads to the same annotation, and two steps are as good
/// as one.
pub proof fn law_corner_steps_add_up(m: Mark, dx: int, dy: int, ex: int, ey: int)
    requires
        crate::session::mark_ok(m),
        -0x400_0000_0000 <= dx <= 0x400_0000_0000,
        -0x400_0000_0000 <= dy <= 0x400_0000_0000,
        -0x400_0000_0000 <= ex <= 0x400_0000_0000,
        -0x400_0000_0000 <= ey <= 0x400_0000_0000,
    ensures
        m.relative_to(dx, dy).relative_to(-dx, -dy) == m,
        m.relative_to(dx, dy).relative_to(ex, ey) == m.relative_to(dx + ex, dy + ey),
{
    assert(m.relative_to(dx, dy).relative_to(-dx, -dy) =~~= m);
    assert(m.relative_to(dx, dy).relative_to(ex, ey) =~~= m.relative_to(dx + ex, dy + ey));
}

/// A drag is anchored where the button went down, and at the pointer only where that is not
/// known.
pub proof fn law_drag_is_anchored_at_press(g: Gesture)
    ensures
        g.press_origin is Some ==> g.anchor() == g.press_origin,
        g.press_origin is None && g.pointer is Some ==> g.anchor() == Some(g.pointer->0.phys),
        g.press_origin is None && g.pointer is None ==> g.anchor() is None,
{
}

/// A drag stands for a stroke of its own sort with the same positions and handle.
pub proof fn law_drag_is_its_stroke(op: DragOp)
    ensures
        op matches DragOp::MoveSel { last } ==> op@ == (Stroke::MoveSel { last }),
        op matches DragOp::Resize { handle } ==> op@ == (Stroke::Resize { handle }),
        op matches DragOp::Pen { points } ==> op@ == (Stroke::Pen { points: points@ }),
        op matches DragOp::Shape { start, cur } ==> op@ == (Stroke::Shape { start, cur }),
{
}

} // verus!
