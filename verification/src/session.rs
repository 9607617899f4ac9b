//! What a capture session is, and what each input does to it.
//!
//! [`Session`] is the mathematical state of a capture; its methods say how the mouse and
//! the keyboard change it.  The executable [`crate::overlay::Capture`] follows them.
use vstd::prelude::*;

use crate::geom::{Pos2, Rect, Vec2};
use crate::marks::{
    Color, Gesture, Key, KeyEvent, Mark, Mouse, Outcome, Pointer, Selection, Stroke, Tool,
};

verus! {

/// The state of a capture.
#[verifier::ext_equal]
pub struct Session {
    /// Size of each monitor.
    pub sizes: Seq<Vec2>,
    pub sel: Selection,
    /// The monitor that owns the selection.
    pub active: Option<usize>,
    pub marks: Seq<Mark>,
    pub tool: Tool,
    pub color: Color,
    pub stroke: Option<Stroke>,
    /// Text that is being typed, and where.
    pub draft: Option<(Pos2, Seq<char>)>,
}

/// A span that a placed selection can have along one axis of a monitor of length `m`.
pub open spec fn span_ok(lo: int, hi: int, m: int) -> bool {
    let b = crate::geom::LIMIT as int;
    lo <= hi && (-b <= lo && hi <= b || m - 2 * b <= lo && hi <= m)
}

/// The position moved onto the monitor along both axes.
pub open spec fn onto(p: Pos2, size: Vec2) -> Pos2 {
    Pos2 {
        x: if p.x < 0 {
            0
        } else if p.x > size.x {
            size.x
        } else {
            p.x
        },
        y: if p.y < 0 {
            0
        } else if p.y > size.y {
            size.y
        } else {
            p.y
        },
    }
}

/// The position lies on a monitor of the given size.
pub open spec fn on_monitor(p: Pos2, size: Vec2) -> bool {
    0 <= p.x <= size.x && 0 <= p.y <= size.y
}

/// Whether a pen that was at `last` records the position `p`: they are more than
/// one and a half pixels apart.
pub open spec fn pen_records(last: Pos2, p: Pos2) -> bool {
    crate::geom::dist2(last, p) > 98304 * 98304
}

/// Whether a shape from `start` to `cur` is long enough to keep: more than two pixels.
pub open spec fn shape_counts(start: Pos2, cur: Pos2) -> bool {
    crate::geom::dist2(cur, start) > 131072 * 131072
}

/// The annotation that a shape tool draws from `start` to `cur`.
pub open spec fn shape_mark(tool: Tool, start: Pos2, cur: Pos2, color: Color) -> Mark {
    match tool {
        Tool::Line => Mark::Line { from: start, to: cur, color },
        Tool::Arrow => Mark::Arrow { from: start, to: cur, color },
        _ => Mark::Rect { rect: Rect::spanned(start, cur), color },
    }
}

/// All coordinates of the annotation are within the limit.
pub open spec fn mark_ok(m: Mark) -> bool {
    let limit = crate::geom::LIMIT as int;
    match m {
        Mark::Pen { points, color } => forall|k: int|
            0 <= k < points.len() ==> (#[trigger] points[k]).within(limit),
        Mark::Line { from, to, color } => from.within(limit) && to.within(limit),
        Mark::Arrow { from, to, color } => from.within(limit) && to.within(limit),
        Mark::Rect { rect, color } => rect.within(limit),
        Mark::Text { pos, text, color } => pos.within(limit),
    }
}

/// The key was pressed in the course of the events, with the control key if `ctrl`.
pub open spec fn hit_key(events: Seq<KeyEvent>, key: Key, ctrl: bool) -> bool {
    exists|k: int| 0 <= k < events.len() && presses(#[trigger] events[k], key, ctrl)
}

/// The event is a press of the key, with the control key if `with_ctrl`.
pub open spec fn presses(e: KeyEvent, wanted: Key, with_ctrl: bool) -> bool {
    e matches KeyEvent::Key { key, pressed, ctrl, shift } && pressed && key == wanted && (with_ctrl
        ==> ctrl)
}

/// The copy shortcut occurs among the events.
pub open spec fn hit_copy(events: Seq<KeyEvent>) -> bool {
    ||| hit_key(events, Key::C, true)
    ||| exists|k: int| 0 <= k < events.len() && #[trigger] events[k] == KeyEvent::Copy
}

/// By how much one event nudges the selection: an arrow key by one pixel, with shift
/// by ten.
pub open spec fn nudge(e: KeyEvent) -> (int, int) {
    match e {
        KeyEvent::Key { key, pressed: true, ctrl, shift } => {
            let step = if shift {
                655360int
            } else {
                65536int
            };
            match key {
                Key::ArrowLeft => (-step, 0int),
                Key::ArrowRight => (step, 0int),
                Key::ArrowUp => (0int, -step),
                Key::ArrowDown => (0int, step),
                _ => (0int, 0int),
            }
        },
        _ => (0int, 0int),
    }
}

/// By how much the events nudge the selection together.
pub open spec fn nudges(events: Seq<KeyEvent>) -> (int, int)
    decreases events.len(),
{
    if events.len() == 0 {
        (0int, 0int)
    } else {
        let before = nudges(events.drop_last());
        let step = nudge(events.last());
        (before.0 + step.0, before.1 + step.1)
    }
}

impl Session {
    /// A fresh session on monitors of the given sizes.
    pub open spec fn fresh(sizes: Seq<Vec2>) -> Session {
        Session {
            sizes,
            sel: Selection::Empty,
            active: None,
            marks: Seq::empty(),
            tool: Tool::Select,
            color: crate::marks::palette()[0],
            stroke: None,
            draft: None,
        }
    }

    /// Size of the monitor that owns the selection.
    pub open spec fn area(self) -> Vec2 {
        self.sizes[self.active->0 as int]
    }

    /// What holds of every session.
    pub open spec fn wf(self) -> bool {
        let limit = crate::geom::LIMIT as int;
        &&& forall|k: int| 0 <= k < self.sizes.len() ==> (#[trigger] self.sizes[k]).is_size()
        &&& self.active is None <==> self.sel is Empty
        &&& self.active matches Some(i) ==> i < self.sizes.len()
        &&& self.sel matches Selection::Dragging { start, cur } ==> start.within(limit)
            && cur.within(limit)
        &&& self.sel matches Selection::Placed { rect } ==> span_ok(
            rect.min.x as int,
            rect.max.x as int,
            self.area().x as int,
        ) && span_ok(rect.min.y as int, rect.max.y as int, self.area().y as int)
        &&& forall|k: int| 0 <= k < self.marks.len() ==> mark_ok(#[trigger] self.marks[k])
        &&& self.draft matches Some((pos, text)) ==> pos.within(limit)
        &&& self.stroke is Some ==> self.sel is Placed
        &&& match self.stroke {
            Some(Stroke::MoveSel { last }) => last.within(limit),
            Some(Stroke::Resize { handle }) => handle < 8,
            Some(Stroke::Pen { points }) => points.len() > 0 && forall|k: int|
                0 <= k < points.len() ==> (#[trigger] points[k]).within(limit),
            Some(Stroke::Shape { start, cur }) => start.within(limit) && cur.within(limit),
            None => true,
        }
    }

    /// The selection does not leave its monitor.
    pub open spec fn on_screen(self) -> bool {
        match self.sel {
            Selection::Empty => true,
            Selection::Dragging { start, cur } => on_monitor(start, self.area()) && on_monitor(
                cur,
                self.area(),
            ),
            Selection::Placed { rect } => rect.ordered() && rect.inside(self.area()),
        }
    }

    /// The selected area, while it is dragged and once it is placed.
    pub open spec fn selected(self) -> Option<Rect> {
        match self.sel {
            Selection::Empty => None,
            Selection::Dragging { start, cur } => Some(Rect::spanned(start, cur)),
            Selection::Placed { rect } => Some(rect),
        }
    }

    /// Typed text becomes an annotation unless it is blank; either way typing ends.
    pub open spec fn committed(self) -> Session {
        Session {
            marks: match self.draft {
                Some((pos, text)) => if crate::text::all_white(text) {
                    self.marks
                } else {
                    self.marks.push(Mark::Text { pos, text, color: self.color })
                },
                None => self.marks,
            },
            draft: None,
            ..self
        }
    }

    /// A new selection begins at `p`.
    pub open spec fn reselected(self, p: Pos2) -> Session {
        Session { sel: Selection::Dragging { start: p, cur: p }, stroke: None, ..self }
    }

    /// A press on the placed selection `rect` at `p` with the select tool.
    pub open spec fn grabbed(self, rect: Rect, p: Pos2, handle: Option<usize>) -> Session {
        match handle {
            Some(h) => Session { stroke: Some(Stroke::Resize { handle: h }), ..self },
            None => if rect.has(p) {
                Session { stroke: Some(Stroke::MoveSel { last: p }), ..self }
            } else {
                self.reselected(p)
            },
        }
    }

    /// A press inside the placed selection at `p` with a drawing tool.
    pub open spec fn drawn_from(self, p: Pos2) -> Session {
        Session {
            stroke: Some(
                match self.tool {
                    Tool::Pen => Stroke::Pen { points: seq![p] },
                    _ => Stroke::Shape { start: p, cur: p },
                },
            ),
            ..self.committed()
        }
    }

    /// The start of a drag on monitor `i`, and whether the gesture goes on.  It ends
    /// where the place of the drag is not known, and where the text tool is dragged
    /// inside the selection.
    pub open spec fn pressed(self, i: usize, g: Gesture) -> (Session, bool) {
        match g.anchor() {
            None => (self, false),
            Some(p) => if self.sel is Empty || self.active is None {
                (
                    Session {
                        active: Some(i),
                        sel: Selection::Dragging { start: p, cur: p },
                        ..self
                    },
                    true,
                )
            } else {
                match self.sel {
                    Selection::Placed { rect } if self.active == Some(i) => if self.tool
                        == Tool::Select {
                        match g.pointer {
                            None => (self, false),
                            Some(at) => (
                                self.grabbed(rect, p, crate::geom::grabbed(g.sel_pts, at.pts)),
                                true,
                            ),
                        }
                    } else if !rect.has(p) {
                        (self.reselected(p), true)
                    } else if self.tool == Tool::Text {
                        (self.committed(), false)
                    } else {
                        (self.drawn_from(p), true)
                    },
                    _ => (self, true),
                }
            },
        }
    }

    /// The pointer moved to `at` during a drag on monitor `i`.
    pub open spec fn dragged(self, i: usize, at: Pos2) -> Session {
        let size = self.sizes[i as int];
        let p = onto(at, size);
        match (self.sel, self.stroke) {
            (Selection::Dragging { start, cur }, _) => Session {
                sel: Selection::Dragging { start, cur: p },
                ..self
            },
            (Selection::Placed { rect }, Some(Stroke::MoveSel { last })) => Session {
                sel: Selection::Placed {
                    rect: crate::geom::clamped(rect.shifted(p.x - last.x, p.y - last.y), size),
                },
                stroke: Some(Stroke::MoveSel { last: p }),
                ..self
            },
            (Selection::Placed { rect }, Some(Stroke::Resize { handle })) => Session {
                sel: Selection::Placed { rect: crate::geom::resized(rect, handle, p) },
                ..self
            },
            (_, Some(Stroke::Pen { points })) => Session {
                stroke: Some(
                    Stroke::Pen {
                        points: if points.len() == 0 || pen_records(points.last(), p) {
                            points.push(p)
                        } else {
                            points
                        },
                    },
                ),
                ..self
            },
            (_, Some(Stroke::Shape { start, cur })) => Session {
                stroke: Some(Stroke::Shape { start, cur: p }),
                ..self
            },
            _ => self,
        }
    }

    /// The annotation that the drag under way becomes when it ends now.
    pub open spec fn finished_mark(self) -> Option<Mark> {
        match self.stroke {
            Some(Stroke::Pen { points }) => if points.len() > 1 {
                Some(Mark::Pen { points, color: self.color })
            } else {
                None
            },
            Some(Stroke::Shape { start, cur }) => if shape_counts(start, cur) {
                Some(shape_mark(self.tool, start, cur, self.color))
            } else {
                None
            },
            _ => None,
        }
    }

    /// The end of a drag.
    pub open spec fn released(self) -> Session {
        Session {
            marks: match self.finished_mark() {
                Some(m) => self.marks.push(m),
                None => self.marks,
            },
            stroke: None,
            sel: match self.sel {
                Selection::Dragging { start, cur } => Selection::Placed {
                    rect: Rect::spanned(start, cur),
                },
                other => other,
            },
            ..self
        }
    }

    /// A click at the pointer.  With the text tool, a click inside the placed selection
    /// starts a new text.
    pub open spec fn clicked(self, pointer: Option<Pointer>) -> Session {
        if self.tool == Tool::Text {
            match (pointer, self.sel) {
                (Some(at), Selection::Placed { rect }) => if rect.has(at.phys) {
                    Session { draft: Some((at.phys, Seq::empty())), ..self.committed() }
                } else {
                    self.committed()
                },
                _ => self,
            }
        } else {
            self.committed()
        }
    }

    /// What the mouse does on monitor `i` in one frame.
    pub open spec fn interacted(self, i: usize, g: Gesture) -> Session {
        let (s1, goes_on) = if g.drag_started {
            self.pressed(i, g)
        } else {
            (self, true)
        };
        if !goes_on {
            s1
        } else {
            let s2 = match g.pointer {
                Some(at) if g.dragged => s1.dragged(i, at.phys),
                _ => s1,
            };
            let s3 = if g.drag_stopped {
                s2.released()
            } else {
                s2
            };
            if g.clicked {
                s3.clicked(g.pointer)
            } else {
                s3
            }
        }
    }

    /// What the mouse did, seen from the session: positions in physical pixels, and the
    /// selection in points, where its handles are grabbed.
    pub open spec fn gesture(self, m: Mouse) -> Gesture {
        Gesture {
            pointer: match m.pointer {
                Some(p) => Some(Pointer { phys: crate::geom::to_phys(p, m.scale), pts: p }),
                None => None,
            },
            press_origin: match m.press_origin {
                Some(p) => Some(crate::geom::to_phys(p, m.scale)),
                None => None,
            },
            sel_pts: match self.selected() {
                Some(rect) => crate::geom::rect_to_points(rect, m.scale),
                None => Rect { min: Pos2 { x: 0, y: 0 }, max: Pos2 { x: 0, y: 0 } },
            },
            drag_started: m.drag_started,
            dragged: m.dragged,
            drag_stopped: m.drag_stopped,
            clicked: m.clicked,
        }
    }

    /// Without the last annotation.
    pub open spec fn undone(self) -> Session {
        Session {
            marks: if self.marks.len() > 0 {
                self.marks.drop_last()
            } else {
                self.marks
            },
            ..self
        }
    }

    /// The placed selection nudged on monitor `i`, unless a drag is under way.
    pub open spec fn nudged(self, i: usize, d: (int, int)) -> Session {
        match self.sel {
            Selection::Placed { rect } if self.stroke is None && self.active == Some(i) && d != (
                0int,
                0int,
            ) => Session {
                sel: Selection::Placed {
                    rect: crate::geom::moved_within(rect, d.0, d.1, self.sizes[i as int]),
                },
                ..self
            },
            _ => self,
        }
    }

    /// What the keyboard does on monitor `i` in one frame, and how the capture ends if
    /// it does.  While text is typed, only Escape and Enter count.
    pub open spec fn typed(self, i: usize, events: Seq<KeyEvent>) -> (Session, Option<Outcome>) {
        if self.draft is Some {
            (
                if hit_key(events, Key::Escape, false) {
                    Session { draft: None, ..self }
                } else if hit_key(events, Key::Enter, false) {
                    self.committed()
                } else {
                    self
                },
                None,
            )
        } else if hit_key(events, Key::Escape, false) {
            (self, Some(Outcome::Cancel))
        } else if self.sel is Placed && hit_copy(events) {
            (self, Some(Outcome::Copy))
        } else if self.sel is Placed && hit_key(events, Key::S, true) {
            (self, Some(Outcome::Save))
        } else {
            let s = if hit_key(events, Key::Z, true) {
                self.undone()
            } else {
                self
            };
            (s.nudged(i, nudges(events)), None)
        }
    }

    /// No other monitor owns the selection.
    pub open spec fn free_for(self, i: usize) -> bool {
        self.active is None || self.active == Some(i)
    }
}

/// Each step of a gesture keeps a session well formed.
pub proof fn lemma_pressed_wf(s: Session, i: usize, g: Gesture)
    requires
        s.wf(),
        g.wf(),
        i < s.sizes.len(),
        s.free_for(i),
    ensures
        s.pressed(i, g).0.wf(),
        s.pressed(i, g).0.free_for(i),
        s.pressed(i, g).0.sizes == s.sizes,
{
    if let Some(at) = g.pointer {
        crate::geom::law_grab_is_decided(g.sel_pts, at.pts);
    }
}

pub proof fn lemma_dragged_wf(s: Session, i: usize, at: Pos2)
    requires
        s.wf(),
        i < s.sizes.len(),
        s.free_for(i),
    ensures
        s.dragged(i, at).wf(),
        s.dragged(i, at).free_for(i),
        s.dragged(i, at).sizes == s.sizes,
{
    let t = s.dragged(i, at);
    let size = s.sizes[i as int];
    assert(size.is_size());
    match (s.sel, s.stroke) {
        (_, Some(Stroke::Pen { points })) => {
            let q = t.stroke->Some_0->Pen_points;
            assert forall|k: int| 0 <= k < q.len() implies (#[trigger] q[k]).within(
                crate::geom::LIMIT as int,
            ) by {
                if k < points.len() {
                    assert(q[k] == points[k]);
                }
            }
        },
        _ => {},
    }
}

pub proof fn lemma_released_wf(s: Session)
    requires
        s.wf(),
    ensures
        s.released().wf(),
        s.released().sizes == s.sizes,
        s.released().active == s.active,
{
}

pub proof fn lemma_clicked_wf(s: Session, pointer: Option<Pointer>)
    requires
        s.wf(),
        pointer matches Some(at) ==> at.phys.within(crate::geom::LIMIT as int),
    ensures
        s.clicked(pointer).wf(),
        s.clicked(pointer).sizes == s.sizes,
        s.clicked(pointer).active == s.active,
{
}

/// The first `k + 1` events press a key if the first `k` do, or the next one does.
pub proof fn lemma_hit_key_step(events: Seq<KeyEvent>, k: int, key: Key, ctrl: bool)
    requires
        0 <= k < events.len(),
    ensures
        hit_key(events.take(k + 1), key, ctrl) <==> hit_key(events.take(k), key, ctrl) || presses(
            events[k],
            key,
            ctrl,
        ),
{
    let (a, b) = (events.take(k), events.take(k + 1));
    if hit_key(a, key, ctrl) {
        let j = choose|j: int| 0 <= j < a.len() && presses(#[trigger] a[j], key, ctrl);
        assert(presses(b[j], key, ctrl));
    }
    if presses(events[k], key, ctrl) {
        assert(presses(b[k], key, ctrl));
    }
    if hit_key(b, key, ctrl) {
        let j = choose|j: int| 0 <= j < b.len() && presses(#[trigger] b[j], key, ctrl);
        if j < k {
            assert(presses(a[j], key, ctrl));
        }
    }
}

/// The same of the copy shortcut.
pub proof fn lemma_hit_copy_step(events: Seq<KeyEvent>, k: int)
    requires
        0 <= k < events.len(),
    ensures
        hit_copy(events.take(k + 1)) <==> hit_copy(events.take(k)) || presses(
            events[k],
            Key::C,
            true,
        ) || events[k] == KeyEvent::Copy,
{
    lemma_hit_key_step(events, k, Key::C, true);
    let (a, b) = (events.take(k), events.take(k + 1));
    if exists|j: int| 0 <= j < a.len() && #[trigger] a[j] == KeyEvent::Copy {
        let j = choose|j: int| 0 <= j < a.len() && #[trigger] a[j] == KeyEvent::Copy;
        assert(b[j] == KeyEvent::Copy);
    }
    if events[k] == KeyEvent::Copy {
        assert(b[k] == KeyEvent::Copy);
    }
    if exists|j: int| 0 <= j < b.len() && #[trigger] b[j] == KeyEvent::Copy {
        let j = choose|j: int| 0 <= j < b.len() && #[trigger] b[j] == KeyEvent::Copy;
        if j < k {
            assert(a[j] == KeyEvent::Copy);
        }
    }
}

/// The steps of a gesture, in order.
spec fn after_press(s: Session, i: usize, g: Gesture) -> Session {
    if g.drag_started {
        s.pressed(i, g).0
    } else {
        s
    }
}

spec fn after_drag(s: Session, i: usize, g: Gesture) -> Session {
    match g.pointer {
        Some(at) if g.dragged => after_press(s, i, g).dragged(i, at.phys),
        _ => after_press(s, i, g),
    }
}

spec fn after_release(s: Session, i: usize, g: Gesture) -> Session {
    if g.drag_stopped {
        after_drag(s, i, g).released()
    } else {
        after_drag(s, i, g)
    }
}

proof fn lemma_gesture_steps(s: Session, i: usize, g: Gesture)
    ensures
        s.interacted(i, g) == after_press(s, i, g) || s.interacted(i, g) == after_release(s, i, g)
            || s.interacted(i, g) == after_release(s, i, g).clicked(g.pointer),
{
}

/// Whatever the mouse does, a session stays well formed.
pub proof fn law_mouse_keeps_session(s: Session, i: usize, g: Gesture)
    requires
        s.wf(),
        g.wf(),
        i < s.sizes.len(),
        s.free_for(i),
    ensures
        s.interacted(i, g).wf(),
        s.interacted(i, g).sizes == s.sizes,
{
    lemma_pressed_wf(s, i, g);
    if let Some(at) = g.pointer {
        lemma_dragged_wf(after_press(s, i, g), i, at.phys);
    }
    lemma_released_wf(after_drag(s, i, g));
    lemma_clicked_wf(after_release(s, i, g), g.pointer);
    lemma_gesture_steps(s, i, g);
}

/// Whatever is typed, a session stays well formed.
pub proof fn law_keys_keep_session(s: Session, i: usize, events: Seq<KeyEvent>)
    requires
        s.wf(),
        i < s.sizes.len(),
    ensures
        s.typed(i, events).0.wf(),
        s.typed(i, events).0.sizes == s.sizes,
{
    assert(s.sizes[i as int].is_size());
}

proof fn lemma_pressed_on_screen(s: Session, i: usize, g: Gesture)
    requires
        s.wf(),
        i < s.sizes.len(),
        s.free_for(i),
        s.on_screen(),
        g.anchor() matches Some(p) ==> on_monitor(p, s.sizes[i as int]),
    ensures
        s.pressed(i, g).0.on_screen(),
{
}

proof fn lemma_dragged_on_screen(s: Session, i: usize, at: Pos2)
    requires
        s.wf(),
        i < s.sizes.len(),
        s.free_for(i),
        s.on_screen(),
    ensures
        s.dragged(i, at).on_screen(),
{
    let size = s.sizes[i as int];
    assert(size.is_size());
    let p = onto(at, size);
    match (s.sel, s.stroke) {
        (Selection::Placed { rect }, Some(Stroke::MoveSel { last })) => {
            crate::geom::law_clamp_lands_inside(rect.shifted(p.x - last.x, p.y - last.y), size);
        },
        _ => {},
    }
}

/// A selection that was pressed on its monitor never leaves it, whatever the mouse does.
pub proof fn law_mouse_stays_on_monitor(s: Session, i: usize, g: Gesture)
    requires
        s.wf(),
        g.wf(),
        i < s.sizes.len(),
        s.free_for(i),
        s.on_screen(),
        g.drag_started ==> (g.anchor() matches Some(p) ==> on_monitor(p, s.sizes[i as int])),
    ensures
        s.interacted(i, g).on_screen(),
{
    let s1 = after_press(s, i, g);
    lemma_pressed_wf(s, i, g);
    if g.drag_started {
        lemma_pressed_on_screen(s, i, g);
    }
    assert(s1.on_screen() && s1.wf());
    let s2 = after_drag(s, i, g);
    if let Some(at) = g.pointer {
        lemma_dragged_on_screen(s1, i, at.phys);
    }
    assert(s2.on_screen());
    let s3 = after_release(s, i, g);
    assert(s3.on_screen());
    assert(s3.clicked(g.pointer).on_screen());
    lemma_gesture_steps(s, i, g);
}

/// A selection on its monitor stays there, whatever is typed.
pub proof fn law_keys_stay_on_monitor(s: Session, i: usize, events: Seq<KeyEvent>)
    requires
        s.wf(),
        i < s.sizes.len(),
        s.on_screen(),
    ensures
        s.typed(i, events).0.on_screen(),
{
    assert(s.sizes[i as int].is_size());
}

/// The selection that is dragged along, or by a handle, stays on the monitor, wherever the
/// pointer goes; dragging it along keeps its size, and nothing else of the session changes.
pub proof fn law_drag_keeps_selection_on_monitor(s: Session, i: usize, g: Gesture)
    requires
        s.sizes[i as int].is_size(),
        s.sel is Placed,
        s.sel->rect.ordered(),
        s.sel->rect.inside(s.sizes[i as int]),
        s.stroke matches Some(Stroke::MoveSel { last }) ==> last.within(crate::geom::LIMIT as int),
        s.stroke matches Some(stroke) && (stroke is MoveSel || stroke is Resize),
        g.dragged,
        !g.drag_started && !g.drag_stopped && !g.clicked,
    ensures
        ({
            let t = s.interacted(i, g);
            let (r, r2) = (s.sel->rect, t.sel->rect);
            &&& t.sel is Placed
            &&& r2.ordered()
            &&& r2.inside(s.sizes[i as int])
            &&& s.stroke->Some_0 is MoveSel ==> r2.max.x - r2.min.x == r.max.x - r.min.x && r2.max.y
                - r2.min.y == r.max.y - r.min.y
            &&& t == (Session { sel: t.sel, stroke: t.stroke, ..s })
        }),
{
    let size = s.sizes[i as int];
    if let Some(at) = g.pointer {
        let p = onto(at.phys, size);
        if let Some(Stroke::MoveSel { last }) = s.stroke {
            let moved = s.sel->rect.shifted(p.x - last.x, p.y - last.y);
            crate::geom::law_clamp_lands_inside(moved, size);
        }
    }
}

/// Once a monitor owns the selection, it owns it to the end of the capture.
pub proof fn law_monitor_is_locked(s: Session, i: usize, g: Gesture, events: Seq<KeyEvent>)
    requires
        s.wf(),
        s.active is Some,
    ensures
        s.interacted(i, g).active == s.active,
        s.typed(i, events).0.active == s.active,
{
    lemma_gesture_steps(s, i, g);
}

/// The mouse takes no annotation away.
pub proof fn law_mouse_keeps_marks(s: Session, i: usize, g: Gesture)
    ensures
        s.marks.is_prefix_of(s.interacted(i, g).marks),
{
    assert(s.marks.is_prefix_of(after_press(s, i, g).marks));
    assert(s.marks.is_prefix_of(after_drag(s, i, g).marks));
    assert(s.marks.is_prefix_of(after_release(s, i, g).marks));
    assert(s.marks.is_prefix_of(after_release(s, i, g).clicked(g.pointer).marks));
    lemma_gesture_steps(s, i, g);
}

/// Undo takes back exactly the annotation that ending a drag or a text added.
pub proof fn law_undo_takes_back(s: Session)
    ensures
        s.finished_mark() is Some ==> s.released().undone().marks == s.marks,
        s.committed().marks != s.marks ==> s.committed().undone().marks == s.marks,
{
    if let Some(m) = s.finished_mark() {
        assert(s.marks.push(m).drop_last() =~= s.marks);
    }
    if let Some((pos, text)) = s.draft {
        let m = Mark::Text { pos, text, color: s.color };
        assert(s.marks.push(m).drop_last() =~= s.marks);
    }
}

/// Text becomes an annotation exactly when it is not blank, and typing always ends.
pub proof fn law_blank_text_is_dropped(s: Session, pos: Pos2, text: Seq<char>)
    requires
        s.draft == Some((pos, text)),
    ensures
        s.committed().draft is None,
        s.committed().marks.len() == s.marks.len() <==> crate::text::all_white(text),
        !crate::text::all_white(text) ==> s.committed().marks.last() == (Mark::Text {
            pos,
            text,
            color: s.color,
        }),
{
}

/// A capture is copied or saved only with a placed selection, and nothing changes then.
pub proof fn law_export_needs_selection(s: Session, i: usize, events: Seq<KeyEvent>)
    ensures
        s.typed(i, events).1 is Some ==> s.typed(i, events).0 == s,
        s.typed(i, events).1 == Some(Outcome::Copy) || s.typed(i, events).1 == Some(Outcome::Save)
            ==> s.sel is Placed,
{
}

/// With a placed selection, the copy and save shortcuts end the capture; Escape comes
/// before both, and copying before saving.
pub proof fn law_shortcuts_export(s: Session, i: usize, events: Seq<KeyEvent>)
    requires
        s.sel is Placed,
        s.draft is None,
        !hit_key(events, Key::Escape, false),
    ensures
        hit_copy(events) ==> s.typed(i, events).1 == Some(Outcome::Copy),
        !hit_copy(events) && hit_key(events, Key::S, true) ==> s.typed(i, events).1 == Some(
            Outcome::Save,
        ),
{
}

/// Escape ends the text if one is typed, and otherwise the capture.
pub proof fn law_escape(s: Session, i: usize, events: Seq<KeyEvent>)
    requires
        hit_key(events, Key::Escape, false),
    ensures
        s.draft is Some ==> s.typed(i, events) == (Session { draft: None, ..s }, None::<Outcome>),
        s.draft is None ==> s.typed(i, events) == (s, Some(Outcome::Cancel)),
{
}

/// A press at `a`, a drag to `b` and a release select the area between the two places.
pub proof fn law_drag_selects(s: Session, i: usize, g: Gesture, a: Pos2, b: Pos2)
    requires
        s.wf(),
        s.sel is Empty,
        g.anchor() == Some(a),
    ensures
        s.pressed(i, g).1,
        s.pressed(i, g).0.dragged(i, b).released().sel == (Selection::Placed {
            rect: Rect::spanned(a, onto(b, s.sizes[i as int])),
        }),
        s.pressed(i, g).0.dragged(i, b).released().active == Some(i),
{
}

/// An arrow key moves the selection by one pixel, with shift by ten, if it stays on its
/// monitor then; the opposite key moves it back.
pub proof fn law_nudge_moves_back(s: Session, i: usize, dx: int, dy: int)
    requires
        s.wf(),
        s.on_screen(),
        s.stroke is None,
        s.active == Some(i),
        s.sel is Placed,
        0 <= s.sel->rect.min.x + dx && s.sel->rect.max.x + dx <= s.area().x,
        0 <= s.sel->rect.min.y + dy && s.sel->rect.max.y + dy <= s.area().y,
    ensures
        s.nudged(i, (dx, dy)).sel == (Selection::Placed { rect: s.sel->rect.shifted(dx, dy) }),
        s.nudged(i, (dx, dy)).nudged(i, (-dx, -dy)) == s,
{
    let r = s.sel->rect;
    let size = s.area();
    assert(size.is_size());
    assert(r.shifted(dx, dy).shifted(-dx, -dy) == r);
    assert(s.nudged(i, (dx, dy)).nudged(i, (-dx, -dy)) =~~= s);
}

/// A single arrow key counts one pixel, with shift ten.
pub proof fn law_nudge_step(shift: bool, ctrl: bool)
    ensures
        ({
            let step = if shift {
                10 * crate::geom::UNIT
            } else {
                1 * crate::geom::UNIT
            };
            let press = |key: Key| KeyEvent::Key { key, pressed: true, ctrl, shift };
            &&& nudges(seq![press(Key::ArrowLeft)]) == (-step, 0int)
            &&& nudges(seq![press(Key::ArrowRight)]) == (step, 0int)
            &&& nudges(seq![press(Key::ArrowUp)]) == (0int, -step)
            &&& nudges(seq![press(Key::ArrowDown)]) == (0int, step)
        }),
{
    reveal_with_fuel(nudges, 2);
}

/// A position is moved onto the monitor along each axis by itself, and no further than
/// needed.
pub proof fn law_onto_goes_to_nearest_edge(p: Pos2, size: Vec2)
    requires
        size.is_size(),
    ensures
        ({
            let q = onto(p, size);
            &&& 0 <= q.x <= size.x && 0 <= q.y <= size.y
            &&& 0 <= p.x <= size.x ==> q.x == p.x
            &&& p.x < 0 ==> q.x == 0
            &&& p.x > size.x ==> q.x == size.x
            &&& 0 <= p.y <= size.y ==> q.y == p.y
            &&& p.y < 0 ==> q.y == 0
            &&& p.y > size.y ==> q.y == size.y
        }),
{
}

/// A capture begins with nothing selected, drawn or typed, with the select tool and the
/// first colour.
pub proof fn law_session_begins_empty(sizes: Seq<Vec2>)
    ensures
        ({
            let s = Session::fresh(sizes);
            &&& s.sizes == sizes && s.marks.len() == 0
            &&& s.sel is Empty && s.active is None && s.stroke is None && s.draft is None
            &&& s.tool == Tool::Select
            &&& s.color.r * 65536 + s.color.g * 256 + s.color.b == 0xE5484D && s.color.a == 255
        }),
{
}

/// The selected area has the two ends of the drag as opposite corners; once it is placed it
/// is what was placed.
pub proof fn law_selected_area(s: Session)
    ensures
        s.selected() is None <==> s.sel is Empty,
        s.sel matches Selection::Placed { rect } ==> s.selected() == Some(rect),
        s.sel matches Selection::Dragging { start: a, cur: b } ==> (s.selected() matches Some(r) && {
            &&& r.min.x <= a.x <= r.max.x && r.min.x <= b.x <= r.max.x
            &&& r.min.y <= a.y <= r.max.y && r.min.y <= b.y <= r.max.y
            &&& r.min.x + r.max.x == a.x + b.x && r.min.y + r.max.y == a.y + b.y
            &&& r.min.x == a.x || r.min.x == b.x
            &&& r.min.y == a.y || r.min.y == b.y
        }),
{
}

/// A monitor takes part in a capture while no monitor owns the selection, and when it owns
/// it itself.
pub proof fn law_owner_excludes_others(s: Session, i: usize, j: usize)
    ensures
        s.active == Some(i) ==> (s.free_for(j) <==> i == j),
        s.active is None ==> s.free_for(j),
{
}

/// A frame of the mouse is its steps one after the other: the press, the drag, the release
/// and the click.  Where the press ends the gesture, the rest of the frame is dropped.
pub proof fn law_frame_is_its_steps(s: Session, i: usize, g: Gesture)
    ensures
        ({
            let none = Gesture {
                drag_started: false,
                dragged: false,
                drag_stopped: false,
                clicked: false,
                ..g
            };
            let press = Gesture { drag_started: true, ..none };
            let rest = Gesture { drag_started: false, ..g };
            let drag = Gesture { dragged: g.dragged, ..none };
            let release = Gesture { drag_stopped: g.drag_stopped, ..none };
            let click = Gesture { clicked: g.clicked, ..none };
            let unknown = g.press_origin is None && g.pointer is None;
            let (r, p) = (s.sel->rect, g.anchor()->0);
            let inside = s.sel is Placed && s.active == Some(i) && r.min.x <= p.x <= r.max.x
                && r.min.y <= p.y <= r.max.y;
            let ends = unknown || inside && s.tool == Tool::Text || s.sel is Placed && s.active
                == Some(i) && s.tool == Tool::Select && g.pointer is None;
            &&& s.interacted(i, none) == s
            &&& !g.drag_started ==> s.interacted(i, g) == s.interacted(i, drag).interacted(
                i,
                release,
            ).interacted(i, click)
            &&& g.drag_started && ends ==> s.interacted(i, g) == s.interacted(i, press)
            &&& g.drag_started && !ends ==> s.interacted(i, g) == s.interacted(
                i,
                press,
            ).interacted(i, rest)
        }),
{
}

/// A press on a screen without a selection begins one of no extent there, and that monitor
/// owns it from then on.  The press is where the button went down, or where the pointer is
/// if that is not known.
pub proof fn law_press_begins_selection(s: Session, i: usize, g: Gesture, p: Pos2)
    requires
        s.sel is Empty,
        g.drag_started && !g.dragged && !g.drag_stopped && !g.clicked,
        g.press_origin == Some(p) || g.press_origin is None && (g.pointer matches Some(at)
            && at.phys == p),
    ensures
        ({
            let t = s.interacted(i, g);
            &&& t.sel matches Selection::Dragging { start, cur }
            &&& start.x == p.x && start.y == p.y && cur.x == p.x && cur.y == p.y
            &&& t.active == Some(i)
            &&& t.marks == s.marks && t.tool == s.tool && t.color == s.color
            &&& t.stroke == s.stroke && t.draft == s.draft && t.sizes == s.sizes
        }),
{
}

/// A press whose place is not known, one while the selection is still dragged, one on a
/// monitor that does not own the selection, and one with the select tool where there is no
/// pointer change nothing.
pub proof fn law_press_without_effect(s: Session, i: usize, g: Gesture)
    requires
        g.drag_started && !g.dragged && !g.drag_stopped && !g.clicked,
        g.press_origin is None && g.pointer is None || s.active is Some && (s.sel is Dragging
            || s.sel is Placed && s.active != Some(i) || s.sel is Placed && s.tool == Tool::Select
            && g.pointer is None),
    ensures
        s.interacted(i, g) == s,
{
}

/// A press with the select tool: within 12 points of a handle it takes the nearest one;
/// otherwise it takes hold of the selection if it is inside, and begins a new one if not.
pub proof fn law_press_with_select_tool(
    s: Session,
    i: usize,
    g: Gesture,
    r: Rect,
    p: Pos2,
    at: Pointer,
)
    requires
        s.sel == (Selection::Placed { rect: r }),
        s.active == Some(i),
        s.tool == Tool::Select,
        g.drag_started && !g.dragged && !g.drag_stopped && !g.clicked,
        g.pointer == Some(at),
        g.press_origin == Some(p) || g.press_origin is None && at.phys == p,
    ensures
        ({
            let t = s.interacted(i, g);
            let h = crate::geom::handles(g.sel_pts);
            let reach = 12 * 65536 * (12 * 65536);
            let near = exists|j: int|
                0 <= j < 8 && crate::geom::dist2(#[trigger] h[j], at.pts) <= reach;
            let inside = !(p.x < r.min.x || p.x > r.max.x || p.y < r.min.y || p.y > r.max.y);
            &&& t.marks == s.marks && t.draft == s.draft && t.active == s.active && t.tool
                == s.tool && t.color == s.color && t.sizes == s.sizes
            &&& near ==> t.sel == s.sel && (t.stroke matches Some(Stroke::Resize { handle })
                && handle < 8 && crate::geom::dist2(h[handle as int], at.pts) <= reach
                && crate::geom::grabbed(g.sel_pts, at.pts) == Some(handle))
            &&& !near && inside ==> t.sel == s.sel && t.stroke == Some(Stroke::MoveSel { last: p })
            &&& !near && !inside ==> t.stroke is None && t.sel == (Selection::Dragging {
                start: p,
                cur: p,
            })
        }),
{
    crate::geom::law_grab_reaches_twelve_points(g.sel_pts, at.pts, 0);
}

/// A press outside the placed selection with any other tool begins a new selection there and
/// keeps what was drawn and typed.
pub proof fn law_press_outside_selects_anew(
    s: Session,
    i: usize,
    g: Gesture,
    r: Rect,
    p: Pos2,
)
    requires
        s.sel == (Selection::Placed { rect: r }),
        s.active == Some(i),
        s.tool != Tool::Select,
        g.drag_started && !g.dragged && !g.drag_stopped && !g.clicked,
        g.press_origin == Some(p) || g.press_origin is None && (g.pointer matches Some(at)
            && at.phys == p),
        p.x < r.min.x || p.x > r.max.x || p.y < r.min.y || p.y > r.max.y,
    ensures
        ({
            let t = s.interacted(i, g);
            &&& t.sel == (Selection::Dragging { start: p, cur: p })
            &&& t.stroke is None
            &&& t.marks == s.marks && t.draft == s.draft && t.active == s.active && t.tool
                == s.tool && t.color == s.color && t.sizes == s.sizes
        }),
{
}

/// A press inside the placed selection with a tool other than the select tool ends the text
/// that is typed, and leaves the selection as it is.  The pen begins a line at the press,
/// the tools for lines, arrows and rectangles begin their shape there, and the text tool
/// begins nothing.
pub proof fn law_press_inside_draws(s: Session, i: usize, g: Gesture, r: Rect, p: Pos2)
    requires
        s.sel == (Selection::Placed { rect: r }),
        s.active == Some(i),
        s.tool != Tool::Select,
        g.drag_started && !g.dragged && !g.drag_stopped && !g.clicked,
        g.press_origin == Some(p) || g.press_origin is None && (g.pointer matches Some(at)
            && at.phys == p),
        r.min.x <= p.x <= r.max.x && r.min.y <= p.y <= r.max.y,
    ensures
        ({
            let t = s.interacted(i, g);
            &&& t.sel == s.sel && t.active == s.active && t.tool == s.tool && t.color == s.color
                && t.sizes == s.sizes
            &&& t.draft is None && t.marks == s.committed().marks
            &&& s.tool == Tool::Pen ==> (t.stroke matches Some(Stroke::Pen { points })
                && points.len() == 1 && points[0] == p)
            &&& s.tool == Tool::Line || s.tool == Tool::Arrow || s.tool == Tool::Rect ==> t.stroke
                == Some(Stroke::Shape { start: p, cur: p })
            &&& s.tool == Tool::Text ==> t.stroke == s.stroke
        }),
{
}

/// Ending the text adds at most one annotation, behind the others, and only where there was
/// text that is not blank: that text, at its place, in the current colour.
pub proof fn law_ended_text_becomes_annotation(s: Session)
    ensures
        ({
            let t = s.committed();
            &&& t.draft is None
            &&& t.sel == s.sel && t.active == s.active && t.tool == s.tool && t.color == s.color
                && t.sizes == s.sizes && t.stroke == s.stroke
            &&& s.draft is None ==> t.marks == s.marks
            &&& s.draft matches Some((pos, text)) ==> {
                let blank = forall|k: int|
                    0 <= k < text.len() ==> crate::text::white_space(#[trigger] text[k]);
                &&& blank ==> t.marks == s.marks
                &&& !blank ==> t.marks.len() == s.marks.len() + 1 && t.marks.drop_last() == s.marks
                    && (t.marks.last() matches Mark::Text { pos: place, text: words, color }
                    && place == pos && words == text && color == s.color)
            }
        }),
{
    if let Some((pos, text)) = s.draft {
        let m = Mark::Text { pos, text, color: s.color };
        assert(s.marks.push(m).drop_last() =~= s.marks);
    }
}

/// While a new selection is dragged, its end follows the pointer over the monitor, and its
/// start stays.
pub proof fn law_drag_moves_selection_end(s: Session, i: usize, g: Gesture, at: Pointer)
    requires
        s.sizes[i as int].is_size(),
        s.sel is Dragging,
        g.dragged && !g.drag_started && !g.drag_stopped && !g.clicked,
        g.pointer == Some(at),
    ensures
        ({
            let (t, size) = (s.interacted(i, g), s.sizes[i as int]);
            let (start, cur) = (s.sel->start, t.sel->cur);
            &&& t.sel is Dragging && t.sel->start == start
            &&& 0 <= at.phys.x <= size.x ==> cur.x == at.phys.x
            &&& 0 <= at.phys.y <= size.y ==> cur.y == at.phys.y
            &&& at.phys.x < 0 ==> cur.x == 0
            &&& at.phys.y < 0 ==> cur.y == 0
            &&& at.phys.x > size.x ==> cur.x == size.x
            &&& at.phys.y > size.y ==> cur.y == size.y
            &&& t.marks == s.marks && t.draft == s.draft && t.active == s.active && t.tool
                == s.tool && t.color == s.color && t.sizes == s.sizes && t.stroke == s.stroke
        }),
{
}

/// A selection that is dragged along goes with the pointer, as far as that is on the
/// monitor: it keeps its distance from it, along each axis by itself, unless that leads over
/// an edge of the monitor, which it touches then.
pub proof fn law_selection_follows_pointer(
    s: Session,
    i: usize,
    g: Gesture,
    r: Rect,
    last: Pos2,
    at: Pointer,
)
    requires
        s.wf(),
        i < s.sizes.len(),
        s.free_for(i),
        s.sel == (Selection::Placed { rect: r }),
        s.stroke == Some(Stroke::MoveSel { last }),
        g.dragged && !g.drag_started && !g.drag_stopped && !g.clicked,
        g.pointer == Some(at),
    ensures
        ({
            let (t, size) = (s.interacted(i, g), s.sizes[i as int]);
            let p = onto(at.phys, size);
            let (w, h) = (r.max.x - r.min.x, r.max.y - r.min.y);
            let (dx, dy) = (p.x - last.x, p.y - last.y);
            let q = t.sel->rect;
            &&& t.sel is Placed
            &&& t.stroke == Some(Stroke::MoveSel { last: p })
            &&& q.max.x - q.min.x == w && q.max.y - q.min.y == h
            &&& 0 <= r.min.x + dx && r.max.x + dx <= size.x ==> q.min.x - p.x == r.min.x - last.x
            &&& 0 <= r.min.y + dy && r.max.y + dy <= size.y ==> q.min.y - p.y == r.min.y - last.y
            &&& r.min.x + dx < 0 && w <= size.x ==> q.min.x == 0
            &&& r.min.y + dy < 0 && h <= size.y ==> q.min.y == 0
            &&& r.max.x + dx > size.x || w > size.x ==> q.max.x == size.x
            &&& r.max.y + dy > size.y || h > size.y ==> q.max.y == size.y
            &&& t.marks == s.marks && t.draft == s.draft && t.active == s.active && t.tool
                == s.tool && t.color == s.color && t.sizes == s.sizes
        }),
{
    let size = s.sizes[i as int];
    assert(size.is_size());
    let p = onto(at.phys, size);
    let moved = r.shifted(p.x - last.x, p.y - last.y);
    crate::geom::law_clamp_touches_crossed_edge(moved, size);
}

/// A selection that is dragged by a handle has the edges of that handle at the pointer, as
/// far as that is on the monitor, and its other edges where they were.  Which edges these
/// are is told by where the handle lies on a rectangle of two units.
pub proof fn law_handle_follows_pointer(
    s: Session,
    i: usize,
    g: Gesture,
    r: Rect,
    k: usize,
    at: Pointer,
)
    requires
        s.sel == (Selection::Placed { rect: r }),
        r.ordered(),
        k < 8,
        s.stroke == Some(Stroke::Resize { handle: k }),
        g.dragged && !g.drag_started && !g.drag_stopped && !g.clicked,
        g.pointer == Some(at),
    ensures
        ({
            let (t, p) = (s.interacted(i, g), onto(at.phys, s.sizes[i as int]));
            let unit = Rect { min: Pos2 { x: 0, y: 0 }, max: Pos2 { x: 2, y: 2 } };
            let (h, q) = (crate::geom::handles(unit)[k as int], t.sel->rect);
            let at_x = q.min.x == p.x || q.max.x == p.x;
            let at_y = q.min.y == p.y || q.max.y == p.y;
            &&& t.sel is Placed && t.stroke == s.stroke && q.ordered()
            &&& h.x == 0 ==> q.min.x + q.max.x == p.x + r.max.x && at_x
            &&& h.x == 1 ==> q.min.x == r.min.x && q.max.x == r.max.x
            &&& h.x == 2 ==> q.min.x + q.max.x == p.x + r.min.x && at_x
            &&& h.y == 0 ==> q.min.y + q.max.y == p.y + r.max.y && at_y
            &&& h.y == 1 ==> q.min.y == r.min.y && q.max.y == r.max.y
            &&& h.y == 2 ==> q.min.y + q.max.y == p.y + r.min.y && at_y
            &&& t.marks == s.marks && t.draft == s.draft && t.active == s.active && t.tool
                == s.tool && t.color == s.color && t.sizes == s.sizes
        }),
{
    crate::geom::law_handle_moves_same_edges_of_all(r, k, onto(at.phys, s.sizes[i as int]));
}

/// The pen records the pointer, moved onto the monitor, when it has gone more than one and a
/// half pixels since the last recorded position, and never touches what it has recorded.
pub proof fn law_pen_records_pointer(
    s: Session,
    i: usize,
    g: Gesture,
    points: Seq<Pos2>,
    at: Pointer,
)
    requires
        s.sel is Placed,
        points.len() > 0,
        s.stroke == Some(Stroke::Pen { points }),
        g.dragged && !g.drag_started && !g.drag_stopped && !g.clicked,
        g.pointer == Some(at),
    ensures
        ({
            let (t, q) = (s.interacted(i, g), points.last());
            let p = onto(at.phys, s.sizes[i as int]);
            let d2 = (p.x - q.x) * (p.x - q.x) + (p.y - q.y) * (p.y - q.y);
            let far = 4 * d2 > 9 * (65536 * 65536);
            &&& t.stroke matches Some(Stroke::Pen { points: now })
            &&& far ==> now.len() == points.len() + 1 && now.drop_last() == points && now.last()
                == p
            &&& !far ==> now == points
            &&& t.sel == s.sel && t.marks == s.marks && t.draft == s.draft && t.active == s.active
                && t.tool == s.tool && t.color == s.color && t.sizes == s.sizes
        }),
{
    let (p, q) = (onto(at.phys, s.sizes[i as int]), points.last());
    assert(points.push(p).drop_last() =~= points);
    assert((q.x - p.x) * (q.x - p.x) == (p.x - q.x) * (p.x - q.x)) by (nonlinear_arith);
    assert((q.y - p.y) * (q.y - p.y) == (p.y - q.y) * (p.y - q.y)) by (nonlinear_arith);
}

/// A shape that is drawn ends at the pointer, on the monitor, and begins where it began.
pub proof fn law_shape_follows_pointer(
    s: Session,
    i: usize,
    g: Gesture,
    start: Pos2,
    cur: Pos2,
    at: Pointer,
)
    requires
        s.sizes[i as int].is_size(),
        s.sel is Placed,
        s.stroke == Some(Stroke::Shape { start, cur }),
        g.dragged && !g.drag_started && !g.drag_stopped && !g.clicked,
        g.pointer == Some(at),
    ensures
        ({
            let (t, size) = (s.interacted(i, g), s.sizes[i as int]);
            &&& t.stroke matches Some(Stroke::Shape { start: from, cur: to })
            &&& from == start
            &&& 0 <= at.phys.x <= size.x ==> to.x == at.phys.x
            &&& 0 <= at.phys.y <= size.y ==> to.y == at.phys.y
            &&& at.phys.x < 0 ==> to.x == 0
            &&& at.phys.y < 0 ==> to.y == 0
            &&& at.phys.x > size.x ==> to.x == size.x
            &&& at.phys.y > size.y ==> to.y == size.y
            &&& t.sel == s.sel && t.marks == s.marks && t.draft == s.draft && t.active == s.active
                && t.tool == s.tool && t.color == s.color && t.sizes == s.sizes
        }),
{
}

/// A drag without a pointer, or where nothing is under way, changes nothing.
pub proof fn law_drag_without_effect(s: Session, i: usize, g: Gesture)
    requires
        g.dragged && !g.drag_started && !g.drag_stopped && !g.clicked,
        g.pointer is None || !(s.sel is Dragging) && s.stroke is None,
    ensures
        s.interacted(i, g) == s,
{
}

/// Releasing a drag of more than two pixels adds one annotation, of the kind that the tool
/// names: from the press to the release, in the current colour; where the tool has changed
/// since the press to one that draws no shapes, a rectangle.  A shorter one adds nothing.
/// Either way the drag is over.
pub proof fn law_release_adds_shape(s: Session, i: usize, g: Gesture, start: Pos2, cur: Pos2)
    requires
        s.sel is Placed,
        s.stroke == Some(Stroke::Shape { start, cur }),
        g.drag_stopped && !g.drag_started && !g.dragged && !g.clicked,
    ensures
        ({
            let t = s.interacted(i, g);
            let d2 = (cur.x - start.x) * (cur.x - start.x) + (cur.y - start.y) * (cur.y - start.y);
            let counts = d2 > 4 * (65536 * 65536);
            let m = t.marks.last();
            &&& t.stroke is None && t.sel == s.sel && t.active == s.active && t.draft == s.draft
                && t.tool == s.tool && t.color == s.color && t.sizes == s.sizes
            &&& !counts ==> t.marks == s.marks
            &&& counts ==> t.marks.len() == s.marks.len() + 1 && t.marks.drop_last() == s.marks
            &&& counts && s.tool == Tool::Line ==> (m matches Mark::Line { from, to, color }
                && from == start && to == cur && color == s.color)
            &&& counts && s.tool == Tool::Arrow ==> (m matches Mark::Arrow { from, to, color }
                && from == start && to == cur && color == s.color)
            &&& counts && s.tool != Tool::Line && s.tool != Tool::Arrow ==> (
            m matches Mark::Rect { rect, color } && {
                &&& rect.min.x <= start.x <= rect.max.x && rect.min.x <= cur.x <= rect.max.x
                &&& rect.min.y <= start.y <= rect.max.y && rect.min.y <= cur.y <= rect.max.y
                &&& rect.min.x + rect.max.x == start.x + cur.x
                &&& rect.min.y + rect.max.y == start.y + cur.y
                &&& rect.min.x == start.x || rect.min.x == cur.x
                &&& rect.min.y == start.y || rect.min.y == cur.y
                &&& color == s.color
            })
        }),
{
    let m = shape_mark(s.tool, start, cur, s.color);
    assert(s.marks.push(m).drop_last() =~= s.marks);
}

/// Releasing the pen adds what it recorded, in the current colour, if that is more than one
/// position.
pub proof fn law_release_adds_pen_line(s: Session, i: usize, g: Gesture, points: Seq<Pos2>)
    requires
        s.sel is Placed,
        s.stroke == Some(Stroke::Pen { points }),
        g.drag_stopped && !g.drag_started && !g.dragged && !g.clicked,
    ensures
        ({
            let t = s.interacted(i, g);
            &&& t.stroke is None && t.sel == s.sel && t.active == s.active && t.draft == s.draft
                && t.tool == s.tool && t.color == s.color && t.sizes == s.sizes
            &&& points.len() < 2 ==> t.marks == s.marks
            &&& points.len() >= 2 ==> t.marks.len() == s.marks.len() + 1 && t.marks.drop_last()
                == s.marks && (t.marks.last() matches Mark::Pen { points: drawn, color } && drawn
                == points && color == s.color)
        }),
{
    let m = Mark::Pen { points, color: s.color };
    assert(s.marks.push(m).drop_last() =~= s.marks);
}

/// Releasing a selection places it between the two ends of the drag; releasing one that was
/// moved or resized leaves it there.  Neither adds an annotation.
pub proof fn law_release_places_selection(s: Session, i: usize, g: Gesture)
    requires
        g.drag_stopped && !g.drag_started && !g.dragged && !g.clicked,
        s.stroke is None || s.stroke->Some_0 is MoveSel || s.stroke->Some_0 is Resize,
    ensures
        ({
            let t = s.interacted(i, g);
            &&& t.stroke is None && t.marks == s.marks && t.active == s.active && t.draft == s.draft
                && t.tool == s.tool && t.color == s.color && t.sizes == s.sizes
            &&& s.sel is Placed || s.sel is Empty ==> t.sel == s.sel
            &&& s.sel matches Selection::Dragging { start: a, cur: b } ==> (
                t.sel matches Selection::Placed { rect: r } && {
                    &&& r.min.x <= a.x <= r.max.x && r.min.x <= b.x <= r.max.x
                    &&& r.min.y <= a.y <= r.max.y && r.min.y <= b.y <= r.max.y
                    &&& r.min.x + r.max.x == a.x + b.x && r.min.y + r.max.y == a.y + b.y
                    &&& r.min.x == a.x || r.min.x == b.x
                    &&& r.min.y == a.y || r.min.y == b.y
                })
        }),
{
}

/// A whole drag with a drawing tool, from a press inside the placed selection to a release
/// more than two pixels away: it adds the annotation that the tool names, from the press to
/// the release.
pub proof fn law_drag_draws_what_tool_names(
    s: Session,
    i: usize,
    g: Gesture,
    a: Pos2,
    b: Pos2,
)
    requires
        s.sizes[i as int].is_size(),
        s.sel is Placed,
        s.active == Some(i),
        s.draft is None,
        s.tool == Tool::Line || s.tool == Tool::Arrow || s.tool == Tool::Rect,
        s.sel->rect.has(a),
        on_monitor(b, s.sizes[i as int]),
        (b.x - a.x) * (b.x - a.x) + (b.y - a.y) * (b.y - a.y) > 4 * (65536 * 65536),
        g.press_origin == Some(a),
        g.pointer matches Some(at) && at.phys == b,
        g.drag_started && g.dragged && g.drag_stopped && !g.clicked,
    ensures
        ({
            let t = s.interacted(i, g);
            let m = t.marks.last();
            &&& t.marks.len() == s.marks.len() + 1 && t.sel == s.sel && t.stroke is None
            &&& s.tool == Tool::Line ==> (m matches Mark::Line { from, to, color } && from == a
                && to == b && color == s.color)
            &&& s.tool == Tool::Arrow ==> (m matches Mark::Arrow { from, to, color } && from == a
                && to == b && color == s.color)
            &&& s.tool == Tool::Rect ==> (m matches Mark::Rect { rect, color } && {
                &&& rect.min.x <= a.x && rect.min.x <= b.x && (rect.min.x == a.x || rect.min.x
                    == b.x)
                &&& rect.min.y <= a.y && rect.min.y <= b.y && (rect.min.y == a.y || rect.min.y
                    == b.y)
                &&& rect.min.x + rect.max.x == a.x + b.x && rect.min.y + rect.max.y == a.y + b.y
                &&& color == s.color
            })
        }),
{
}

/// A click ends the text that is typed.  With the text tool, a click inside the placed
/// selection then begins a new, empty text there, and one that is not over a placed
/// selection has no effect at all.
pub proof fn law_click_ends_and_begins_text(s: Session, i: usize, g: Gesture)
    requires
        g.clicked && !g.drag_started && !g.dragged && !g.drag_stopped,
    ensures
        ({
            let (t, ended) = (s.interacted(i, g), s.committed());
            let (r, p) = (s.sel->rect, g.pointer->0.phys);
            let inside = g.pointer is Some && s.sel is Placed && r.min.x <= p.x <= r.max.x
                && r.min.y <= p.y <= r.max.y;
            &&& s.tool != Tool::Text ==> t == ended
            &&& s.tool == Tool::Text && (g.pointer is None || !(s.sel is Placed)) ==> t == s
            &&& s.tool == Tool::Text && g.pointer is Some && s.sel is Placed && !inside ==> t
                == ended
            &&& s.tool == Tool::Text && inside ==> t.marks == ended.marks && (
            t.draft matches Some((pos, text)) && pos == g.pointer->0.phys && text.len() == 0)
                && t.sel == s.sel && t.active == s.active && t.tool == s.tool && t.color == s.color
                && t.sizes == s.sizes && t.stroke == s.stroke
        }),
{
}

/// A key counts as hit in the course of the events if it is hit in one part of them or in
/// the other, and nudges add up.
pub proof fn law_events_add_up(a: Seq<KeyEvent>, b: Seq<KeyEvent>, key: Key, ctrl: bool)
    ensures
        hit_key(a + b, key, ctrl) <==> hit_key(a, key, ctrl) || hit_key(b, key, ctrl),
        hit_copy(a + b) <==> hit_copy(a) || hit_copy(b),
        nudges(a + b) == (nudges(a).0 + nudges(b).0, nudges(a).1 + nudges(b).1),
        !hit_key(Seq::empty(), key, ctrl) && !hit_copy(Seq::empty()) && nudges(Seq::empty()) == (
            0int,
            0int,
        ),
    decreases b.len(),
{
    reveal_with_fuel(nudges, 2);
    if b.len() == 0 {
        assert(a + b =~= a);
    } else {
        let (all, last) = (a + b, b.last());
        let n = all.len() - 1;
        law_events_add_up(a, b.drop_last(), key, ctrl);
        assert(all.take(n) =~= a + b.drop_last());
        assert(all.take(n + 1) =~= all);
        assert(all.drop_last() =~= a + b.drop_last());
        lemma_hit_key_step(all, n, key, ctrl);
        lemma_hit_copy_step(all, n);
        assert(b.take(b.len() - 1) =~= b.drop_last());
        assert(b.take(b.len() as int) =~= b);
        lemma_hit_key_step(b, b.len() - 1, key, ctrl);
        lemma_hit_copy_step(b, b.len() - 1);
    }
}

/// A single event hits a key only if it is a press of that very key, with the control key
/// down where that is asked for; and it is the copy shortcut only if it was recognised as
/// such or is a press of C with the control key.
pub proof fn law_single_event_hits(e: KeyEvent, key: Key, ctrl: bool)
    ensures
        hit_key(seq![e], key, ctrl) <==> (e matches KeyEvent::Key {
            key: k,
            pressed,
            ctrl: c,
            shift,
        } && k == key && pressed && (c || !ctrl)),
        hit_copy(seq![e]) <==> e == KeyEvent::Copy || (e matches KeyEvent::Key {
            key: k,
            pressed,
            ctrl: c,
            shift,
        } && k == Key::C && pressed && c),
{
    let one = seq![e];
    assert(one[0] == e);
    if e == KeyEvent::Copy {
        assert(one[0] == KeyEvent::Copy);
    }
    if presses(e, key, ctrl) {
        assert(presses(one[0], key, ctrl));
    }
    if presses(e, Key::C, true) {
        assert(presses(one[0], Key::C, true));
    }
}

/// A single event nudges by one pixel, ten with shift, in the direction of the arrow key
/// that it presses, and not at all if it is anything else.
pub proof fn law_single_event_nudges(e: KeyEvent)
    ensures
        ({
            let (dx, dy) = nudges(seq![e]);
            let arrow = e matches KeyEvent::Key { key: k, pressed, ctrl, shift } && pressed && (k
                == Key::ArrowLeft || k == Key::ArrowRight || k == Key::ArrowUp || k
                == Key::ArrowDown);
            &&& !arrow ==> dx == 0 && dy == 0
            &&& arrow ==> {
                let (k, step) = (
                    e->key,
                    if e->shift {
                        655360int
                    } else {
                        65536int
                    },
                );
                &&& k == Key::ArrowLeft ==> dx == -step && dy == 0
                &&& k == Key::ArrowRight ==> dx == step && dy == 0
                &&& k == Key::ArrowUp ==> dx == 0 && dy == -step
                &&& k == Key::ArrowDown ==> dx == 0 && dy == step
            }
        }),
{
    reveal_with_fuel(nudges, 2);
    assert(seq![e].drop_last() =~= Seq::<KeyEvent>::empty());
}

/// While text is typed no key ends the capture, and only Escape and Enter count: Escape
/// drops the text, and Enter, without Escape, ends it.
pub proof fn law_typing_takes_the_keys(s: Session, i: usize, events: Seq<KeyEvent>)
    requires
        s.draft is Some,
    ensures
        ({
            let (t, outcome) = s.typed(i, events);
            let (escape, enter) = (
                hit_key(events, Key::Escape, false),
                hit_key(events, Key::Enter, false),
            );
            &&& outcome is None
            &&& t.sel == s.sel && t.active == s.active && t.tool == s.tool && t.color == s.color
                && t.sizes == s.sizes && t.stroke == s.stroke
            &&& escape ==> t.draft is None && t.marks == s.marks
            &&& !escape && enter ==> t.draft is None && t.marks == s.committed().marks
            &&& !escape && !enter ==> t.draft == s.draft && t.marks == s.marks
        }),
{
}

/// Keys that do not end the capture take back the last annotation if Z is hit with the
/// control key, and move the placed selection by their nudges if its monitor is the one with
/// the keys and no drag is under way; they change nothing else.
pub proof fn law_keys_undo_and_nudge(s: Session, i: usize, events: Seq<KeyEvent>)
    requires
        s.draft is None,
        !hit_key(events, Key::Escape, false),
        s.sel is Placed ==> !hit_copy(events) && !hit_key(events, Key::S, true),
    ensures
        ({
            let (t, outcome) = s.typed(i, events);
            let (dx, dy) = nudges(events);
            let moves = s.sel is Placed && s.stroke is None && s.active == Some(i) && (dx != 0
                || dy != 0);
            &&& outcome is None
            &&& t.draft is None && t.active == s.active && t.tool == s.tool && t.color == s.color
                && t.sizes == s.sizes && t.stroke == s.stroke
            &&& hit_key(events, Key::Z, true) && s.marks.len() > 0 ==> t.marks.len()
                == s.marks.len() - 1 && t.marks == s.marks.take(s.marks.len() - 1)
            &&& !hit_key(events, Key::Z, true) || s.marks.len() == 0 ==> t.marks == s.marks
            &&& !moves ==> t.sel == s.sel
            &&& moves ==> t.sel == (Selection::Placed {
                rect: crate::geom::moved_within(s.sel->rect, dx, dy, s.sizes[i as int]),
            })
        }),
{
    if s.marks.len() > 0 {
        assert(s.marks.drop_last() =~= s.marks.take(s.marks.len() - 1));
    }
}

/// What the window reports of the mouse reaches the session in physical pixels, rounded
/// down to a unit; nothing is added or lost.
pub proof fn law_mouse_is_scaled(s: Session, m: Mouse)
    requires
        m.wf(),
    ensures
        ({
            let g = s.gesture(m);
            &&& g.drag_started == m.drag_started && g.dragged == m.dragged
            &&& g.drag_stopped == m.drag_stopped && g.clicked == m.clicked
            &&& g.pointer is Some <==> m.pointer is Some
            &&& g.press_origin is Some <==> m.press_origin is Some
            &&& m.pointer matches Some(p) ==> {
                let q = g.pointer->0.phys;
                &&& g.pointer->0.pts == p
                &&& q.x * 65536 <= p.x * m.scale < (q.x + 1) * 65536
                &&& q.y * 65536 <= p.y * m.scale < (q.y + 1) * 65536
            }
            &&& m.press_origin matches Some(p) ==> {
                let q = g.press_origin->0;
                &&& q.x * 65536 <= p.x * m.scale < (q.x + 1) * 65536
                &&& q.y * 65536 <= p.y * m.scale < (q.y + 1) * 65536
            }
            &&& s.selected() matches Some(r) ==> g.sel_pts.min == crate::geom::to_points(
                r.min,
                m.scale,
            ) && g.sel_pts.max == crate::geom::to_points(r.max, m.scale)
        }),
{
    if let Some(p) = m.pointer {
        crate::geom::law_scaling_rounds_down(p, m.scale);
    }
    if let Some(p) = m.press_origin {
        crate::geom::law_scaling_rounds_down(p, m.scale);
    }
}

/// The shape that is drawn, however short, is a line for the line tool, an arrow for the
/// arrow tool, both from the press to the pointer, and otherwise the rectangle with the two
/// as opposite corners; all in the given colour.
pub proof fn law_shape_is_what_tool_names(tool: Tool, start: Pos2, cur: Pos2, color: Color)
    ensures
        ({
            let m = shape_mark(tool, start, cur, color);
            &&& m is Line <==> tool == Tool::Line
            &&& m is Arrow <==> tool == Tool::Arrow
            &&& m is Line || m is Arrow || m is Rect
            &&& m matches Mark::Line { from, to, color: c } ==> from == start && to == cur && c
                == color
            &&& m matches Mark::Arrow { from, to, color: c } ==> from == start && to == cur && c
                == color
            &&& m matches Mark::Rect { rect, color: c } ==> {
                &&& rect.min.x <= start.x <= rect.max.x && rect.min.x <= cur.x <= rect.max.x
                &&& rect.min.y <= start.y <= rect.max.y && rect.min.y <= cur.y <= rect.max.y
                &&& rect.min.x + rect.max.x == start.x + cur.x
                &&& rect.min.y + rect.max.y == start.y + cur.y
                &&& rect.min.x == start.x || rect.min.x == cur.x
                &&& rect.min.y == start.y || rect.min.y == cur.y
                &&& c == color
            }
        }),
{
}

} // verus!
