//! The photo overlay: one frozen screenshot per monitor, on which the user selects an
//! area, annotates it, and copies or saves it.
//!
//! All geometry is in physical pixels relative to the image of the owning monitor,
//! unless a function says that it works in points.
use vstd::prelude::*;
use vstd::string::*;

use crate::capture::MonitorShot;
use crate::geom::{
    clamp_rect, distance_squared, hit_handle, move_within, phys_of, rect_points_of, resize_rect, Pos2, Rect,
    Vec2,
};
use crate::marks::{
    colors, Annotation, Color, DragOp, Gesture, Key, KeyEvent, Mark, Mouse, Outcome, Pointer,
    Selection, Stroke, TextDraft, Tool,
};
use crate::pixels::Image;
use crate::session::Session;
use crate::text::is_blank;

verus! {

broadcast use vstd::seq_lib::group_seq_properties;

/// The size of a monitor with the given rectangle.
pub open spec fn monitor_extent(rect: (i32, i32, i32, i32)) -> Vec2 {
    Vec2 { x: (rect.2 * 65536) as i64, y: (rect.3 * 65536) as i64 }
}

/// The size of the monitor is not negative, and at most 2^24 pixels each way.
pub open spec fn monitor_ok(rect: (i32, i32, i32, i32)) -> bool {
    0 <= rect.2 <= 0x100_0000 && 0 <= rect.3 <= 0x100_0000
}

/// The image of a monitor of such a size, with as many bytes as its own size asks for.
pub open spec fn shot_ok(shot: MonitorShot) -> bool {
    monitor_ok(shot.rect) && shot.image.wf()
}

/// Everything that belongs to one capture; dropped when the overlay closes.
pub struct Capture {
    shots: Vec<MonitorShot>,
    sel: Selection,
    active_monitor: Option<usize>,
    annotations: Vec<Annotation>,
    tool: Tool,
    color: Color,
    drag: Option<DragOp>,
    text_draft: Option<TextDraft>,
    frames: u32,
}

impl View for Capture {
    type V = Session;

    closed spec fn view(&self) -> Session {
        Session {
            sizes: self.shots@.map_values(|s: MonitorShot| monitor_extent(s.rect)),
            sel: self.sel,
            active: self.active_monitor,
            marks: self.annotations@.map_values(|a: Annotation| a@),
            tool: self.tool,
            color: self.color,
            stroke: match self.drag {
                Some(op) => Some(op@),
                None => None,
            },
            draft: match self.text_draft {
                Some(d) => Some((d.pos, d.buffer@)),
                None => None,
            },
        }
    }
}

impl Capture {
    /// The images that the capture froze.
    pub closed spec fn shots(&self) -> Seq<MonitorShot> {
        self.shots@
    }

    /// How many frames of the capture were drawn.
    pub closed spec fn frames(&self) -> u32 {
        self.frames
    }

    /// What holds of every capture.
    pub closed spec fn wf(&self) -> bool {
        &&& self@.wf()
        &&& forall|k: int|
            0 <= k < self.shots@.len() ==> shot_ok(#[trigger] self.shots@[k])
    }

    /// A well-formed capture holds a well-formed session, on as many monitors as it froze.
    pub proof fn law_session_is_wf(&self)
        requires
            self.wf(),
        ensures
            self@.wf(),
            self@.sizes == self.shots().map_values(|s: MonitorShot| monitor_extent(s.rect)),
    {
    }

    /// Nothing but the session differs.
    pub open spec fn same_shots(&self, other: &Capture) -> bool {
        self.shots() == other.shots() && self.frames() == other.frames()
    }

    /// A fresh capture of the given images.
    pub fn new(shots: Vec<MonitorShot>) -> (cap: Capture)
        requires
            forall|k: int| 0 <= k < shots@.len() ==> shot_ok(#[trigger] shots@[k]),
        ensures
            cap.wf(),
            cap.shots() == shots@,
            cap.frames() == 0,
            cap@ == Session::fresh(
                shots@.map_values(|s: MonitorShot| monitor_extent(s.rect)),
            ),
    {
        let all = colors();
        let cap = Capture {
            shots,
            sel: Selection::Empty,
            active_monitor: None,
            annotations: Vec::new(),
            tool: Tool::Select,
            color: all[0],
            drag: None,
            text_draft: None,
            frames: 0,
        };
        assert(cap@ =~= Session::fresh(shots@.map_values(|s: MonitorShot| monitor_extent(s.rect))));
        cap
    }

    /// The selected area and its monitor.
    pub fn current_sel_phys(&self) -> (res: Option<(usize, Rect)>)
        requires
            self.wf(),
        ensures
            res == (match (self@.active, self@.selected()) {
                (Some(mon), Some(rect)) => Some((mon, rect)),
                _ => None,
            }),
    {
        let mon: usize = match self.active_monitor {
            Some(mon) => mon,
            None => {
                return None;
            },
        };
        match self.sel {
            Selection::Empty => None,
            Selection::Dragging { start, cur } => Some((mon, Rect::from_two_pos(start, cur))),
            Selection::Placed { rect } => Some((mon, rect)),
        }
    }

    /// Size of monitor `i`.
    fn monitor_size(&self, i: usize) -> (size: Vec2)
        requires
            self.wf(),
            i < self@.sizes.len(),
        ensures
            size == self@.sizes[i as int],
            size.is_size(),
    {
        let rect: (i32, i32, i32, i32) = self.shots[i].rect;
        assert(shot_ok(self.shots@[i as int]));
        Vec2 { x: rect.2 as i64 * 65536, y: rect.3 as i64 * 65536 }
    }

    /// The position moved onto monitor `i`.
    fn clamp_to_monitor(&self, i: usize, p: Pos2) -> (q: Pos2)
        requires
            self.wf(),
            i < self@.sizes.len(),
        ensures
            q == crate::session::onto(p, self@.sizes[i as int]),
    {
        let s = self.monitor_size(i);
        let x: i64 = if p.x < 0 {
            0
        } else if p.x > s.x {
            s.x
        } else {
            p.x
        };
        let y: i64 = if p.y < 0 {
            0
        } else if p.y > s.y {
            s.y
        } else {
            p.y
        };
        Pos2 { x, y }
    }

    /// Adds an annotation.
    fn annotate(&mut self, a: Annotation)
        ensures
            final(self)@ == (Session { marks: old(self)@.marks.push(a@), ..old(self)@ }),
            final(self).same_shots(old(self)),
            old(self).wf() && crate::session::mark_ok(a@) ==> final(self).wf(),
    {
        self.annotations.push(a);
        assert(self@.marks =~= old(self)@.marks.push(a@));
    }

    /// Ends typing; text that is not blank becomes an annotation.
    pub fn commit_text_draft(&mut self)
        ensures
            final(self)@ == old(self)@.committed(),
            final(self).same_shots(old(self)),
            old(self).wf() ==> final(self).wf(),
    {
        match self.text_draft.take() {
            Some(draft) => {
                if !is_blank(draft.buffer.as_str()) {
                    let color = self.color;
                    self.annotate(Annotation::Text { pos: draft.pos, text: draft.buffer, color });
                }
            },
            None => {},
        }
        assert(self@ =~~= old(self)@.committed());
    }

    /// A drag starts on monitor `i`; tells whether the rest of the gesture counts.
    fn press(&mut self, i: usize, g: Gesture) -> (goes_on: bool)
        requires
            old(self).wf(),
            g.wf(),
            i < old(self)@.sizes.len(),
            old(self)@.free_for(i),
        ensures
            (final(self)@, goes_on) == old(self)@.pressed(i, g),
            final(self).same_shots(old(self)),
            final(self).wf(),
            final(self)@.free_for(i),
    {
        let ghost before = self@;
        let p: Pos2 = match g.press_origin {
            Some(p) => p,
            None => match g.pointer {
                Some(at) => at.phys,
                None => {
                    return false;
                },
            },
        };
        assert(g.anchor() == Some(p));
        match (self.sel, self.active_monitor) {
            (Selection::Empty, _) | (_, None) => {
                self.active_monitor = Some(i);
                self.sel = Selection::Dragging { start: p, cur: p };
            },
            (Selection::Placed { rect }, Some(mon)) => {
                if mon == i {
                    if self.tool == Tool::Select {
                        let at: Pointer = match g.pointer {
                            Some(at) => at,
                            None => {
                                return false;
                            },
                        };
                        match hit_handle(g.sel_pts, at.pts) {
                            Some(h) => {
                                self.drag = Some(DragOp::Resize { handle: h });
                            },
                            None => {
                                if rect.contains(p) {
                                    self.drag = Some(DragOp::MoveSel { last: p });
                                } else {
                                    self.sel = Selection::Dragging { start: p, cur: p };
                                    self.drag = None;
                                }
                            },
                        }
                    } else if rect.contains(p) {
                        self.commit_text_draft();
                        if self.tool == Tool::Text {
                            // Text is click-driven.
                            return false;
                        }
                        if self.tool == Tool::Pen {
                            let mut points: Vec<Pos2> = Vec::new();
                            points.push(p);
                            assert(points@ =~= seq![p]);
                            self.drag = Some(DragOp::Pen { points });
                        } else {
                            self.drag = Some(DragOp::Shape { start: p, cur: p });
                        }
                    } else {
                        self.sel = Selection::Dragging { start: p, cur: p };
                        self.drag = None;
                    }
                }
            },
            _ => {},
        }
        assert(self@ =~~= before.pressed(i, g).0);
        true
    }

    /// The pointer moves to `at` during a drag on monitor `i`.
    fn drag_to(&mut self, i: usize, at: Pos2)
        requires
            old(self).wf(),
            i < old(self)@.sizes.len(),
            old(self)@.free_for(i),
        ensures
            final(self)@ == old(self)@.dragged(i, at),
            final(self).same_shots(old(self)),
            final(self).wf(),
            final(self)@.free_for(i),
    {
        let ghost before = self@;
        let p: Pos2 = self.clamp_to_monitor(i, at);
        let bounds: Vec2 = self.monitor_size(i);
        proof {
            crate::session::lemma_dragged_wf(self@, i, at);
        }
        let sel: Selection = self.sel;
        let drag = self.drag.take();
        match (sel, drag) {
            (Selection::Dragging { start, cur: _ }, drag) => {
                self.sel = Selection::Dragging { start, cur: p };
                self.drag = drag;
            },
            (Selection::Placed { rect }, Some(DragOp::MoveSel { last })) => {
                let delta = Vec2 { x: p.x - last.x, y: p.y - last.y };
                self.sel = Selection::Placed { rect: clamp_rect(rect.translate(delta), bounds) };
                self.drag = Some(DragOp::MoveSel { last: p });
            },
            (Selection::Placed { rect }, Some(DragOp::Resize { handle })) => {
                self.sel = Selection::Placed { rect: resize_rect(rect, handle, p) };
                self.drag = Some(DragOp::Resize { handle });
            },
            (_, Some(DragOp::Pen { points })) => {
                let mut points: Vec<Pos2> = points;
                let n: usize = points.len();
                let far: bool = if n == 0 {
                    true
                } else {
                    distance_squared(points[n - 1], p) > 98304 * 98304
                };
                if far {
                    points.push(p);
                }
                self.drag = Some(DragOp::Pen { points });
            },
            (_, Some(DragOp::Shape { start, cur: _ })) => {
                self.drag = Some(DragOp::Shape { start, cur: p });
            },
            (_, drag) => {
                self.drag = drag;
            },
        }
        assert(self@ =~~= before.dragged(i, at));
    }

    /// The annotation that a shape tool draws from `start` to `cur`.
    fn shape(&self, start: Pos2, cur: Pos2) -> (a: Annotation)
        ensures
            a@ == crate::session::shape_mark(self@.tool, start, cur, self@.color),
    {
        let color = self.color;
        match self.tool {
            Tool::Line => Annotation::Line { from: start, to: cur, color },
            Tool::Arrow => Annotation::Arrow { from: start, to: cur, color },
            _ => Annotation::Rect { rect: Rect::from_two_pos(start, cur), color },
        }
    }

    /// A drag ends.
    fn release(&mut self)
        requires
            old(self).wf(),
        ensures
            final(self)@ == old(self)@.released(),
            final(self).same_shots(old(self)),
            final(self).wf(),
    {
        let ghost before = self@;
        match self.drag.take() {
            Some(DragOp::Pen { points }) => {
                if points.len() > 1 {
                    let color = self.color;
                    self.annotate(Annotation::Pen { points, color });
                }
            },
            Some(DragOp::Shape { start, cur }) => {
                if distance_squared(cur, start) > 131072 * 131072 {
                    let a = self.shape(start, cur);
                    self.annotate(a);
                }
            },
            _ => {},
        }
        if let Selection::Dragging { start, cur } = self.sel {
            self.sel = Selection::Placed { rect: Rect::from_two_pos(start, cur) };
        }
        assert(self@ =~~= before.released());
    }

    /// A click at the pointer.
    fn click(&mut self, pointer: Option<Pointer>)
        requires
            old(self).wf(),
            pointer matches Some(at) ==> at.phys.within(crate::geom::LIMIT as int),
        ensures
            final(self)@ == old(self)@.clicked(pointer),
            final(self).same_shots(old(self)),
            final(self).wf(),
    {
        let ghost before = self@;
        if self.tool == Tool::Text {
            if let (Some(at), Selection::Placed { rect }) = (pointer, self.sel) {
                self.commit_text_draft();
                if rect.contains(at.phys) {
                    self.text_draft = Some(TextDraft { pos: at.phys, buffer: String::new() });
                }
            }
        } else {
            self.commit_text_draft();
        }
        assert(self@ =~~= before.clicked(pointer));
    }

    /// What the mouse does on monitor `i` in one frame.
    pub fn interact(&mut self, i: usize, g: Gesture)
        requires
            old(self).wf(),
            g.wf(),
            i < old(self)@.sizes.len(),
            old(self)@.free_for(i),
        ensures
            final(self)@ == old(self)@.interacted(i, g),
            final(self).same_shots(old(self)),
            final(self).wf(),
    {
        if g.drag_started {
            if !self.press(i, g) {
                return;
            }
        }
        if g.dragged {
            if let Some(at) = g.pointer {
                self.drag_to(i, at.phys);
            }
        }
        if g.drag_stopped {
            self.release();
        }
        if g.clicked {
            self.click(g.pointer);
        }
    }

    /// The selection on monitor `i`, in points.
    pub fn sel_points(&self, i: usize, scale: u32) -> (res: Option<Rect>)
        requires
            self.wf(),
            crate::geom::scale_ok(scale),
        ensures
            res == (match self@.selected() {
                Some(rect) if self@.active == Some(i) => Some(
                    crate::geom::rect_to_points(rect, scale),
                ),
                _ => None,
            }),
            res matches Some(r) ==> r.within(crate::geom::FAR_LIMIT as int),
    {
        match self.current_sel_phys() {
            Some((mon, rect)) => if mon == i {
                assert(self@.sizes[mon as int].is_size());
                Some(rect_points_of(rect, scale))
            } else {
                None
            },
            None => None,
        }
    }

    /// What the mouse did, seen from the capture.
    pub fn gesture(&self, m: Mouse) -> (g: Gesture)
        requires
            self.wf(),
            m.wf(),
        ensures
            g == self@.gesture(m),
            g.wf(),
    {
        let pointer = match m.pointer {
            Some(p) => Some(Pointer { phys: phys_of(p, m.scale), pts: p }),
            None => None,
        };
        let press_origin = match m.press_origin {
            Some(p) => Some(phys_of(p, m.scale)),
            None => None,
        };
        let sel_pts = match self.current_sel_phys() {
            Some((mon, rect)) => {
                assert(self@.sizes[mon as int].is_size());
                rect_points_of(rect, m.scale)
            },
            None => Rect { min: Pos2 { x: 0, y: 0 }, max: Pos2 { x: 0, y: 0 } },
        };
        Gesture {
            pointer,
            press_origin,
            sel_pts,
            drag_started: m.drag_started,
            dragged: m.dragged,
            drag_stopped: m.drag_stopped,
            clicked: m.clicked,
        }
    }

    /// What the keyboard does on monitor `i` in one frame; tells how the capture ends if
    /// it does.
    ///
    /// Only the focused monitor's window receives keys, so this may be asked of all of
    /// them.  The modifiers are those of each event: a fast shortcut can be pressed and
    /// released within one frame.
    pub fn handle_keys(&mut self, i: usize, events: &Vec<KeyEvent>) -> (outcome: Option<Outcome>)
        requires
            old(self).wf(),
            i < old(self)@.sizes.len(),
        ensures
            (final(self)@, outcome) == old(self)@.typed(i, events@),
            final(self).same_shots(old(self)),
            final(self).wf(),
    {
        let ghost before = self@;
        let keys = pressed_keys(events);
        if self.text_draft.is_some() {
            if keys.esc {
                self.text_draft = None;
            } else if keys.enter {
                self.commit_text_draft();
            }
            assert(self@ =~~= before.typed(i, events@).0);
            return None;
        }
        if keys.esc {
            return Some(Outcome::Cancel);
        }
        if let Selection::Placed { rect: _ } = self.sel {
            if keys.copy {
                return Some(Outcome::Copy);
            }
            if keys.save {
                return Some(Outcome::Save);
            }
        }
        if keys.undo {
            self.undo();
        }
        let ghost mid = self@;
        if self.drag.is_none() && self.active_monitor == Some(i) {
            let size: Vec2 = self.monitor_size(i);
            if let Selection::Placed { rect } = self.sel {
                if keys.nudge_x != 0 || keys.nudge_y != 0 {
                    self.sel = Selection::Placed {
                        rect: move_within(rect, keys.nudge_x, keys.nudge_y, size),
                    };
                }
            }
        }
        assert(self@ =~~= mid.nudged(i, crate::session::nudges(events@)));
        None
    }

    /// Takes back the last annotation.
    pub fn undo(&mut self)
        ensures
            final(self)@ == old(self)@.undone(),
            final(self).same_shots(old(self)),
            old(self).wf() ==> final(self).wf(),
    {
        let _ = self.annotations.pop();
        assert(self@ =~~= old(self)@.undone());
    }

    /// Switches to another tool; typing ends.
    pub fn pick_tool(&mut self, tool: Tool)
        ensures
            final(self)@ == (Session { tool, ..old(self)@.committed() }),
            final(self).same_shots(old(self)),
            old(self).wf() ==> final(self).wf(),
    {
        self.commit_text_draft();
        self.tool = tool;
        assert(self@ =~~= (Session { tool, ..old(self)@.committed() }));
    }

    /// Switches to another colour.
    pub fn pick_color(&mut self, color: Color)
        ensures
            final(self)@ == (Session { color, ..old(self)@ }),
            final(self).same_shots(old(self)),
            old(self).wf() ==> final(self).wf(),
    {
        self.color = color;
        assert(self@ =~~= (Session { color, ..old(self)@ }));
    }

    /// Replaces the text that is being typed; does nothing when none is.
    pub fn set_draft_text(&mut self, text: String)
        ensures
            final(self)@ == (Session {
                draft: match old(self)@.draft {
                    Some((pos, _)) => Some((pos, text@)),
                    None => None,
                },
                ..old(self)@
            }),
            final(self).same_shots(old(self)),
            old(self).wf() ==> final(self).wf(),
    {
        match self.text_draft.take() {
            Some(draft) => {
                self.text_draft = Some(TextDraft { pos: draft.pos, buffer: text });
            },
            None => {},
        }
    }

    /// Where text is being typed, and the text so far.
    pub fn draft(&self) -> (res: Option<(Pos2, &str)>)
        ensures
            match (res, self@.draft) {
                (Some((pos, text)), Some((p, t))) => pos == p && text@ == t,
                (None, None) => true,
                _ => false,
            },
    {
        match &self.text_draft {
            Some(d) => Some((d.pos, d.buffer.as_str())),
            None => None,
        }
    }

    /// The annotation that the drag under way is drawing; it is shown after the
    /// finished ones.
    pub fn in_progress(&self) -> (res: Option<Annotation>)
        ensures
            match (res, self@.stroke) {
                (Some(a), Some(Stroke::Pen { points })) => a@ == (Mark::Pen {
                    points,
                    color: self@.color,
                }),
                (Some(a), Some(Stroke::Shape { start, cur })) => a@ == crate::session::shape_mark(
                    self@.tool,
                    start,
                    cur,
                    self@.color,
                ),
                (None, Some(Stroke::Pen { .. })) | (None, Some(Stroke::Shape { .. })) => false,
                (res, _) => res is None,
            },
    {
        match &self.drag {
            Some(DragOp::Pen { points }) => {
                let mut copy: Vec<Pos2> = Vec::new();
                let n: usize = points.len();
                for k in 0..n
                    invariant
                        n == points@.len(),
                        copy@ == points@.take(k as int),
                {
                    copy.push(points[k]);
                    assert(copy@ =~= points@.take(k + 1));
                }
                assert(copy@ =~= points@);
                Some(Annotation::Pen { points: copy, color: self.color })
            },
            Some(DragOp::Shape { start, cur }) => Some(self.shape(*start, *cur)),
            _ => None,
        }
    }

    /// The finished annotations, oldest first.
    pub fn annotations(&self) -> (res: &Vec<Annotation>)
        ensures
            res@.map_values(|a: Annotation| a@) == self@.marks,
    {
        &self.annotations
    }

    /// The selection.
    pub fn selection(&self) -> (sel: Selection)
        ensures
            sel == self@.sel,
    {
        self.sel
    }

    /// The monitor that owns the selection.
    pub fn active_monitor(&self) -> (mon: Option<usize>)
        ensures
            mon == self@.active,
    {
        self.active_monitor
    }

    /// Whether the pointer is a crosshair: no selection is placed yet.
    pub fn wants_crosshair(&self) -> (b: bool)
        ensures
            b == !(self@.sel is Placed),
    {
        match self.sel {
            Selection::Placed { rect: _ } => false,
            _ => true,
        }
    }

    /// What is drawn on top of monitor `i`, where `drawn` tells whether a selection was
    /// drawn there at the start of the frame.
    pub fn chrome(&self, i: usize, drawn: bool) -> (c: Chrome)
        ensures
            c.annotations == (self@.active == Some(i)),
            c.badge == (self@.active == Some(i) && drawn),
            c.handles == (self@.active == Some(i) && drawn && self@.sel is Placed),
            c.toolbar == c.handles,
            c.loupe == (match self@.sel {
                Selection::Dragging { start, cur } if self@.active == Some(i) => Some(cur),
                _ => None,
            }),
    {
        let own: bool = self.active_monitor == Some(i);
        let (placed, cur): (bool, Option<Pos2>) = match self.sel {
            Selection::Empty => (false, None),
            Selection::Dragging { start: _, cur } => (false, Some(cur)),
            Selection::Placed { rect: _ } => (true, None),
        };
        Chrome {
            annotations: own,
            badge: own && drawn,
            handles: own && drawn && placed,
            toolbar: own && drawn && placed,
            loupe: if own {
                cur
            } else {
                None
            },
        }
    }

    /// How many frames of the capture were drawn.
    pub fn frame_count(&self) -> (n: u32)
        ensures
            n == self.frames(),
    {
        self.frames
    }

    /// The tool in use.
    pub fn tool(&self) -> (tool: Tool)
        ensures
            tool == self@.tool,
    {
        self.tool
    }

    /// The colour in use.
    pub fn color(&self) -> (color: Color)
        ensures
            color == self@.color,
    {
        self.color
    }
}

/// What is drawn on top of a monitor.
#[derive(Clone, Copy, PartialEq, Eq, Structural, Debug)]
pub struct Chrome {
    pub annotations: bool,
    pub badge: bool,
    pub handles: bool,
    /// The toolbar and the text editor.
    pub toolbar: bool,
    /// Where the loupe looks.
    pub loupe: Option<Pos2>,
}

/// The shortcuts among the events of a frame.
struct PressedKeys {
    esc: bool,
    enter: bool,
    copy: bool,
    save: bool,
    undo: bool,
    nudge_x: i128,
    nudge_y: i128,
}

/// Collects the shortcuts among the events of a frame.
fn pressed_keys(events: &Vec<KeyEvent>) -> (keys: PressedKeys)
    ensures
        keys.esc == crate::session::hit_key(events@, Key::Escape, false),
        keys.enter == crate::session::hit_key(events@, Key::Enter, false),
        keys.copy == crate::session::hit_copy(events@),
        keys.save == crate::session::hit_key(events@, Key::S, true),
        keys.undo == crate::session::hit_key(events@, Key::Z, true),
        (keys.nudge_x as int, keys.nudge_y as int) == crate::session::nudges(events@),
        -crate::geom::MOVE_LIMIT <= keys.nudge_x <= crate::geom::MOVE_LIMIT,
        -crate::geom::MOVE_LIMIT <= keys.nudge_y <= crate::geom::MOVE_LIMIT,
{
    let mut keys = PressedKeys {
        esc: false,
        enter: false,
        copy: false,
        save: false,
        undo: false,
        nudge_x: 0,
        nudge_y: 0,
    };
    let n: usize = events.len();
    for k in 0..n
        invariant
            n == events@.len(),
            keys.esc == crate::session::hit_key(events@.take(k as int), Key::Escape, false),
            keys.enter == crate::session::hit_key(events@.take(k as int), Key::Enter, false),
            keys.copy == crate::session::hit_copy(events@.take(k as int)),
            keys.save == crate::session::hit_key(events@.take(k as int), Key::S, true),
            keys.undo == crate::session::hit_key(events@.take(k as int), Key::Z, true),
            (keys.nudge_x as int, keys.nudge_y as int) == crate::session::nudges(
                events@.take(k as int),
            ),
            -655360 * k <= keys.nudge_x <= 655360 * k,
            -655360 * k <= keys.nudge_y <= 655360 * k,
    {
        let e = events[k];
        proof {
            crate::session::lemma_hit_key_step(events@, k as int, Key::Escape, false);
            crate::session::lemma_hit_key_step(events@, k as int, Key::Enter, false);
            crate::session::lemma_hit_key_step(events@, k as int, Key::C, true);
            crate::session::lemma_hit_key_step(events@, k as int, Key::S, true);
            crate::session::lemma_hit_key_step(events@, k as int, Key::Z, true);
            crate::session::lemma_hit_copy_step(events@, k as int);
            assert(events@.take(k + 1).drop_last() =~= events@.take(k as int));
            assert(events@.take(k + 1).last() == e);
        }
        match e {
            KeyEvent::Copy => {
                keys.copy = true;
            },
            KeyEvent::Key { key, pressed, ctrl, shift } => {
                if pressed {
                    let step: i128 = if shift {
                        655360
                    } else {
                        65536
                    };
                    match key {
                        Key::Escape => {
                            keys.esc = true;
                        },
                        Key::Enter => {
                            keys.enter = true;
                        },
                        Key::C => {
                            if ctrl {
                                keys.copy = true;
                            }
                        },
                        Key::S => {
                            if ctrl {
                                keys.save = true;
                            }
                        },
                        Key::Z => {
                            if ctrl {
                                keys.undo = true;
                            }
                        },
                        Key::ArrowLeft => {
                            keys.nudge_x = keys.nudge_x - step;
                        },
                        Key::ArrowRight => {
                            keys.nudge_x = keys.nudge_x + step;
                        },
                        Key::ArrowUp => {
                            keys.nudge_y = keys.nudge_y - step;
                        },
                        Key::ArrowDown => {
                            keys.nudge_y = keys.nudge_y + step;
                        },
                        Key::Other => {},
                    }
                }
            },
        }
    }
    assert(events@.take(n as int) =~= events@);
    keys
}

/// The overlay: one window per monitor, kept alive and hidden between captures.
pub struct Overlay {
    /// x, y, w, h of each monitor in physical virtual-screen pixels.
    pub monitors: Vec<(i32, i32, i32, i32)>,
    /// The measured scale of each monitor, in units of 1/65536.
    pub scales: Vec<Option<u32>>,
    /// Whether the window animations were switched off.
    pub animations_disabled: bool,
    /// The capture under way.
    pub cap: Option<Capture>,
}

/// What has to happen once all windows of a frame are drawn.
#[derive(Clone, Copy, PartialEq, Eq, Structural, Debug)]
pub struct FrameEnd {
    /// Window animations have to be switched off.
    pub disable_animations: bool,
    /// The first window takes the keyboard.
    pub focus: bool,
    /// Another frame has to follow at once.
    pub repaint: bool,
}

impl Overlay {
    /// The session of the capture under way.
    pub open spec fn session(&self) -> Option<Session> {
        match self.cap {
            Some(cap) => Some(cap@),
            None => None,
        }
    }

    /// What holds of every overlay.
    pub open spec fn wf(&self) -> bool {
        &&& self.scales@.len() == self.monitors@.len()
        &&& self.cap matches Some(cap) ==> {
            &&& cap.wf()
            &&& cap.shots().map_values(|s: MonitorShot| s.rect) == self.monitors@
            &&& cap@.sizes.len() == self.monitors@.len()
        }
    }

    /// Nothing but the capture differs.
    pub open spec fn same_windows(&self, other: &Overlay) -> bool {
        &&& self.monitors@ == other.monitors@
        &&& self.scales@ == other.scales@
        &&& self.animations_disabled == other.animations_disabled
    }

    /// The session of a well-formed overlay is well formed.
    pub proof fn law_session_is_wf(&self)
        requires
            self.wf(),
        ensures
            self.session() matches Some(s) ==> s.wf() && s.sizes.len() == self.monitors@.len(),
    {
        if let Some(cap) = self.cap {
            cap.law_session_is_wf();
        }
    }

    /// An overlay for the given monitors, with no capture under way.
    pub fn new(monitors: Vec<(i32, i32, i32, i32)>) -> (overlay: Overlay)
        ensures
            overlay.wf(),
            overlay.monitors@ == monitors@,
            overlay.scales@ == Seq::new(monitors@.len(), |k: int| None::<u32>),
            !overlay.animations_disabled,
            overlay.cap is None,
    {
        let n: usize = monitors.len();
        Overlay { monitors, scales: unknown_scales(n), animations_disabled: false, cap: None }
    }

    /// Whether a capture is under way.
    pub fn active(&self) -> (b: bool)
        ensures
            b == self.cap is Some,
    {
        self.cap.is_some()
    }

    /// Number of monitors.
    pub fn len(&self) -> (n: usize)
        ensures
            n == self.monitors@.len(),
    {
        self.monitors.len()
    }

    /// Starts a capture of the given images.  Where the monitors are no longer where the
    /// windows are, what was measured of the windows is forgotten.
    pub fn start(&mut self, shots: Vec<MonitorShot>)
        requires
            old(self).wf(),
            forall|k: int| 0 <= k < shots@.len() ==> shot_ok(#[trigger] shots@[k]),
        ensures
            final(self).wf(),
            final(self).monitors@ == shots@.map_values(|s: MonitorShot| s.rect),
            final(self).monitors@ == old(self).monitors@ ==> final(self).same_windows(old(self)),
            final(self).monitors@ != old(self).monitors@ ==> {
                &&& final(self).scales@ == Seq::new(shots@.len(), |k: int| None::<u32>)
                &&& !final(self).animations_disabled
            },
            final(self).cap matches Some(cap) && cap.shots() == shots@ && cap.frames() == 0,
            final(self).session() == Some(
                Session::fresh(shots@.map_values(|s: MonitorShot| monitor_extent(s.rect))),
            ),
    {
        let mut rects: Vec<(i32, i32, i32, i32)> = Vec::new();
        let n: usize = shots.len();
        for k in 0..n
            invariant
                n == shots@.len(),
                rects@ == shots@.take(k as int).map_values(|s: MonitorShot| s.rect),
        {
            rects.push(shots[k].rect);
            assert(rects@ =~= shots@.take(k + 1).map_values(|s: MonitorShot| s.rect));
        }
        assert(shots@.take(n as int) =~= shots@);
        if !same_rects(&rects, &self.monitors) {
            self.monitors = rects;
            self.scales = unknown_scales(n);
            self.animations_disabled = false;
        }
        self.cap = Some(Capture::new(shots));
    }

    /// Ends the capture; the windows stay.
    pub fn close(&mut self)
        requires
            old(self).wf(),
        ensures
            final(self).wf(),
            final(self).same_windows(old(self)),
            final(self).cap is None,
    {
        self.cap = None;
    }

    /// What a finished capture exports: the image of the selected monitor, the
    /// selection, and the annotations.  There is nothing without a placed selection.
    pub fn export_data(&self) -> (res: Option<(&Image, Rect, &Vec<Annotation>)>)
        requires
            self.wf(),
        ensures
            res is Some <==> (self.session() matches Some(s) && s.sel is Placed),
            res matches Some((image, rect, annotations)) ==> {
                &&& self.session()->0.sel == Selection::Placed { rect }
                &&& self.session()->0.active matches Some(mon) && mon < self.cap->0.shots().len()
                &&& *image == self.cap->0.shots()[self.session()->0.active->0 as int].image
                &&& image.wf()
                &&& rect.ordered()
                &&& rect.within(crate::geom::WIDE_LIMIT as int)
                &&& annotations@.map_values(|a: Annotation| a@) == self.session()->0.marks
                &&& forall|k: int|
                    0 <= k < annotations@.len() ==> crate::session::mark_ok(
                        (#[trigger] annotations@[k])@,
                    )
            },
    {
        match &self.cap {
            None => None,
            Some(cap) => match (cap.active_monitor, cap.sel) {
                (Some(mon), Selection::Placed { rect }) => {
                    assert(shot_ok(cap.shots@[mon as int]));
                    assert(cap@.sizes[mon as int].is_size());
                    assert forall|k: int|
                        0 <= k < cap.annotations@.len() implies crate::session::mark_ok(
                        (#[trigger] cap.annotations@[k])@,
                    ) by {
                        assert(cap@.marks[k] == cap.annotations@[k]@);
                    }
                    Some((&cap.shots[mon].image, rect, &cap.annotations))
                },
                _ => None,
            },
        }
    }

    /// The measured scale of a monitor, in units of 1/65536; one where none is known.
    pub fn scale_of(&self, monitor: usize) -> (scale: u32)
        requires
            self.wf(),
        ensures
            scale == (if monitor < self.scales@.len() && self.scales@[monitor as int] is Some {
                self.scales@[monitor as int]->0
            } else {
                65536
            }),
    {
        if monitor < self.scales.len() {
            match self.scales[monitor] {
                Some(scale) => scale,
                None => 65536,
            }
        } else {
            65536
        }
    }

    /// The scale of a monitor for the next window, which is `fallback` until one is known.
    pub fn scale_or(&self, monitor: usize, fallback: u32) -> (scale: u32)
        requires
            self.wf(),
            monitor < self.monitors@.len(),
        ensures
            scale == (match self.scales@[monitor as int] {
                Some(scale) => scale,
                None => fallback,
            }),
    {
        match self.scales[monitor] {
            Some(scale) => scale,
            None => fallback,
        }
    }

    /// x, y, w, h of a monitor in physical virtual-screen pixels.
    pub fn monitor_rect(&self, monitor: usize) -> (rect: (i32, i32, i32, i32))
        requires
            monitor < self.monitors@.len(),
        ensures
            rect == self.monitors@[monitor as int],
    {
        self.monitors[monitor]
    }

    /// Whether the windows of this frame are visible.  A fresh capture is drawn once
    /// while they are still hidden, so that nothing stale is ever shown.
    pub fn visible(&self) -> (b: bool)
        ensures
            b == (self.cap matches Some(cap) && cap.frames() >= 1),
    {
        match &self.cap {
            Some(cap) => cap.frames >= 1,
            None => false,
        }
    }

    /// All windows of a frame are drawn.
    pub fn end_frame(&mut self) -> (end: FrameEnd)
        requires
            old(self).wf(),
            old(self).cap matches Some(cap) ==> cap.frames() < u32::MAX,
        ensures
            final(self).wf(),
            final(self).monitors@ == old(self).monitors@,
            final(self).scales@ == old(self).scales@,
            final(self).animations_disabled,
            final(self).session() == old(self).session(),
            end.disable_animations == !old(self).animations_disabled,
            match (old(self).cap, final(self).cap) {
                (Some(before), Some(after)) => {
                    &&& after.shots() == before.shots()
                    &&& after.frames() == before.frames() + 1
                    &&& end.focus == (after.frames() == 2)
                    &&& end.repaint == (after.frames() <= 2)
                },
                (None, None) => !end.focus && !end.repaint,
                _ => false,
            },
    {
        let disable_animations: bool = !self.animations_disabled;
        self.animations_disabled = true;
        match self.cap.take() {
            Some(cap) => {
                let mut cap = cap;
                cap.frames = cap.frames + 1;
                let frames: u32 = cap.frames;
                assert(cap@ =~~= old(self).cap->0@);
                self.cap = Some(cap);
                FrameEnd { disable_animations, focus: frames == 2, repaint: frames <= 2 }
            },
            None => FrameEnd { disable_animations, focus: false, repaint: false },
        }
    }

    /// The window of monitor `i` is drawn: its scale becomes known, and the mouse acts on
    /// the capture unless the selection is on another monitor.
    pub fn monitor_ui(&mut self, i: usize, m: Mouse)
        requires
            old(self).wf(),
            m.wf(),
            i < old(self).monitors@.len(),
        ensures
            final(self).wf(),
            final(self).monitors@ == old(self).monitors@,
            final(self).scales@ == old(self).scales@.update(i as int, Some(m.scale)),
            final(self).animations_disabled == old(self).animations_disabled,
            match (old(self).cap, final(self).cap) {
                (Some(before), Some(after)) => {
                    &&& after.same_shots(&before)
                    &&& after@ == (if before@.free_for(i) {
                        before@.interacted(i, before@.gesture(m))
                    } else {
                        before@
                    })
                },
                (None, None) => true,
                _ => false,
            },
    {
        self.scales.set(i, Some(m.scale));
        match self.cap.take() {
            Some(cap) => {
                let mut cap = cap;
                let free: bool = match cap.active_monitor {
                    None => true,
                    Some(mon) => mon == i,
                };
                if free {
                    let g = cap.gesture(m);
                    cap.interact(i, g);
                }
                self.cap = Some(cap);
            },
            None => {},
        }
    }

    /// The keyboard acts on the capture through the window of monitor `i`; tells how the
    /// capture ends if it does.
    pub fn monitor_keys(&mut self, i: usize, events: &Vec<KeyEvent>) -> (outcome: Option<Outcome>)
        requires
            old(self).wf(),
            i < old(self).monitors@.len(),
        ensures
            final(self).wf(),
            final(self).same_windows(old(self)),
            match (old(self).cap, final(self).cap) {
                (Some(before), Some(after)) => {
                    &&& after.same_shots(&before)
                    &&& (after@, outcome) == before@.typed(i, events@)
                },
                (None, None) => outcome is None,
                _ => false,
            },
    {
        match self.cap.take() {
            Some(cap) => {
                let mut cap = cap;
                let outcome = cap.handle_keys(i, events);
                self.cap = Some(cap);
                outcome
            },
            None => None,
        }
    }
}

/// As many unknown scales as there are monitors.
fn unknown_scales(n: usize) -> (scales: Vec<Option<u32>>)
    ensures
        scales@ == Seq::new(n as nat, |k: int| None::<u32>),
{
    let mut scales: Vec<Option<u32>> = Vec::new();
    for k in 0..n
        invariant
            scales@ == Seq::new(k as nat, |k: int| None::<u32>),
    {
        scales.push(None);
        assert(scales@ =~= Seq::new((k + 1) as nat, |k: int| None::<u32>));
    }
    scales
}

/// Whether the two lists of rectangles are the same.
fn same_rects(a: &Vec<(i32, i32, i32, i32)>, b: &Vec<(i32, i32, i32, i32)>) -> (same: bool)
    ensures
        same == (a@ == b@),
{
    if a.len() != b.len() {
        return false;
    }
    let n: usize = a.len();
    for k in 0..n
        invariant
            n == a@.len(),
            n == b@.len(),
            forall|j: int| 0 <= j < k ==> a@[j] == b@[j],
    {
        let (p, q): ((i32, i32, i32, i32), (i32, i32, i32, i32)) = (a[k], b[k]);
        if p.0 != q.0 || p.1 != q.1 || p.2 != q.2 || p.3 != q.3 {
            assert(a@[k as int] != b@[k as int]);
            return false;
        }
    }
    assert(a@ =~= b@);
    true
}

/// A monitor is as large as its rectangle, in units of 1/65536 pixel.
pub proof fn law_monitor_extent(x: i32, y: i32, w: i32, h: i32)
    ensures
        monitor_extent((x, y, w, h)).x == w * 65536,
        monitor_extent((x, y, w, h)).y == h * 65536,
{
}

/// A step that changes nothing but the session keeps the frozen images and the count of
/// frames.
pub proof fn law_same_shots(a: &Capture, b: &Capture)
    requires
        a.same_shots(b),
    ensures
        a.shots() == b.shots(),
        a.frames() == b.frames(),
{
}

/// A step that changes nothing but the capture keeps the monitors, what was measured of
/// them, and whether the animations were switched off.
pub proof fn law_same_windows(a: &Overlay, b: &Overlay)
    requires
        a.same_windows(b),
    ensures
        a.monitors@ == b.monitors@,
        a.scales@ == b.scales@,
        a.animations_disabled == b.animations_disabled,
{
}

/// There is a session exactly while a capture is under way, and it is that of the capture.
pub proof fn law_session_is_that_of_capture(o: &Overlay)
    ensures
        o.session() is Some <==> o.cap is Some,
        o.cap matches Some(cap) ==> o.session() == Some(cap@),
{
}

} // verus!
