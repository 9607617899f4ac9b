//! Live region picker for recordings.
//!
//! The real, moving screen stays visible while the user frames it: four half-transparent
//! strips darken it around the selection, four thin strips frame the selection, and one
//! invisible window over the whole virtual screen owns the mouse and the keyboard.
//!
//! All geometry is in whole physical virtual-screen pixels.  A selection is clamped to
//! the monitor where the drag started.
use vstd::prelude::*;

verus! {

/// Alpha of the dark strips: just enough to see that the picker is active.
pub const DIM_ALPHA: u8 = 38;

/// Thickness of the frame, in physical pixels.
pub const BORDER: i32 = 2;

/// Colour of the frame, as 0x00BBGGRR.
pub const AMBER: u32 = 0x003D_C5FF;

/// Largest magnitude of a virtual-screen coordinate.
pub const DESK: i32 = 0x2000_0000;

/// Key code of Escape.
pub const VK_ESCAPE: u16 = 0x1B;

/// Key code of Enter.
pub const VK_RETURN: u16 = 0x0D;

/// What the user asked of the picker.
#[derive(Clone, Copy, PartialEq, Eq, Structural, Debug)]
pub enum Action {
    Start,
    Cancel,
}

/// The picked region; a rectangle is x, y, w, h.
#[derive(Clone, Copy, PartialEq, Eq, Debug)]
pub enum Sel {
    Empty,
    Dragging { start: (i32, i32), cur: (i32, i32) },
    Placed { rect: (i32, i32, i32, i32) },
}

/// The window messages that the picker knows, with their parameters.
#[derive(Clone, Copy, PartialEq, Eq, Structural, Debug)]
pub enum Message {
    SetCursor,
    LeftDown { lparam: i64 },
    MouseMove { lparam: i64 },
    LeftUp,
    RightDown,
    KeyDown { wparam: u64 },
    Other,
}

/// What a window message asks of the system.
#[derive(Clone, Copy, PartialEq, Eq, Structural, Debug)]
pub struct Reply {
    /// What the message returns; the default handling of the system where there is none.
    pub result: Option<i64>,
    /// The crosshair cursor has to be set.
    pub set_cursor: bool,
    /// The window takes the mouse.
    pub grab_mouse: bool,
    /// The window lets go of the mouse.
    pub release_mouse: bool,
    /// The strips have to be placed anew.
    pub relayout: bool,
    /// The program has to look at the picker.
    pub repaint: bool,
}

/// What changes while the picker is open.
#[derive(Clone, Copy, PartialEq, Eq, Debug)]
pub struct State {
    pub sel: Sel,
    /// The monitor where the drag started.
    pub monitor: Option<usize>,
    pub action: Option<Action>,
}

/// The region picker.
pub struct Picker {
    pub monitors: Vec<(i32, i32, i32, i32)>,
    /// The whole virtual screen.
    pub virt: (i32, i32, i32, i32),
    pub state: State,
}

/// Why no picker opens.
#[derive(Clone, Copy, PartialEq, Eq, Structural, Debug)]
pub enum PickerError {
    NoMonitors,
}

/// A strip window: where it goes, and whether it is shown.
#[derive(Clone, Copy, PartialEq, Eq, Structural, Debug)]
pub struct Strip {
    pub x: i32,
    pub y: i32,
    pub w: i32,
    pub h: i32,
    pub show: bool,
}

/// The strips of the picker.
pub struct Layout {
    pub dim: [Strip; 4],
    pub border: [Strip; 4],
}

/// The rectangle lies on the desk, and its sides are not negative.
pub open spec fn on_desk(r: (i32, i32, i32, i32)) -> bool {
    &&& -DESK <= r.0 && -DESK <= r.1
    &&& 0 <= r.2 && 0 <= r.3
    &&& r.0 + r.2 <= DESK && r.1 + r.3 <= DESK
}

/// The position lies on the desk.
pub open spec fn point_on_desk(p: (i32, i32)) -> bool {
    -DESK <= p.0 <= DESK && -DESK <= p.1 <= DESK
}

/// The pixel at `x`, `y` belongs to the rectangle.
pub open spec fn covers(r: (i32, i32, i32, i32), x: int, y: int) -> bool {
    r.0 <= x < r.0 + r.2 && r.1 <= y < r.1 + r.3
}

/// The first rectangle from index `k` on that has the pixel; 0 where none has.
pub open spec fn first_with(rects: Seq<(i32, i32, i32, i32)>, p: (i32, i32), k: int) -> int
    decreases rects.len() - k,
{
    if k >= rects.len() {
        0
    } else if covers(rects[k], p.0 as int, p.1 as int) {
        k
    } else {
        first_with(rects, p, k + 1)
    }
}

/// The number moved into the range from `lo` to `hi`.
pub open spec fn clamp_to(v: i32, lo: int, hi: int) -> i32 {
    if v < lo {
        lo as i32
    } else if v > hi {
        hi as i32
    } else {
        v
    }
}

/// The position moved onto the monitor.
pub open spec fn onto_monitor(m: (i32, i32, i32, i32), p: (i32, i32)) -> (i32, i32) {
    (clamp_to(p.0, m.0 as int, m.0 + m.2), clamp_to(p.1, m.1 as int, m.1 + m.3))
}

/// The rectangle between two positions.
pub open spec fn between(a: (i32, i32), b: (i32, i32)) -> (i32, i32, i32, i32) {
    let x = if a.0 <= b.0 {
        a.0
    } else {
        b.0
    };
    let y = if a.1 <= b.1 {
        a.1
    } else {
        b.1
    };
    let w = if a.0 <= b.0 {
        b.0 - a.0
    } else {
        a.0 - b.0
    };
    let h = if a.1 <= b.1 {
        b.1 - a.1
    } else {
        a.1 - b.1
    };
    (x, y, w as i32, h as i32)
}

/// The low 16 bits as a signed number.
pub open spec fn signed_word(v: int) -> int {
    let u = v % 65536;
    if u >= 32768 {
        u - 65536
    } else {
        u
    }
}

/// The position that a mouse message carries: x in the low word, y in the next one,
/// relative to the origin of the virtual screen.
pub open spec fn message_point(lparam: i64, virt: (i32, i32, i32, i32)) -> (i32, i32) {
    (
        (signed_word(lparam as int) + virt.0) as i32,
        (signed_word(lparam as int / 65536) + virt.1) as i32,
    )
}

/// The answer to a message that needs no action.
pub open spec fn answered() -> Reply {
    Reply {
        result: Some(0),
        set_cursor: false,
        grab_mouse: false,
        release_mouse: false,
        relayout: false,
        repaint: false,
    }
}

impl State {
    /// The region to record and its monitor.
    pub open spec fn region(self) -> Option<((i32, i32, u32, u32), usize)> {
        match (self.sel, self.monitor) {
            (Sel::Placed { rect }, Some(m)) => Some(
                (
                    (
                        rect.0,
                        rect.1,
                        even_side(rect.2 as int) as u32,
                        even_side(rect.3 as int) as u32,
                    ),
                    m,
                ),
            ),
            _ => None,
        }
    }

    /// The hole in the darkened screen.
    pub open spec fn hole(self) -> Option<(i32, i32, i32, i32)> {
        match self.sel {
            Sel::Empty => None,
            Sel::Dragging { start, cur } => Some(between(start, cur)),
            Sel::Placed { rect } => Some(rect),
        }
    }

    /// What holds of every state on the given monitors.
    pub open spec fn wf(self, monitors: Seq<(i32, i32, i32, i32)>) -> bool {
        &&& self.monitor matches Some(m) ==> m < monitors.len()
        &&& self.monitor is None ==> self.sel is Empty
        &&& match self.sel {
            Sel::Empty => true,
            Sel::Dragging { start, cur } => point_on_desk(start) && point_on_desk(cur),
            Sel::Placed { rect } => on_desk(rect) && rect.2 >= 4 && rect.3 >= 4,
        }
    }

    /// The end of a drag: a region of at least four pixels each way is placed, and
    /// anything smaller is a stray click that clears the selection.
    pub open spec fn dropped(self) -> State {
        match self.sel {
            Sel::Dragging { start, cur } => State {
                sel: if between(start, cur).2 >= 4 && between(start, cur).3 >= 4 {
                    Sel::Placed { rect: between(start, cur) }
                } else {
                    Sel::Empty
                },
                ..self
            },
            _ => self,
        }
    }

    /// What a window message does.
    pub open spec fn next(
        self,
        monitors: Seq<(i32, i32, i32, i32)>,
        virt: (i32, i32, i32, i32),
        msg: Message,
    ) -> (State, Reply) {
        match msg {
            Message::SetCursor => (
                self,
                Reply { result: Some(1), set_cursor: true, ..answered() },
            ),
            Message::LeftDown { lparam } => {
                let p = message_point(lparam, virt);
                (
                    State {
                        monitor: Some(first_with(monitors, p, 0) as usize),
                        sel: Sel::Dragging { start: p, cur: p },
                        ..self
                    },
                    Reply { grab_mouse: true, relayout: true, ..answered() },
                )
            },
            Message::MouseMove { lparam } => match (self.sel, self.monitor) {
                (Sel::Dragging { start, cur }, Some(m)) => (
                    State {
                        sel: Sel::Dragging {
                            start,
                            cur: onto_monitor(monitors[m as int], message_point(lparam, virt)),
                        },
                        ..self
                    },
                    Reply { relayout: true, ..answered() },
                ),
                _ => (self, answered()),
            },
            Message::LeftUp => (
                self.dropped(),
                Reply {
                    release_mouse: true,
                    relayout: self.sel is Dragging,
                    repaint: self.sel is Dragging,
                    ..answered()
                },
            ),
            Message::RightDown => (
                State { action: Some(Action::Cancel), ..self },
                Reply { repaint: true, ..answered() },
            ),
            Message::KeyDown { wparam } => if wparam % 65536 == VK_ESCAPE {
                (
                    State { action: Some(Action::Cancel), ..self },
                    Reply { repaint: true, ..answered() },
                )
            } else if wparam % 65536 == VK_RETURN && self.sel is Placed {
                (
                    State { action: Some(Action::Start), ..self },
                    Reply { repaint: true, ..answered() },
                )
            } else {
                (self, answered())
            },
            Message::Other => (self, Reply { result: None, ..answered() }),
        }
    }
}

/// A side rounded down to an even number of pixels, but at least two.
pub open spec fn even_side(v: int) -> int {
    if v < 2 {
        2
    } else {
        v - v % 2
    }
}

/// A strip window for the rectangle, shown only where that is not empty.
pub open spec fn strip_of(r: (int, int, int, int)) -> Strip {
    Strip {
        x: r.0 as i32,
        y: r.1 as i32,
        w: if r.2 < 0 {
            0
        } else {
            r.2 as i32
        },
        h: if r.3 < 0 {
            0
        } else {
            r.3 as i32
        },
        show: r.2 > 0 && r.3 > 0,
    }
}

/// The strips above, below, left and right of the hole.
pub open spec fn dim_rects(
    hole: Option<(i32, i32, i32, i32)>,
    virt: (i32, i32, i32, i32),
) -> Seq<(int, int, int, int)> {
    let (vx, vy, vw, vh) = (virt.0 as int, virt.1 as int, virt.2 as int, virt.3 as int);
    match hole {
        Some(r) if r.2 > 0 && r.3 > 0 => {
            let (x, y, w, h) = (r.0 as int, r.1 as int, r.2 as int, r.3 as int);
            seq![
                (vx, vy, vw, y - vy),
                (vx, y + h, vw, vy + vh - (y + h)),
                (vx, y, x - vx, h),
                (x + w, y, vx + vw - (x + w), h),
            ]
        },
        _ => seq![(vx, vy, vw, vh), (0, 0, 0, 0), (0, 0, 0, 0), (0, 0, 0, 0)],
    }
}

/// The frame around a rectangle: top, bottom, left and right.  The horizontal strips
/// overhang to close the corners.
pub open spec fn frame_rects(r: (i32, i32, i32, i32)) -> Seq<(int, int, int, int)> {
    let (x, y, w, h) = (r.0 as int, r.1 as int, r.2 as int, r.3 as int);
    let t = BORDER as int;
    seq![
        (x - t, y - t, w + 2 * t, t),
        (x - t, y + h, w + 2 * t, t),
        (x - t, y, t, h),
        (x + w, y, t, h),
    ]
}

/// The frame around the hole.
pub open spec fn border_rects(hole: Option<(i32, i32, i32, i32)>) -> Seq<(int, int, int, int)> {
    match hole {
        Some(r) if r.2 > 0 && r.3 > 0 => frame_rects(r),
        _ => seq![(0, 0, 0, 0), (0, 0, 0, 0), (0, 0, 0, 0), (0, 0, 0, 0)],
    }
}

/// The strip window shows the pixel at `x`, `y`.
pub open spec fn strip_shows(s: Strip, x: int, y: int) -> bool {
    s.show && s.x <= x < s.x + s.w && s.y <= y < s.y + s.h
}

fn clamp_between(v: i32, lo: i32, hi: i32) -> (r: i32)
    ensures
        r == clamp_to(v, lo as int, hi as int),
{
    if v < lo {
        lo
    } else if v > hi {
        hi
    } else {
        v
    }
}

fn to_signed_word(v: i64) -> (r: i32)
    ensures
        r == signed_word(v as int),
        -32768 <= r <= 32767,
{
    let u: u16 = (v & 0xFFFF) as u16;
    let s: i16 = u as i16;
    proof {
        assert((v & 0xFFFF) == v % 65536) by (bit_vector);
        assert(0 <= (v & 0xFFFF) < 65536) by (bit_vector);
        assert(u as i16 as int == (if u >= 32768 {
            u - 65536
        } else {
            u as int
        })) by (bit_vector);
    }
    s as i32
}

/// The hole in the darkened screen.
pub fn current_hole(state: &State) -> (hole: Option<(i32, i32, i32, i32)>)
    requires
        state.sel matches Sel::Dragging { start, cur } ==> point_on_desk(start) && point_on_desk(
            cur,
        ),
    ensures
        hole == state.hole(),
{
    match state.sel {
        Sel::Empty => None,
        Sel::Dragging { start, cur } => {
            let (x, w): (i32, i32) = if start.0 <= cur.0 {
                (start.0, cur.0 - start.0)
            } else {
                (cur.0, start.0 - cur.0)
            };
            let (y, h): (i32, i32) = if start.1 <= cur.1 {
                (start.1, cur.1 - start.1)
            } else {
                (cur.1, start.1 - cur.1)
            };
            Some((x, y, w, h))
        },
        Sel::Placed { rect } => Some(rect),
    }
}

fn strip(x: i32, y: i32, w: i32, h: i32) -> (s: Strip)
    ensures
        s == strip_of((x as int, y as int, w as int, h as int)),
{
    Strip {
        x,
        y,
        w: if w < 0 {
            0
        } else {
            w
        },
        h: if h < 0 {
            0
        } else {
            h
        },
        show: w > 0 && h > 0,
    }
}

/// The position that a mouse message carries, relative to its window.
pub fn client_point(lparam: i64) -> (p: (i32, i32))
    ensures
        p.0 == signed_word(lparam as int),
        p.1 == signed_word(lparam as int / 65536),
{
    let x: i32 = to_signed_word(lparam);
    let high: i64 = lparam >> 16;
    assert(lparam >> 16 == lparam as int / 65536) by {
        assert(lparam >> 16 == lparam / 65536) by (bit_vector);
    }
    let y: i32 = to_signed_word(high);
    (x, y)
}

impl Picker {
    /// What holds of every picker.
    pub open spec fn wf(&self) -> bool {
        &&& self.monitors@.len() > 0
        &&& forall|k: int| 0 <= k < self.monitors@.len() ==> on_desk(#[trigger] self.monitors@[k])
        &&& on_desk(self.virt)
        &&& -DESK + 32768 <= self.virt.0 <= DESK - 32768
        &&& -DESK + 32768 <= self.virt.1 <= DESK - 32768
        &&& self.state.wf(self.monitors@)
    }

    /// Opens a picker on the given monitors and virtual screen, with nothing selected.
    pub fn open(
        monitors: Vec<(i32, i32, i32, i32)>,
        virt: (i32, i32, i32, i32),
    ) -> (res: Result<Picker, PickerError>)
        requires
            forall|k: int| 0 <= k < monitors@.len() ==> on_desk(#[trigger] monitors@[k]),
            on_desk(virt),
            -DESK + 32768 <= virt.0 <= DESK - 32768,
            -DESK + 32768 <= virt.1 <= DESK - 32768,
        ensures
            res is Err <==> monitors@.len() == 0,
            res matches Ok(p) ==> p.wf() && p.monitors == monitors && p.virt == virt && p.state
                == (State { sel: Sel::Empty, monitor: None, action: None }),
            res matches Err(e) ==> e == PickerError::NoMonitors,
    {
        if monitors.len() == 0 {
            return Err(PickerError::NoMonitors);
        }
        Ok(
            Picker {
                monitors,
                virt,
                state: State { sel: Sel::Empty, monitor: None, action: None },
            },
        )
    }

    /// The placed region (x, y, w, h) and its monitor.  The sides are even, as the video
    /// encoder needs them.
    pub fn placed(&self) -> (res: Option<((i32, i32, u32, u32), usize)>)
        requires
            self.wf(),
        ensures
            res == self.state.region(),
    {
        match self.state.sel {
            Sel::Placed { rect } => {
                let (w, h): (u32, u32) = (rect.2 as u32, rect.3 as u32);
                let (ew, eh): (u32, u32) = (w & !1, h & !1);
                assert(w & !1 == w - w % 2) by (bit_vector);
                assert(h & !1 == h - h % 2) by (bit_vector);
                let region: (i32, i32, u32, u32) = (
                    rect.0,
                    rect.1,
                    if ew > 2 {
                        ew
                    } else {
                        2
                    },
                    if eh > 2 {
                        eh
                    } else {
                        2
                    },
                );
                match self.state.monitor {
                    Some(m) => Some((region, m)),
                    None => None,
                }
            },
            _ => None,
        }
    }

    /// What the user asked for since the last call.
    pub fn take_action(&mut self) -> (action: Option<Action>)
        requires
            old(self).wf(),
        ensures
            final(self).wf(),
            action == old(self).state.action,
            final(self).state == (State { action: None, ..old(self).state }),
            final(self).monitors == old(self).monitors,
            final(self).virt == old(self).virt,
    {
        let action = self.state.action;
        self.state = State { sel: self.state.sel, monitor: self.state.monitor, action: None };
        action
    }

    /// The monitor that has the pixel; the first one where none has.
    fn monitor_at(&self, p: (i32, i32)) -> (m: usize)
        requires
            self.wf(),
        ensures
            m == first_with(self.monitors@, p, 0),
            m < self.monitors@.len(),
    {
        let n: usize = self.monitors.len();
        let mut k: usize = 0;
        while k < n
            invariant
                k <= n,
                n == self.monitors@.len(),
                self.wf(),
                first_with(self.monitors@, p, 0) == first_with(self.monitors@, p, k as int),
            decreases n - k,
        {
            let (x, y, w, h): (i32, i32, i32, i32) = self.monitors[k];
            assert(on_desk(self.monitors@[k as int]));
            if p.0 >= x && p.0 < x + w && p.1 >= y && p.1 < y + h {
                return k;
            }
            k = k + 1;
        }
        0
    }

    /// The position moved onto the monitor.
    fn clamp_to_monitor(&self, monitor: usize, p: (i32, i32)) -> (q: (i32, i32))
        requires
            self.wf(),
            monitor < self.monitors@.len(),
        ensures
            q == onto_monitor(self.monitors@[monitor as int], p),
            point_on_desk(q),
    {
        let (x, y, w, h): (i32, i32, i32, i32) = self.monitors[monitor];
        assert(on_desk(self.monitors@[monitor as int]));
        (clamp_between(p.0, x, x + w), clamp_between(p.1, y, y + h))
    }

    /// The position that a mouse message carries.
    fn point(&self, lparam: i64) -> (p: (i32, i32))
        requires
            self.wf(),
        ensures
            p == message_point(lparam, self.virt),
            point_on_desk(p),
    {
        let (x, y): (i32, i32) = client_point(lparam);
        (x + self.virt.0, y + self.virt.1)
    }

    /// Handles a window message.
    pub fn wndproc(&mut self, msg: Message) -> (reply: Reply)
        requires
            old(self).wf(),
        ensures
            final(self).wf(),
            (final(self).state, reply) == old(self).state.next(
                old(self).monitors@,
                old(self).virt,
                msg,
            ),
            final(self).monitors == old(self).monitors,
            final(self).virt == old(self).virt,
    {
        let mut reply = Reply {
            result: Some(0),
            set_cursor: false,
            grab_mouse: false,
            release_mouse: false,
            relayout: false,
            repaint: false,
        };
        let State { sel, monitor, action } = self.state;
        match msg {
            Message::SetCursor => {
                reply.result = Some(1);
                reply.set_cursor = true;
            },
            Message::LeftDown { lparam } => {
                let p: (i32, i32) = self.point(lparam);
                let m: usize = self.monitor_at(p);
                self.state = State {
                    sel: Sel::Dragging { start: p, cur: p },
                    monitor: Some(m),
                    action,
                };
                reply.grab_mouse = true;
                reply.relayout = true;
            },
            Message::MouseMove { lparam } => {
                if let (Sel::Dragging { start, cur: _ }, Some(m)) = (sel, monitor) {
                    let p: (i32, i32) = self.point(lparam);
                    let cur: (i32, i32) = self.clamp_to_monitor(m, p);
                    self.state = State { sel: Sel::Dragging { start, cur }, monitor, action };
                    reply.relayout = true;
                }
            },
            Message::LeftUp => {
                reply.release_mouse = true;
                if let Sel::Dragging { start: _, cur: _ } = sel {
                    let dropped: Sel = match current_hole(&self.state) {
                        Some((x, y, w, h)) => if w >= 4 && h >= 4 {
                            Sel::Placed { rect: (x, y, w, h) }
                        } else {
                            Sel::Empty
                        },
                        None => Sel::Empty,
                    };
                    self.state = State { sel: dropped, monitor, action };
                    reply.relayout = true;
                    reply.repaint = true;
                }
            },
            Message::RightDown => {
                self.state = State { sel, monitor, action: Some(Action::Cancel) };
                reply.repaint = true;
            },
            Message::KeyDown { wparam } => {
                let vk: u16 = (wparam % 65536) as u16;
                let placed: bool = match sel {
                    Sel::Placed { rect: _ } => true,
                    _ => false,
                };
                if vk == VK_ESCAPE {
                    self.state = State { sel, monitor, action: Some(Action::Cancel) };
                    reply.repaint = true;
                } else if vk == VK_RETURN && placed {
                    self.state = State { sel, monitor, action: Some(Action::Start) };
                    reply.repaint = true;
                }
            },
            Message::Other => {
                reply.result = None;
            },
        }
        reply
    }

    /// Where the strips go: the dark ones around the hole, or over everything where there
    /// is none, and the frame around the hole.
    pub fn relayout(&self) -> (layout: Layout)
        requires
            self.wf(),
        ensures
            layout.dim@ == dim_rects(self.state.hole(), self.virt).map_values(
                |r: (int, int, int, int)| strip_of(r),
            ),
            layout.border@ == border_rects(self.state.hole()).map_values(
                |r: (int, int, int, int)| strip_of(r),
            ),
    {
        let (vx, vy, vw, vh): (i32, i32, i32, i32) = self.virt;
        let hole = current_hole(&self.state);
        let layout = match hole {
            Some((x, y, w, h)) if w > 0 && h > 0 => Layout {
                dim: [
                    strip(vx, vy, vw, y - vy),
                    strip(vx, y + h, vw, vy + vh - (y + h)),
                    strip(vx, y, x - vx, h),
                    strip(x + w, y, vx + vw - (x + w), h),
                ],
                border: [
                    strip(x - BORDER, y - BORDER, w + 2 * BORDER, BORDER),
                    strip(x - BORDER, y + h, w + 2 * BORDER, BORDER),
                    strip(x - BORDER, y, BORDER, h),
                    strip(x + w, y, BORDER, h),
                ],
            },
            _ => {
                let none = strip(0, 0, 0, 0);
                Layout {
                    dim: [strip(vx, vy, vw, vh), none, none, none],
                    border: [none, none, none, none],
                }
            },
        };
        assert(layout.dim@ =~= dim_rects(self.state.hole(), self.virt).map_values(
            |r: (int, int, int, int)| strip_of(r),
        ));
        assert(layout.border@ =~= border_rects(self.state.hole()).map_values(
            |r: (int, int, int, int)| strip_of(r),
        ));
        layout
    }
}

/// The frame around a recorded region: four opaque strips just outside it.
pub struct RecordBorder {
    /// x, y, w, h of each strip.
    pub rects: [(i32, i32, i32, i32); 4],
}

impl RecordBorder {
    /// The frame around a region.
    pub fn show(region: (i32, i32, u32, u32)) -> (border: RecordBorder)
        requires
            region.2 <= 2 * DESK,
            region.3 <= 2 * DESK,
            on_desk((region.0, region.1, region.2 as i32, region.3 as i32)),
        ensures
            forall|k: int|
                0 <= k < 4 ==> {
                    let r = #[trigger] border.rects@[k];
                    (r.0 as int, r.1 as int, r.2 as int, r.3 as int) == frame_rects(
                        (region.0, region.1, region.2 as i32, region.3 as i32),
                    )[k]
                },
    {
        let (x, y, w, h): (i32, i32, i32, i32) = (
            region.0,
            region.1,
            region.2 as i32,
            region.3 as i32,
        );
        RecordBorder {
            rects: [
                (x - BORDER, y - BORDER, w + 2 * BORDER, BORDER),
                (x - BORDER, y + h, w + 2 * BORDER, BORDER),
                (x - BORDER, y, BORDER, h),
                (x + w, y, BORDER, h),
            ],
        }
    }
}

/// How many of the strips show the pixel at `x`, `y`.
pub open spec fn times_shown(rects: Seq<(int, int, int, int)>, x: int, y: int) -> nat
    decreases rects.len(),
{
    if rects.len() == 0 {
        0
    } else {
        times_shown(rects.drop_last(), x, y) + (if strip_shows(strip_of(rects.last()), x, y) {
            1nat
        } else {
            0nat
        })
    }
}

proof fn lemma_times_shown_by_four(rects: Seq<(int, int, int, int)>, x: int, y: int)
    requires
        rects.len() == 4,
    ensures
        times_shown(rects, x, y) == (if strip_shows(strip_of(rects[0]), x, y) {
            1int
        } else {
            0
        }) + (if strip_shows(strip_of(rects[1]), x, y) {
            1int
        } else {
            0
        }) + (if strip_shows(strip_of(rects[2]), x, y) {
            1int
        } else {
            0
        }) + (if strip_shows(strip_of(rects[3]), x, y) {
            1int
        } else {
            0
        }),
{
    reveal_with_fuel(times_shown, 5);
    assert(rects.drop_last().last() == rects[2]);
    assert(rects.drop_last().drop_last().last() == rects[1]);
    assert(rects.drop_last().drop_last().drop_last().last() == rects[0]);
}

/// Every pixel of the virtual screen outside the hole is darkened by exactly one strip,
/// and no pixel of the hole is darkened.
pub proof fn law_dim_around_hole(
    hole: (i32, i32, i32, i32),
    virt: (i32, i32, i32, i32),
    x: int,
    y: int,
)
    requires
        on_desk(virt),
        on_desk(hole),
        hole.2 > 0 && hole.3 > 0,
        virt.0 <= hole.0 && hole.0 + hole.2 <= virt.0 + virt.2,
        virt.1 <= hole.1 && hole.1 + hole.3 <= virt.1 + virt.3,
    ensures
        times_shown(dim_rects(Some(hole), virt), x, y) == (if covers(virt, x, y) && !covers(
            hole,
            x,
            y,
        ) {
            1nat
        } else {
            0nat
        }),
{
    lemma_times_shown_by_four(dim_rects(Some(hole), virt), x, y);
}

/// Without a hole, every pixel of the virtual screen is darkened by exactly one strip.
pub proof fn law_dim_everything(virt: (i32, i32, i32, i32), x: int, y: int)
    requires
        on_desk(virt),
    ensures
        times_shown(dim_rects(None, virt), x, y) == (if covers(virt, x, y) {
            1nat
        } else {
            0nat
        }),
        times_shown(border_rects(None), x, y) == 0,
{
    lemma_times_shown_by_four(dim_rects(None, virt), x, y);
    lemma_times_shown_by_four(border_rects(None), x, y);
}

/// The frame shows no pixel of what it frames, and every pixel up to two pixels away from
/// it exactly once.
pub proof fn law_frame_stays_outside(r: (i32, i32, i32, i32), x: int, y: int)
    requires
        on_desk(r),
        r.2 > 0 && r.3 > 0,
    ensures
        times_shown(frame_rects(r), x, y) == (if r.0 - BORDER <= x < r.0 + r.2 + BORDER && r.1
            - BORDER <= y < r.1 + r.3 + BORDER && !covers(r, x, y) {
            1nat
        } else {
            0nat
        }),
{
    lemma_times_shown_by_four(frame_rects(r), x, y);
}

/// A placed region is recorded with even sides that lie in the selection and miss at most
/// one row and one column of it.
pub proof fn law_region_is_even(rect: (i32, i32, i32, i32))
    requires
        on_desk(rect),
        rect.2 >= 4,
        rect.3 >= 4,
    ensures
        even_side(rect.2 as int) % 2 == 0,
        even_side(rect.3 as int) % 2 == 0,
        rect.2 - 1 <= even_side(rect.2 as int) <= rect.2,
        rect.3 - 1 <= even_side(rect.3 as int) <= rect.3,
{
}

/// The selection lies on the monitor where the drag started.
pub open spec fn held(s: State, monitors: Seq<(i32, i32, i32, i32)>) -> bool {
    match s.sel {
        Sel::Empty => true,
        Sel::Dragging { start, cur } => s.monitor matches Some(m) && onto_monitor(
            monitors[m as int],
            start,
        ) == start && onto_monitor(monitors[m as int], cur) == cur,
        Sel::Placed { rect } => s.monitor matches Some(m) && monitors[m as int].0 <= rect.0
            && rect.0 + rect.2 <= monitors[m as int].0 + monitors[m as int].2
            && monitors[m as int].1 <= rect.1 && rect.1 + rect.3 <= monitors[m as int].1
            + monitors[m as int].3,
    }
}

proof fn lemma_first_with(rects: Seq<(i32, i32, i32, i32)>, p: (i32, i32), k: int)
    requires
        0 <= k <= rects.len(),
        exists|j: int|
            k <= j < rects.len() && covers(#[trigger] rects[j], p.0 as int, p.1 as int),
    ensures
        k <= first_with(rects, p, k) < rects.len(),
        covers(rects[first_with(rects, p, k)], p.0 as int, p.1 as int),
    decreases rects.len() - k,
{
    if k < rects.len() && !covers(rects[k], p.0 as int, p.1 as int) {
        let j = choose|j: int|
            k <= j < rects.len() && covers(#[trigger] rects[j], p.0 as int, p.1 as int);
        assert(k + 1 <= j);
        lemma_first_with(rects, p, k + 1);
    }
}

/// A drag that starts on a monitor selects on that monitor only.
pub proof fn law_selection_stays_on_monitor(
    s: State,
    monitors: Seq<(i32, i32, i32, i32)>,
    virt: (i32, i32, i32, i32),
    msg: Message,
)
    requires
        s.wf(monitors),
        forall|k: int| 0 <= k < monitors.len() ==> on_desk(#[trigger] monitors[k]),
        held(s, monitors),
        msg matches Message::LeftDown { lparam } ==> exists|j: int|
            0 <= j < monitors.len() && covers(
                #[trigger] monitors[j],
                message_point(lparam, virt).0 as int,
                message_point(lparam, virt).1 as int,
            ),
        monitors.len() <= usize::MAX,
    ensures
        held(s.next(monitors, virt, msg).0, monitors),
{
    if let Message::LeftDown { lparam } = msg {
        lemma_first_with(monitors, message_point(lparam, virt), 0);
    }
    if let Some(m) = s.monitor {
        assert(on_desk(monitors[m as int]));
    }
}

/// Enter starts a recording only of a placed region, and a stray click leaves none.
pub proof fn law_start_needs_region(
    s: State,
    monitors: Seq<(i32, i32, i32, i32)>,
    virt: (i32, i32, i32, i32),
    msg: Message,
)
    ensures
        s.action != Some(Action::Start) && s.next(monitors, virt, msg).0.action == Some(
            Action::Start,
        ) ==> s.sel is Placed && s.next(monitors, virt, msg).0.sel == s.sel,
        s.sel matches Sel::Dragging { start, cur } ==> (s.dropped().sel is Placed <==> between(
            start,
            cur,
        ).2 >= 4 && between(start, cur).3 >= 4),
{
}

/// The rectangle between two positions has both as opposite corners, whichever way the drag
/// went: its left edge is at the one further left and its right edge at the one further
/// right, and the same for top and bottom.
pub proof fn law_region_between_corners(a: (i32, i32), b: (i32, i32))
    requires
        point_on_desk(a),
        point_on_desk(b),
    ensures
        ({
            let r = between(a, b);
            &&& r == between(b, a)
            &&& r.0 <= a.0 <= r.0 + r.2 && r.0 <= b.0 <= r.0 + r.2
            &&& r.1 <= a.1 <= r.1 + r.3 && r.1 <= b.1 <= r.1 + r.3
            &&& r.0 + (r.0 + r.2) == a.0 + b.0
            &&& r.1 + (r.1 + r.3) == a.1 + b.1
            &&& r.0 == a.0 || r.0 == b.0
            &&& r.1 == a.1 || r.1 == b.1
        }),
{
}

/// A rectangle of one pixel covers that pixel alone, and a rectangle covers what its two
/// parts cover, however it is cut.
pub proof fn law_covers_pixel_by_pixel(x: i32, y: i32, w: i32, h: i32, cut: i32, px: int, py: int)
    requires
        on_desk((x, y, w, h)),
        0 <= cut,
    ensures
        covers((x, y, 1, 1), px, py) <==> px == x && py == y,
        !covers((x, y, 0, h), px, py) && !covers((x, y, w, 0), px, py),
        cut <= w ==> (covers((x, y, w, h), px, py) <==> covers((x, y, cut, h), px, py) || covers(
            ((x + cut) as i32, y, (w - cut) as i32, h),
            px,
            py,
        )),
        cut <= h ==> (covers((x, y, w, h), px, py) <==> covers((x, y, w, cut), px, py) || covers(
            (x, (y + cut) as i32, w, (h - cut) as i32),
            px,
            py,
        )),
{
}

/// A press belongs to the first monitor that has it, and to the first of all if none has.
pub proof fn law_press_finds_first_monitor(
    monitors: Seq<(i32, i32, i32, i32)>,
    p: (i32, i32),
    k: int,
)
    requires
        0 <= k < monitors.len(),
    ensures
        ({
            let m = first_with(monitors, p, 0);
            &&& covers(monitors[k], p.0 as int, p.1 as int) ==> 0 <= m <= k && covers(
                monitors[m],
                p.0 as int,
                p.1 as int,
            )
            &&& (forall|j: int|
                0 <= j < monitors.len() ==> !covers(#[trigger] monitors[j], p.0 as int, p.1 as int))
                ==> m == 0
        }),
{
    if covers(monitors[k], p.0 as int, p.1 as int) {
        lemma_first_before(monitors, p, 0, k);
    } else if forall|j: int|
        0 <= j < monitors.len() ==> !covers(#[trigger] monitors[j], p.0 as int, p.1 as int) {
        lemma_first_of_none(monitors, p, 0);
    }
}

proof fn lemma_first_before(rects: Seq<(i32, i32, i32, i32)>, p: (i32, i32), k: int, at: int)
    requires
        0 <= k <= at < rects.len(),
        covers(rects[at], p.0 as int, p.1 as int),
    ensures
        k <= first_with(rects, p, k) <= at,
        covers(rects[first_with(rects, p, k)], p.0 as int, p.1 as int),
    decreases at - k,
{
    if !covers(rects[k], p.0 as int, p.1 as int) {
        lemma_first_before(rects, p, k + 1, at);
    }
}

proof fn lemma_first_of_none(rects: Seq<(i32, i32, i32, i32)>, p: (i32, i32), k: int)
    requires
        0 <= k <= rects.len(),
        forall|j: int|
            0 <= j < rects.len() ==> !covers(#[trigger] rects[j], p.0 as int, p.1 as int),
    ensures
        first_with(rects, p, k) == 0,
    decreases rects.len() - k,
{
    if k < rects.len() {
        assert(!covers(rects[k], p.0 as int, p.1 as int));
        lemma_first_of_none(rects, p, k + 1);
    }
}

/// The pointer is moved onto the monitor along each axis by itself, and no further than
/// needed: a position on the monitor stays, one beside it goes to the nearest edge.
pub proof fn law_pointer_goes_to_nearest_edge(m: (i32, i32, i32, i32), p: (i32, i32))
    requires
        on_desk(m),
    ensures
        ({
            let q = onto_monitor(m, p);
            &&& m.0 <= q.0 <= m.0 + m.2 && m.1 <= q.1 <= m.1 + m.3
            &&& m.0 <= p.0 <= m.0 + m.2 ==> q.0 == p.0
            &&& p.0 < m.0 ==> q.0 == m.0
            &&& p.0 > m.0 + m.2 ==> q.0 == m.0 + m.2
            &&& m.1 <= p.1 <= m.1 + m.3 ==> q.1 == p.1
            &&& p.1 < m.1 ==> q.1 == m.1
            &&& p.1 > m.1 + m.3 ==> q.1 == m.1 + m.3
        }),
{
}

/// A mouse message carries two signed 16-bit numbers, x below y; the window stands at the
/// origin of the virtual screen.
pub proof fn law_message_carries_position(x: i16, y: i16, high: i64, virt: (i32, i32, i32, i32))
    requires
        on_desk(virt),
        -0x8000_0000 <= high < 0x8000_0000,
    ensures
        ({
            let low = if x < 0 {
                x + 65536
            } else {
                x as int
            };
            let next = if y < 0 {
                y + 65536
            } else {
                y as int
            };
            let lparam = (high * 0x1_0000_0000 + next * 65536 + low) as i64;
            &&& message_point(lparam, virt).0 == virt.0 + x
            &&& message_point(lparam, virt).1 == virt.1 + y
            &&& signed_word(lparam as int) == x
            &&& signed_word(lparam as int / 65536) == y
        }),
{
    let (low, next) = (x as int % 65536, y as int % 65536);
    let lparam = high * 0x1_0000_0000 + next * 65536 + low;
    assert(lparam / 65536 == high * 65536 + next);
    assert(lparam % 65536 == low);
    assert((high * 65536 + next) % 65536 == next);
}

/// Pressing begins a drag of no extent at the pointer, on the monitor below it, and takes
/// the mouse.
pub proof fn law_press_begins_drag(
    s: State,
    monitors: Seq<(i32, i32, i32, i32)>,
    virt: (i32, i32, i32, i32),
    lparam: i64,
)
    requires
        monitors.len() <= usize::MAX,
        forall|k: int| 0 <= k < monitors.len() ==> on_desk(#[trigger] monitors[k]),
    ensures
        ({
            let (t, reply) = s.next(monitors, virt, Message::LeftDown { lparam });
            let p = message_point(lparam, virt);
            &&& t.sel == (Sel::Dragging { start: p, cur: p })
            &&& t.action == s.action
            &&& (exists|j: int|
                0 <= j < monitors.len() && covers(#[trigger] monitors[j], p.0 as int, p.1 as int))
                ==> covers(monitors[t.monitor->0 as int], p.0 as int, p.1 as int)
            &&& t.monitor is Some
            &&& forall|j: int|
                0 <= j < monitors.len() && covers(#[trigger] monitors[j], p.0 as int, p.1 as int)
                    ==> t.monitor->0 <= j
            &&& (forall|j: int|
                0 <= j < monitors.len() ==> !covers(
                    #[trigger] monitors[j],
                    p.0 as int,
                    p.1 as int,
                )) ==> t.monitor == Some(0usize)
            &&& reply.grab_mouse && reply.relayout && !reply.release_mouse && !reply.repaint
            &&& reply.result == Some(0i64) && !reply.set_cursor
        }),
{
    let p = message_point(lparam, virt);
    assert forall|j: int|
        0 <= j < monitors.len() && covers(
            #[trigger] monitors[j],
            p.0 as int,
            p.1 as int,
        ) implies 0 <= first_with(monitors, p, 0) <= j && covers(
        monitors[first_with(monitors, p, 0)],
        p.0 as int,
        p.1 as int,
    ) by {
        lemma_first_before(monitors, p, 0, j);
    }
    if forall|j: int|
        0 <= j < monitors.len() ==> !covers(#[trigger] monitors[j], p.0 as int, p.1 as int) {
        lemma_first_of_none(monitors, p, 0);
    }
}

/// While a drag lasts, the mouse moves its end, over the monitor where it began, and nothing
/// else; without a drag, moving does nothing.
pub proof fn law_move_drags_the_end(
    s: State,
    monitors: Seq<(i32, i32, i32, i32)>,
    virt: (i32, i32, i32, i32),
    lparam: i64,
)
    requires
        s.wf(monitors),
        forall|k: int| 0 <= k < monitors.len() ==> on_desk(#[trigger] monitors[k]),
    ensures
        ({
            let (t, reply) = s.next(monitors, virt, Message::MouseMove { lparam });
            let p = message_point(lparam, virt);
            &&& t.monitor == s.monitor && t.action == s.action
            &&& s.sel matches Sel::Dragging { start, cur } ==> {
                let m = monitors[s.monitor->0 as int];
                &&& t.sel matches Sel::Dragging { start: begin, cur: end }
                &&& begin == start
                &&& m.0 <= p.0 <= m.0 + m.2 ==> end.0 == p.0
                &&& m.1 <= p.1 <= m.1 + m.3 ==> end.1 == p.1
                &&& p.0 < m.0 ==> end.0 == m.0
                &&& p.0 > m.0 + m.2 ==> end.0 == m.0 + m.2
                &&& p.1 < m.1 ==> end.1 == m.1
                &&& p.1 > m.1 + m.3 ==> end.1 == m.1 + m.3
            }
            &&& !(s.sel is Dragging) ==> t.sel == s.sel
            &&& reply.relayout == s.sel is Dragging
            &&& reply.result == Some(0i64) && !reply.repaint && !reply.grab_mouse
            &&& !reply.release_mouse && !reply.set_cursor
        }),
{
    if let Some(m) = s.monitor {
        assert(on_desk(monitors[m as int]));
    }
}

/// Letting go places the region between the ends of the drag if they are at least four
/// pixels apart both ways, and clears the selection if not; without a drag it changes
/// nothing.  The mouse is free again in any case.
pub proof fn law_release_places_region(
    s: State,
    monitors: Seq<(i32, i32, i32, i32)>,
    virt: (i32, i32, i32, i32),
)
    requires
        s.wf(monitors),
    ensures
        ({
            let (t, reply) = s.next(monitors, virt, Message::LeftUp);
            &&& t.monitor == s.monitor && t.action == s.action
            &&& s.sel matches Sel::Dragging { start: a, cur: b } ==> {
                let far = (a.0 - b.0 >= 4 || b.0 - a.0 >= 4) && (a.1 - b.1 >= 4 || b.1 - a.1 >= 4);
                &&& far ==> (t.sel matches Sel::Placed { rect: r } && {
                    &&& r.0 <= a.0 && r.0 <= b.0 && r.0 + (r.0 + r.2) == a.0 + b.0
                    &&& r.1 <= a.1 && r.1 <= b.1 && r.1 + (r.1 + r.3) == a.1 + b.1
                    &&& r.0 == a.0 || r.0 == b.0
                    &&& r.1 == a.1 || r.1 == b.1
                })
                &&& !far ==> t.sel is Empty
            }
            &&& !(s.sel is Dragging) ==> t.sel == s.sel
            &&& reply.release_mouse && !reply.grab_mouse && !reply.set_cursor
            &&& reply.relayout == s.sel is Dragging && reply.repaint == s.sel is Dragging
            &&& reply.result == Some(0i64)
        }),
{
}

/// Escape and the right button cancel; Enter starts where a region is placed; no other key
/// does anything.  None of them touches the selection.
pub proof fn law_keys_ask_for_actions(
    s: State,
    monitors: Seq<(i32, i32, i32, i32)>,
    virt: (i32, i32, i32, i32),
    wparam: u64,
)
    ensures
        ({
            let (t, reply) = s.next(monitors, virt, Message::KeyDown { wparam });
            let (u, right) = s.next(monitors, virt, Message::RightDown);
            let key = wparam as int % 65536;
            &&& t.sel == s.sel && t.monitor == s.monitor && u.sel == s.sel && u.monitor == s.monitor
            &&& key == 27 ==> t.action == Some(Action::Cancel) && reply.repaint
            &&& key == 13 && s.sel is Placed ==> t.action == Some(Action::Start) && reply.repaint
            &&& key == 13 && !(s.sel is Placed) ==> t.action == s.action && !reply.repaint
            &&& key != 27 && key != 13 ==> t.action == s.action && !reply.repaint
            &&& u.action == Some(Action::Cancel) && right.repaint
            &&& reply.result == Some(0i64) && right.result == Some(0i64)
            &&& !reply.relayout && !right.relayout && !reply.grab_mouse && !right.grab_mouse
            &&& !reply.release_mouse && !right.release_mouse && !reply.set_cursor
            &&& !right.set_cursor
        }),
{
}

/// The cursor message sets the crosshair and answers 1; a message that the picker does not
/// know is left to the system.  Neither changes anything.
pub proof fn law_other_messages(
    s: State,
    monitors: Seq<(i32, i32, i32, i32)>,
    virt: (i32, i32, i32, i32),
)
    ensures
        ({
            let (t, cursor) = s.next(monitors, virt, Message::SetCursor);
            let (u, other) = s.next(monitors, virt, Message::Other);
            &&& t == s && u == s
            &&& cursor.result == Some(1i64) && cursor.set_cursor
            &&& other.result is None && !other.set_cursor
            &&& !cursor.repaint && !cursor.relayout && !cursor.grab_mouse && !cursor.release_mouse
            &&& !other.repaint && !other.relayout && !other.grab_mouse && !other.release_mouse
        }),
{
}

/// The recorded region begins where the placed one does and has even sides, each at most one
/// pixel shorter; without a placed region there is none.
pub proof fn law_recorded_region_is_placed_one(s: State, monitors: Seq<(i32, i32, i32, i32)>)
    requires
        s.wf(monitors),
    ensures
        s.region() is Some <==> s.sel is Placed,
        s.sel matches Sel::Placed { rect } ==> (s.region() matches Some((r, m)) && {
            &&& s.monitor == Some(m)
            &&& r.0 == rect.0 && r.1 == rect.1
            &&& r.2 as int % 2 == 0 && rect.2 - 1 <= r.2 <= rect.2
            &&& r.3 as int % 2 == 0 && rect.3 - 1 <= r.3 <= rect.3
        }),
{
}

/// The hole is the placed region, or the region between the ends of the drag under way;
/// there is none before the first press.
pub proof fn law_hole_is_selection(s: State, monitors: Seq<(i32, i32, i32, i32)>)
    requires
        s.wf(monitors),
    ensures
        s.hole() is None <==> s.sel is Empty,
        s.sel matches Sel::Placed { rect } ==> s.hole() == Some(rect),
        s.sel matches Sel::Dragging { start: a, cur: b } ==> (s.hole() matches Some(r) && {
            &&& r.0 <= a.0 && r.0 <= b.0 && r.0 + (r.0 + r.2) == a.0 + b.0
            &&& r.1 <= a.1 && r.1 <= b.1 && r.1 + (r.1 + r.3) == a.1 + b.1
            &&& r.0 == a.0 || r.0 == b.0
            &&& r.1 == a.1 || r.1 == b.1
        }),
{
}

/// A hole of pixels is framed, two pixels wide and all around; one without pixels is neither
/// framed nor left free.
pub proof fn law_frame_goes_round_hole(
    hole: (i32, i32, i32, i32),
    virt: (i32, i32, i32, i32),
    x: int,
    y: int,
)
    requires
        on_desk(hole),
        on_desk(virt),
    ensures
        hole.2 > 0 && hole.3 > 0 ==> times_shown(border_rects(Some(hole)), x, y) == (if hole.0 - 2
            <= x < hole.0 + hole.2 + 2 && hole.1 - 2 <= y < hole.1 + hole.3 + 2 && !(hole.0 <= x
            < hole.0 + hole.2 && hole.1 <= y < hole.1 + hole.3) {
            1nat
        } else {
            0nat
        }),
        !(hole.2 > 0 && hole.3 > 0) ==> times_shown(border_rects(Some(hole)), x, y) == 0
            && times_shown(dim_rects(Some(hole), virt), x, y) == (if virt.0 <= x < virt.0 + virt.2
            && virt.1 <= y < virt.1 + virt.3 {
            1nat
        } else {
            0nat
        }),
{
    lemma_times_shown_by_four(border_rects(Some(hole)), x, y);
    lemma_times_shown_by_four(dim_rects(Some(hole), virt), x, y);
}

/// The frame has the yellow of the annotation colours, with blue in the high byte, as the
/// system wants it; the dark strips let 217 parts of 255 of the light through.
pub proof fn law_picker_colors()
    ensures
        ({
            let c = crate::marks::palette()[1];
            AMBER == c.r + 256 * c.g + 65536 * c.b
        }),
        255 - DIM_ALPHA == 217,
{
}

/// Wherever the hole is, the dark strips reach from it to the edges of the virtual screen:
/// the first two over its whole width, above and below the hole, and the others beside the
/// hole, between its top and its bottom.
pub proof fn law_dark_strips_reach_to_hole(hole: (i32, i32, i32, i32), virt: (i32, i32, i32, i32))
    requires
        hole.2 > 0 && hole.3 > 0,
    ensures
        ({
            let s = dim_rects(Some(hole), virt);
            let (right, bottom) = (virt.0 + virt.2, virt.1 + virt.3);
            &&& s.len() == 4
            &&& s[0].0 == virt.0 && s[0].1 == virt.1 && s[0].2 == virt.2
            &&& s[0].1 + s[0].3 == hole.1
            &&& s[1].0 == virt.0 && s[1].1 == hole.1 + hole.3 && s[1].2 == virt.2
            &&& s[1].1 + s[1].3 == bottom
            &&& s[2].0 == virt.0 && s[2].0 + s[2].2 == hole.0
            &&& s[3].0 == hole.0 + hole.2 && s[3].0 + s[3].2 == right
            &&& s[2].1 == hole.1 && s[2].3 == hole.3 && s[3].1 == hole.1 && s[3].3 == hole.3
        }),
{
}

/// The strips of a frame are two pixels thick and end at what they frame; the first two
/// stand out by as much on both sides.
pub proof fn law_frame_strips_touch_region(r: (i32, i32, i32, i32))
    ensures
        ({
            let s = frame_rects(r);
            &&& s.len() == 4
            &&& s[0].3 == 2 && s[1].3 == 2 && s[2].2 == 2 && s[3].2 == 2
            &&& s[0].1 + s[0].3 == r.1 && s[1].1 == r.1 + r.3
            &&& s[2].0 + s[2].2 == r.0 && s[3].0 == r.0 + r.2
            &&& s[0].0 == r.0 - 2 && s[0].0 + s[0].2 == r.0 + r.2 + 2
            &&& s[1].0 == r.0 - 2 && s[1].0 + s[1].2 == r.0 + r.2 + 2
            &&& s[2].1 == r.1 && s[2].3 == r.3 && s[3].1 == r.1 && s[3].3 == r.3
        }),
{
}

/// The window of a strip lies where the strip does, is shown exactly where the strip has
/// pixels, and never has a negative side.
pub proof fn law_strip_window(r: (int, int, int, int))
    requires
        i32::MIN <= r.0 <= i32::MAX && i32::MIN <= r.1 <= i32::MAX,
        r.2 <= i32::MAX && r.3 <= i32::MAX,
    ensures
        ({
            let s = strip_of(r);
            &&& s.x == r.0 && s.y == r.1
            &&& r.2 >= 0 ==> s.w == r.2
            &&& r.3 >= 0 ==> s.h == r.3
            &&& r.2 < 0 ==> s.w == 0
            &&& r.3 < 0 ==> s.h == 0
            &&& s.show <==> s.w > 0 && s.h > 0
        }),
{
}

} // verus!
