//! Control pill of the recorder: a small bar of labels and buttons.
//!
//! The pill is drawn in software and shown as one layered window.  All geometry is in
//! physical pixels, relative to the window, in fixed point; a scale of 1 is 65536.
use vstd::prelude::*;

use crate::geom::{round_px, LIMIT};
use crate::marks::Color;
use crate::picker::{client_point, VK_ESCAPE};

verus! {

/// Largest number of items of a pill.
pub const MAX_ITEMS: usize = 0x10_0000;

/// What stands on a pill.
#[derive(Clone, PartialEq, Debug)]
pub enum Item {
    Label(String),
    Dot,
    Sep,
    Button { id: u32, text: String, selected: bool },
}

/// An item as a mathematical value.
#[verifier::ext_equal]
pub enum Piece {
    Label(Seq<char>),
    Dot,
    Sep,
    Button { id: u32, text: Seq<char>, selected: bool },
}

impl View for Item {
    type V = Piece;

    open spec fn view(&self) -> Piece {
        match *self {
            Item::Label(text) => Piece::Label(text@),
            Item::Dot => Piece::Dot,
            Item::Sep => Piece::Sep,
            Item::Button { id, text, selected } => Piece::Button { id, text: text@, selected },
        }
    }
}

/// The items as mathematical values.
pub open spec fn pieces(items: Seq<Item>) -> Seq<Piece> {
    items.map_values(|i: Item| i@)
}

/// Where an item is drawn.
#[derive(Clone, Copy, PartialEq, Eq, Structural, Debug)]
pub struct Area {
    pub x: i64,
    pub y: i64,
    pub w: i64,
    pub h: i64,
}

impl Area {
    /// The pixel corner at `x`, `y` lies in the area; the right and bottom edges do not.
    pub open spec fn has(self, x: int, y: int) -> bool {
        self.x <= x * 65536 < self.x + self.w && self.y <= y * 65536 < self.y + self.h
    }
}

/// Half of the length, rounded to whole pixels, halves away from zero.
pub open spec fn half_rounded(v: int) -> int {
    if v >= 0 {
        (v + 65536) / 131072
    } else {
        -((65536 - v) / 131072)
    }
}

/// Height of the pill in pixels.
pub open spec fn pill_height(scale: u32) -> int {
    crate::geom::rounded(44 * scale)
}

/// Width of an item whose text is `text_w` wide.
pub open spec fn item_width(piece: Piece, text_w: int, scale: u32) -> int {
    match piece {
        Piece::Label(_) => text_w,
        Piece::Dot => 10 * scale,
        Piece::Sep => if scale >= 65536 {
            scale as int
        } else {
            65536
        },
        Piece::Button { .. } => crate::geom::rounded(text_w + 20 * scale) * 65536,
    }
}

/// Height of an item; that of a label is 1.4 times its text size of 14.
pub open spec fn item_height(piece: Piece, scale: u32) -> int {
    match piece {
        Piece::Label(_) => 98 * scale / 5,
        Piece::Dot => 10 * scale,
        Piece::Sep => 20 * scale,
        Piece::Button { .. } => crate::geom::rounded(26 * scale) * 65536,
    }
}

/// Left edge of item `k`: items stand 8 apart, the first one 12 from the edge.
pub open spec fn item_left(row: Seq<Piece>, widths: Seq<i64>, scale: u32, k: int) -> int
    decreases k,
{
    if k <= 0 {
        12 * scale
    } else {
        item_left(row, widths, scale, k - 1) + item_width(row[k - 1], widths[k - 1] as int, scale)
            + 8 * scale
    }
}

/// Right edge of item `k`.
pub open spec fn item_right(row: Seq<Piece>, widths: Seq<i64>, scale: u32, k: int) -> int {
    item_left(row, widths, scale, k) + item_width(row[k], widths[k] as int, scale)
}

/// Where item `k` is drawn: centred vertically, on a whole pixel.
pub open spec fn item_area(row: Seq<Piece>, widths: Seq<i64>, scale: u32, k: int) -> Area {
    Area {
        x: item_left(row, widths, scale, k) as i64,
        y: (half_rounded(pill_height(scale) * 65536 - item_height(row[k], scale)) * 65536) as i64,
        w: item_width(row[k], widths[k] as int, scale) as i64,
        h: item_height(row[k], scale) as i64,
    }
}

/// Width of the pill in pixels: 12 more than the right edge of the last item.
pub open spec fn pill_width(row: Seq<Piece>, widths: Seq<i64>, scale: u32) -> int {
    let end = if row.len() == 0 {
        12 * scale
    } else {
        item_right(row, widths, scale, row.len() - 1)
    };
    crate::geom::rounded(end + 12 * scale)
}

/// One width for each item, and no more than a pill can hold.
pub open spec fn fits(row: Seq<Piece>, widths: Seq<i64>) -> bool {
    &&& row.len() == widths.len()
    &&& row.len() <= MAX_ITEMS
    &&& forall|k: int| 0 <= k < widths.len() ==> 0 <= #[trigger] widths[k] <= LIMIT
}

/// A drawn pill.
pub struct Layout {
    /// Width in pixels.
    pub w: i64,
    /// Height in pixels.
    pub h: i64,
    /// Where each item is drawn.
    pub areas: Vec<Area>,
}

proof fn lemma_left_bounded(row: Seq<Piece>, widths: Seq<i64>, scale: u32, k: int)
    requires
        fits(row, widths),
        0 <= k < row.len(),
    ensures
        0 <= item_left(row, widths, scale, k) <= 12 * scale + k * 0x400_0000_0000,
        0 <= item_width(row[k], widths[k] as int, scale) <= 0x300_0000_0000,
    decreases k,
{
    assert(widths[k] <= LIMIT);
    if k > 0 {
        lemma_left_bounded(row, widths, scale, k - 1);
        assert((k - 1) * 0x400_0000_0000 + 0x400_0000_0000 == k * 0x400_0000_0000);
    }
}

/// Half of the length, rounded to whole pixels.
fn half_px(v: i64) -> (r: i64)
    requires
        -0x7fff_ffff_0000_0000 <= v <= 0x7fff_ffff_0000_0000,
    ensures
        r == half_rounded(v as int),
{
    if v >= 0 {
        (v + 65536) / 131072
    } else {
        -((65536 - v) / 131072)
    }
}

/// Width of one item.
fn width_of(item: &Item, text_w: i64, scale: u32) -> (w: i64)
    requires
        0 <= text_w <= LIMIT,
    ensures
        w == item_width(item@, text_w as int, scale),
{
    let s: i64 = scale as i64;
    match item {
        Item::Label(_) => text_w,
        Item::Dot => 10 * s,
        Item::Sep => if s >= 65536 {
            s
        } else {
            65536
        },
        Item::Button { .. } => round_px(text_w + 20 * s) * 65536,
    }
}

/// Height of one item.
fn height_of(item: &Item, scale: u32) -> (h: i64)
    ensures
        h == item_height(item@, scale),
{
    let s: i64 = scale as i64;
    match item {
        Item::Label(_) => 98 * s / 5,
        Item::Dot => 10 * s,
        Item::Sep => 20 * s,
        Item::Button { .. } => round_px(26 * s) * 65536,
    }
}

/// Lays out the items, whose texts have the given widths.
pub fn layout(items: &Vec<Item>, widths: &Vec<i64>, scale: u32) -> (l: Layout)
    requires
        fits(pieces(items@), widths@),
    ensures
        l.w == pill_width(pieces(items@), widths@, scale),
        l.h == pill_height(scale),
        l.areas@ == Seq::new(
            items@.len(),
            |k: int| item_area(pieces(items@), widths@, scale, k),
        ),
{
    let ghost row = pieces(items@);
    let s: i64 = scale as i64;
    let h: i64 = round_px(44 * s);
    let n: usize = items.len();
    let mut areas: Vec<Area> = Vec::new();
    let mut x: i64 = 12 * s;
    for k in 0..n
        invariant
            n == items@.len(),
            row == pieces(items@),
            fits(row, widths@),
            s == scale,
            h == pill_height(scale),
            areas@ == Seq::new(k as nat, |j: int| item_area(row, widths@, scale, j)),
            k == 0 ==> x == 12 * scale,
            k > 0 ==> x == item_right(row, widths@, scale, k - 1),
    {
        proof {
            lemma_left_bounded(row, widths@, scale, k as int);
            assert(row[k as int] == items@[k as int]@);
            if k > 0 {
                lemma_left_bounded(row, widths@, scale, k - 1);
            }
        }
        if k > 0 {
            x = x + 8 * s;
        }
        assert(x == item_left(row, widths@, scale, k as int));
        let w: i64 = width_of(&items[k], widths[k], scale);
        let ih: i64 = height_of(&items[k], scale);
        let y: i64 = half_px(h * 65536 - ih) * 65536;
        areas.push(Area { x, y, w, h: ih });
        x = x + w;
        assert(areas@ =~= Seq::new((k + 1) as nat, |j: int| item_area(row, widths@, scale, j)));
    }
    proof {
        if n > 0 {
            lemma_left_bounded(row, widths@, scale, n - 1);
        }
    }
    Layout { w: round_px(x + 12 * s), h, areas }
}

/// The nearest number that fits.
fn saturated(v: i64) -> (r: i32)
    ensures
        r == at_most_i32(v as int),
{
    if v > 0x7fff_ffff {
        0x7fff_ffff
    } else if v < -0x8000_0000 {
        -0x8000_0000
    } else {
        v as i32
    }
}

/// The nearest number that a signed 32-bit integer can hold.
pub open spec fn at_most_i32(v: int) -> i32 {
    if v > i32::MAX {
        i32::MAX
    } else if v < i32::MIN {
        i32::MIN
    } else {
        v as i32
    }
}

/// Size of a pill in pixels.
pub open spec fn measured(row: Seq<Piece>, widths: Seq<i64>, scale: u32) -> (i32, i32) {
    (at_most_i32(pill_width(row, widths, scale)), at_most_i32(pill_height(scale)))
}

/// Background of the pill.
pub open spec fn plate_color() -> Color {
    Color { r: 27, g: 30, b: 40, a: 247 }
}

/// Hairline around the pill, and separators.
pub open spec fn line_color() -> Color {
    Color { r: 255, g: 255, b: 255, a: 26 }
}

/// Colour of the recording dot.
pub open spec fn dot_color() -> Color {
    Color { r: 229, g: 72, b: 77, a: 255 }
}

/// Colour of labels.
pub open spec fn label_color() -> Color {
    Color { r: 162, g: 168, b: 184, a: 255 }
}

/// Colour of the text of a button.
pub open spec fn text_color() -> Color {
    Color { r: 230, g: 231, b: 235, a: 255 }
}

/// Background of a button: a selected one keeps its colour under the mouse.
pub open spec fn button_color(selected: bool, hovered: bool) -> Color {
    if selected {
        Color { r: 53, g: 116, b: 212, a: 255 }
    } else if hovered {
        Color { r: 60, g: 66, b: 84, a: 255 }
    } else {
        Color { r: 45, g: 49, b: 63, a: 255 }
    }
}

/// One thing to draw.
#[derive(Debug)]
pub enum Shape {
    /// A filled rectangle with round corners.
    Fill { area: Area, radius: i64, color: Color },
    /// The outline of such a rectangle, one pixel wide.
    Frame { area: Area, radius: i64, color: Color },
    /// A filled circle.
    Disc { x: i64, y: i64, radius: i64, color: Color },
    /// A line of text that starts at `x` and is centred vertically in the area.
    Text { x: i64, area: Area, text: String, color: Color },
}

/// A thing to draw as a mathematical value.
#[verifier::ext_equal]
pub enum Drawing {
    Fill { area: Area, radius: i64, color: Color },
    Frame { area: Area, radius: i64, color: Color },
    Disc { x: i64, y: i64, radius: i64, color: Color },
    Text { x: i64, area: Area, text: Seq<char>, color: Color },
}

impl View for Shape {
    type V = Drawing;

    open spec fn view(&self) -> Drawing {
        match *self {
            Shape::Fill { area, radius, color } => Drawing::Fill { area, radius, color },
            Shape::Frame { area, radius, color } => Drawing::Frame { area, radius, color },
            Shape::Disc { x, y, radius, color } => Drawing::Disc { x, y, radius, color },
            Shape::Text { x, area, text, color } => Drawing::Text { x, area, text: text@, color },
        }
    }
}

/// The shapes as mathematical values.
pub open spec fn drawings(shapes: Seq<Shape>) -> Seq<Drawing> {
    shapes.map_values(|s: Shape| s@)
}

/// A button on the pill.
#[derive(Clone, Copy, PartialEq, Eq, Structural, Debug)]
pub struct Hit {
    pub area: Area,
    pub id: u32,
}

/// How an item is drawn.
pub open spec fn item_shapes(
    piece: Piece,
    area: Area,
    text_w: int,
    scale: u32,
    hover: Option<u32>,
) -> Seq<Drawing> {
    match piece {
        Piece::Label(text) => seq![
            Drawing::Text { x: area.x, area, text, color: label_color() },
        ],
        Piece::Dot => seq![
            Drawing::Disc {
                x: (area.x + 5 * scale) as i64,
                y: (area.y + 5 * scale) as i64,
                radius: (5 * scale) as i64,
                color: dot_color(),
            },
        ],
        Piece::Sep => seq![Drawing::Fill { area, radius: 0, color: line_color() }],
        Piece::Button { id, text, selected } => seq![
            Drawing::Fill {
                area,
                radius: (5 * scale) as i64,
                color: button_color(selected, hover == Some(id)),
            },
            Drawing::Text {
                x: (area.x + (area.w - text_w) / 2) as i64,
                area,
                text,
                color: text_color(),
            },
        ],
    }
}

/// How the first `k` items are drawn.
pub open spec fn row_shapes(
    row: Seq<Piece>,
    widths: Seq<i64>,
    scale: u32,
    hover: Option<u32>,
    k: int,
) -> Seq<Drawing>
    decreases k,
{
    if k <= 0 {
        Seq::empty()
    } else {
        row_shapes(row, widths, scale, hover, k - 1) + item_shapes(
            row[k - 1],
            item_area(row, widths, scale, k - 1),
            widths[k - 1] as int,
            scale,
            hover,
        )
    }
}

/// The background of the pill and its hairline, half a pixel inside.
pub open spec fn plate_shapes(w: int, h: int, scale: u32) -> Seq<Drawing> {
    seq![
        Drawing::Fill {
            area: Area { x: 0, y: 0, w: (w * 65536) as i64, h: (h * 65536) as i64 },
            radius: (8 * scale) as i64,
            color: plate_color(),
        },
        Drawing::Frame {
            area: Area {
                x: 32768,
                y: 32768,
                w: ((w - 1) * 65536) as i64,
                h: ((h - 1) * 65536) as i64,
            },
            radius: (8 * scale) as i64,
            color: line_color(),
        },
    ]
}

/// The buttons among the first `k` items.
pub open spec fn buttons(row: Seq<Piece>, widths: Seq<i64>, scale: u32, k: int) -> Seq<Hit>
    decreases k,
{
    if k <= 0 {
        Seq::empty()
    } else {
        let before = buttons(row, widths, scale, k - 1);
        match row[k - 1] {
            Piece::Button { id, text, selected } => before.push(
                Hit { area: item_area(row, widths, scale, k - 1), id },
            ),
            _ => before,
        }
    }
}

/// A pill as it is drawn.
pub struct Rendering {
    /// Width in pixels.
    pub w: i64,
    /// Height in pixels.
    pub h: i64,
    pub shapes: Vec<Shape>,
    pub hits: Vec<Hit>,
}

impl Rendering {
    /// The rendering shows these items.
    pub open spec fn shows(
        &self,
        row: Seq<Piece>,
        widths: Seq<i64>,
        scale: u32,
        hover: Option<u32>,
    ) -> bool {
        &&& self.w == pill_width(row, widths, scale)
        &&& self.h == pill_height(scale)
        &&& drawings(self.shapes@) == plate_shapes(self.w as int, self.h as int, scale)
            + row_shapes(row, widths, scale, hover, row.len() as int)
        &&& self.hits@ == buttons(row, widths, scale, row.len() as int)
    }
}

/// Half of a length, rounded down.
fn half_down(v: i64) -> (r: i64)
    requires
        -0x7fff_ffff_0000_0000 <= v <= 0x7fff_ffff_0000_0000,
    ensures
        r == v as int / 2,
{
    if v >= 0 {
        v / 2
    } else {
        -((1 - v) / 2)
    }
}

/// Adds the shapes of one item.
fn draw_item(
    shapes: &mut Vec<Shape>,
    item: &Item,
    area: Area,
    text_w: i64,
    scale: u32,
    hover: Option<u32>,
)
    requires
        0 <= area.x <= 0x4100_0000_0000_0000,
        -LIMIT <= area.y <= LIMIT,
        0 <= area.w <= 0x300_0000_0000,
        0 <= text_w <= LIMIT,
    ensures
        drawings(final(shapes)@) == drawings(old(shapes)@) + item_shapes(
            item@,
            area,
            text_w as int,
            scale,
            hover,
        ),
{
    let s: i64 = scale as i64;
    let ghost before = shapes@;
    match item {
        Item::Label(text) => {
            shapes.push(
                Shape::Text {
                    x: area.x,
                    area,
                    text: text.clone(),
                    color: Color { r: 162, g: 168, b: 184, a: 255 },
                },
            );
        },
        Item::Dot => {
            shapes.push(
                Shape::Disc {
                    x: area.x + 5 * s,
                    y: area.y + 5 * s,
                    radius: 5 * s,
                    color: Color { r: 229, g: 72, b: 77, a: 255 },
                },
            );
        },
        Item::Sep => {
            shapes.push(
                Shape::Fill { area, radius: 0, color: Color { r: 255, g: 255, b: 255, a: 26 } },
            );
        },
        Item::Button { id, text, selected } => {
            let hovered: bool = match hover {
                Some(over) => over == *id,
                None => false,
            };
            let color = if *selected {
                Color { r: 53, g: 116, b: 212, a: 255 }
            } else if hovered {
                Color { r: 60, g: 66, b: 84, a: 255 }
            } else {
                Color { r: 45, g: 49, b: 63, a: 255 }
            };
            shapes.push(Shape::Fill { area, radius: 5 * s, color });
            let x: i64 = area.x + half_down(area.w - text_w);
            shapes.push(
                Shape::Text {
                    x,
                    area,
                    text: text.clone(),
                    color: Color { r: 230, g: 231, b: 235, a: 255 },
                },
            );
        },
    }
    assert(drawings(shapes@) =~= drawings(before) + item_shapes(
        item@,
        area,
        text_w as int,
        scale,
        hover,
    ));
}

/// Draws the items, whose texts have the given widths, with the mouse over the button
/// `hover`.
pub fn render(items: &Vec<Item>, widths: &Vec<i64>, scale: u32, hover: Option<u32>) -> (r:
    Rendering)
    requires
        fits(pieces(items@), widths@),
    ensures
        r.shows(pieces(items@), widths@, scale, hover),
{
    let ghost row = pieces(items@);
    let l = layout(items, widths, scale);
    let s: i64 = scale as i64;
    let n: usize = items.len();
    proof {
        if n > 0 {
            lemma_left_bounded(row, widths@, scale, n - 1);
        }
    }
    let mut shapes: Vec<Shape> = Vec::new();
    let mut hits: Vec<Hit> = Vec::new();
    shapes.push(
        Shape::Fill {
            area: Area { x: 0, y: 0, w: l.w * 65536, h: l.h * 65536 },
            radius: 8 * s,
            color: Color { r: 27, g: 30, b: 40, a: 247 },
        },
    );
    shapes.push(
        Shape::Frame {
            area: Area { x: 32768, y: 32768, w: (l.w - 1) * 65536, h: (l.h - 1) * 65536 },
            radius: 8 * s,
            color: Color { r: 255, g: 255, b: 255, a: 26 },
        },
    );
    let ghost plate = plate_shapes(l.w as int, l.h as int, scale);
    assert(drawings(shapes@) =~= plate + row_shapes(row, widths@, scale, hover, 0));
    for k in 0..n
        invariant
            n == items@.len(),
            row == pieces(items@),
            fits(row, widths@),
            l.areas@ == Seq::new(n as nat, |j: int| item_area(row, widths@, scale, j)),
            drawings(shapes@) == plate + row_shapes(row, widths@, scale, hover, k as int),
            hits@ == buttons(row, widths@, scale, k as int),
    {
        proof {
            lemma_left_bounded(row, widths@, scale, k as int);
            assert(row[k as int] == items@[k as int]@);
        }
        let area = l.areas[k];
        draw_item(&mut shapes, &items[k], area, widths[k], scale, hover);
        match &items[k] {
            Item::Button { id, .. } => {
                hits.push(Hit { area, id: *id });
            },
            _ => {},
        }
        assert(drawings(shapes@) =~= plate + row_shapes(row, widths@, scale, hover, k + 1));
    }
    Rendering { w: l.w, h: l.h, shapes, hits }
}

/// The first button from index `k` on that has the pixel corner.
pub open spec fn button_at(hits: Seq<Hit>, x: int, y: int, k: int) -> Option<u32>
    decreases hits.len() - k,
{
    if k >= hits.len() {
        None
    } else if hits[k].area.has(x, y) {
        Some(hits[k].id)
    } else {
        button_at(hits, x, y, k + 1)
    }
}

/// The button under the position.
pub fn hit_test(hits: &Vec<Hit>, x: i32, y: i32) -> (id: Option<u32>)
    ensures
        id == button_at(hits@, x as int, y as int, 0),
{
    let px: i128 = x as i128 * 65536;
    let py: i128 = y as i128 * 65536;
    let n: usize = hits.len();
    let mut k: usize = 0;
    while k < n
        invariant
            k <= n,
            n == hits@.len(),
            px == x * 65536,
            py == y * 65536,
            button_at(hits@, x as int, y as int, 0) == button_at(
                hits@,
                x as int,
                y as int,
                k as int,
            ),
        decreases n - k,
    {
        let a: Area = hits[k].area;
        let (ax, ay, aw, ah): (i128, i128, i128, i128) = (
            a.x as i128,
            a.y as i128,
            a.w as i128,
            a.h as i128,
        );
        if ax <= px && px < ax + aw && ay <= py && py < ay + ah {
            return Some(hits[k].id);
        }
        k = k + 1;
    }
    None
}

/// The window messages that a pill knows, with their parameters.
#[derive(Clone, Copy, PartialEq, Eq, Structural, Debug)]
pub enum PillMessage {
    MouseMove { lparam: i64 },
    MouseLeave,
    LeftDown { lparam: i64 },
    KeyDown { wparam: u64 },
    MouseActivate,
    /// The cursor is at this position of the window.
    SetCursor { x: i32, y: i32 },
    Other,
}

/// The shapes of the mouse cursor over a pill.
#[derive(Clone, Copy, PartialEq, Eq, Structural, Debug)]
pub enum Cursor {
    Hand,
    Arrow,
}

/// Answer to a mouse click that must not give the window the keyboard.
pub const NO_ACTIVATE: i64 = 3;

/// What a window message asks of the system.
#[derive(Clone, Copy, PartialEq, Eq, Structural, Debug)]
pub struct PillReply {
    /// What the message returns; the default handling of the system where there is none.
    pub result: Option<i64>,
    /// The pill has to be drawn anew.
    pub redraw: bool,
    /// The window has to be told when the mouse leaves it.
    pub track_mouse: bool,
    /// The program has to look at the pill.
    pub repaint: bool,
    pub cursor: Option<Cursor>,
}

/// What new content asks of the system.
#[derive(Clone, Copy, PartialEq, Eq, Structural, Debug)]
pub struct Update {
    /// The pill has to be drawn anew.
    pub redraw: bool,
    /// The window appears.
    pub show: bool,
}

/// A control pill.
pub struct Pill {
    pub scale: u32,
    /// A click gives the window the keyboard.
    pub activatable: bool,
    /// The button that Escape stands for.
    pub esc_id: Option<u32>,
    pub items: Vec<Item>,
    pub widths: Vec<i64>,
    pub pos: (i32, i32),
    pub hits: Vec<Hit>,
    pub hover: Option<u32>,
    pub clicked: Option<u32>,
    pub shown: bool,
}

/// Whether two items are equal.
fn same_item(a: &Item, b: &Item) -> (same: bool)
    ensures
        same == (a@ == b@),
{
    match (a, b) {
        (Item::Label(s), Item::Label(t)) => s.eq(t),
        (Item::Dot, Item::Dot) => true,
        (Item::Sep, Item::Sep) => true,
        (
            Item::Button { id: i, text: s, selected: p },
            Item::Button { id: j, text: t, selected: q },
        ) => *i == *j && s.eq(t) && *p == *q,
        _ => false,
    }
}

/// Whether two rows of items are equal.
fn same_items(a: &Vec<Item>, b: &Vec<Item>) -> (same: bool)
    ensures
        same == (pieces(a@) == pieces(b@)),
{
    let n: usize = a.len();
    if n != b.len() {
        assert(pieces(a@).len() != pieces(b@).len());
        return false;
    }
    for k in 0..n
        invariant
            n == a@.len(),
            n == b@.len(),
            forall|j: int| 0 <= j < k ==> (#[trigger] a@[j])@ == b@[j]@,
    {
        if !same_item(&a[k], &b[k]) {
            assert(pieces(a@)[k as int] != pieces(b@)[k as int]);
            return false;
        }
    }
    assert(pieces(a@) =~= pieces(b@));
    true
}

impl Pill {
    /// One width for each item, and the buttons are where the items are drawn.
    pub open spec fn wf(&self) -> bool {
        &&& fits(pieces(self.items@), self.widths@)
        &&& self.hits@ == buttons(
            pieces(self.items@),
            self.widths@,
            self.scale,
            self.items@.len() as int,
        )
    }

    /// Nothing but the hovered and the clicked button may differ.
    pub open spec fn looks_like(&self, other: Pill) -> bool {
        &&& self.scale == other.scale
        &&& self.activatable == other.activatable
        &&& self.esc_id == other.esc_id
        &&& self.items == other.items
        &&& self.widths == other.widths
        &&& self.pos == other.pos
        &&& self.hits == other.hits
        &&& self.shown == other.shown
    }

    /// The button under the position.
    pub open spec fn under(&self, x: int, y: int) -> Option<u32> {
        button_at(self.hits@, x, y, 0)
    }

    /// A pill that is not shown yet.
    pub fn open(scale: u32, activatable: bool, esc_id: Option<u32>) -> (pill: Pill)
        ensures
            pill.wf(),
            pill.scale == scale,
            pill.activatable == activatable,
            pill.esc_id == esc_id,
            pill.items@.len() == 0,
            pill.pos == (0i32, 0i32),
            pill.hover is None,
            pill.clicked is None,
            !pill.shown,
    {
        Pill {
            scale,
            activatable,
            esc_id,
            items: Vec::new(),
            widths: Vec::new(),
            pos: (0, 0),
            hits: Vec::new(),
            hover: None,
            clicked: None,
            shown: false,
        }
    }

    /// Size of a pill with the given content, in pixels.
    pub fn measure(items: &Vec<Item>, widths: &Vec<i64>, scale: u32) -> (size: (i32, i32))
        requires
            fits(pieces(items@), widths@),
        ensures
            size == measured(pieces(items@), widths@, scale),
    {
        let l = layout(items, widths, scale);
        (saturated(l.w), saturated(l.h))
    }

    /// Moves the pill and changes its content.  A pill that is shown and stays as it is
    /// is not drawn again.
    pub fn set(&mut self, x: i32, y: i32, items: Vec<Item>, widths: Vec<i64>) -> (update: Update)
        requires
            old(self).wf(),
            fits(pieces(items@), widths@),
        ensures
            final(self).wf(),
            ({
                let same = old(self).shown && old(self).pos == (x, y) && pieces(old(self).items@)
                    == pieces(items@);
                &&& update.redraw == !same
                &&& update.show == !old(self).shown
                &&& same ==> *final(self) == *old(self)
                &&& !same ==> {
                    &&& final(self).items == items
                    &&& final(self).widths == widths
                    &&& final(self).pos == (x, y)
                    &&& final(self).shown
                    &&& final(self).scale == old(self).scale
                    &&& final(self).activatable == old(self).activatable
                    &&& final(self).esc_id == old(self).esc_id
                    &&& final(self).hover == old(self).hover
                    &&& final(self).clicked == old(self).clicked
                }
            }),
    {
        let first: bool = !self.shown;
        if !first && self.pos.0 == x && self.pos.1 == y && same_items(&self.items, &items) {
            return Update { redraw: false, show: false };
        }
        let rendering = render(&items, &widths, self.scale, self.hover);
        self.pos = (x, y);
        self.items = items;
        self.widths = widths;
        self.hits = rendering.hits;
        self.shown = true;
        Update { redraw: true, show: first }
    }

    /// The pill as it has to be drawn.
    pub fn rendering(&self) -> (r: Rendering)
        requires
            self.wf(),
        ensures
            r.shows(pieces(self.items@), self.widths@, self.scale, self.hover),
            r.hits@ == self.hits@,
    {
        render(&self.items, &self.widths, self.scale, self.hover)
    }

    /// The button that was clicked since the last call.
    pub fn take_click(&mut self) -> (id: Option<u32>)
        ensures
            id == old(self).clicked,
            final(self).clicked is None,
            final(self).hover == old(self).hover,
            final(self).looks_like(*old(self)),
    {
        let id = self.clicked;
        self.clicked = None;
        id
    }

    /// Handles a window message.
    pub fn wndproc(&mut self, msg: PillMessage) -> (reply: PillReply)
        ensures
            final(self).looks_like(*old(self)),
            old(self).wf() ==> final(self).wf(),
            final(self).hover == old(self).next_hover(msg),
            final(self).clicked == old(self).next_clicked(msg),
            reply == old(self).reply_to(msg),
    {
        let mut reply = PillReply {
            result: Some(0),
            redraw: false,
            track_mouse: false,
            repaint: false,
            cursor: None,
        };
        match msg {
            PillMessage::MouseMove { lparam } => {
                let (x, y): (i32, i32) = client_point(lparam);
                let hover = hit_test(&self.hits, x, y);
                if !same_id(hover, self.hover) {
                    self.hover = hover;
                    reply.redraw = true;
                }
                reply.track_mouse = true;
            },
            PillMessage::MouseLeave => {
                if self.hover.is_some() {
                    self.hover = None;
                    reply.redraw = true;
                }
            },
            PillMessage::LeftDown { lparam } => {
                let (x, y): (i32, i32) = client_point(lparam);
                let id = hit_test(&self.hits, x, y);
                if id.is_some() {
                    self.clicked = id;
                    reply.repaint = true;
                }
            },
            PillMessage::KeyDown { wparam } => {
                if self.esc_id.is_some() && wparam % 65536 == VK_ESCAPE as u64 {
                    self.clicked = self.esc_id;
                    reply.repaint = true;
                }
            },
            PillMessage::MouseActivate => {
                reply.result = if self.activatable {
                    None
                } else {
                    Some(NO_ACTIVATE)
                };
            },
            PillMessage::SetCursor { x, y } => {
                reply.cursor = if hit_test(&self.hits, x, y).is_some() {
                    Some(Cursor::Hand)
                } else {
                    Some(Cursor::Arrow)
                };
                reply.result = Some(1);
            },
            PillMessage::Other => {
                reply.result = None;
            },
        }
        reply
    }

    /// The hovered button after a message.
    pub open spec fn next_hover(&self, msg: PillMessage) -> Option<u32> {
        match msg {
            PillMessage::MouseMove { lparam } => self.under_mouse(lparam),
            PillMessage::MouseLeave => None,
            _ => self.hover,
        }
    }

    /// The clicked button after a message.
    pub open spec fn next_clicked(&self, msg: PillMessage) -> Option<u32> {
        match msg {
            PillMessage::LeftDown { lparam } => if self.under_mouse(lparam) is Some {
                self.under_mouse(lparam)
            } else {
                self.clicked
            },
            PillMessage::KeyDown { wparam } => if self.esc_id is Some && is_escape(wparam) {
                self.esc_id
            } else {
                self.clicked
            },
            _ => self.clicked,
        }
    }

    /// The button under the position that a mouse message carries.
    pub open spec fn under_mouse(&self, lparam: i64) -> Option<u32> {
        self.under(
            crate::picker::signed_word(lparam as int),
            crate::picker::signed_word(lparam as int / 65536),
        )
    }

    /// The answer to a message.
    pub open spec fn reply_to(&self, msg: PillMessage) -> PillReply {
        PillReply {
            result: match msg {
                PillMessage::MouseActivate => if self.activatable {
                    None
                } else {
                    Some(NO_ACTIVATE)
                },
                PillMessage::SetCursor { .. } => Some(1i64),
                PillMessage::Other => None,
                _ => Some(0i64),
            },
            redraw: self.next_hover(msg) != self.hover,
            track_mouse: msg is MouseMove,
            repaint: match msg {
                PillMessage::LeftDown { lparam } => self.under_mouse(lparam) is Some,
                PillMessage::KeyDown { wparam } => self.esc_id is Some && is_escape(wparam),
                _ => false,
            },
            cursor: match msg {
                PillMessage::SetCursor { x, y } => if self.under(x as int, y as int) is Some {
                    Some(Cursor::Hand)
                } else {
                    Some(Cursor::Arrow)
                },
                _ => None,
            },
        }
    }
}

/// The key is Escape.
pub open spec fn is_escape(wparam: u64) -> bool {
    wparam % 65536 == VK_ESCAPE
}

/// Whether two buttons are the same.
fn same_id(a: Option<u32>, b: Option<u32>) -> (same: bool)
    ensures
        same == (a == b),
{
    match (a, b) {
        (Some(i), Some(j)) => i == j,
        (None, None) => true,
        _ => false,
    }
}

/// Byte `i` of a canvas as the window system wants it: blue and red change places.
pub open spec fn swapped(rgba: Seq<u8>, i: int) -> u8 {
    if i % 4 == 0 {
        rgba[i + 2]
    } else if i % 4 == 2 {
        rgba[i - 2]
    } else {
        rgba[i]
    }
}

/// Turns whole RGBA pixels into BGRA ones.
pub fn to_bgra(rgba: &Vec<u8>) -> (bgra: Vec<u8>)
    requires
        rgba@.len() % 4 == 0,
    ensures
        bgra@ == Seq::new(rgba@.len(), |i: int| swapped(rgba@, i)),
{
    let n: usize = rgba.len() / 4;
    let mut bgra: Vec<u8> = Vec::new();
    for k in 0..n
        invariant
            n == rgba@.len() / 4,
            rgba@.len() % 4 == 0,
            rgba@.len() <= usize::MAX,
            bgra@.len() == 4 * k,
            forall|i: int| 0 <= i < 4 * k ==> bgra@[i] == swapped(rgba@, i),
    {
        let at: usize = 4 * k;
        bgra.push(rgba[at + 2]);
        bgra.push(rgba[at + 1]);
        bgra.push(rgba[at]);
        bgra.push(rgba[at + 3]);
    }
    assert(bgra@ =~= Seq::new(rgba@.len(), |i: int| swapped(rgba@, i)));
    bgra
}

/// The bytes of a drawn canvas for the window system; there are none if the canvas holds
/// a broken pixel.
pub fn window_bytes(canvas: tiny_skia::Pixmap) -> (bgra: Option<Vec<u8>>)
    ensures
        bgra is Some <==> crate::export::canvas_bytes(canvas).len() % 4 == 0,
        bgra matches Some(b) ==> b@ == Seq::new(
            crate::export::canvas_bytes(canvas).len(),
            |i: int| swapped(crate::export::canvas_bytes(canvas), i),
        ),
{
    let rgba: Vec<u8> = crate::export::canvas_into(canvas);
    if rgba.len() % 4 != 0 {
        return None;
    }
    Some(to_bgra(&rgba))
}

/// A measured pill has the size of the drawn one, whatever is hovered, and so has its
/// canvas; its height is 44 points, rounded to whole pixels.
pub proof fn law_measured_is_drawn(
    r: Rendering,
    row: Seq<Piece>,
    widths: Seq<i64>,
    scale: u32,
    hover: Option<u32>,
)
    requires
        fits(row, widths),
        r.shows(row, widths, scale, hover),
    ensures
        measured(row, widths, scale) == (at_most_i32(r.w as int), at_most_i32(r.h as int)),
        measured(row, widths, scale).1 == crate::geom::rounded(44 * scale),
        ({
            let (w, h) = (
                crate::export::nearest_u32(r.w as int),
                crate::export::nearest_u32(r.h as int),
            );
            crate::export::blank_fits(w, h) ==> w == measured(row, widths, scale).0 && h
                == measured(row, widths, scale).1
        }),
{
}

/// The items are of the same sort, whatever the buttons are called and whichever is
/// selected.
pub open spec fn same_sort(a: Piece, b: Piece) -> bool {
    match (a, b) {
        (Piece::Label(_), Piece::Label(_)) => true,
        (Piece::Dot, Piece::Dot) => true,
        (Piece::Sep, Piece::Sep) => true,
        (Piece::Button { .. }, Piece::Button { .. }) => true,
        _ => false,
    }
}

proof fn lemma_same_left(row: Seq<Piece>, other: Seq<Piece>, widths: Seq<i64>, scale: u32, k: int)
    requires
        row.len() == other.len(),
        0 <= k < row.len(),
        forall|j: int| 0 <= j < row.len() ==> same_sort(#[trigger] row[j], other[j]),
    ensures
        item_left(row, widths, scale, k) == item_left(other, widths, scale, k),
    decreases k,
{
    if k > 0 {
        lemma_same_left(row, other, widths, scale, k - 1);
        assert(same_sort(row[k - 1], other[k - 1]));
    }
}

/// The size of a pill rests on the widths of its texts alone, not on the numbers of its
/// buttons nor on which of them is selected.
pub proof fn law_measured_ignores_buttons(
    row: Seq<Piece>,
    other: Seq<Piece>,
    widths: Seq<i64>,
    scale: u32,
)
    requires
        row.len() == other.len(),
        forall|j: int| 0 <= j < row.len() ==> same_sort(#[trigger] row[j], other[j]),
    ensures
        measured(row, widths, scale) == measured(other, widths, scale),
{
    if row.len() > 0 {
        let last = row.len() - 1;
        lemma_same_left(row, other, widths, scale, last);
        assert(same_sort(row[last], other[last]));
    }
}

/// Items stand in order, 8 apart, and never overlap.
pub proof fn law_items_stand_apart(
    row: Seq<Piece>,
    widths: Seq<i64>,
    scale: u32,
    i: int,
    j: int,
)
    requires
        fits(row, widths),
        0 <= i < j < row.len(),
    ensures
        item_right(row, widths, scale, i) + 8 * scale <= item_left(row, widths, scale, j),
    decreases j - i,
{
    if i + 1 < j {
        law_items_stand_apart(row, widths, scale, i, j - 1);
        lemma_left_bounded(row, widths, scale, j - 1);
    }
}

/// At a scale of at least 1, every item lies within the pill.
pub proof fn law_items_lie_within_pill(row: Seq<Piece>, widths: Seq<i64>, scale: u32, k: int)
    requires
        fits(row, widths),
        0 <= k < row.len(),
        scale >= 65536,
    ensures
        ({
            let a = item_area(row, widths, scale, k);
            &&& 0 <= a.x && a.x + a.w <= pill_width(row, widths, scale) * 65536
            &&& 0 <= a.y && a.y + a.h <= pill_height(scale) * 65536
        }),
{
    lemma_left_bounded(row, widths, scale, k);
    let last = row.len() - 1;
    lemma_left_bounded(row, widths, scale, last);
    if k < last {
        law_items_stand_apart(row, widths, scale, k, last);
    }
}

proof fn lemma_no_button(
    row: Seq<Piece>,
    widths: Seq<i64>,
    scale: u32,
    x: int,
    y: int,
    k: int,
    i: int,
)
    requires
        0 <= k <= row.len(),
        forall|j: int|
            #![trigger row[j]]
            0 <= j < k && row[j] is Button ==> !item_area(row, widths, scale, j).has(x, y),
        0 <= i < buttons(row, widths, scale, k).len(),
    ensures
        !buttons(row, widths, scale, k)[i].area.has(x, y),
    decreases k,
{
    if k > 0 {
        let before = buttons(row, widths, scale, k - 1);
        assert(row[k - 1] is Button ==> !item_area(row, widths, scale, k - 1).has(x, y));
        if i < before.len() {
            lemma_no_button(row, widths, scale, x, y, k - 1, i);
        }
    }
}

proof fn lemma_skip_to(hits: Seq<Hit>, x: int, y: int, k: int, at: int)
    requires
        0 <= k <= at <= hits.len(),
        forall|i: int| k <= i < at ==> !(#[trigger] hits[i]).area.has(x, y),
    ensures
        button_at(hits, x, y, k) == button_at(hits, x, y, at),
    decreases at - k,
{
    if k < at {
        assert(!hits[k].area.has(x, y));
        lemma_skip_to(hits, x, y, k + 1, at);
    }
}

proof fn lemma_button_index(row: Seq<Piece>, widths: Seq<i64>, scale: u32, k: int, n: int)
    requires
        0 <= k < n <= row.len(),
        row[k] is Button,
    ensures
        ({
            let at = buttons(row, widths, scale, k).len() as int;
            let all = buttons(row, widths, scale, n);
            &&& at < all.len()
            &&& all[at] == (Hit { area: item_area(row, widths, scale, k), id: row[k]->id })
            &&& forall|i: int|
                0 <= i < at ==> all[i] == #[trigger] buttons(row, widths, scale, k)[i]
        }),
    decreases n,
{
    if k < n - 1 {
        lemma_button_index(row, widths, scale, k, n - 1);
    }
}

/// A position on a button finds that button, whatever stands around it.
pub proof fn law_click_finds_button(
    row: Seq<Piece>,
    widths: Seq<i64>,
    scale: u32,
    k: int,
    x: int,
    y: int,
)
    requires
        fits(row, widths),
        0 <= k < row.len(),
        row[k] is Button,
        item_area(row, widths, scale, k).has(x, y),
    ensures
        button_at(buttons(row, widths, scale, row.len() as int), x, y, 0) == Some(row[k]->id),
{
    let all = buttons(row, widths, scale, row.len() as int);
    let before = buttons(row, widths, scale, k);
    lemma_left_bounded(row, widths, scale, k);
    lemma_button_index(row, widths, scale, k, row.len() as int);
    assert forall|j: int| #![trigger row[j]] 0 <= j < k && row[j] is Button implies !item_area(
        row,
        widths,
        scale,
        j,
    ).has(x, y) by {
        law_items_stand_apart(row, widths, scale, j, k);
        lemma_left_bounded(row, widths, scale, j);
    }
    assert forall|i: int| 0 <= i < before.len() implies !(#[trigger] all[i]).area.has(x, y) by {
        assert(all[i] == before[i]);
        lemma_no_button(row, widths, scale, x, y, k, i);
    }
    lemma_skip_to(all, x, y, 0, before.len() as int);
}

/// A position on no button finds none.
pub proof fn law_click_beside_buttons(
    row: Seq<Piece>,
    widths: Seq<i64>,
    scale: u32,
    x: int,
    y: int,
)
    requires
        fits(row, widths),
        forall|j: int|
            #![trigger row[j]]
            0 <= j < row.len() && row[j] is Button ==> !item_area(row, widths, scale, j).has(x, y),
    ensures
        button_at(buttons(row, widths, scale, row.len() as int), x, y, 0) is None,
{
    let all = buttons(row, widths, scale, row.len() as int);
    assert forall|i: int| 0 <= i < all.len() implies !(#[trigger] all[i]).area.has(x, y) by {
        lemma_no_button(row, widths, scale, x, y, row.len() as int, i);
    }
    lemma_skip_to(all, x, y, 0, all.len() as int);
}

/// An item stands for a piece of its own sort with the same text, number and selection.
pub proof fn law_item_is_its_piece(item: Item)
    ensures
        item matches Item::Label(text) ==> item@ == Piece::Label(text@),
        item is Dot ==> item@ is Dot,
        item is Sep ==> item@ is Sep,
        item matches Item::Button { id, text, selected } ==> item@ == (Piece::Button {
            id,
            text: text@,
            selected,
        }),
{
}

/// A shape stands for a drawing of its own sort with the same place, text and colour.
pub proof fn law_shape_is_its_drawing(shape: Shape)
    ensures
        shape matches Shape::Fill { area, radius, color } ==> shape@ == (Drawing::Fill {
            area,
            radius,
            color,
        }),
        shape matches Shape::Frame { area, radius, color } ==> shape@ == (Drawing::Frame {
            area,
            radius,
            color,
        }),
        shape matches Shape::Disc { x, y, radius, color } ==> shape@ == (Drawing::Disc {
            x,
            y,
            radius,
            color,
        }),
        shape matches Shape::Text { x, area, text, color } ==> shape@ == (Drawing::Text {
            x,
            area,
            text: text@,
            color,
        }),
{
}

/// An area has the pixel corners from its left and top edges on, up to its right and bottom
/// edges without these.
pub proof fn law_area_is_half_open(a: Area, x: int, y: int)
    ensures
        a.has(x, y) <==> !(x * 65536 < a.x || x * 65536 >= a.x + a.w || y * 65536 < a.y || y * 65536
            >= a.y + a.h),
{
}

/// Half of a length is rounded to the nearest whole pixel; of two equally near ones to the
/// one further from zero.
pub proof fn law_half_is_nearest(v: int)
    ensures
        -65536 <= v - 131072 * half_rounded(v) <= 65536,
        v - 131072 * half_rounded(v) == 65536 ==> v < 0,
        v - 131072 * half_rounded(v) == -65536 ==> v > 0,
{
}

/// A size that does not fit is the nearest one that does.
pub proof fn law_size_saturates(v: int)
    ensures
        -0x8000_0000 <= v <= 0x7fff_ffff ==> at_most_i32(v) == v,
        v > 0x7fff_ffff ==> at_most_i32(v) == 0x7fff_ffff,
        v < -0x8000_0000 ==> at_most_i32(v) == -0x8000_0000,
{
}

/// A pill is as large as its drawing: its height is 44 points to the nearest pixel, and its
/// width reaches 12 points past its last item, to the nearest pixel.
pub proof fn law_pill_ends_after_last_item(row: Seq<Piece>, widths: Seq<i64>, scale: u32)
    requires
        fits(row, widths),
    ensures
        -32768 < pill_height(scale) * 65536 - 44 * scale <= 32768,
        row.len() == 0 ==> -32768 < pill_width(row, widths, scale) * 65536 - 24 * scale <= 32768,
        row.len() > 0 ==> -32768 < pill_width(row, widths, scale) * 65536 - (item_right(
            row,
            widths,
            scale,
            row.len() - 1,
        ) + 12 * scale) <= 32768,
{
    if row.len() > 0 {
        lemma_left_bounded(row, widths, scale, row.len() - 1);
    }
}

/// The size of each sort of item.  A label is as wide as its text and 19.6 points high; the
/// dot is a square of 10 points; a separator is a point wide, but at least a pixel, and 20
/// points high; a button is 20 points wider than its text and 26 points high, both to the
/// nearest pixel.
pub proof fn law_item_sizes(piece: Piece, text_w: int, scale: u32)
    requires
        text_w >= 0,
    ensures
        ({
            let (w, h) = (item_width(piece, text_w, scale), item_height(piece, scale));
            &&& piece is Label ==> w == text_w && 5 * h <= 98 * scale < 5 * (h + 1)
            &&& piece is Dot ==> w == 10 * scale && h == 10 * scale
            &&& piece is Sep ==> w >= scale && w >= 65536 && (w == scale || w == 65536) && h == 20
                * scale
            &&& piece is Button ==> w % 65536 == 0 && h % 65536 == 0
            &&& piece is Button ==> -32768 < w - (text_w + 20 * scale) <= 32768
            &&& piece is Button ==> -32768 < h - 26 * scale <= 32768
        }),
{
    crate::geom::law_rounding_is_nearest(text_w + 20 * scale);
    crate::geom::law_rounding_is_nearest(26 * scale);
}

/// The first item stands 12 points from the left edge, and each further one exactly 8 points
/// after the one before.
pub proof fn law_items_stand_eight_apart(row: Seq<Piece>, widths: Seq<i64>, scale: u32, k: int)
    requires
        fits(row, widths),
        0 <= k < row.len(),
    ensures
        item_left(row, widths, scale, 0) == 12 * scale,
        k > 0 ==> item_left(row, widths, scale, k) - item_right(row, widths, scale, k - 1) == 8
            * scale,
        item_right(row, widths, scale, k) - item_left(row, widths, scale, k) == item_width(
            row[k],
            widths[k] as int,
            scale,
        ),
{
}

/// An item is drawn at its left edge with its size, its top on a whole pixel, and as far
/// from the top of the pill as from its bottom, to the nearest pixel.
pub proof fn law_item_is_centred(row: Seq<Piece>, widths: Seq<i64>, scale: u32, k: int)
    requires
        fits(row, widths),
        0 <= k < row.len(),
    ensures
        ({
            let a = item_area(row, widths, scale, k);
            &&& a.x == item_left(row, widths, scale, k)
            &&& a.w == item_width(row[k], widths[k] as int, scale)
            &&& a.h == item_height(row[k], scale)
            &&& a.y as int % 65536 == 0
            &&& -65536 <= 2 * a.y + a.h - pill_height(scale) * 65536 <= 65536
        }),
{
    lemma_left_bounded(row, widths, scale, k);
    law_half_is_nearest(pill_height(scale) * 65536 - item_height(row[k], scale));
}

/// The colours of a pill.  A selected button has one colour, with the mouse or without; any
/// other button is lighter under the mouse.
pub proof fn law_pill_colors(hovered: bool)
    ensures
        ({
            let rgb = |c: Color| c.r * 65536 + c.g * 256 + c.b;
            &&& rgb(plate_color()) == 0x1B1E28 && plate_color().a == 247
            &&& rgb(line_color()) == 0xFFFFFF && line_color().a == 26
            &&& rgb(dot_color()) == 0xE5484D && dot_color().a == 255
            &&& rgb(label_color()) == 0xA2A8B8 && label_color().a == 255
            &&& rgb(text_color()) == 0xE6E7EB && text_color().a == 255
            &&& rgb(button_color(true, hovered)) == 0x3574D4 && button_color(true, hovered).a == 255
            &&& rgb(button_color(false, true)) == 0x3C4254 && button_color(false, true).a == 255
            &&& rgb(button_color(false, false)) == 0x2D313F && button_color(false, false).a == 255
        }),
{
}

/// How an item fills its area: a label is its text from the left edge, the dot is the circle
/// that touches all edges, a separator fills the area, and a button fills it with round
/// corners and has its text in the middle, to the nearest unit.
pub proof fn law_item_fills_its_area(
    piece: Piece,
    area: Area,
    text_w: int,
    scale: u32,
    hover: Option<u32>,
)
    requires
        0 <= area.x <= 0x4100_0000_0000_0000,
        -LIMIT <= area.y <= LIMIT,
        0 <= area.w <= 0x300_0000_0000,
        0 <= text_w <= LIMIT,
    ensures
        ({
            let s = item_shapes(piece, area, text_w, scale, hover);
            &&& piece matches Piece::Label(words) ==> s.len() == 1 && (s[0] matches Drawing::Text {
                x,
                area: a,
                text,
                color,
            } && x == area.x && a == area && text == words && color == label_color())
            &&& piece is Dot ==> s.len() == 1 && (s[0] matches Drawing::Disc { x, y, radius, color }
                && x - radius == area.x && y - radius == area.y && 2 * radius == 10 * scale && color
                == dot_color())
            &&& piece is Sep ==> s.len() == 1 && (s[0] matches Drawing::Fill { area: a, radius, color }
                && a == area && radius == 0 && color == line_color())
            &&& piece matches Piece::Button { id, text: words, selected } ==> s.len() == 2 && (
            s[0] matches Drawing::Fill { area: a, radius, color } && a == area && radius == 5 * scale
                && color == button_color(selected, hover == Some(id))) && (
            s[1] matches Drawing::Text { x, area: a, text, color } && a == area && text == words
                && color == text_color() && 0 <= area.w - text_w - 2 * (x - area.x) <= 1)
        }),
{
}

/// Items are drawn from left to right, each in its own area.
pub proof fn law_items_are_drawn_in_order(
    row: Seq<Piece>,
    widths: Seq<i64>,
    scale: u32,
    hover: Option<u32>,
    k: int,
)
    requires
        fits(row, widths),
        0 <= k < row.len(),
    ensures
        ({
            let before = row_shapes(row, widths, scale, hover, k);
            let own = item_shapes(
                row[k],
                item_area(row, widths, scale, k),
                widths[k] as int,
                scale,
                hover,
            );
            let after = row_shapes(row, widths, scale, hover, k + 1);
            &&& row_shapes(row, widths, scale, hover, 0).len() == 0
            &&& after.len() == before.len() + own.len()
            &&& after.take(before.len() as int) == before
            &&& after.skip(before.len() as int) == own
        }),
{
    let before = row_shapes(row, widths, scale, hover, k);
    let after = row_shapes(row, widths, scale, hover, k + 1);
    let own = item_shapes(
        row[k],
        item_area(row, widths, scale, k),
        widths[k] as int,
        scale,
        hover,
    );
    assert(after.take(before.len() as int) =~= before);
    assert(after.skip(before.len() as int) =~= own);
}

/// Behind its items a pill has a plate over all of it, with corners of 8 points, and a
/// hairline through the middles of its outermost pixels.
pub proof fn law_plate_fills_pill(
    r: Rendering,
    row: Seq<Piece>,
    widths: Seq<i64>,
    scale: u32,
    hover: Option<u32>,
)
    requires
        fits(row, widths),
        r.shows(row, widths, scale, hover),
    ensures
        ({
            let shapes = drawings(r.shapes@);
            &&& r.w == pill_width(row, widths, scale) && r.h == pill_height(scale)
            &&& r.hits@ == buttons(row, widths, scale, row.len() as int)
            &&& shapes.skip(2) == row_shapes(row, widths, scale, hover, row.len() as int)
            &&& shapes[0] matches Drawing::Fill { area, radius, color } && area.x == 0 && area.y == 0
                && area.w == r.w * 65536 && area.h == r.h * 65536 && radius == 8 * scale && color
                == plate_color()
            &&& shapes[1] matches Drawing::Frame { area, radius, color } && 2 * area.x == 65536 && 2
                * area.y == 65536 && area.x + area.w + 32768 == r.w * 65536 && area.y + area.h
                + 32768 == r.h * 65536 && radius == 8 * scale && color == line_color()
        }),
{
    if row.len() > 0 {
        lemma_left_bounded(row, widths, scale, row.len() - 1);
    }
    let items = row_shapes(row, widths, scale, hover, row.len() as int);
    let plate = plate_shapes(r.w as int, r.h as int, scale);
    assert((plate + items).skip(2) =~= items);
}

/// The mouse over a pill hovers the button that it is on, or none; the pill is drawn anew
/// exactly when that changes, and the window is told when the mouse leaves.  Nothing is
/// clicked by it.
pub proof fn law_mouse_hovers_button(pill: &Pill, x: i16, y: i16, high: i64)
    requires
        -0x8000_0000 <= high < 0x8000_0000,
    ensures
        ({
            let low = if x < 0 {
                x + 65536
            } else {
                x as int
            };
            let next = if y < 0 {
                y + 65536
            } else {
                y as int
            };
            let msg = PillMessage::MouseMove {
                lparam: (high * 0x1_0000_0000 + next * 65536 + low) as i64,
            };
            let (over, reply) = (pill.next_hover(msg), pill.reply_to(msg));
            &&& over == button_at(pill.hits@, x as int, y as int, 0)
            &&& pill.next_clicked(msg) == pill.clicked
            &&& reply.redraw <==> over != pill.hover
            &&& reply.track_mouse && !reply.repaint && reply.cursor is None
            &&& reply.result == Some(0i64)
        }),
{
    crate::picker::law_message_carries_position(x, y, high, (0, 0, 0, 0));
}

/// When the mouse leaves a pill nothing is hovered, and the pill is drawn anew if something
/// was.
pub proof fn law_leaving_mouse_hovers_nothing(pill: &Pill)
    ensures
        ({
            let msg = PillMessage::MouseLeave;
            let reply = pill.reply_to(msg);
            &&& pill.next_hover(msg) is None && pill.next_clicked(msg) == pill.clicked
            &&& reply.redraw <==> pill.hover is Some
            &&& !reply.track_mouse && !reply.repaint && reply.cursor is None
            &&& reply.result == Some(0i64)
        }),
{
}

/// Pressing the mouse clicks the button that it is on, and the program looks at the pill
/// then; beside the buttons it does nothing.
pub proof fn law_press_clicks_button(pill: &Pill, x: i16, y: i16, high: i64)
    requires
        -0x8000_0000 <= high < 0x8000_0000,
    ensures
        ({
            let low = if x < 0 {
                x + 65536
            } else {
                x as int
            };
            let next = if y < 0 {
                y + 65536
            } else {
                y as int
            };
            let msg = PillMessage::LeftDown {
                lparam: (high * 0x1_0000_0000 + next * 65536 + low) as i64,
            };
            let (over, reply) = (
                button_at(pill.hits@, x as int, y as int, 0),
                pill.reply_to(msg),
            );
            &&& over is Some ==> pill.next_clicked(msg) == over
            &&& over is None ==> pill.next_clicked(msg) == pill.clicked
            &&& reply.repaint <==> over is Some
            &&& pill.next_hover(msg) == pill.hover && !reply.redraw
            &&& !reply.track_mouse && reply.cursor is None && reply.result == Some(0i64)
        }),
{
    crate::picker::law_message_carries_position(x, y, high, (0, 0, 0, 0));
}

/// Escape clicks the button that it stands for, where it stands for one; no other key does
/// anything.
pub proof fn law_escape_clicks_its_button(pill: &Pill, wparam: u64)
    ensures
        ({
            let msg = PillMessage::KeyDown { wparam };
            let reply = pill.reply_to(msg);
            let counts = wparam as int % 65536 == 27 && pill.esc_id is Some;
            &&& counts ==> pill.next_clicked(msg) == pill.esc_id
            &&& !counts ==> pill.next_clicked(msg) == pill.clicked
            &&& reply.repaint <==> counts
            &&& pill.next_hover(msg) == pill.hover && !reply.redraw
            &&& !reply.track_mouse && reply.cursor is None && reply.result == Some(0i64)
        }),
{
}

/// The cursor is a hand over a button and an arrow beside; a click gives the window the
/// keyboard only where that is wanted; what a pill does not know is left to the system.
/// None of this changes the pill.
pub proof fn law_cursor_and_other_messages(pill: &Pill, x: i32, y: i32)
    ensures
        ({
            let cursor = PillMessage::SetCursor { x, y };
            let (activate, other) = (PillMessage::MouseActivate, PillMessage::Other);
            let over = button_at(pill.hits@, x as int, y as int, 0) is Some;
            &&& pill.reply_to(cursor).result == Some(1i64)
            &&& pill.reply_to(cursor).cursor is Some
            &&& pill.reply_to(cursor).cursor == Some(Cursor::Hand) <==> over
            &&& pill.activatable ==> pill.reply_to(activate).result is None
            &&& !pill.activatable ==> pill.reply_to(activate).result == Some(3i64)
            &&& pill.reply_to(other).result is None
            &&& pill.reply_to(activate).cursor is None && pill.reply_to(other).cursor is None
            &&& pill.next_hover(cursor) == pill.hover && pill.next_clicked(cursor) == pill.clicked
            &&& pill.next_hover(activate) == pill.hover && pill.next_clicked(activate)
                == pill.clicked
            &&& pill.next_hover(other) == pill.hover && pill.next_clicked(other) == pill.clicked
            &&& !pill.reply_to(cursor).redraw && !pill.reply_to(cursor).repaint
            &&& !pill.reply_to(activate).redraw && !pill.reply_to(activate).repaint
            &&& !pill.reply_to(other).redraw && !pill.reply_to(other).repaint
            &&& !pill.reply_to(cursor).track_mouse && !pill.reply_to(activate).track_mouse
            &&& !pill.reply_to(other).track_mouse
        }),
{
}

/// A pill that looks like another has its content, its place, its buttons and its settings.
pub proof fn law_looks_like(a: &Pill, b: Pill)
    requires
        a.looks_like(b),
    ensures
        a.scale == b.scale && a.activatable == b.activatable && a.esc_id == b.esc_id,
        a.items == b.items && a.widths == b.widths && a.hits == b.hits,
        a.pos == b.pos && a.shown == b.shown,
{
}

/// For the window system blue and red of each pixel change places, and green and alpha stay.
pub proof fn law_window_exchanges_blue_and_red(rgba: Seq<u8>, k: int)
    ensures
        swapped(rgba, 4 * k) == rgba[4 * k + 2],
        swapped(rgba, 4 * k + 1) == rgba[4 * k + 1],
        swapped(rgba, 4 * k + 2) == rgba[4 * k],
        swapped(rgba, 4 * k + 3) == rgba[4 * k + 3],
{
}

/// Items and shapes keep their order and number as mathematical values.
pub proof fn law_values_in_order(items: Seq<Item>, shapes: Seq<Shape>, k: int)
    ensures
        pieces(items).len() == items.len(),
        0 <= k < items.len() ==> pieces(items)[k] == items[k]@,
        drawings(shapes).len() == shapes.len(),
        0 <= k < shapes.len() ==> drawings(shapes)[k] == shapes[k]@,
{
}

/// Where several buttons have a position the first one counts, and where none has it no
/// button does.
pub proof fn law_first_button_counts(hits: Seq<Hit>, x: int, y: int, k: int)
    requires
        0 <= k <= hits.len(),
        forall|j: int| 0 <= j < k ==> !(#[trigger] hits[j]).area.has(x, y),
        k < hits.len() ==> hits[k].area.has(x, y),
    ensures
        k < hits.len() ==> button_at(hits, x, y, 0) == Some(hits[k].id),
        k == hits.len() ==> button_at(hits, x, y, 0) is None,
{
    lemma_skip_to(hits, x, y, 0, k);
}

} // verus!
