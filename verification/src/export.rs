//! Export of a capture: the selected part of the frozen image, with the annotations
//! drawn into it.
use vstd::prelude::*;

use crate::geom::{round_px, Pos2, Rect};
use crate::marks::{Annotation, Mark};
use crate::pixels::Image;

verus! {

/// Why a capture could not be exported.
#[derive(Clone, Copy, PartialEq, Eq, Structural, Debug)]
pub enum ExportError {
    /// The selected part is wider than a canvas can be.
    TooWide,
}

/// A rectangle of whole pixels in an image.
#[derive(Clone, Copy, PartialEq, Eq, Structural, Debug)]
pub struct Crop {
    pub x: u32,
    pub y: u32,
    pub w: u32,
    pub h: u32,
}

/// The number moved into the range from `lo` to `hi`.
pub open spec fn limited(v: int, lo: int, hi: int) -> int {
    if v < lo {
        lo
    } else if v > hi {
        hi
    } else {
        v
    }
}

/// The pixels of an image that a selection stands for: rounded to whole pixels, and moved
/// and shortened so that they lie in the image; at least one pixel.
pub open spec fn crop_of(width: u32, height: u32, sel: Rect) -> Crop {
    let x = limited(crate::geom::rounded(sel.min.x as int), 0, width - 1);
    let y = limited(crate::geom::rounded(sel.min.y as int), 0, height - 1);
    Crop {
        x: x as u32,
        y: y as u32,
        w: limited(crate::geom::rounded(sel.max.x - sel.min.x), 1, width - x) as u32,
        h: limited(crate::geom::rounded(sel.max.y - sel.min.y), 1, height - y) as u32,
    }
}

fn limit(v: i64, lo: i64, hi: i64) -> (r: i64)
    ensures
        r == limited(v as int, lo as int, hi as int),
{
    if v < lo {
        lo
    } else if v > hi {
        hi
    } else {
        v
    }
}

/// The pixels of an image that a selection stands for.
pub fn crop_region(width: u32, height: u32, sel: Rect) -> (crop: Crop)
    requires
        width > 0,
        height > 0,
        sel.within(crate::geom::WIDE_LIMIT as int),
    ensures
        crop == crop_of(width, height, sel),
{
    let x: i64 = limit(round_px(sel.min.x), 0, width as i64 - 1);
    let y: i64 = limit(round_px(sel.min.y), 0, height as i64 - 1);
    let w: i64 = limit(round_px(sel.max.x - sel.min.x), 1, width as i64 - x);
    let h: i64 = limit(round_px(sel.max.y - sel.min.y), 1, height as i64 - y);
    Crop { x: x as u32, y: y as u32, w: w as u32, h: h as u32 }
}

/// What is exported is never empty and never leaves the image.
pub proof fn law_crop_lies_in_image(width: u32, height: u32, sel: Rect)
    requires
        width > 0,
        height > 0,
    ensures
        ({
            let c = crop_of(width, height, sel);
            &&& 0 < c.w && c.x + c.w <= width
            &&& 0 < c.h && c.y + c.h <= height
        }),
{
}

/// A selection of whole pixels inside the image is exported pixel for pixel.
pub proof fn law_whole_pixels_are_kept(
    width: u32,
    height: u32,
    sel: Rect,
    x: int,
    y: int,
    w: int,
    h: int,
)
    requires
        0 <= x && 0 < w && x + w <= width,
        0 <= y && 0 < h && y + h <= height,
        sel.min.x == x * crate::geom::UNIT && sel.max.x == (x + w) * crate::geom::UNIT,
        sel.min.y == y * crate::geom::UNIT && sel.max.y == (y + h) * crate::geom::UNIT,
    ensures
        crop_of(width, height, sel) == (Crop { x: x as u32, y: y as u32, w: w as u32, h: h as u32 }),
{
}

/// The bytes are the given part of the image, row by row.
pub open spec fn is_part(part: Seq<u8>, whole: Seq<u8>, width: int, c: Crop) -> bool {
    &&& part.len() == crate::pixels::byte_len(c.w as int, c.h as int)
    &&& forall|x: int, y: int, k: int|
        #![trigger part[crate::pixels::offset(c.w as int, x, y) + k]]
        0 <= x < c.w && 0 <= y < c.h && 0 <= k < 4 ==> part[crate::pixels::offset(
            c.w as int,
            x,
            y,
        ) + k] == whole[crate::pixels::offset(width, c.x + x, c.y + y) + k]
}

/// Calls `image::imageops::crop_imm` and `to_image` on its result.  Claims that a part
/// that lies in the image is copied pixel for pixel.
#[verifier::external_body]
fn crop_image(data: &[u8], width: u32, height: u32, c: Crop) -> (part: Vec<u8>)
    requires
        height > 0,
        data@.len() == crate::pixels::byte_len(width as int, height as int),
        c.x + c.w <= width,
        c.y + c.h <= height,
    ensures
        is_part(part@, data@, width as int, c),
{
    let whole = image::RgbaImage::from_raw(width, height, data.to_vec()).unwrap();
    image::imageops::crop_imm(&whole, c.x, c.y, c.w, c.h).to_image().into_raw()
}

/// The canvas of the drawing library, on which annotations are drawn.
#[verifier::external_type_specification]
#[verifier::external_body]
pub struct ExPixmap(tiny_skia::Pixmap);

/// The bytes of a [`tiny_skia::Pixmap`]: RGBA, row by row from the top.
pub uninterp spec fn canvas_bytes(canvas: tiny_skia::Pixmap) -> Seq<u8>;

/// Width and height of a [`tiny_skia::Pixmap`].
pub uninterp spec fn canvas_size(canvas: tiny_skia::Pixmap) -> (u32, u32);

/// A canvas of the given size has that many bytes: neither side is zero, a row of bytes
/// fits a signed 32-bit number, and the bytes are as many as the size asks for.
pub open spec fn fits_canvas(len: nat, w: u32, h: u32) -> bool {
    w > 0 && h > 0 && w * 4 <= i32::MAX && len == crate::pixels::byte_len(w as int, h as int)
}

/// Calls `tiny_skia::Pixmap::from_vec`.  Claims that there is a canvas, which has the
/// given size and holds exactly the given bytes, if and only if they fit the size.
#[verifier::external_body]
fn canvas_from(data: Vec<u8>, w: u32, h: u32) -> (canvas: Option<tiny_skia::Pixmap>)
    ensures
        canvas is Some == fits_canvas(data@.len(), w, h),
        canvas matches Some(c) ==> canvas_bytes(c) == data@,
        canvas matches Some(c) ==> canvas_size(c) == (w, h),
{
    tiny_skia::Pixmap::from_vec(data, tiny_skia::IntSize::from_wh(w, h)?)
}

/// A blank canvas of the given size exists: neither side is zero, a row of bytes fits a
/// signed 32-bit number, and the bytes fit the memory.
pub open spec fn blank_fits(w: u32, h: u32) -> bool {
    &&& w > 0 && h > 0
    &&& w * 4 <= i32::MAX
    &&& crate::pixels::byte_len(w as int, h as int) <= isize::MAX
}

/// The bytes of a canvas on which nothing is drawn: all zero.
pub open spec fn transparent(w: u32, h: u32) -> Seq<u8> {
    Seq::new(crate::pixels::byte_len(w as int, h as int) as nat, |i: int| 0u8)
}

/// The nearest number that an unsigned 32-bit integer can hold.
pub open spec fn nearest_u32(v: int) -> u32 {
    if v < 0 {
        0
    } else if v > u32::MAX {
        u32::MAX
    } else {
        v as u32
    }
}

/// Calls `tiny_skia::Pixmap::new`.  Claims that there is a canvas of every size that fits,
/// that it has this size, and that all its bytes are zero.
#[verifier::external_body]
fn canvas_new(w: u32, h: u32) -> (canvas: Option<tiny_skia::Pixmap>)
    requires
        blank_fits(w, h),
    ensures
        canvas is Some,
        canvas matches Some(c) ==> canvas_bytes(c) == transparent(w, h),
        canvas matches Some(c) ==> canvas_size(c) == (w, h),
{
    tiny_skia::Pixmap::new(w, h)
}

/// The nearest number that fits.
fn to_u32(v: i64) -> (r: u32)
    ensures
        r == nearest_u32(v as int),
{
    if v < 0 {
        0
    } else if v > 0xffff_ffff {
        0xffff_ffff
    } else {
        v as u32
    }
}

/// A transparent canvas of the given size in pixels; there is none if a side is not
/// positive, a row is too long, or the memory is too small for its bytes.
pub fn blank_canvas(w: i64, h: i64) -> (canvas: Option<tiny_skia::Pixmap>)
    ensures
        canvas is Some <==> blank_fits(nearest_u32(w as int), nearest_u32(h as int)),
        canvas matches Some(c) ==> canvas_bytes(c) == transparent(
            nearest_u32(w as int),
            nearest_u32(h as int),
        ),
        canvas matches Some(c) ==> canvas_size(c) == (
            nearest_u32(w as int),
            nearest_u32(h as int),
        ),
{
    let (w, h): (u32, u32) = (to_u32(w), to_u32(h));
    if w == 0 || h == 0 || w > 0x1fff_ffff {
        return None;
    }
    assert(0 <= w * h * 4 <= 0x1fff_ffff * 0xffff_ffff * 4) by (nonlinear_arith)
        requires
            0 <= w <= 0x1fff_ffff,
            0 <= h <= 0xffff_ffff,
    ;
    if w as u128 * h as u128 * 4 > isize::MAX as u128 {
        return None;
    }
    canvas_new(w, h)
}

/// Calls `tiny_skia::Pixmap::take`.  Claims that it hands over the bytes of the canvas.
#[verifier::external_body]
pub(crate) fn canvas_into(canvas: tiny_skia::Pixmap) -> (data: Vec<u8>)
    ensures
        data@ == canvas_bytes(canvas),
{
    canvas.take()
}

/// Cuts the selected part out of the frozen image, onto a canvas for the annotations.
/// The annotations are drawn relative to the corner of the returned crop.
pub fn render(shot: &Image, sel: Rect) -> (res: Result<(tiny_skia::Pixmap, Crop), ExportError>)
    requires
        shot.wf(),
        shot.width > 0,
        shot.height > 0,
        sel.within(crate::geom::WIDE_LIMIT as int),
    ensures
        res is Err <==> crop_of(shot.width, shot.height, sel).w * 4 > i32::MAX,
        res matches Ok((canvas, crop)) ==> {
            &&& crop == crop_of(shot.width, shot.height, sel)
            &&& canvas_size(canvas) == (crop.w, crop.h)
            &&& is_part(canvas_bytes(canvas), shot.data@, shot.width as int, crop)
        },
        res matches Err(e) ==> e == ExportError::TooWide,
{
    let crop = crop_region(shot.width, shot.height, sel);
    proof {
        law_crop_lies_in_image(shot.width, shot.height, sel);
    }
    let part: Vec<u8> = crop_image(shot.data.as_slice(), shot.width, shot.height, crop);
    match canvas_from(part, crop.w, crop.h) {
        Some(canvas) => Ok((canvas, crop)),
        None => Err(ExportError::TooWide),
    }
}

/// What of the annotations is drawn onto the canvas of a crop: all of them in order, as
/// seen from the corner of the crop, but no pen line of fewer than two points.
pub open spec fn drawn(marks: Seq<Mark>, crop: Crop) -> Seq<Mark>
    decreases marks.len(),
{
    if marks.len() == 0 {
        Seq::empty()
    } else {
        let before = drawn(marks.drop_last(), crop);
        let m = marks.last();
        if m matches Mark::Pen { points, color } && points.len() < 2 {
            before
        } else {
            before.push(m.relative_to(crop.x * 65536, crop.y * 65536))
        }
    }
}

/// The annotations to draw onto the canvas of a crop.
pub fn drawings(annotations: &Vec<Annotation>, crop: Crop) -> (res: Vec<Annotation>)
    requires
        forall|k: int|
            0 <= k < annotations@.len() ==> crate::session::mark_ok((#[trigger] annotations@[k])@),
    ensures
        res@.map_values(|a: Annotation| a@) == drawn(
            annotations@.map_values(|a: Annotation| a@),
            crop,
        ),
{
    let origin = Pos2 { x: crop.x as i64 * 65536, y: crop.y as i64 * 65536 };
    let ghost marks = annotations@.map_values(|a: Annotation| a@);
    let mut res: Vec<Annotation> = Vec::new();
    let n: usize = annotations.len();
    for k in 0..n
        invariant
            n == annotations@.len(),
            marks == annotations@.map_values(|a: Annotation| a@),
            origin.x == crop.x * 65536,
            origin.y == crop.y * 65536,
            forall|k: int|
                0 <= k < annotations@.len() ==> crate::session::mark_ok(
                    (#[trigger] annotations@[k])@,
                ),
            res@.map_values(|a: Annotation| a@) == drawn(marks.take(k as int), crop),
    {
        let a = &annotations[k];
        assert(crate::session::mark_ok(annotations@[k as int]@));
        proof {
            assert(marks.take(k + 1).drop_last() =~= marks.take(k as int));
            assert(marks.take(k + 1).last() == a@);
        }
        let skip: bool = match a {
            Annotation::Pen { points, color: _ } => points.len() < 2,
            _ => false,
        };
        if !skip {
            let ghost before = res@;
            let moved = a.relative(origin);
            res.push(moved);
            assert(res@.map_values(|a: Annotation| a@) =~= before.map_values(
                |a: Annotation| a@,
            ).push(moved@));
        }
    }
    assert(marks.take(n as int) =~= marks);
    res
}

proof fn lemma_drawn_twice(marks: Seq<Mark>, crop: Crop, dx: int, dy: int)
    requires
        dx == crop.x * 65536,
        dy == crop.y * 65536,
    ensures
        drawn(marks, crop) == drawn(
            marks.map_values(|m: Mark| m.relative_to(dx, dy)),
            Crop { x: 0, y: 0, w: crop.w, h: crop.h },
        ),
    decreases marks.len(),
{
    let moved = marks.map_values(|m: Mark| m.relative_to(dx, dy));
    if marks.len() > 0 {
        lemma_drawn_twice(marks.drop_last(), crop, dx, dy);
        assert(moved.drop_last() =~= marks.drop_last().map_values(
            |m: Mark| m.relative_to(dx, dy),
        ));
        let m = marks.last();
        assert(moved.last() == m.relative_to(dx, dy));
        assert(m.relative_to(dx, dy).relative_to(0, 0) =~~= m.relative_to(dx, dy));
    }
}

proof fn lemma_whole_part(part: Seq<u8>, whole: Seq<u8>, c: Crop)
    requires
        c.x == 0,
        c.y == 0,
        whole.len() == crate::pixels::byte_len(c.w as int, c.h as int),
        is_part(part, whole, c.w as int, c),
    ensures
        part == whole,
{
    let (w, h) = (c.w as int, c.h as int);
    assert forall|i: int| 0 <= i < part.len() implies part[i] == whole[i] by {
        let (p, k) = (i / 4, i % 4);
        assert(0 < w && 0 <= p < w * h) by (nonlinear_arith)
            requires
                0 <= i < w * h * 4,
                p == i / 4,
                0 <= w,
                0 <= h,
        ;
        let (x, y) = (p % w, p / w);
        vstd::arithmetic::div_mod::lemma_fundamental_div_mod(p, w);
        assert(0 <= y < h) by (nonlinear_arith)
            requires
                p == w * y + x,
                0 <= x < w,
                0 <= p < w * h,
        ;
        assert(w * y == y * w) by (nonlinear_arith);
        assert(crate::pixels::offset(w, x, y) + k == i);
        assert(part[crate::pixels::offset(w, x, y) + k] == whole[crate::pixels::offset(
            w,
            c.x + x,
            c.y + y,
        ) + k]);
    }
    assert(part =~= whole);
}

/// Annotations belong to the monitor image, and only the cropped pixels matter: exporting a
/// selection of whole pixels, and exporting all of its export with the annotations moved by
/// the corner of the selection, give the same canvas and the same drawings.
pub proof fn law_export_sees_only_its_crop(
    width: u32,
    height: u32,
    sel: Rect,
    crop: Crop,
    marks: Seq<Mark>,
    shot: Seq<u8>,
    part: Seq<u8>,
    again: Seq<u8>,
)
    requires
        0 < crop.w && crop.x + crop.w <= width,
        0 < crop.h && crop.y + crop.h <= height,
        sel.min.x == crop.x * 65536 && sel.max.x == (crop.x + crop.w) * 65536,
        sel.min.y == crop.y * 65536 && sel.max.y == (crop.y + crop.h) * 65536,
        is_part(part, shot, width as int, crop),
        is_part(again, part, crop.w as int, Crop { x: 0, y: 0, w: crop.w, h: crop.h }),
    ensures
        ({
            let inner = Crop { x: 0, y: 0, w: crop.w, h: crop.h };
            let all = Rect {
                min: Pos2 { x: 0, y: 0 },
                max: Pos2 { x: (crop.w * 65536) as i64, y: (crop.h * 65536) as i64 },
            };
            let moved = marks.map_values(
                |m: Mark| m.relative_to(sel.min.x as int, sel.min.y as int),
            );
            &&& crop_of(width, height, sel) == crop
            &&& crop_of(crop.w, crop.h, all) == inner
            &&& again == part
            &&& drawn(marks, crop) == drawn(moved, inner)
        }),
{
    lemma_whole_part(again, part, Crop { x: 0, y: 0, w: crop.w, h: crop.h });
    lemma_drawn_twice(marks, crop, sel.min.x as int, sel.min.y as int);
}

/// Turns the canvas, once the annotations are drawn, into the exported image; there is
/// none if the canvas is not of the size of the crop.
pub fn finish_render(canvas: tiny_skia::Pixmap, crop: Crop) -> (res: Option<Image>)
    ensures
        res is Some <==> canvas_bytes(canvas).len() == crate::pixels::byte_len(
            crop.w as int,
            crop.h as int,
        ),
        res matches Some(img) ==> {
            &&& img.wf()
            &&& img.width == crop.w
            &&& img.height == crop.h
            &&& img.data@ == canvas_bytes(canvas)
        },
{
    let data: Vec<u8> = canvas_into(canvas);
    Image::from_raw(crop.w, crop.h, data)
}

/// The export of a capture without annotations.
pub fn render_plain(shot: &Image, sel: Rect) -> (res: Result<Image, ExportError>)
    requires
        shot.wf(),
        shot.width > 0,
        shot.height > 0,
        sel.within(crate::geom::WIDE_LIMIT as int),
    ensures
        res is Err <==> crop_of(shot.width, shot.height, sel).w * 4 > i32::MAX,
        res matches Ok(img) ==> {
            &&& img.wf()
            &&& img.width == crop_of(shot.width, shot.height, sel).w
            &&& img.height == crop_of(shot.width, shot.height, sel).h
            &&& forall|x: int, y: int, k: int|
                #![trigger img.channel(x, y, k)]
                0 <= x < img.width && 0 <= y < img.height && 0 <= k < 4 ==> img.channel(x, y, k)
                    == shot.channel(
                    crop_of(shot.width, shot.height, sel).x + x,
                    crop_of(shot.width, shot.height, sel).y + y,
                    k,
                )
        },
        res matches Err(e) ==> e == ExportError::TooWide,
{
    match render(shot, sel) {
        Ok((canvas, crop)) => match finish_render(canvas, crop) {
            Some(img) => Ok(img),
            None => Err(ExportError::TooWide),
        },
        Err(e) => Err(e),
    }
}

/// Where the bytes of a pixel stand on a canvas of the given size; none where the pixel
/// lies outside.
pub fn pixel_index(x: i32, y: i32, w: i32, h: i32) -> (at: Option<usize>)
    requires
        0 <= w,
        0 <= h,
        crate::pixels::byte_len(w as int, h as int) <= usize::MAX,
    ensures
        at is Some <==> 0 <= x < w && 0 <= y < h,
        at matches Some(at) ==> at == crate::pixels::offset(w as int, x as int, y as int) && at + 4
            <= crate::pixels::byte_len(w as int, h as int),
{
    if x < 0 || y < 0 || x >= w || y >= h {
        return None;
    }
    proof {
        crate::pixels::lemma_offset_in_range(w as int, h as int, x as int, y as int);
        assert(0 <= y * w <= (y * w + x) * 4) by (nonlinear_arith)
            requires
                0 <= y,
                0 <= w,
                0 <= x,
        ;
    }
    Some((y as usize * w as usize + x as usize) * 4)
}

proof fn lemma_axis_is_rounded(lo: int, len: int, size: int)
    requires
        size > 0,
    ensures
        ({
            let x = limited(crate::geom::rounded(lo), 0, size - 1);
            let w = limited(crate::geom::rounded(len), 1, size - x);
            &&& 0 <= x < size && 1 <= w <= size - x
            &&& 0 <= lo <= (size - 1) * 65536 ==> -32768 < x * 65536 - lo <= 32768
            &&& lo < 0 ==> x == 0
            &&& lo > (size - 1) * 65536 ==> x == size - 1
            &&& 65536 <= len <= (size - x) * 65536 ==> -32768 < w * 65536 - len <= 32768
            &&& len < 65536 ==> w == 1
            &&& len > (size - x) * 65536 ==> w == size - x
        }),
{
    crate::geom::law_rounding_is_nearest(lo);
    crate::geom::law_rounding_is_nearest(len);
}

/// What is exported begins at the pixel nearest to the corner of the selection and is as
/// large as the selection to the nearest pixel, along each axis by itself; where that leaves
/// the image it begins at the edge, or ends there.  Of two equally near pixels the later one
/// counts.
pub proof fn law_crop_is_nearest_to_selection(width: u32, height: u32, sel: Rect)
    requires
        width > 0,
        height > 0,
    ensures
        ({
            let c = crop_of(width, height, sel);
            let (w, h) = (sel.max.x - sel.min.x, sel.max.y - sel.min.y);
            &&& 0 <= sel.min.x <= (width - 1) * 65536 ==> -32768 < c.x * 65536 - sel.min.x <= 32768
            &&& sel.min.x < 0 ==> c.x == 0
            &&& sel.min.x > (width - 1) * 65536 ==> c.x == width - 1
            &&& 65536 <= w <= (width - c.x) * 65536 ==> -32768 < c.w * 65536 - w <= 32768
            &&& w < 65536 ==> c.w == 1
            &&& w > (width - c.x) * 65536 ==> c.x + c.w == width
            &&& 0 <= sel.min.y <= (height - 1) * 65536 ==> -32768 < c.y * 65536 - sel.min.y <= 32768
            &&& sel.min.y < 0 ==> c.y == 0
            &&& sel.min.y > (height - 1) * 65536 ==> c.y == height - 1
            &&& 65536 <= h <= (height - c.y) * 65536 ==> -32768 < c.h * 65536 - h <= 32768
            &&& h < 65536 ==> c.h == 1
            &&& h > (height - c.y) * 65536 ==> c.y + c.h == height
        }),
{
    lemma_axis_is_rounded(sel.min.x as int, sel.max.x - sel.min.x, width as int);
    lemma_axis_is_rounded(sel.min.y as int, sel.max.y - sel.min.y, height as int);
}

/// Annotations are drawn one after the other: what is drawn of a list is what is drawn of
/// its first part, and then what is drawn of the rest.
pub proof fn law_annotations_are_drawn_in_order(a: Seq<Mark>, b: Seq<Mark>, crop: Crop)
    ensures
        drawn(a + b, crop) == drawn(a, crop) + drawn(b, crop),
        drawn(Seq::empty(), crop).len() == 0,
    decreases b.len(),
{
    if b.len() == 0 {
        assert(a + b =~= a);
        assert(drawn(a, crop) + drawn(b, crop) =~= drawn(a, crop));
    } else {
        law_annotations_are_drawn_in_order(a, b.drop_last(), crop);
        assert((a + b).drop_last() =~= a + b.drop_last());
        assert((a + b).last() == b.last());
        assert(drawn(a + b, crop) =~= drawn(a, crop) + drawn(b, crop));
    }
}

/// Every annotation is drawn once, with its kind, colour and text, at its coordinates minus
/// the corner of the crop; only a pen line of fewer than two points is left out.
pub proof fn law_annotation_is_drawn_at_its_place(m: Mark, crop: Crop)
    requires
        crate::session::mark_ok(m),
    ensures
        ({
            let res = drawn(seq![m], crop);
            let (dx, dy) = (crop.x * 65536, crop.y * 65536);
            let short = m matches Mark::Pen { points, color } && points.len() < 2;
            let seen = res[0];
            &&& short ==> res.len() == 0
            &&& !short ==> res.len() == 1
            &&& !short && m is Pen ==> (m matches Mark::Pen { points: was, color: c } && (
            seen matches Mark::Pen { points: now, color } && color == c && now.len() == was.len()
                && forall|k: int|
                0 <= k < was.len() ==> (#[trigger] now[k]).x == was[k].x - dx && now[k].y
                    == was[k].y - dy))
            &&& m matches Mark::Line { from: f, to: t, color: c } ==> (seen matches Mark::Line {
                from,
                to,
                color,
            } && color == c && from.x == f.x - dx && from.y == f.y - dy && to.x == t.x - dx && to.y
                == t.y - dy)
            &&& m matches Mark::Arrow { from: f, to: t, color: c } ==> (seen matches Mark::Arrow {
                from,
                to,
                color,
            } && color == c && from.x == f.x - dx && from.y == f.y - dy && to.x == t.x - dx && to.y
                == t.y - dy)
            &&& m matches Mark::Rect { rect: r, color: c } ==> (seen matches Mark::Rect {
                rect,
                color,
            } && color == c && rect.min.x == r.min.x - dx && rect.min.y == r.min.y - dy && rect.max.x
                == r.max.x - dx && rect.max.y == r.max.y - dy)
            &&& m matches Mark::Text { pos: p, text: w, color: c } ==> (seen matches Mark::Text {
                pos,
                text,
                color,
            } && color == c && text == w && pos.x == p.x - dx && pos.y == p.y - dy)
        }),
{
    reveal_with_fuel(drawn, 2);
    crate::marks::law_seen_from_corner(m, crop.x * 65536, crop.y * 65536);
    assert(seq![m].drop_last() =~= Seq::<Mark>::empty());
    assert(seq![m].last() == m);
}

/// A blank canvas is as large as asked for, is there exactly where its sides are positive, a
/// row has at most 2147483647 bytes and all bytes fit the memory, and holds nothing but
/// zeros.
pub proof fn law_blank_canvas(v: int, w: u32, h: u32, k: int)
    ensures
        0 <= v <= 0xffff_ffff ==> nearest_u32(v) == v,
        v < 0 ==> nearest_u32(v) == 0,
        v > 0xffff_ffff ==> nearest_u32(v) == 0xffff_ffff,
        blank_fits(w, h) <==> 1 <= w <= 536_870_911 && 1 <= h && 4 * (w * h) <= isize::MAX,
        blank_fits(w, h) ==> transparent(w, h).len() == 4 * (w * h),
        0 <= k < transparent(w, h).len() ==> transparent(w, h)[k] == 0,
{
    assert(w * h >= 0) by (nonlinear_arith)
        requires
            w >= 0,
            h >= 0,
    ;
}

} // verus!
