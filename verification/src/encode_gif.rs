//! Frames of a GIF recording.
use vstd::prelude::*;

verus! {

/// Delay of each frame, in units of 10 ms; it agrees with the pace of the recorder.
pub const FRAME_DELAY: u16 = 7;

/// How roughly colours are reduced, from 1 (best) to 30 (fastest).
pub const QUANTIZER_SPEED: i32 = 10;

/// One frame, reduced to at most 256 colours.
pub struct GifFrame {
    pub width: u16,
    pub height: u16,
    /// Units of 10 ms.
    pub delay: u16,
    /// For each pixel, row by row from the top, the index of its colour.
    pub indices: Vec<u8>,
    /// Red, green and blue of each colour.
    pub palette: Vec<u8>,
    /// The colour that stands for transparent pixels.
    pub transparent: Option<u8>,
}

/// Every pixel of the RGBA data has full alpha.
pub open spec fn all_opaque(rgba: Seq<u8>) -> bool {
    forall|i: int| 0 <= i < rgba.len() && i % 4 == 3 ==> rgba[i] == 255
}

/// The colour of pixel `k` of the RGBA data.
pub open spec fn color_at(rgba: Seq<u8>, k: int) -> (u8, u8, u8) {
    (rgba[4 * k], rgba[4 * k + 1], rgba[4 * k + 2])
}

/// The RGBA data has at most 256 colours.
pub open spec fn few_colors(rgba: Seq<u8>) -> bool {
    exists|cs: Seq<(u8, u8, u8)>|
        #![trigger cs.len()]
        cs.len() <= 256 && forall|k: int|
            0 <= k < rgba.len() / 4 ==> cs.contains(#[trigger] color_at(rgba, k))
}

/// Indices, palette and transparent index that `gif::Frame::from_rgba_speed` makes of RGBA
/// data.
pub uninterp spec fn quantized(
    width: u16,
    height: u16,
    rgba: Seq<u8>,
    speed: i32,
) -> (Seq<u8>, Seq<u8>, Option<u8>);

/// Calls `gif::Frame::from_rgba_speed` and takes its result apart.  Claims that the result
/// depends on the arguments alone; that there is one index per pixel, at most 256 colours,
/// and a colour for every index; and of data with full alpha that it is left as it is,
/// that no colour is transparent, and that at most 256 colours are kept exactly.  How more
/// colours are reduced is left unsaid: a neural network picks them.
#[verifier::external_body]
fn quantize(width: u16, height: u16, rgba: &mut Vec<u8>, speed: i32) -> (res: (
    Vec<u8>,
    Vec<u8>,
    Option<u8>,
))
    requires
        old(rgba)@.len() == width * height * 4,
        1 <= speed <= 30,
    ensures
        (res.0@, res.1@, res.2) == quantized(width, height, old(rgba)@, speed),
        final(rgba)@.len() == old(rgba)@.len(),
        all_opaque(old(rgba)@) ==> final(rgba)@ == old(rgba)@,
        all_opaque(old(rgba)@) ==> res.2 is None,
        res.0@.len() == width * height,
        res.1@.len() <= 768,
        forall|k: int| 0 <= k < res.0@.len() ==> 3 * (#[trigger] res.0@[k]) + 2 < res.1@.len(),
        all_opaque(old(rgba)@) && few_colors(old(rgba)@) ==> forall|k: int|
            0 <= k < res.0@.len() ==> {
                let i = 3 * (#[trigger] res.0@[k]);
                (res.1@[i], res.1@[i + 1], res.1@[i + 2]) == color_at(old(rgba)@, k)
            },
{
    let frame = gif::Frame::from_rgba_speed(width, height, rgba, speed);
    (frame.buffer.into_owned(), frame.palette.unwrap_or_default(), frame.transparent)
}

/// Byte `i` of the top-down RGBA frame that stands in the bottom-up BGRA frame: the rows
/// in reverse order, blue and red exchanged, alpha full.
pub open spec fn flipped(bgra: Seq<u8>, w: int, h: int, i: int) -> u8 {
    let row = i / (w * 4);
    let col = i % (w * 4);
    let src = (h - 1 - row) * (w * 4) + col;
    if i % 4 == 0 {
        bgra[src + 2]
    } else if i % 4 == 1 {
        bgra[src]
    } else if i % 4 == 2 {
        bgra[src - 2]
    } else {
        255
    }
}

/// The RGBA frame that stands in a BGRA frame.
pub open spec fn flipped_frame(bgra: Seq<u8>, w: int, h: int) -> Seq<u8> {
    Seq::new((w * h * 4) as nat, |i: int| flipped(bgra, w, h, i))
}

/// The colour of a pixel in a bottom-up BGRA frame, counting rows from the top.
pub open spec fn screen_color(bgra: Seq<u8>, w: int, h: int, x: int, y: int) -> (u8, u8, u8) {
    let at = ((h - 1 - y) * w + x) * 4;
    (bgra[at + 2], bgra[at + 1], bgra[at])
}

/// The frame sink of a GIF recording.
pub struct GifSink {
    pub w: u32,
    pub h: u32,
    /// Scratch space for one frame.
    pub rgba: Vec<u8>,
}

proof fn lemma_pixel_split(w: int, x: int, y: int, c: int)
    requires
        0 <= x < w,
        0 <= y,
        0 <= c < 4,
    ensures
        ((y * w + x) * 4 + c) / (w * 4) == y,
        ((y * w + x) * 4 + c) % (w * 4) == 4 * x + c,
        ((y * w + x) * 4 + c) % 4 == c,
{
    let i = (y * w + x) * 4 + c;
    assert(i == y * (w * 4) + (4 * x + c)) by (nonlinear_arith)
        requires
            i == (y * w + x) * 4 + c,
    ;
    assert(0 <= 4 * x + c < w * 4);
    vstd::arithmetic::div_mod::lemma_fundamental_div_mod_converse(i, w * 4, y, 4 * x + c);
    assert(i % 4 == c) by (nonlinear_arith)
        requires
            i == (y * w + x) * 4 + c,
            0 <= c < 4,
    ;
}

/// The byte of channel `c` of the pixel at `x`, `y` of the flipped frame.
proof fn lemma_flipped_pixel(bgra: Seq<u8>, w: int, h: int, x: int, y: int, c: int)
    requires
        0 <= x < w,
        0 <= y < h,
        0 <= c < 4,
    ensures
        0 <= (y * w + x) * 4 + c < w * h * 4,
        flipped(bgra, w, h, (y * w + x) * 4 + c) == (if c == 0 {
            screen_color(bgra, w, h, x, y).0
        } else if c == 1 {
            screen_color(bgra, w, h, x, y).1
        } else if c == 2 {
            screen_color(bgra, w, h, x, y).2
        } else {
            255
        }),
{
    lemma_pixel_split(w, x, y, c);
    assert(0 <= (y * w + x) * 4 + c < w * h * 4) by (nonlinear_arith)
        requires
            0 <= x < w,
            0 <= y < h,
            0 <= c < 4,
    ;
    assert((h - 1 - y) * (w * 4) + 4 * x == ((h - 1 - y) * w + x) * 4) by (nonlinear_arith);
}

impl GifSink {
    /// The frame size is one that a GIF can have.
    pub open spec fn wf(&self) -> bool {
        0 < self.w <= 65535 && self.h <= 65535
    }

    /// A sink for frames of the given size.
    pub fn new(w: u32, h: u32) -> (sink: GifSink)
        requires
            0 < w <= 65535,
            h <= 65535,
        ensures
            sink.wf(),
            sink.w == w,
            sink.h == h,
            sink.rgba@.len() == 0,
    {
        GifSink { w, h, rgba: Vec::new() }
    }

    /// Makes the scratch space as long as a frame.
    fn resize(&mut self, len: usize)
        ensures
            final(self).w == old(self).w,
            final(self).h == old(self).h,
            final(self).rgba@.len() == len,
    {
        if self.rgba.len() > len {
            self.rgba.truncate(len);
        }
        while self.rgba.len() < len
            invariant
                self.rgba@.len() <= len,
                self.w == old(self).w,
                self.h == old(self).h,
            decreases len - self.rgba@.len(),
        {
            self.rgba.push(0);
        }
    }

    /// Flips the rows of a bottom-up BGRA frame and exchanges blue and red, into the
    /// scratch space.
    pub fn convert(&mut self, bgra: &[u8])
        requires
            old(self).wf(),
            bgra@.len() == old(self).w * old(self).h * 4,
        ensures
            final(self).wf(),
            final(self).w == old(self).w,
            final(self).h == old(self).h,
            final(self).rgba@ == flipped_frame(bgra@, old(self).w as int, old(self).h as int),
    {
        let (w, h): (usize, usize) = (self.w as usize, self.h as usize);
        let len: usize = bgra.len();
        self.resize(len);
        let ghost (gw, gh) = (w as int, h as int);
        let mut y: usize = 0;
        while y < h
            invariant
                w == self.w,
                h == self.h,
                self.w == old(self).w,
                self.h == old(self).h,
                self.wf(),
                gw == w,
                gh == h,
                y <= h,
                bgra@.len() == gw * gh * 4,
                self.rgba@.len() == gw * gh * 4,
                gw * gh * 4 <= usize::MAX,
                forall|i: int|
                    0 <= i < y * gw * 4 ==> #[trigger] self.rgba@[i] == flipped(bgra@, gw, gh, i),
            decreases h - y,
        {
            let mut x: usize = 0;
            assert(y * gw * 4 == (y * gw + 0) * 4);
            while x < w
                invariant
                    w == self.w,
                    h == self.h,
                    self.w == old(self).w,
                    self.h == old(self).h,
                    self.wf(),
                    gw == w,
                    gh == h,
                    x <= w,
                    y < h,
                    bgra@.len() == gw * gh * 4,
                    self.rgba@.len() == gw * gh * 4,
                    gw * gh * 4 <= usize::MAX,
                    forall|i: int|
                        0 <= i < (y * gw + x) * 4 ==> #[trigger] self.rgba@[i] == flipped(
                            bgra@,
                            gw,
                            gh,
                            i,
                        ),
                decreases w - x,
            {
                proof {
                    lemma_flipped_pixel(bgra@, gw, gh, x as int, y as int, 0);
                    lemma_flipped_pixel(bgra@, gw, gh, x as int, y as int, 1);
                    lemma_flipped_pixel(bgra@, gw, gh, x as int, y as int, 2);
                    lemma_flipped_pixel(bgra@, gw, gh, x as int, y as int, 3);
                    lemma_flipped_pixel(bgra@, gw, gh, x as int, gh - 1 - y, 3);
                    assert(0 <= y * gw <= (y * gw + x) * 4) by (nonlinear_arith)
                        requires
                            0 <= y,
                            0 <= gw,
                            0 <= x,
                    ;
                    assert(0 <= (gh - 1 - y) * gw <= ((gh - 1 - y) * gw + x) * 4)
                        by (nonlinear_arith)
                        requires
                            0 <= gh - 1 - y,
                            0 <= gw,
                            0 <= x,
                    ;
                }
                let dst: usize = (y * w + x) * 4;
                let src: usize = ((h - 1 - y) * w + x) * 4;
                self.rgba.set(dst, bgra[src + 2]);
                self.rgba.set(dst + 1, bgra[src + 1]);
                self.rgba.set(dst + 2, bgra[src]);
                self.rgba.set(dst + 3, 255);
                x = x + 1;
            }
            proof {
                assert((y * gw + gw) * 4 == (y + 1) * gw * 4) by (nonlinear_arith);
            }
            y = y + 1;
        }
        proof {
            assert(gh * gw * 4 == gw * gh * 4) by (nonlinear_arith);
            assert(self.rgba@ =~= flipped_frame(bgra@, gw, gh));
        }
    }

    /// Turns a screen frame, which is bottom-up BGRA, into a GIF frame.
    pub fn write(&mut self, bgra: &[u8]) -> (frame: GifFrame)
        requires
            old(self).wf(),
            bgra@.len() == old(self).w * old(self).h * 4,
        ensures
            final(self).wf(),
            final(self).w == old(self).w,
            final(self).h == old(self).h,
            frame.width == old(self).w,
            frame.height == old(self).h,
            frame.delay == FRAME_DELAY,
            ({
                let rgba = flipped_frame(bgra@, old(self).w as int, old(self).h as int);
                &&& (frame.indices@, frame.palette@, frame.transparent) == quantized(
                    old(self).w as u16,
                    old(self).h as u16,
                    rgba,
                    QUANTIZER_SPEED,
                )
                &&& final(self).rgba@ == rgba
                &&& few_colors(rgba) ==> forall|x: int, y: int|
                    0 <= x < old(self).w && 0 <= y < old(self).h ==> shown_color(
                        frame,
                        x,
                        y,
                    ) == #[trigger] screen_color(
                        bgra@,
                        old(self).w as int,
                        old(self).h as int,
                        x,
                        y,
                    )
            }),
            frame.indices@.len() == old(self).w * old(self).h,
            frame.transparent is None,
    {
        self.convert(bgra);
        let ghost (w, h) = (self.w as int, self.h as int);
        let ghost rgba = self.rgba@;
        assert(all_opaque(rgba));
        let (width, height): (u16, u16) = (self.w as u16, self.h as u16);
        let mut scratch: Vec<u8> = Vec::new();
        std::mem::swap(&mut scratch, &mut self.rgba);
        let (indices, palette, transparent) = quantize(
            width,
            height,
            &mut scratch,
            QUANTIZER_SPEED,
        );
        self.rgba = scratch;
        let frame = GifFrame { width, height, delay: FRAME_DELAY, indices, palette, transparent };
        proof {
            if few_colors(rgba) {
                assert forall|x: int, y: int| 0 <= x < w && 0 <= y < h implies shown_color(
                    frame,
                    x,
                    y,
                ) == #[trigger] screen_color(bgra@, w, h, x, y) by {
                    let k = y * w + x;
                    lemma_flipped_pixel(bgra@, w, h, x, y, 0);
                    lemma_flipped_pixel(bgra@, w, h, x, y, 1);
                    lemma_flipped_pixel(bgra@, w, h, x, y, 2);
                    assert(0 <= k < w * h) by (nonlinear_arith)
                        requires
                            0 <= x < w,
                            0 <= y < h,
                            k == y * w + x,
                    ;
                    assert(color_at(rgba, k) == screen_color(bgra@, w, h, x, y));
                    assert(0 <= k < frame.indices@.len());
                    let i = 3 * frame.indices@[k];
                    assert((frame.palette@[i], frame.palette@[i + 1], frame.palette@[i + 2])
                        == color_at(rgba, k));
                }
            }
        }
        frame
    }
}

/// The colour that a frame shows at a pixel.
pub open spec fn shown_color(frame: GifFrame, x: int, y: int) -> (u8, u8, u8) {
    let i = 3 * frame.indices@[y * frame.width + x];
    (frame.palette@[i], frame.palette@[i + 1], frame.palette@[i + 2])
}

/// The frame shows the screen the right way up: its rows are those of the screen copy in
/// reverse order, red and blue have changed places, and alpha is full.
pub proof fn law_frame_is_screen_upside_down(bgra: Seq<u8>, w: int, h: int, x: int, y: int)
    requires
        0 <= x < w,
        0 <= y < h,
    ensures
        ({
            let rgba = flipped_frame(bgra, w, h);
            let (dst, src) = ((y * w + x) * 4, ((h - 1 - y) * w + x) * 4);
            &&& rgba.len() == w * h * 4
            &&& 0 <= dst && dst + 3 < rgba.len()
            &&& rgba[dst] == bgra[src + 2]
            &&& rgba[dst + 1] == bgra[src + 1]
            &&& rgba[dst + 2] == bgra[src]
            &&& rgba[dst + 3] == 255
        }),
{
    lemma_flipped_pixel(bgra, w, h, x, y, 0);
    lemma_flipped_pixel(bgra, w, h, x, y, 1);
    lemma_flipped_pixel(bgra, w, h, x, y, 2);
    lemma_flipped_pixel(bgra, w, h, x, y, 3);
}

/// A frame lasts 70 milliseconds, and colours are reduced a third of the way from best to
/// fastest.
pub proof fn law_frame_settings()
    ensures
        FRAME_DELAY * 10 == 70,
        3 * QUANTIZER_SPEED == 30,
{
}

} // verus!
