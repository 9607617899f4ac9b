//! Monitor images: from what the system hands over to frozen screenshots.
use vstd::prelude::*;

use crate::pixels::Image;

verus! {

/// The edges of a monitor on the virtual screen, as the system reports them.
#[derive(Clone, Copy, PartialEq, Eq, Structural, Debug)]
pub struct Bounds {
    pub left: i32,
    pub top: i32,
    pub right: i32,
    pub bottom: i32,
}

/// The frozen image of one monitor.
pub struct MonitorShot {
    /// x, y, w, h in physical virtual-screen pixels.
    pub rect: (i32, i32, i32, i32),
    pub image: Image,
}

/// Why a screen could not be captured.
#[derive(Clone, Copy, PartialEq, Eq, Structural, Debug)]
pub enum CaptureError {
    NoMonitors,
    /// The screen could not be opened.
    NoScreen,
    /// The screen could not be copied.
    CopyFailed,
    /// The copy could not be read.
    ReadFailed,
}

impl Bounds {
    /// The sides fit the type of the edges.
    pub open spec fn wf(self) -> bool {
        &&& i32::MIN <= self.right - self.left <= i32::MAX
        &&& i32::MIN <= self.bottom - self.top <= i32::MAX
    }

    /// x, y, w, h.
    pub open spec fn rect(self) -> (i32, i32, i32, i32) {
        (
            self.left,
            self.top,
            (self.right - self.left) as i32,
            (self.bottom - self.top) as i32,
        )
    }

    /// x, y, w, h.
    pub fn to_rect(&self) -> (r: (i32, i32, i32, i32))
        requires
            self.wf(),
        ensures
            r == self.rect(),
    {
        (self.left, self.top, self.right - self.left, self.bottom - self.top)
    }
}

/// The monitors as x, y, w, h in physical virtual-screen pixels.
pub fn monitor_rects(monitors: &Vec<Bounds>) -> (rects: Vec<(i32, i32, i32, i32)>)
    requires
        forall|k: int| 0 <= k < monitors@.len() ==> (#[trigger] monitors@[k]).wf(),
    ensures
        rects@ == monitors@.map_values(|b: Bounds| b.rect()),
{
    let mut rects: Vec<(i32, i32, i32, i32)> = Vec::new();
    let n: usize = monitors.len();
    for k in 0..n
        invariant
            n == monitors@.len(),
            forall|k: int| 0 <= k < monitors@.len() ==> (#[trigger] monitors@[k]).wf(),
            rects@ == monitors@.take(k as int).map_values(|b: Bounds| b.rect()),
    {
        assert(monitors@[k as int].wf());
        rects.push(monitors[k].to_rect());
        assert(rects@ =~= monitors@.take(k + 1).map_values(|b: Bounds| b.rect()));
    }
    assert(monitors@.take(n as int) =~= monitors@);
    rects
}

/// Number of bytes of a 32-bit bitmap of the given size.
pub fn bitmap_len(w: i32, h: i32) -> (len: usize)
    requires
        0 <= w,
        0 <= h,
        crate::pixels::byte_len(w as int, h as int) <= usize::MAX,
    ensures
        len == crate::pixels::byte_len(w as int, h as int),
{
    assert(0 <= w * h <= w * h * 4) by (nonlinear_arith)
        requires
            0 <= w,
            0 <= h,
    ;
    w as usize * h as usize * 4
}

/// Byte `i` of a screen copy as an image: blue and red change places, and alpha is full.
/// Bytes after the last whole pixel stay.
pub open spec fn opaque_rgba(bgra: Seq<u8>, i: int) -> u8 {
    if i >= bgra.len() - bgra.len() % 4 {
        bgra[i]
    } else if i % 4 == 0 {
        bgra[i + 2]
    } else if i % 4 == 2 {
        bgra[i - 2]
    } else if i % 4 == 3 {
        255
    } else {
        bgra[i]
    }
}

/// Turns a screen copy, which holds blue before red and no alpha, into image data.
pub fn bgra_to_rgba(bgra: Vec<u8>) -> (rgba: Vec<u8>)
    ensures
        rgba@ == Seq::new(bgra@.len(), |i: int| opaque_rgba(bgra@, i)),
{
    let ghost before = bgra@;
    let mut data: Vec<u8> = bgra;
    let n: usize = data.len() / 4;
    for k in 0..n
        invariant
            data@.len() == before.len(),
            n == before.len() / 4,
            before.len() <= usize::MAX,
            forall|i: int| 0 <= i < 4 * k ==> data@[i] == opaque_rgba(before, i),
            forall|i: int| 4 * k <= i < before.len() ==> data@[i] == before[i],
    {
        let at: usize = 4 * k;
        let blue: u8 = data[at];
        let red: u8 = data[at + 2];
        data.set(at, red);
        data.set(at + 2, blue);
        data.set(at + 3, 255);
    }
    assert(data@ =~= Seq::new(before.len(), |i: int| opaque_rgba(before, i)));
    data
}

/// Turns the copy of a monitor into its frozen image.  `copied` tells whether the screen
/// was copied, and `lines` how many rows were read back into `bgra`.
pub fn capture_monitor(
    bounds: Bounds,
    copied: bool,
    lines: i32,
    bgra: Vec<u8>,
) -> (res: Result<MonitorShot, CaptureError>)
    requires
        bounds.wf(),
        bounds.left <= bounds.right,
        bounds.top <= bounds.bottom,
        bgra@.len() == crate::pixels::byte_len(
            bounds.right - bounds.left,
            bounds.bottom - bounds.top,
        ),
    ensures
        match res {
            Err(e) => (!copied && e == CaptureError::CopyFailed) || (copied && lines == 0 && e
                == CaptureError::ReadFailed),
            Ok(shot) => {
                &&& copied && lines != 0
                &&& shot.rect == bounds.rect()
                &&& shot.image.wf()
                &&& shot.image.opaque()
                &&& shot.image.width == bounds.right - bounds.left
                &&& shot.image.height == bounds.bottom - bounds.top
                &&& shot.image.data@ == Seq::new(
                    bgra@.len(),
                    |i: int| opaque_rgba(bgra@, i),
                )
            },
        },
{
    if !copied {
        return Err(CaptureError::CopyFailed);
    }
    if lines == 0 {
        return Err(CaptureError::ReadFailed);
    }
    let rect: (i32, i32, i32, i32) = bounds.to_rect();
    let ghost before = bgra@;
    let data: Vec<u8> = bgra_to_rgba(bgra);
    assert(before.len() % 4 == 0) by {
        let area = (bounds.right - bounds.left) * (bounds.bottom - bounds.top);
        assert(before.len() == area * 4);
    }
    let image = Image { width: rect.2 as u32, height: rect.3 as u32, data };
    assert(image.opaque());
    Ok(MonitorShot { rect, image })
}

/// The images of all monitors, or the first failure among them.
pub open spec fn gathered(
    results: Seq<Result<MonitorShot, CaptureError>>,
    res: Result<Vec<MonitorShot>, CaptureError>,
) -> bool {
    if results.len() == 0 {
        res == Err::<Vec<MonitorShot>, _>(CaptureError::NoMonitors)
    } else {
        match res {
            Ok(shots) => shots@.len() == results.len() && forall|k: int|
                0 <= k < results.len() ==> #[trigger] results[k] == Ok::<_, CaptureError>(
                    shots@[k],
                ),
            Err(e) => exists|k: int|
                0 <= k < results.len() && #[trigger] results[k] == Err::<MonitorShot, _>(e)
                    && forall|j: int| 0 <= j < k ==> (#[trigger] results[j]) is Ok,
        }
    }
}

/// Makes one capture out of what became of each monitor.
pub trait ScreenCapturer {
    fn capture_all(
        &self,
        results: Vec<Result<MonitorShot, CaptureError>>,
    ) -> (res: Result<Vec<MonitorShot>, CaptureError>)
        ensures
            gathered(results@, res),
    ;
}

/// Captures through copies of the screen, one for each monitor.
pub struct GdiCapturer;

impl ScreenCapturer for GdiCapturer {
    fn capture_all(
        &self,
        results: Vec<Result<MonitorShot, CaptureError>>,
    ) -> (res: Result<Vec<MonitorShot>, CaptureError>) {
        if results.len() == 0 {
            return Err(CaptureError::NoMonitors);
        }
        let ghost all = results@;
        let mut rest = results;
        let mut shots: Vec<MonitorShot> = Vec::new();
        while rest.len() > 0
            invariant
                all == results@,
                all.len() > 0,
                shots@.len() + rest@.len() == all.len(),
                rest@ == all.skip(shots@.len() as int),
                forall|k: int|
                    0 <= k < shots@.len() ==> #[trigger] all[k] == Ok::<_, CaptureError>(shots@[k]),
            decreases rest@.len(),
        {
            let ghost at = shots@.len() as int;
            let first = rest.remove(0);
            assert(first == all[at]);
            assert(rest@ =~= all.skip(at + 1));
            match first {
                Ok(shot) => {
                    shots.push(shot);
                },
                Err(e) => {
                    assert(all[at] == Err::<MonitorShot, _>(e));
                    return Err(e);
                },
            }
        }
        Ok(shots)
    }
}

/// The image type of the window library, which is handed on to the graphics card.
#[verifier::external_type_specification]
#[verifier::external_body]
pub struct ExColorImage(egui::ColorImage);

/// The texels of an [`egui::ColorImage`], row by row from the top: red, green, blue, alpha.
pub uninterp spec fn texels(image: egui::ColorImage) -> Seq<(u8, u8, u8, u8)>;

/// Width and height of an [`egui::ColorImage`].
pub uninterp spec fn texture_size(image: egui::ColorImage) -> (usize, usize);

/// Calls `egui::ColorImage::from_rgba_unmultiplied`.  Claims that the image has the given
/// size and one texel per pixel, and that a pixel with full alpha is taken over as it is.
/// What becomes of other pixels is left unsaid: their colours are scaled by alpha through
/// a table.
#[verifier::external_body]
fn color_image(width: usize, height: usize, rgba: &[u8]) -> (image: egui::ColorImage)
    requires
        rgba@.len() == crate::pixels::byte_len(width as int, height as int),
    ensures
        texture_size(image) == (width, height),
        texels(image).len() == width * height,
        forall|k: int|
            0 <= k < width * height && rgba@[4 * k + 3] == 255 ==> #[trigger] texels(image)[k] == (
                rgba@[4 * k],
                rgba@[4 * k + 1],
                rgba@[4 * k + 2],
                255u8,
            ),
{
    egui::ColorImage::from_rgba_unmultiplied([width, height], rgba)
}

/// The frozen image as the windows show it: pixel for pixel what was captured.
pub fn frozen_texture(image: &Image) -> (texture: egui::ColorImage)
    requires
        image.wf(),
    ensures
        texture_size(texture) == (image.width as usize, image.height as usize),
        texels(texture).len() == image.width * image.height,
        image.opaque() ==> forall|k: int|
            0 <= k < image.width * image.height ==> #[trigger] texels(texture)[k] == (
                image.data@[4 * k],
                image.data@[4 * k + 1],
                image.data@[4 * k + 2],
                255u8,
            ),
{
    color_image(image.width as usize, image.height as usize, image.data.as_slice())
}

/// In an image, blue and red of each pixel of the screen copy have changed places, green is
/// where it was and alpha is full; bytes after the last whole pixel stay.
pub proof fn law_copy_exchanges_blue_and_red(bgra: Seq<u8>, k: int, i: int)
    requires
        0 <= k && 4 * k + 3 < bgra.len(),
        bgra.len() - bgra.len() % 4 <= i < bgra.len(),
    ensures
        opaque_rgba(bgra, 4 * k) == bgra[4 * k + 2],
        opaque_rgba(bgra, 4 * k + 1) == bgra[4 * k + 1],
        opaque_rgba(bgra, 4 * k + 2) == bgra[4 * k],
        opaque_rgba(bgra, 4 * k + 3) == 255,
        opaque_rgba(bgra, i) == bgra[i],
{
}

/// The same, where the copy holds whole pixels only.
pub proof fn law_whole_copy_exchanges_blue_and_red(bgra: Seq<u8>, k: int)
    requires
        bgra.len() % 4 == 0,
        0 <= k && 4 * k + 3 < bgra.len(),
    ensures
        opaque_rgba(bgra, 4 * k) == bgra[4 * k + 2],
        opaque_rgba(bgra, 4 * k + 1) == bgra[4 * k + 1],
        opaque_rgba(bgra, 4 * k + 2) == bgra[4 * k],
        opaque_rgba(bgra, 4 * k + 3) == 255,
{
}

/// A monitor begins at its left and top edges and reaches to its right and bottom edges.
pub proof fn law_monitor_reaches_its_edges(b: Bounds)
    requires
        b.wf(),
    ensures
        ({
            let (x, y, w, h) = b.rect();
            &&& x == b.left && y == b.top
            &&& x + w == b.right && y + h == b.bottom
        }),
{
}

/// A capture has the image of every monitor in the order of the monitors; it fails with the
/// first failure if there is one, and for want of monitors if there are none.
pub proof fn law_first_failure_counts(
    results: Seq<Result<MonitorShot, CaptureError>>,
    res: Result<Vec<MonitorShot>, CaptureError>,
    k: int,
)
    requires
        gathered(results, res),
    ensures
        results.len() == 0 ==> res == Err::<Vec<MonitorShot>, _>(CaptureError::NoMonitors),
        0 <= k < results.len() && results[k] is Err && (forall|j: int|
            0 <= j < k ==> (#[trigger] results[j]) is Ok) ==> res == Err::<Vec<MonitorShot>, _>(
            results[k]->Err_0,
        ),
        results.len() > 0 && (forall|j: int|
            0 <= j < results.len() ==> (#[trigger] results[j]) is Ok) ==> res is Ok
            && res->Ok_0@.len() == results.len() && (0 <= k < results.len() ==> res->Ok_0@[k]
            == results[k]->Ok_0),
{
    if 0 <= k < results.len() {
        assert(results[k] is Ok || results[k] is Err);
        if let Err(e) = res {
            if results.len() > 0 {
                let j = choose|j: int|
                    0 <= j < results.len() && #[trigger] results[j] == Err::<MonitorShot, _>(e)
                        && forall|i: int| 0 <= i < j ==> (#[trigger] results[i]) is Ok;
                assert(results[j] is Err);
            }
        }
    }
    if results.len() > 0 {
        if let Err(e) = res {
            let j = choose|j: int|
                0 <= j < results.len() && #[trigger] results[j] == Err::<MonitorShot, _>(e);
            assert(results[j] is Err);
        }
    }
}

} // verus!
