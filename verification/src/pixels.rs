//! Images in memory: 8-bit RGBA, row by row from the top.
use vstd::prelude::*;

verus! {

/// An RGBA image.
pub struct Image {
    pub width: u32,
    pub height: u32,
    pub data: Vec<u8>,
}

/// Number of bytes of an image of the given size.
pub open spec fn byte_len(width: int, height: int) -> int {
    width * height * 4
}

/// Where the bytes of the pixel at `x`, `y` begin in an image of the given width.
pub open spec fn offset(width: int, x: int, y: int) -> int {
    (y * width + x) * 4
}

impl Image {
    /// The buffer holds exactly the pixels.
    pub open spec fn wf(&self) -> bool {
        self.data@.len() == byte_len(self.width as int, self.height as int)
    }

    /// Channel `c` of the pixel at `x`, `y`.
    pub open spec fn channel(&self, x: int, y: int, c: int) -> u8 {
        self.data@[offset(self.width as int, x, y) + c]
    }

    /// Every pixel has full alpha.
    pub open spec fn opaque(&self) -> bool {
        forall|k: int| 0 <= k < self.data@.len() && k % 4 == 3 ==> self.data@[k] == 255
    }

    /// Wraps a buffer that already holds the pixels.
    pub fn from_raw(width: u32, height: u32, data: Vec<u8>) -> (res: Option<Image>)
        ensures
            res is Some <==> data@.len() == byte_len(width as int, height as int),
            res matches Some(img) ==> img.wf() && img.width == width && img.height == height
                && img.data == data,
    {
        assert(0 <= width * height <= u32::MAX * u32::MAX) by (nonlinear_arith)
            requires
                0 <= width <= u32::MAX,
                0 <= height <= u32::MAX,
        ;
        let area: u128 = width as u128 * height as u128;
        if data.len() as u128 == area * 4 {
            Some(Image { width, height, data })
        } else {
            None
        }
    }
}

/// The bytes of a pixel lie inside the buffer of its image.
pub proof fn lemma_offset_in_range(width: int, height: int, x: int, y: int)
    requires
        0 <= x < width,
        0 <= y < height,
    ensures
        0 <= offset(width, x, y),
        offset(width, x, y) + 4 <= byte_len(width, height),
        offset(width, x, y) % 4 == 0,
{
    assert(y * width + x + 1 <= height * width) by (nonlinear_arith)
        requires
            0 <= x < width,
            0 <= y < height,
    ;
    assert(0 <= y * width) by (nonlinear_arith)
        requires
            0 <= width,
            0 <= y,
    ;
    assert(height * width == width * height) by (nonlinear_arith);
}

/// Pixels stand one behind the other, four bytes each, and rows likewise: a row begins
/// where the one above it ends, and an image ends where its last row does.
pub proof fn law_pixels_stand_in_rows(width: int, x: int, y: int)
    ensures
        offset(width, 0, 0) == 0,
        offset(width, x + 1, y) == offset(width, x, y) + 4,
        offset(width, 0, y + 1) == offset(width, width, y),
        byte_len(width, y) == offset(width, 0, y),
{
    assert((y + 1) * width + 0 == y * width + width) by (nonlinear_arith);
    assert(0 * width + 0 == 0) by (nonlinear_arith);
    assert(width * y == y * width) by (nonlinear_arith);
}

/// A channel of a pixel is its byte among the four of that pixel, in the row of the pixel;
/// an image is opaque if the last of the four is full everywhere.
pub proof fn law_channels_of_pixels(img: Image, x: int, y: int, c: int)
    ensures
        img.channel(x, y, c) == img.data@[4 * (y * img.width + x) + c],
        img.wf() <==> img.data@.len() == 4 * (img.width * img.height),
        img.wf() && img.opaque() && 0 <= x < img.width && 0 <= y < img.height ==> img.channel(x, y, 3)
            == 255,
{
    if 0 <= x < img.width && 0 <= y < img.height {
        lemma_offset_in_range(img.width as int, img.height as int, x, y);
    }
}

} // verus!
