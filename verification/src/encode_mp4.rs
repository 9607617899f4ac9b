//! Parameters of an MP4 recording.
use vstd::prelude::*;

verus! {

/// Frames per second of an MP4 recording.
pub const FRAME_RATE: u32 = 30;

/// Bits per second for frames of the given size: three per pixel, but at least two
/// million.
pub open spec fn bits_per_second(w: int, h: int) -> int {
    if w * h * 3 > 2_000_000 {
        w * h * 3
    } else {
        2_000_000
    }
}

/// Bits per second for frames of the given size.
fn bitrate(w: u32, h: u32) -> (rate: u32)
    requires
        w * h * 3 <= u32::MAX,
    ensures
        rate == bits_per_second(w as int, h as int),
{
    assert(0 <= w * h <= w * h * 3) by (nonlinear_arith)
        requires
            0 <= w,
            0 <= h,
    ;
    let rate: u32 = w * h * 3;
    if rate > 2_000_000 {
        rate
    } else {
        2_000_000
    }
}

/// The frame sink of an MP4 recording: what its encoder is set to.
#[derive(Clone, Copy, PartialEq, Eq, Structural, Debug)]
pub struct Mp4Sink {
    pub width: u32,
    pub height: u32,
    pub frame_rate: u32,
    pub bitrate: u32,
}

impl Mp4Sink {
    /// A sink for frames of the given size.
    pub fn new(w: u32, h: u32) -> (sink: Mp4Sink)
        requires
            w * h * 3 <= u32::MAX,
        ensures
            sink.width == w,
            sink.height == h,
            sink.frame_rate == FRAME_RATE,
            sink.bitrate == bits_per_second(w as int, h as int),
    {
        Mp4Sink { width: w, height: h, frame_rate: FRAME_RATE, bitrate: bitrate(w, h) }
    }

    /// The timestamp of a frame in the ticks of the encoder, which are 100 ns, rounded
    /// down.
    pub fn write(&self, nanos: u64) -> (ticks: i64)
        requires
            nanos <= i64::MAX,
        ensures
            ticks == nanos as int / 100,
    {
        nanos as i64 / 100
    }
}

/// Every region whose sides fit 16 signed bits has a bit rate.
pub proof fn law_every_screen_has_bitrate(w: u32, h: u32)
    requires
        w <= 32767,
        h <= 32767,
    ensures
        w * h * 3 <= u32::MAX,
        bits_per_second(w as int, h as int) <= u32::MAX,
{
    assert(w * h * 3 <= 32767 * 32767 * 3) by (nonlinear_arith)
        requires
            0 <= w <= 32767,
            0 <= h <= 32767,
    ;
}

/// Different frames of a recording have different ticks.
pub proof fn law_ticks_keep_frames_apart(a: u64, b: u64)
    requires
        a + 33_333_333 <= b,
    ensures
        a as int / 100 < b as int / 100,
{
}

/// The bit rate is the greater of three bits for each pixel and two million.
pub proof fn law_bitrate_grows_with_pixels(w: int, h: int)
    ensures
        ({
            let rate = bits_per_second(w, h);
            &&& rate >= 2_000_000 && rate >= 3 * (w * h)
            &&& rate == 2_000_000 || rate == 3 * (w * h)
        }),
{
}

/// The encoder expects as many frames a second as the recorder takes.
pub proof fn law_encoder_rate_is_pace()
    ensures
        ({
            let frame = crate::record::frame_nanos(crate::config::VideoFormat::Mp4);
            FRAME_RATE * frame <= 1_000_000_000 < FRAME_RATE * (frame + 1)
        }),
{
}

} // verus!
