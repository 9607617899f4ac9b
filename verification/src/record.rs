//! The recorder: pacing of frames, stopping, and how a recording ends.
use vstd::prelude::*;

use crate::config::VideoFormat;

verus! {

/// How a recording ended.
pub enum RecorderMsg<P> {
    Done(P),
    Discarded,
    Failed(String),
}

/// What a running recording is told.
#[derive(Clone, Copy, PartialEq, Eq, Structural, Debug)]
pub enum Flag {
    Run,
    Save,
    Discard,
}

/// The control of a running recording: 0 runs, 1 stops and saves, 2 discards.
pub struct RecorderHandle {
    pub stop: u8,
}

/// What a control value means.
pub open spec fn meaning(stop: u8) -> Flag {
    if stop == 1 {
        Flag::Save
    } else if stop == 2 {
        Flag::Discard
    } else {
        Flag::Run
    }
}

impl RecorderHandle {
    /// The control of a recording that was just started.
    pub fn new() -> (handle: RecorderHandle)
        ensures
            meaning(handle.stop) == Flag::Run,
            handle.stop == 0,
    {
        RecorderHandle { stop: 0 }
    }

    /// Stops the recording and saves it.
    pub fn stop(&mut self)
        ensures
            meaning(final(self).stop) == Flag::Save,
            final(self).stop == 1,
    {
        self.stop = 1;
    }

    /// Stops the recording and throws it away.
    pub fn discard(&mut self)
        ensures
            meaning(final(self).stop) == Flag::Discard,
            final(self).stop == 2,
    {
        self.stop = 2;
    }
}

/// Time between two frames in nanoseconds: 30 frames a second, or 70 ms for a GIF, whose
/// frames are stamped with that delay.
pub open spec fn frame_nanos(format: VideoFormat) -> u64 {
    match format {
        VideoFormat::Mp4 => 33_333_333,
        VideoFormat::Gif => 70_000_000,
    }
}

/// Time between two frames in nanoseconds.
pub fn frame_duration(format: VideoFormat) -> (nanos: u64)
    ensures
        nanos == frame_nanos(format),
{
    match format {
        VideoFormat::Mp4 => 33_333_333,
        VideoFormat::Gif => 70_000_000,
    }
}

/// The pace of a GIF recording is the delay that its frames carry.
pub proof fn law_gif_pace_is_its_delay()
    ensures
        frame_nanos(VideoFormat::Gif) == crate::encode_gif::FRAME_DELAY * 10_000_000,
{
}

/// What the recorder does next.
#[derive(Clone, Copy, PartialEq, Eq, Structural, Debug)]
pub enum Step {
    /// Finish the file and move it to its place.
    Save,
    /// Finish the file and delete it.
    Discard,
    /// Wait for so many nanoseconds.
    Sleep { nanos: u64 },
    /// Capture a frame and write it with this timestamp in nanoseconds.
    Capture { timestamp: u64 },
}

/// When slot `n` begins.
pub open spec fn slot_time(frame: u64, n: int) -> int {
    frame * n
}

/// The slot that the time lies in.
pub open spec fn slot_at(frame: u64, elapsed: int) -> int {
    elapsed / frame as int
}

/// The constant-rate pacing of frames: frame n belongs at n times the frame duration.
///
/// Where capturing falls behind, slots are skipped, so timestamps stay real-time and
/// players hold the last frame; nothing drifts.
#[derive(Clone, Copy, PartialEq, Eq, Structural, Debug)]
pub struct Pacer {
    /// Frame duration in nanoseconds.
    pub frame: u64,
    /// The next slot.
    pub n: u64,
}

impl Pacer {
    /// The frame duration is that of a format.
    pub open spec fn wf(self) -> bool {
        self.frame == frame_nanos(VideoFormat::Mp4) || self.frame == frame_nanos(VideoFormat::Gif)
    }

    /// What to do when `elapsed` nanoseconds have passed since the start.
    pub open spec fn step(self, flag: Flag, elapsed: int) -> (Pacer, Step) {
        match flag {
            Flag::Save => (self, Step::Save),
            Flag::Discard => (self, Step::Discard),
            Flag::Run => {
                let slot = slot_at(self.frame, elapsed);
                if slot < self.n {
                    let wait = slot_time(self.frame, self.n as int) - elapsed;
                    (
                        self,
                        Step::Sleep {
                            nanos: (if wait < 10_000_000 {
                                wait
                            } else {
                                10_000_000
                            }) as u64,
                        },
                    )
                } else {
                    (
                        Pacer { n: (slot + 1) as u64, ..self },
                        Step::Capture { timestamp: slot_time(self.frame, slot) as u64 },
                    )
                }
            },
        }
    }

    /// The pacing of a recording in the given format.
    pub fn new(format: VideoFormat) -> (p: Pacer)
        ensures
            p.wf(),
            p.frame == frame_nanos(format),
            p.n == 0,
    {
        Pacer { frame: frame_duration(format), n: 0 }
    }

    /// Decides what to do when `elapsed` nanoseconds have passed since the start.  Waiting
    /// is done in short naps, so that a stop is seen quickly.
    pub fn next(&mut self, flag: Flag, elapsed: u64) -> (step: Step)
        requires
            old(self).wf(),
        ensures
            final(self).wf(),
            (*final(self), step) == old(self).step(flag, elapsed as int),
    {
        match flag {
            Flag::Save => Step::Save,
            Flag::Discard => Step::Discard,
            Flag::Run => {
                let slot: u64 = elapsed / self.frame;
                proof {
                    lemma_slot_bounds(self.frame as int, elapsed as int);
                    lemma_slots_in_order(self.frame as int, slot + 1, self.n as int);
                }
                if slot < self.n {
                    assert(self.frame * self.n <= 70_000_000 * u64::MAX) by (nonlinear_arith)
                        requires
                            0 <= self.frame <= 70_000_000,
                            0 <= self.n <= u64::MAX,
                    ;
                    let due: u128 = self.frame as u128 * self.n as u128;
                    let wait: u128 = due - elapsed as u128;
                    Step::Sleep {
                        nanos: if wait < 10_000_000 {
                            wait as u64
                        } else {
                            10_000_000
                        },
                    }
                } else {
                    assert(slot < u64::MAX) by (nonlinear_arith)
                        requires
                            self.frame * slot <= u64::MAX,
                            2 <= self.frame,
                            0 <= slot,
                    ;
                    let timestamp: u64 = self.frame * slot;
                    self.n = slot + 1;
                    Step::Capture { timestamp }
                }
            },
        }
    }
}

/// A recorder that was paced from its start has not run ahead of the clock.
pub open spec fn paced(p: Pacer, elapsed: int) -> bool {
    &&& p.wf()
    &&& 0 <= elapsed <= u64::MAX
    &&& p.n == 0 || p.n - 1 <= slot_at(p.frame, elapsed)
}

proof fn lemma_slot_bounds(frame: int, t: int)
    requires
        0 < frame,
        0 <= t,
    ensures
        frame * (t / frame) <= t < frame * (t / frame + 1),
        frame * (t / frame + 1) == frame * (t / frame) + frame,
        0 <= t / frame <= t,
        0 <= frame * (t / frame),
{
    vstd::arithmetic::div_mod::lemma_fundamental_div_mod(t, frame);
    assert(frame * (t / frame + 1) == frame * (t / frame) + frame) by (nonlinear_arith);
    assert(0 <= t / frame <= t) by (nonlinear_arith)
        requires
            0 < frame,
            0 <= t,
    ;
    assert(0 <= frame * (t / frame)) by (nonlinear_arith)
        requires
            0 < frame,
            0 <= t / frame,
    ;
}

proof fn lemma_slots_in_order(frame: int, i: int, j: int)
    requires
        0 <= frame,
    ensures
        i <= j ==> frame * i <= frame * j,
{
    if i <= j {
        assert(frame * i <= frame * j) by (nonlinear_arith)
            requires
                0 <= frame,
                i <= j,
        ;
    }
}

/// A frame is stamped with the begin of the slot in which it is captured: the timestamp is
/// never in the future, and never a whole frame duration old.
pub proof fn law_timestamps_are_real_time(p: Pacer, elapsed: int)
    requires
        p.wf(),
        0 <= elapsed <= u64::MAX,
    ensures
        p.step(Flag::Run, elapsed).1 matches Step::Capture { timestamp } ==> timestamp <= elapsed
            < timestamp + p.frame,
{
    lemma_slot_bounds(p.frame as int, elapsed);
}

/// The recorder never captures twice in one slot: the next slot is in the future then, and
/// waiting ends by the time it begins.
pub proof fn law_one_frame_per_slot(p: Pacer, elapsed: int, later: int)
    requires
        p.wf(),
        0 <= elapsed <= later <= u64::MAX,
    ensures
        ({
            let (q, first) = p.step(Flag::Run, elapsed);
            let second = q.step(Flag::Run, later).1;
            &&& first matches Step::Capture { timestamp: a } ==> (second matches Step::Capture {
                timestamp: b,
            } ==> a + p.frame <= b)
            &&& second matches Step::Sleep { nanos } ==> 0 < nanos <= 10_000_000 && later
                + nanos <= slot_time(q.frame, q.n as int)
        }),
{
    let (q, first) = p.step(Flag::Run, elapsed);
    let (i, j) = (slot_at(p.frame, elapsed), slot_at(p.frame, later));
    lemma_slot_bounds(p.frame as int, elapsed);
    lemma_slot_bounds(p.frame as int, later);
    lemma_slots_in_order(p.frame as int, i + 1, j);
    lemma_slots_in_order(p.frame as int, j + 1, q.n as int);
}

/// A paced recorder stays paced, however late the next decision comes.
pub proof fn law_recorder_stays_paced(p: Pacer, elapsed: int, later: int)
    requires
        paced(p, elapsed),
        elapsed <= later <= u64::MAX,
    ensures
        paced(p.step(Flag::Run, elapsed).0, later),
{
    lemma_slot_bounds(p.frame as int, elapsed);
    vstd::arithmetic::div_mod::lemma_div_is_ordered(elapsed, later, p.frame as int);
}

/// The recorder obeys a stop at once, whatever the time.
pub proof fn law_stop_is_obeyed(p: Pacer, elapsed: int)
    ensures
        p.step(meaning(1), elapsed) == (p, Step::Save),
        p.step(meaning(2), elapsed) == (p, Step::Discard),
{
}

/// What a control value tells a running recording.
pub fn flag_of(stop: u8) -> (flag: Flag)
    ensures
        flag == meaning(stop),
{
    if stop == 1 {
        Flag::Save
    } else if stop == 2 {
        Flag::Discard
    } else {
        Flag::Run
    }
}

/// What a recording that was told to end comes to: `done` is what became of finishing the
/// file and moving it to its place.
pub open spec fn settled<P>(flag: Flag, done: Result<P, String>) -> Result<Option<P>, String> {
    match (flag, done) {
        (Flag::Discard, _) => Ok(None),
        (_, Ok(path)) => Ok(Some(path)),
        (_, Err(e)) => Err(e),
    }
}

/// What a recording that was told to end comes to.  Where it is thrown away, it does not
/// matter whether the file could be finished.
pub fn settle<P>(flag: Flag, done: Result<P, String>) -> (result: Result<Option<P>, String>)
    ensures
        result == settled(flag, done),
{
    match flag {
        Flag::Discard => Ok(None),
        _ => match done {
            Ok(path) => Ok(Some(path)),
            Err(e) => Err(e),
        },
    }
}

/// How a recording ends, and whether its temporary file has to be deleted.
pub open spec fn concluded<P>(result: Result<Option<P>, String>) -> (RecorderMsg<P>, bool) {
    match result {
        Ok(Some(path)) => (RecorderMsg::Done(path), false),
        Ok(None) => (RecorderMsg::Discarded, true),
        Err(e) => (RecorderMsg::Failed(e), true),
    }
}

/// How a recording ends, and whether its temporary file has to be deleted.  A recording
/// that was saved has already moved its file.
pub fn conclude<P>(result: Result<Option<P>, String>) -> (res: (RecorderMsg<P>, bool))
    ensures
        res == concluded(result),
{
    match result {
        Ok(Some(path)) => (RecorderMsg::Done(path), false),
        Ok(None) => (RecorderMsg::Discarded, true),
        Err(e) => (RecorderMsg::Failed(e), true),
    }
}

/// A recording that is discarded, even after a stop that it has not seen, takes no further
/// frame, ends as discarded, and has its temporary file deleted, whatever became of
/// finishing it.
pub proof fn law_discard_leaves_nothing<P>(
    handle: RecorderHandle,
    p: Pacer,
    elapsed: int,
    done: Result<P, String>,
)
    requires
        meaning(handle.stop) == Flag::Discard,
    ensures
        p.step(meaning(handle.stop), elapsed) == (p, Step::Discard),
        concluded(settled(meaning(handle.stop), done)) == (RecorderMsg::<P>::Discarded, true),
{
}

/// A recorder that is told to run never ends the recording: it captures exactly when the
/// next slot has begun, and waits otherwise.  A captured frame is stamped with the begin of
/// the slot that the time lies in, and the slot after it comes next; waiting changes
/// nothing, and takes until the next slot begins, but ten milliseconds at most.
pub proof fn law_running_recorder_captures_or_waits(p: Pacer, elapsed: int)
    requires
        p.wf(),
        0 <= elapsed <= u64::MAX,
    ensures
        ({
            let (q, step) = p.step(Flag::Run, elapsed);
            let begins = p.frame * p.n;
            &&& q.frame == p.frame
            &&& begins <= elapsed ==> (step matches Step::Capture { timestamp } && timestamp
                <= elapsed < timestamp + p.frame && timestamp == p.frame * (q.n - 1) && q.n > p.n)
            &&& begins > elapsed ==> q.n == p.n && (step matches Step::Sleep { nanos } && nanos > 0
                && nanos <= begins - elapsed && nanos <= 10_000_000 && (elapsed + nanos == begins
                || nanos == 10_000_000))
        }),
{
    let (frame, n) = (p.frame as int, p.n as int);
    let slot = slot_at(p.frame, elapsed);
    lemma_slot_bounds(frame, elapsed);
    lemma_slots_in_order(frame, n, slot);
    lemma_slots_in_order(frame, slot + 1, n);
    assert(slot + 1 <= u64::MAX) by (nonlinear_arith)
        requires
            slot == elapsed / frame,
            frame >= 2,
            0 <= elapsed <= u64::MAX,
    ;
}

/// An MP4 recording has thirty frames a second, and a GIF recording one in 70 milliseconds.
pub proof fn law_frame_rates()
    ensures
        30 * frame_nanos(VideoFormat::Mp4) <= 1_000_000_000 < 30 * (frame_nanos(VideoFormat::Mp4)
            + 1),
        frame_nanos(VideoFormat::Gif) == 70 * 1_000_000,
{
}

/// Only the control value 1 saves a recording and only 2 discards it; a recording is told
/// to end by no other.
pub proof fn law_control_values(stop: u8, p: Pacer, elapsed: int)
    ensures
        meaning(stop) == Flag::Save <==> stop == 1,
        meaning(stop) == Flag::Discard <==> stop == 2,
        p.step(meaning(stop), elapsed).1 is Save <==> stop == 1,
        p.step(meaning(stop), elapsed).1 is Discard <==> stop == 2,
{
}

/// A recording that is stopped is done where its file could be finished, which then stays;
/// it has failed, with the reason, where it could not, and the temporary file is deleted.
pub proof fn law_stop_keeps_recording<P>(done: Result<P, String>)
    ensures
        ({
            let (msg, delete) = concluded(settled(Flag::Save, done));
            &&& done matches Ok(path) ==> msg == RecorderMsg::Done(path) && !delete
            &&& done matches Err(e) ==> msg == RecorderMsg::<P>::Failed(e) && delete
        }),
{
}

} // verus!
