//! What the program does: captures, the region picker, and recordings.
//!
//! At most one of them is under way at a time.  The functions here take what happened,
//! change the state of the program, and tell what the system has to be asked for.
use vstd::prelude::*;

use crate::capture::MonitorShot;
use crate::config::{Settings, VideoFormat};
use crate::export::{drawings, render, Crop};
use crate::geom::{Pos2, Rect};
use crate::marks::{Annotation, Outcome, Selection};
use crate::overlay::Overlay;
use crate::picker::{Action, Picker};
use crate::record::{RecorderHandle, RecorderMsg};

verus! {

/// What a hotkey, the tray icon or its menu asks of the program.
#[derive(Clone, Copy, PartialEq, Eq, Structural, Debug)]
pub enum AppMsg {
    Capture { video: bool },
    OpenFolder,
    ToggleAutostart,
    Quit,
}

/// What a message asks of the system.
#[derive(Clone, Copy, PartialEq, Eq, Structural, Debug)]
pub enum Command {
    Nothing,
    /// The recording is told to stop and save.
    StopRecording,
    /// The windows of the picker go away.
    ClosePicker,
    /// A picker opens, if the system can show one.
    OpenPicker,
    /// All monitors are captured; first, if `flush`, the windows of the picker go away and
    /// the screen is composed without them.
    TakeShots { flush: bool },
    OpenFolder,
    /// The entry among the programs that start with the system is brought in line, the
    /// settings are saved, and the menu shows the new value.
    SetAutostart { enabled: bool },
    Quit,
}

/// What is under way.
#[derive(Clone, Copy, PartialEq, Eq, Structural, Debug)]
pub enum Mode {
    Idle,
    /// The screen is frozen for a screenshot.
    Frozen,
    /// A region is picked for a recording.
    Picking,
    Recording,
}

/// A recording under way.
pub struct Recording {
    pub handle: RecorderHandle,
    /// x, y, w, h in physical virtual-screen pixels.
    pub region: (i32, i32, u32, u32),
    pub monitor: usize,
    /// The pill is kept out of the recording.
    pub affinity_set: bool,
    /// The frame is kept out of the recording.
    pub border_affinity_set: bool,
}

/// A recording to start.
#[derive(Clone, Copy, PartialEq, Eq, Debug)]
pub struct Start {
    pub region: (i32, i32, u32, u32),
    pub format: VideoFormat,
}

/// What happened to the picker.
pub enum PickerStep {
    Nothing,
    /// The windows of the picker go away.
    Closed,
    /// The windows of the picker go away, and the recording starts.
    Started(Start),
}

/// What the end of a recording asks of the system.
pub enum Ended<P> {
    /// No recording ended.
    Nothing,
    /// The file goes to the clipboard.
    Copy(P),
    Discarded,
    /// The user is told.
    Failed(String),
}

/// What the end of a capture asks of the system.
pub enum Export {
    /// The capture was cancelled.
    Nothing,
    /// The user is told that nothing is selected.
    NoSelection,
    /// The user is told that the selection does not fit a canvas.
    TooWide,
    /// The annotations are drawn onto the canvas, which becomes the exported image.
    Draw { canvas: tiny_skia::Pixmap, crop: Crop, annotations: Vec<Annotation> },
}

/// The program.
pub struct GlimtApp {
    pub settings: Settings,
    pub overlay: Overlay,
    pub picker: Option<Picker>,
    pub recording: Option<Recording>,
    pub warmup_frames: u8,
}

/// Number of frames that are drawn at startup, so that the overlay windows exist and
/// their scales are known before the first capture.
pub const WARMUP: u8 = 3;

/// What a message asks for, and what is under way after it.
pub open spec fn obeyed(mode: Mode, msg: AppMsg, settings: Settings) -> (Mode, Command) {
    match msg {
        AppMsg::Capture { video } => match mode {
            Mode::Recording => (mode, Command::StopRecording),
            Mode::Frozen => (mode, Command::Nothing),
            Mode::Picking => if video {
                (Mode::Idle, Command::ClosePicker)
            } else {
                (Mode::Idle, Command::TakeShots { flush: true })
            },
            Mode::Idle => if video {
                (mode, Command::OpenPicker)
            } else {
                (mode, Command::TakeShots { flush: false })
            },
        },
        AppMsg::OpenFolder => (mode, Command::OpenFolder),
        AppMsg::ToggleAutostart => (
            mode,
            Command::SetAutostart { enabled: !settings.autostart },
        ),
        AppMsg::Quit => (mode, Command::Quit),
    }
}

/// All images have pixels.
pub open spec fn have_pixels(shots: Seq<MonitorShot>) -> bool {
    forall|k: int|
        0 <= k < shots.len() ==> (#[trigger] shots[k]).image.width > 0 && shots[k].image.height
            > 0
}

impl GlimtApp {
    /// What is under way.
    pub open spec fn mode(&self) -> Mode {
        if self.recording is Some {
            Mode::Recording
        } else if self.overlay.cap is Some {
            Mode::Frozen
        } else if self.picker is Some {
            Mode::Picking
        } else {
            Mode::Idle
        }
    }

    /// What holds of the program at all times; at most one of a capture, a picker and a
    /// recording is under way.
    pub open spec fn wf(&self) -> bool {
        &&& self.overlay.wf()
        &&& self.overlay.cap matches Some(cap) ==> have_pixels(cap.shots())
        &&& self.picker matches Some(picker) ==> picker.wf()
        &&& !(self.overlay.cap is Some && self.picker is Some)
        &&& !(self.overlay.cap is Some && self.recording is Some)
        &&& !(self.picker is Some && self.recording is Some)
    }

    /// The region that is picked, and its monitor.
    pub open spec fn picked(&self) -> Option<((i32, i32, u32, u32), usize)> {
        match self.picker {
            Some(picker) => picker.state.region(),
            None => None,
        }
    }

    /// The recording of the picked region began.
    pub open spec fn began(&self, before: &GlimtApp, start: Start) -> bool {
        &&& before.picked() matches Some((region, monitor))
        &&& start.region == region
        &&& start.format == self.settings.video_format
        &&& self.picker is None
        &&& self.recording matches Some(rec)
        &&& rec.handle.stop == 0
        &&& rec.region == region
        &&& rec.monitor == monitor
        &&& !rec.affinity_set
        &&& !rec.border_affinity_set
        &&& self.settings == before.settings
        &&& self.overlay == before.overlay
        &&& self.warmup_frames == before.warmup_frames
    }

    /// The program at startup.
    pub fn new(settings: Settings, monitors: Vec<(i32, i32, i32, i32)>) -> (app: GlimtApp)
        ensures
            app.wf(),
            app.mode() == Mode::Idle,
            app.settings == settings,
            app.overlay.monitors@ == monitors@,
            app.overlay.scales@ == Seq::new(monitors@.len(), |k: int| None::<u32>),
            !app.overlay.animations_disabled,
            app.warmup_frames == 0,
    {
        GlimtApp {
            settings,
            overlay: Overlay::new(monitors),
            picker: None,
            recording: None,
            warmup_frames: 0,
        }
    }

    /// A frame begins; tells whether another one has to follow at once.
    pub fn warm_up(&mut self) -> (repaint: bool)
        ensures
            repaint == (old(self).warmup_frames < WARMUP),
            *final(self) == (GlimtApp {
                warmup_frames: if repaint {
                    (old(self).warmup_frames + 1) as u8
                } else {
                    old(self).warmup_frames
                },
                ..*old(self)
            }),
    {
        if self.warmup_frames < WARMUP {
            self.warmup_frames = self.warmup_frames + 1;
            true
        } else {
            false
        }
    }

    /// Looks at what the recorder said.
    pub fn poll_recorder<P>(&mut self, msg: Option<RecorderMsg<P>>) -> (ended: Ended<P>)
        ensures
            old(self).wf() ==> final(self).wf(),
            match (old(self).recording, msg) {
                (Some(_), Some(m)) => {
                    &&& *final(self) == (GlimtApp { recording: None, ..*old(self) })
                    &&& ended == (match m {
                        RecorderMsg::Done(path) => Ended::Copy(path),
                        RecorderMsg::Discarded => Ended::Discarded,
                        RecorderMsg::Failed(e) => Ended::Failed(e),
                    })
                },
                _ => *final(self) == *old(self) && ended is Nothing,
            },
    {
        if self.recording.is_none() {
            return Ended::Nothing;
        }
        match msg {
            None => Ended::Nothing,
            Some(m) => {
                self.recording = None;
                match m {
                    RecorderMsg::Done(path) => Ended::Copy(path),
                    RecorderMsg::Discarded => Ended::Discarded,
                    RecorderMsg::Failed(e) => Ended::Failed(e),
                }
            },
        }
    }

    /// Closes the picker and starts recording the region that it holds, if it holds one.
    pub fn start_picker_recording(&mut self) -> (start: Option<Start>)
        requires
            old(self).wf(),
        ensures
            final(self).wf(),
            match start {
                Some(start) => final(self).began(old(self), start),
                None => old(self).picked() is None && *final(self) == *old(self),
            },
    {
        let placed = match &self.picker {
            Some(picker) => picker.placed(),
            None => None,
        };
        match placed {
            None => None,
            Some((region, monitor)) => {
                self.picker = None;
                self.recording = Some(
                    Recording {
                        handle: RecorderHandle::new(),
                        region,
                        monitor,
                        affinity_set: false,
                        border_affinity_set: false,
                    },
                );
                Some(Start { region, format: self.settings.video_format })
            },
        }
    }

    /// Does what the user asked of the picker.
    pub fn poll_picker(&mut self) -> (step: PickerStep)
        requires
            old(self).wf(),
        ensures
            final(self).wf(),
            match old(self).picker {
                None => *final(self) == *old(self) && step is Nothing,
                Some(picker) => match picker.state.action {
                    None => *final(self) == *old(self) && step is Nothing,
                    Some(Action::Cancel) => {
                        &&& *final(self) == (GlimtApp { picker: None, ..*old(self) })
                        &&& step is Closed
                    },
                    Some(Action::Start) => match old(self).picked() {
                        Some(_) => step matches PickerStep::Started(start) && final(self).began(
                            old(self),
                            start,
                        ),
                        None => {
                            &&& step is Nothing
                            &&& *final(self) == (GlimtApp {
                                picker: Some(
                                    Picker {
                                        state: crate::picker::State {
                                            action: None,
                                            ..picker.state
                                        },
                                        ..picker
                                    },
                                ),
                                ..*old(self)
                            })
                        },
                    },
                },
            },
    {
        let action = match self.picker.take() {
            None => {
                return PickerStep::Nothing;
            },
            Some(picker) => {
                let mut picker = picker;
                let action = picker.take_action();
                self.picker = Some(picker);
                action
            },
        };
        match action {
            None => PickerStep::Nothing,
            Some(Action::Cancel) => {
                self.picker = None;
                PickerStep::Closed
            },
            Some(Action::Start) => match self.start_picker_recording() {
                Some(start) => PickerStep::Started(start),
                None => PickerStep::Nothing,
            },
        }
    }

    /// Obeys a message.
    pub fn handle(&mut self, msg: AppMsg) -> (command: Command)
        requires
            old(self).wf(),
        ensures
            final(self).wf(),
            (final(self).mode(), command) == obeyed(old(self).mode(), msg, old(self).settings),
            final(self).settings == (Settings {
                autostart: if msg is ToggleAutostart {
                    !old(self).settings.autostart
                } else {
                    old(self).settings.autostart
                },
                ..old(self).settings
            }),
            final(self).overlay == old(self).overlay,
            final(self).warmup_frames == old(self).warmup_frames,
            final(self).picker == (if final(self).mode() == old(self).mode() {
                old(self).picker
            } else {
                None
            }),
            command != Command::StopRecording ==> final(self).recording == old(self).recording,
            command == Command::StopRecording ==> {
                &&& final(self).recording matches Some(rec)
                &&& rec == (Recording { handle: rec.handle, ..old(self).recording->0 })
                &&& rec.handle.stop == 1
            },
    {
        match msg {
            AppMsg::Capture { video } => {
                if self.stop_recording() {
                    Command::StopRecording
                } else if video {
                    if self.picker.is_some() {
                        self.picker = None;
                        Command::ClosePicker
                    } else if !self.overlay.active() {
                        Command::OpenPicker
                    } else {
                        Command::Nothing
                    }
                } else if !self.overlay.active() {
                    let flush: bool = self.picker.is_some();
                    self.picker = None;
                    Command::TakeShots { flush }
                } else {
                    Command::Nothing
                }
            },
            AppMsg::OpenFolder => Command::OpenFolder,
            AppMsg::ToggleAutostart => {
                let enabled: bool = !self.settings.autostart;
                self.settings.autostart = enabled;
                Command::SetAutostart { enabled }
            },
            AppMsg::Quit => Command::Quit,
        }
    }

    /// Tells the recording, if there is one, to stop and save.
    fn stop_recording(&mut self) -> (stopped: bool)
        ensures
            stopped == old(self).recording is Some,
            *final(self) == (GlimtApp { recording: final(self).recording, ..*old(self) }),
            match (old(self).recording, final(self).recording) {
                (Some(before), Some(after)) => after == (Recording {
                    handle: after.handle,
                    ..before
                }) && after.handle.stop == 1,
                (None, None) => true,
                _ => false,
            },
    {
        match self.recording.take() {
            Some(rec) => {
                let mut rec = rec;
                rec.handle.stop();
                self.recording = Some(rec);
                true
            },
            None => false,
        }
    }

    /// The system shows a picker.
    pub fn picker_opened(&mut self, picker: Picker)
        requires
            old(self).wf(),
            old(self).mode() == Mode::Idle,
            picker.wf(),
        ensures
            final(self).wf(),
            final(self).mode() == Mode::Picking,
            *final(self) == (GlimtApp { picker: Some(picker), ..*old(self) }),
    {
        self.picker = Some(picker);
    }

    /// All monitors were captured: the screen freezes.
    pub fn shots_taken(&mut self, shots: Vec<MonitorShot>)
        requires
            old(self).wf(),
            old(self).mode() == Mode::Idle,
            forall|k: int|
                0 <= k < shots@.len() ==> crate::overlay::shot_ok(#[trigger] shots@[k]),
            have_pixels(shots@),
        ensures
            final(self).wf(),
            final(self).mode() == Mode::Frozen,
            *final(self) == (GlimtApp { overlay: final(self).overlay, ..*old(self) }),
            final(self).overlay.cap matches Some(cap) && cap.shots() == shots@ && cap.frames()
                == 0,
            final(self).overlay.monitors@ == shots@.map_values(|s: MonitorShot| s.rect),
            final(self).overlay.monitors@ == old(self).overlay.monitors@
                ==> final(self).overlay.same_windows(&old(self).overlay),
            final(self).overlay.monitors@ != old(self).overlay.monitors@ ==> {
                &&& final(self).overlay.scales@ == Seq::new(shots@.len(), |k: int| None::<u32>)
                &&& !final(self).overlay.animations_disabled
            },
            final(self).overlay.session() == Some(
                crate::session::Session::fresh(
                    shots@.map_values(
                        |s: MonitorShot| crate::overlay::monitor_extent(s.rect),
                    ),
                ),
            ),
    {
        self.overlay.start(shots);
    }

    /// Ends the capture, and cuts out what is to be exported.
    pub fn finish_overlay(&mut self, outcome: Outcome) -> (export: Export)
        requires
            old(self).wf(),
        ensures
            final(self).wf(),
            final(self).overlay.cap is None,
            final(self).overlay.same_windows(&old(self).overlay),
            *final(self) == (GlimtApp { overlay: final(self).overlay, ..*old(self) }),
            outcome == Outcome::Cancel ==> export is Nothing,
            outcome != Outcome::Cancel ==> old(self).exports(export),
    {
        let export = match outcome {
            Outcome::Cancel => Export::Nothing,
            _ => match self.overlay.export_data() {
                None => Export::NoSelection,
                Some((image, rect, annotations)) => {
                    assert(have_pixels(self.overlay.cap->0.shots()));
                    match render(image, rect) {
                        Err(_) => Export::TooWide,
                        Ok((canvas, crop)) => {
                            let annotations = drawings(annotations, crop);
                            Export::Draw { canvas, crop, annotations }
                        },
                    }
                },
            },
        };
        self.overlay.close();
        export
    }

    /// What is exported of the capture under way: the selected part of the frozen image,
    /// with the annotations on it.
    pub open spec fn exports(&self, export: Export) -> bool {
        match self.overlay.session() {
            Some(session) => match session.sel {
                Selection::Placed { rect } => {
                    let shot = self.overlay.cap->0.shots()[session.active->0 as int].image;
                    let part = crate::export::crop_of(shot.width, shot.height, rect);
                    if part.w * 4 > i32::MAX {
                        export is TooWide
                    } else {
                        &&& export matches Export::Draw { canvas, crop, annotations }
                        &&& crop == part
                        &&& crate::export::canvas_size(canvas) == (part.w, part.h)
                        &&& crate::export::is_part(
                            crate::export::canvas_bytes(canvas),
                            shot.data@,
                            shot.width as int,
                            part,
                        )
                        &&& annotations@.map_values(|a: Annotation| a@) == crate::export::drawn(
                            session.marks,
                            part,
                        )
                    }
                },
                _ => export is NoSelection,
            },
            None => export is NoSelection,
        }
    }
}

/// What the user did on the pill of the picker.
#[derive(Clone, Copy, PartialEq, Eq, Structural, Debug)]
pub struct PickerClicks {
    pub mp4: bool,
    pub gif: bool,
    pub start: bool,
    pub cancel: bool,
}

impl GlimtApp {
    /// The format after clicks on the pill of the picker.
    pub open spec fn chosen(&self, clicks: PickerClicks) -> VideoFormat {
        if clicks.gif {
            VideoFormat::Gif
        } else if clicks.mp4 {
            VideoFormat::Mp4
        } else {
            self.settings.video_format
        }
    }

    /// The program with another format.
    pub open spec fn with_format(&self, format: VideoFormat) -> GlimtApp {
        GlimtApp { settings: Settings { video_format: format, ..self.settings }, ..*self }
    }

    /// Does what the user did on the pill of the picker, which is there once a region is
    /// placed; tells also whether to save the settings.
    pub fn picker_pill(&mut self, clicks: PickerClicks) -> (res: (PickerStep, bool))
        requires
            old(self).wf(),
        ensures
            final(self).wf(),
            old(self).picked() is None ==> *final(self) == *old(self) && res.0 is Nothing
                && !res.1,
            old(self).picked() is Some ==> {
                let app = old(self).with_format(old(self).chosen(clicks));
                &&& res.1 == (clicks.mp4 || clicks.gif)
                &&& if clicks.cancel {
                    res.0 is Closed && *final(self) == (GlimtApp { picker: None, ..app })
                } else if clicks.start {
                    res.0 matches PickerStep::Started(start) && final(self).began(&app, start)
                } else {
                    res.0 is Nothing && *final(self) == app
                }
            },
    {
        let placed: bool = match &self.picker {
            Some(picker) => picker.placed().is_some(),
            None => false,
        };
        if !placed {
            return (PickerStep::Nothing, false);
        }
        if clicks.mp4 {
            self.settings.video_format = VideoFormat::Mp4;
        }
        if clicks.gif {
            self.settings.video_format = VideoFormat::Gif;
        }
        let save: bool = clicks.mp4 || clicks.gif;
        if clicks.cancel {
            self.picker = None;
            (PickerStep::Closed, save)
        } else if clicks.start {
            match self.start_picker_recording() {
                Some(start) => (PickerStep::Started(start), save),
                None => (PickerStep::Nothing, save),
            }
        } else {
            (PickerStep::Nothing, save)
        }
    }

    /// Does what the user did on the pill of a recording; to discard wins over to stop.
    /// `excluded` tells whether the system now keeps the pill out of the recording.
    pub fn recording_pill(&mut self, stop: bool, discard: bool, excluded: bool)
        requires
            old(self).wf(),
        ensures
            final(self).wf(),
            *final(self) == (GlimtApp { recording: final(self).recording, ..*old(self) }),
            match (old(self).recording, final(self).recording) {
                (Some(before), Some(after)) => {
                    &&& after.region == before.region
                    &&& after.monitor == before.monitor
                    &&& after.affinity_set == (before.affinity_set || excluded)
                    &&& after.border_affinity_set == before.border_affinity_set
                    &&& after.handle.stop == (if discard {
                        2
                    } else if stop {
                        1
                    } else {
                        before.handle.stop
                    })
                },
                (None, None) => true,
                _ => false,
            },
    {
        match self.recording.take() {
            Some(rec) => {
                let mut rec = rec;
                if stop {
                    rec.handle.stop();
                }
                if discard {
                    rec.handle.discard();
                }
                if excluded {
                    rec.affinity_set = true;
                }
                self.recording = Some(rec);
            },
            None => {},
        }
    }

    /// The frame of a recording is shown.  `excluded` tells whether the system now keeps
    /// all of it out of the recording.
    pub fn record_border(&mut self, excluded: bool)
        requires
            old(self).wf(),
        ensures
            final(self).wf(),
            *final(self) == (GlimtApp { recording: final(self).recording, ..*old(self) }),
            match (old(self).recording, final(self).recording) {
                (Some(before), Some(after)) => after == (Recording {
                    border_affinity_set: before.border_affinity_set || excluded,
                    ..before
                }),
                (None, None) => true,
                _ => false,
            },
    {
        match self.recording.take() {
            Some(rec) => {
                let mut rec = rec;
                if excluded {
                    rec.border_affinity_set = true;
                }
                self.recording = Some(rec);
            },
            None => {},
        }
    }
}

/// Height of a control pill in physical pixels: 44 points, rounded down.
pub open spec fn pill_pixels(scale: u32) -> int {
    44 * scale / 65536
}

/// Top of a control pill: 8 below the region, or 8 above it where it would end below the
/// bottom of the monitor.
pub open spec fn pill_top(top: int, height: int, bottom: int, pill: int) -> int {
    if top + height + 8 + pill > bottom {
        top - 8 - pill
    } else {
        top + height + 8
    }
}

/// Where the control pill of a region goes, in physical pixels.
pub fn pill_place(
    region: (i32, i32, u32, u32),
    monitor: (i32, i32, i32, i32),
    scale: u32,
) -> (pos: (i32, i32))
    requires
        crate::picker::point_on_desk((region.0, region.1)),
        region.3 <= 2 * crate::picker::DESK,
        crate::picker::on_desk(monitor),
    ensures
        pos.0 == region.0,
        pos.1 == pill_top(
            region.1 as int,
            region.3 as int,
            monitor.1 + monitor.3,
            pill_pixels(scale),
        ),
{
    let pill: i32 = (44 * scale as u64 / 65536) as i32;
    let below: i32 = region.1 + region.3 as i32 + 8;
    let y: i32 = if below + pill > monitor.1 + monitor.3 {
        region.1 - 8 - pill
    } else {
        below
    };
    (region.0, y)
}

/// Thickness of the frame around a recorded region: 2 points.
pub const FRAME: i64 = 131072;

/// The strips of the frame around a region: top, bottom, left, right.  The first two
/// stand out on both sides to close the corners.
pub open spec fn frame_strips(r: Rect) -> Seq<Rect> {
    let (x0, y0, x1, y1) = (
        (r.min.x - FRAME) as i64,
        (r.min.y - FRAME) as i64,
        (r.max.x + FRAME) as i64,
        (r.max.y + FRAME) as i64,
    );
    seq![
        Rect { min: Pos2 { x: x0, y: y0 }, max: Pos2 { x: x1, y: r.min.y } },
        Rect { min: Pos2 { x: x0, y: r.max.y }, max: Pos2 { x: x1, y: y1 } },
        Rect { min: Pos2 { x: x0, y: r.min.y }, max: Pos2 { x: r.min.x, y: r.max.y } },
        Rect { min: Pos2 { x: r.max.x, y: r.min.y }, max: Pos2 { x: x1, y: r.max.y } },
    ]
}

/// The frame around a recorded region, in points.
pub fn border_strips(r: Rect) -> (strips: [Rect; 4])
    requires
        r.within(crate::geom::WIDE_LIMIT as int),
    ensures
        strips@ == frame_strips(r),
{
    let (x0, y0): (i64, i64) = (r.min.x - FRAME, r.min.y - FRAME);
    let (x1, y1): (i64, i64) = (r.max.x + FRAME, r.max.y + FRAME);
    let strips = [
        Rect { min: Pos2 { x: x0, y: y0 }, max: Pos2 { x: x1, y: r.min.y } },
        Rect { min: Pos2 { x: x0, y: r.max.y }, max: Pos2 { x: x1, y: y1 } },
        Rect { min: Pos2 { x: x0, y: r.min.y }, max: Pos2 { x: r.min.x, y: r.max.y } },
        Rect { min: Pos2 { x: r.max.x, y: r.min.y }, max: Pos2 { x: x1, y: r.max.y } },
    ];
    assert(strips@ =~= frame_strips(r));
    strips
}

/// The user interface that the program runs in.
#[verifier::external_type_specification]
#[verifier::external_body]
pub struct ExContext(egui::Context);

/// Calls `egui::Context::request_repaint`, which wakes the user interface.  Claims
/// nothing.
#[verifier::external_body]
fn wake(ui: &egui::Context) {
    ui.request_repaint();
}

/// Wakes the user interface from outside, once it runs; tells whether it does.
pub fn request_repaint(ui: Option<&egui::Context>) -> (woken: bool)
    ensures
        woken == ui is Some,
{
    match ui {
        Some(ui) => {
            wake(ui);
            true
        },
        None => false,
    }
}

/// A capture starts and a picker opens only where nothing is under way.
pub proof fn law_one_thing_at_a_time(mode: Mode, msg: AppMsg, settings: Settings)
    ensures
        ({
            let (after, command) = obeyed(mode, msg, settings);
            &&& command is TakeShots || command is OpenPicker ==> after == Mode::Idle
            &&& mode is Frozen || mode is Recording ==> after == mode
        }),
{
}

/// While a recording runs, every capture key stops it and does nothing else; only then
/// is a recording stopped.
pub proof fn law_capture_key_stops_recording(mode: Mode, msg: AppMsg, settings: Settings)
    ensures
        obeyed(mode, msg, settings).1 is StopRecording <==> mode is Recording && msg is Capture,
{
}

/// Asking for a video a second time takes the picker away again.
pub proof fn law_video_key_toggles_picker(settings: Settings)
    ensures
        ({
            let msg = AppMsg::Capture { video: true };
            &&& obeyed(Mode::Idle, msg, settings) == (Mode::Idle, Command::OpenPicker)
            &&& obeyed(Mode::Picking, msg, settings) == (Mode::Idle, Command::ClosePicker)
        }),
{
}

/// A control pill never covers the region it belongs to.
pub proof fn law_pill_stays_off_region(top: int, height: int, bottom: int, pill: int)
    requires
        height >= 0,
        pill >= 0,
    ensures
        ({
            let y = pill_top(top, height, bottom, pill);
            y >= top + height + 8 || y + pill + 8 <= top
        }),
{
}

/// A control pill of a region on the monitor ends above the bottom of the monitor; it
/// lies on the monitor if there is room for it below or above the region.
pub proof fn law_pill_stays_on_monitor(
    start: int,
    bottom: int,
    top: int,
    height: int,
    pill: int,
)
    requires
        start <= top,
        height >= 0,
        pill >= 0,
        top + height <= bottom,
    ensures
        ({
            let y = pill_top(top, height, bottom, pill);
            &&& y + pill <= bottom
            &&& top + height + 8 + pill <= bottom || start + 8 + pill <= top ==> start <= y
        }),
{
}

/// The frame covers exactly what lies within its thickness around the region, and
/// nothing inside of the region.
pub proof fn law_frame_surrounds_region(r: Rect, p: Pos2)
    requires
        r.ordered(),
        r.within(crate::geom::WIDE_LIMIT as int),
    ensures
        (exists|k: int| 0 <= k < 4 && (#[trigger] frame_strips(r)[k]).has(p)) <==> {
            &&& r.min.x - FRAME <= p.x <= r.max.x + FRAME
            &&& r.min.y - FRAME <= p.y <= r.max.y + FRAME
            &&& !crate::chrome::interior(r, p)
        },
{
    let s = frame_strips(r);
    assert(s[0].has(p) || s[1].has(p) || s[2].has(p) || s[3].has(p) <==> {
        &&& r.min.x - FRAME <= p.x <= r.max.x + FRAME
        &&& r.min.y - FRAME <= p.y <= r.max.y + FRAME
        &&& !crate::chrome::interior(r, p)
    });
}

/// What is under way is told by what there is: a recording, else a frozen screen, else a
/// picker, else nothing.
pub proof fn law_mode_tells_what_is_there(app: &GlimtApp)
    requires
        app.wf(),
    ensures
        app.mode() is Recording <==> app.recording is Some,
        app.mode() is Frozen <==> app.overlay.cap is Some,
        app.mode() is Picking <==> app.picker is Some,
        app.mode() is Idle <==> app.recording is None && app.overlay.cap is None && app.picker
            is None,
{
}

/// The key for pictures captures the screen where none is frozen and nothing is recorded; a
/// picker goes away first.  Neither key does anything while the screen is frozen.
pub proof fn law_picture_key_captures(settings: Settings, video: bool)
    ensures
        ({
            let msg = AppMsg::Capture { video: false };
            let idle = obeyed(Mode::Idle, msg, settings);
            let picking = obeyed(Mode::Picking, msg, settings);
            let frozen = obeyed(Mode::Frozen, AppMsg::Capture { video }, settings);
            &&& idle.0 is Idle && (idle.1 matches Command::TakeShots { flush } && !flush)
            &&& picking.0 is Idle && (picking.1 matches Command::TakeShots { flush } && flush)
            &&& frozen.0 is Frozen && frozen.1 is Nothing
        }),
{
}

/// The lines of the menu do what they say, whatever is under way, and leave that alone.
/// Choosing to start with the system a second time takes it back.
pub proof fn law_menu_leaves_mode_alone(mode: Mode, settings: Settings)
    ensures
        obeyed(mode, AppMsg::OpenFolder, settings).0 == mode,
        obeyed(mode, AppMsg::OpenFolder, settings).1 is OpenFolder,
        obeyed(mode, AppMsg::Quit, settings).0 == mode,
        obeyed(mode, AppMsg::Quit, settings).1 is Quit,
        obeyed(mode, AppMsg::ToggleAutostart, settings).0 == mode,
        obeyed(mode, AppMsg::ToggleAutostart, settings).1 matches Command::SetAutostart { enabled }
            && enabled != settings.autostart && (obeyed(
            mode,
            AppMsg::ToggleAutostart,
            Settings { autostart: enabled, ..settings },
        ).1 matches Command::SetAutostart { enabled: again } && again == settings.autostart),
{
}

/// A recording that begins is of the region that is placed in the picker, on its monitor and
/// in the format of the settings; it runs, nothing is kept out of it yet, the picker is
/// gone, and nothing else changes.
pub proof fn law_recording_is_of_placed_region(before: &GlimtApp, after: &GlimtApp, start: Start)
    requires
        before.wf(),
        after.began(before, start),
    ensures
        before.picker is Some && before.picker->0.state.sel is Placed,
        ({
            let state = before.picker->0.state;
            let (rect, rec) = (state.sel->rect, after.recording->0);
            &&& after.recording is Some && after.picker is None
            &&& start.region == rec.region
            &&& rec.region.0 == rect.0 && rec.region.1 == rect.1
            &&& rect.2 - 1 <= rec.region.2 <= rect.2 && rec.region.2 as int % 2 == 0
            &&& rect.3 - 1 <= rec.region.3 <= rect.3 && rec.region.3 as int % 2 == 0
            &&& state.monitor == Some(rec.monitor)
            &&& rec.handle.stop == 0 && !rec.affinity_set && !rec.border_affinity_set
            &&& start.format == before.settings.video_format
            &&& after.settings == before.settings && after.overlay == before.overlay
            &&& after.warmup_frames == before.warmup_frames
        }),
{
    let picker = before.picker->0;
    crate::picker::law_recorded_region_is_placed_one(picker.state, picker.monitors@);
}

/// What is exported of a placed selection is the crop of the frozen image that belongs to
/// it, pixel for pixel, with the annotations of the capture; without a placed selection
/// there is nothing to export, and nothing is drawn that is too wide for a canvas.
pub proof fn law_export_is_crop_of_frozen_image(
    app: &GlimtApp,
    export: Export,
    x: int,
    y: int,
    k: int,
)
    requires
        app.exports(export),
        0 <= k < 4,
    ensures
        export is NoSelection <==> !(app.overlay.cap is Some && app.overlay.cap->0@.sel is Placed),
        !(export is Nothing),
        ({
            let (cap, s) = (app.overlay.cap->0, app.overlay.cap->0@);
            let shot = cap.shots()[s.active->0 as int].image;
            let c = crate::export::crop_of(shot.width, shot.height, s.sel->rect);
            &&& export is TooWide ==> c.w > 536_870_911
            &&& export matches Export::Draw { canvas, crop, annotations } ==> {
                &&& c.w <= 536_870_911
                &&& crop == c
                &&& crate::export::canvas_size(canvas) == (c.w, c.h)
                &&& annotations@.map_values(|a: Annotation| a@) == crate::export::drawn(s.marks, c)
                &&& 0 <= x < c.w && 0 <= y < c.h ==> crate::export::canvas_bytes(canvas)[(y * c.w
                    + x) * 4 + k] == shot.data@[((c.y + y) * shot.width + (c.x + x)) * 4 + k]
            }
        }),
{
    if let Export::Draw { canvas, crop, annotations } = export {
        let at = crate::pixels::offset(crop.w as int, x, y) + k;
        assert(crate::export::canvas_bytes(canvas)[at] == crate::export::canvas_bytes(
            canvas,
        )[crate::pixels::offset(crop.w as int, x, y) + k]);
    }
}

/// Clicking a format chooses it, and GIF wins where both are clicked; without a click the
/// format stays.  Nothing else of the program changes with the format.
pub proof fn law_clicked_format_is_chosen(app: &GlimtApp, clicks: PickerClicks)
    ensures
        clicks.gif ==> app.chosen(clicks) is Gif,
        clicks.mp4 && !clicks.gif ==> app.chosen(clicks) is Mp4,
        !clicks.mp4 && !clicks.gif ==> app.chosen(clicks) == app.settings.video_format,
        ({
            let next = app.with_format(app.chosen(clicks));
            &&& next.settings.video_format == app.chosen(clicks)
            &&& next.settings.autostart == app.settings.autostart
            &&& next.settings.prtsc_warning_shown == app.settings.prtsc_warning_shown
            &&& next.overlay == app.overlay && next.picker == app.picker
            &&& next.recording == app.recording && next.warmup_frames == app.warmup_frames
        }),
{
}

/// The picked region is that of the picker, where there is one.
pub proof fn law_picked_is_placed(app: &GlimtApp)
    requires
        app.wf(),
    ensures
        app.picked() is Some <==> app.picker is Some && app.picker->0.state.sel is Placed,
        app.picker matches Some(picker) ==> app.picked() == picker.state.region(),
{
    if let Some(picker) = app.picker {
        crate::picker::law_recorded_region_is_placed_one(picker.state, picker.monitors@);
    }
}

/// A control pill is 44 points high, rounded down to whole pixels, and leaves exactly 8
/// pixels between itself and the region; it is below wherever it ends on the monitor there,
/// and above otherwise.
pub proof fn law_pill_keeps_its_distance(
    top: int,
    height: int,
    bottom: int,
    pill: int,
    scale: u32,
)
    ensures
        pill_pixels(scale) * 65536 <= 44 * scale < (pill_pixels(scale) + 1) * 65536,
        ({
            let y = pill_top(top, height, bottom, pill);
            let fits = top + height + 8 + pill <= bottom;
            &&& fits ==> y - (top + height) == 8
            &&& !fits ==> top - (y + pill) == 8
        }),
{
}

/// The frame is two points thick.
pub proof fn law_frame_is_two_points_thick(r: Rect, p: Pos2)
    requires
        r.ordered(),
        r.within(crate::geom::WIDE_LIMIT as int),
    ensures
        (exists|k: int| 0 <= k < 4 && (#[trigger] frame_strips(r)[k]).has(p)) <==> {
            &&& r.min.x - 2 * 65536 <= p.x <= r.max.x + 2 * 65536
            &&& r.min.y - 2 * 65536 <= p.y <= r.max.y + 2 * 65536
            &&& !(r.min.x < p.x < r.max.x && r.min.y < p.y < r.max.y)
        },
        frame_strips(r).len() == 4,
{
    law_frame_surrounds_region(r, p);
}

/// The windows are drawn three times before the first capture.
pub proof fn law_warm_up_takes_three_frames()
    ensures
        WARMUP == 1 + 1 + 1,
{
}

/// The strips of the frame are two points thick and end at the region; the first two stand
/// out by as much on both sides.
pub proof fn law_frame_strips_touch_region(r: Rect)
    requires
        r.within(crate::geom::WIDE_LIMIT as int),
    ensures
        ({
            let (s, t) = (frame_strips(r), 2 * 65536);
            &&& s[0].max.y == r.min.y && s[0].max.y - s[0].min.y == t
            &&& s[1].min.y == r.max.y && s[1].max.y - s[1].min.y == t
            &&& s[0].min.x == r.min.x - t && s[0].max.x == r.max.x + t
            &&& s[1].min.x == r.min.x - t && s[1].max.x == r.max.x + t
            &&& s[2].max.x == r.min.x && s[2].max.x - s[2].min.x == t
            &&& s[3].min.x == r.max.x && s[3].max.x - s[3].min.x == t
            &&& s[2].min.y == r.min.y && s[2].max.y == r.max.y
            &&& s[3].min.y == r.min.y && s[3].max.y == r.max.y
        }),
{
}

} // verus!
