//! What the program does with its messages.
use glimt::autostart::{sync, Entry};
use glimt::capture::MonitorShot;
use glimt::config::{Settings, VideoFormat};
use glimt::control::{
    border_strips, pill_place, request_repaint, AppMsg, Command, Ended, Export, GlimtApp,
    PickerClicks, PickerStep,
};
use glimt::export::finish_render;
use glimt::geom::{Pos2, Rect, UNIT};
use glimt::hotkey::{register_prtsc, warn_if_snipping_owns_prtsc};
use glimt::marks::{Mouse, Outcome};
use glimt::picker::{Message, Picker, VK_RETURN};
use glimt::pixels::Image;
use glimt::record::RecorderMsg;
use glimt::single_instance::acquire;
use glimt::tray::{build, click_message, Icon, Tray};

fn at(x: i64, y: i64) -> Pos2 {
    Pos2 { x: x * UNIT, y: y * UNIT }
}

fn app() -> GlimtApp {
    GlimtApp::new(Settings::load(None), vec![(0, 0, 60, 40)])
}

fn shots() -> Vec<MonitorShot> {
    let mut data = Vec::new();
    for k in 0..60 * 40 {
        data.extend_from_slice(&[(k % 60) as u8, (k / 60) as u8, 0, 255]);
    }
    vec![MonitorShot {
        rect: (0, 0, 60, 40),
        image: Image::from_raw(60, 40, data).unwrap(),
    }]
}

fn picker() -> Picker {
    match Picker::open(vec![(0, 0, 600, 400)], (0, 0, 600, 400)) {
        Ok(p) => p,
        Err(_) => panic!("no picker"),
    }
}

fn place(app: &mut GlimtApp) {
    let p = app.picker.as_mut().unwrap();
    p.wndproc(Message::LeftDown { lparam: (30 << 16) | 20 });
    p.wndproc(Message::MouseMove { lparam: (130 << 16) | 220 });
    p.wndproc(Message::LeftUp);
}

fn recording() -> GlimtApp {
    let mut a = app();
    a.picker_opened(picker());
    place(&mut a);
    assert!(a.start_picker_recording().is_some());
    a
}

const CLICKS: PickerClicks = PickerClicks { mp4: false, gif: false, start: false, cancel: false };

#[test]
fn a_capture_freezes_and_exports() {
    let mut a = app();
    assert_eq!(a.handle(AppMsg::Capture { video: false }), Command::TakeShots { flush: false });
    a.shots_taken(shots());
    // Nothing else starts while the screen is frozen.
    assert_eq!(a.handle(AppMsg::Capture { video: false }), Command::Nothing);
    assert_eq!(a.handle(AppMsg::Capture { video: true }), Command::Nothing);
    assert!(matches!(a.finish_overlay(Outcome::Copy), Export::NoSelection));
    assert!(!a.overlay.active());

    a.shots_taken(shots());
    let mut m = Mouse {
        pointer: Some(at(5, 6)),
        press_origin: Some(at(5, 6)),
        scale: 65536,
        drag_started: true,
        dragged: true,
        drag_stopped: false,
        clicked: false,
    };
    a.overlay.monitor_ui(0, m);
    m.drag_started = false;
    m.drag_stopped = true;
    m.pointer = Some(at(8, 10));
    a.overlay.monitor_ui(0, m);
    match a.finish_overlay(Outcome::Save) {
        Export::Draw { canvas, crop, annotations } => {
            assert!(annotations.is_empty());
            let image = finish_render(canvas, crop).unwrap();
            assert_eq!((image.width, image.height), (3, 4));
            assert_eq!(&image.data[0..4], &[5, 6, 0, 255]);
        }
        _ => panic!("nothing exported"),
    }
    assert!(!a.overlay.active());
    a.shots_taken(shots());
    assert!(matches!(a.finish_overlay(Outcome::Cancel), Export::Nothing));
}

#[test]
fn the_video_key_toggles_the_picker() {
    let mut a = app();
    assert_eq!(a.handle(AppMsg::Capture { video: true }), Command::OpenPicker);
    a.picker_opened(picker());
    assert_eq!(a.handle(AppMsg::Capture { video: true }), Command::ClosePicker);
    assert!(a.picker.is_none());
    a.picker_opened(picker());
    assert_eq!(a.handle(AppMsg::Capture { video: false }), Command::TakeShots { flush: true });
    assert!(a.picker.is_none());
}

#[test]
fn capture_keys_stop_a_recording() {
    for video in [false, true] {
        let mut a = recording();
        assert_eq!(a.handle(AppMsg::Capture { video }), Command::StopRecording);
        assert_eq!(a.recording.as_ref().unwrap().handle.stop, 1);
        assert!(!a.overlay.active() && a.picker.is_none());
    }
}

#[test]
fn a_recording_needs_a_region() {
    let mut a = app();
    a.picker_opened(picker());
    assert!(a.start_picker_recording().is_none());
    assert!(a.picker.is_some());
    place(&mut a);
    let start = a.start_picker_recording().unwrap();
    assert_eq!(start.region, (20, 30, 200, 100));
    assert_eq!(start.format, VideoFormat::Mp4);
    assert!(a.picker.is_none());
    let rec = a.recording.as_ref().unwrap();
    assert_eq!((rec.monitor, rec.handle.stop), (0, 0));
}

#[test]
fn the_picker_is_obeyed() {
    let mut a = app();
    assert!(matches!(a.poll_picker(), PickerStep::Nothing));
    a.picker_opened(picker());
    assert!(matches!(a.poll_picker(), PickerStep::Nothing));
    place(&mut a);
    a.picker.as_mut().unwrap().wndproc(Message::KeyDown { wparam: VK_RETURN as u64 });
    match a.poll_picker() {
        PickerStep::Started(start) => assert_eq!(start.region, (20, 30, 200, 100)),
        _ => panic!("not started"),
    }
    let mut b = app();
    b.picker_opened(picker());
    b.picker.as_mut().unwrap().wndproc(Message::RightDown);
    assert!(matches!(b.poll_picker(), PickerStep::Closed));
    assert!(b.picker.is_none());
}

#[test]
fn the_pill_of_the_picker_is_obeyed() {
    let mut a = app();
    a.picker_opened(picker());
    // No region, no pill.
    let (step, save) = a.picker_pill(PickerClicks { gif: true, cancel: true, ..CLICKS });
    assert!(matches!(step, PickerStep::Nothing) && !save);
    assert_eq!(a.settings.video_format, VideoFormat::Mp4);
    place(&mut a);
    let (step, save) = a.picker_pill(PickerClicks { gif: true, ..CLICKS });
    assert!(matches!(step, PickerStep::Nothing) && save);
    assert_eq!(a.settings.video_format, VideoFormat::Gif);
    let (step, save) = a.picker_pill(PickerClicks { start: true, ..CLICKS });
    assert!(!save);
    match step {
        PickerStep::Started(start) => assert_eq!(start.format, VideoFormat::Gif),
        _ => panic!("not started"),
    }
    let mut b = app();
    b.picker_opened(picker());
    place(&mut b);
    let (step, _) = b.picker_pill(PickerClicks { start: true, cancel: true, ..CLICKS });
    assert!(matches!(step, PickerStep::Closed));
    assert!(b.recording.is_none());
}

#[test]
fn the_pill_of_a_recording_is_obeyed() {
    let mut a = recording();
    a.recording_pill(false, false, false);
    assert_eq!(a.recording.as_ref().unwrap().handle.stop, 0);
    a.recording_pill(true, false, true);
    assert_eq!(a.recording.as_ref().unwrap().handle.stop, 1);
    assert!(a.recording.as_ref().unwrap().affinity_set);
    a.recording_pill(true, true, false);
    assert_eq!(a.recording.as_ref().unwrap().handle.stop, 2);
    assert!(a.recording.as_ref().unwrap().affinity_set);
    a.record_border(true);
    assert!(a.recording.as_ref().unwrap().border_affinity_set);
}

#[test]
fn the_end_of_a_recording() {
    let mut a = recording();
    assert!(matches!(a.poll_recorder::<&str>(None), Ended::Nothing));
    assert!(a.recording.is_some());
    assert!(matches!(a.poll_recorder(Some(RecorderMsg::Done("x.mp4"))), Ended::Copy("x.mp4")));
    assert!(a.recording.is_none());
    assert!(matches!(a.poll_recorder(Some(RecorderMsg::Done("x.mp4"))), Ended::Nothing));
    let mut b = recording();
    assert!(matches!(b.poll_recorder::<&str>(Some(RecorderMsg::Discarded)), Ended::Discarded));
    let mut c = recording();
    match c.poll_recorder::<&str>(Some(RecorderMsg::Failed(String::from("no disk")))) {
        Ended::Failed(e) => assert_eq!(e, "no disk"),
        _ => panic!("no failure"),
    }
}

#[test]
fn the_menu_is_obeyed() {
    let mut a = app();
    assert_eq!(a.handle(AppMsg::OpenFolder), Command::OpenFolder);
    assert_eq!(a.handle(AppMsg::ToggleAutostart), Command::SetAutostart { enabled: false });
    assert!(!a.settings.autostart);
    assert_eq!(a.handle(AppMsg::ToggleAutostart), Command::SetAutostart { enabled: true });
    assert_eq!(a.handle(AppMsg::Quit), Command::Quit);
    assert_eq!(sync(true), Entry::Write);
    assert_eq!(sync(false), Entry::Remove);
}

#[test]
fn three_frames_warm_up() {
    let mut a = app();
    let woken: Vec<bool> = (0..5).map(|_| a.warm_up()).collect();
    assert_eq!(woken, vec![true, true, true, false, false]);
    assert_eq!(a.warmup_frames, 3);
}

#[test]
fn a_pill_stays_off_its_region() {
    let monitor = (0, 0, 1920, 1080);
    assert_eq!(pill_place((100, 200, 300, 400), monitor, 65536), (100, 608));
    assert_eq!(pill_place((100, 200, 300, 400), monitor, 98304), (100, 608));
    // It would end at 1081: it goes above.
    assert_eq!(pill_place((100, 200, 300, 829), monitor, 65536), (100, 148));
    assert_eq!(pill_place((100, 200, 300, 828), monitor, 65536), (100, 1036));
}

#[test]
fn a_frame_surrounds_the_region() {
    let strips = border_strips(Rect { min: at(10, 20), max: at(40, 50) });
    assert_eq!(strips[0], Rect { min: at(8, 18), max: at(42, 20) });
    assert_eq!(strips[1], Rect { min: at(8, 50), max: at(42, 52) });
    assert_eq!(strips[2], Rect { min: at(8, 20), max: at(10, 50) });
    assert_eq!(strips[3], Rect { min: at(40, 20), max: at(42, 50) });
}

#[test]
fn hotkeys_are_told_apart() {
    let (keys, warn) = register_prtsc(true);
    assert!(!warn);
    assert!(register_prtsc(false).1);
    assert_eq!(keys.message(keys.prtsc_id, true), Some(AppMsg::Capture { video: false }));
    assert_eq!(keys.message(keys.shift_prtsc_id, true), Some(AppMsg::Capture { video: true }));
    assert_eq!(keys.message(keys.prtsc_id, false), None);
    assert_eq!(keys.message(1, true), None);
    let plain = global_hotkey::hotkey::HotKey::new(None, global_hotkey::hotkey::Code::PrintScreen);
    assert_eq!(keys.prtsc_id, plain.id());
    assert_eq!(keys.prtsc_id, 0x75);
    assert_eq!(keys.shift_prtsc_id, 0x0200_0075);
}

#[test]
fn the_warning_is_shown_once() {
    let mut settings = Settings::load(None);
    assert!(!warn_if_snipping_owns_prtsc(&mut settings, None));
    assert!(!warn_if_snipping_owns_prtsc(&mut settings, Some(0)));
    assert!(!settings.prtsc_warning_shown);
    assert!(warn_if_snipping_owns_prtsc(&mut settings, Some(1)));
    assert!(settings.prtsc_warning_shown && settings.autostart);
    assert!(!warn_if_snipping_owns_prtsc(&mut settings, Some(1)));
}

#[test]
fn the_tray_speaks() {
    let menu = build(true);
    assert_eq!(menu.len(), 5);
    assert_eq!(menu[0], glimt::tray::Entry::Item("Capture (PrtSc)"));
    assert_eq!(menu[2], glimt::tray::Entry::Check("Start with Windows", true));
    assert_eq!(Tray::set_recording(true), Icon::Recording);
    assert_eq!(Tray::set_recording(false), Icon::Normal);
    let tray = Tray {
        capture_id: String::from("1"),
        open_folder_id: String::from("2"),
        autostart_id: String::from("3"),
        quit_id: String::from("4"),
    };
    let ask = |id: &str| tray.menu_message(&String::from(id));
    assert_eq!(ask("1"), Some(AppMsg::Capture { video: false }));
    assert_eq!(ask("2"), Some(AppMsg::OpenFolder));
    assert_eq!(ask("3"), Some(AppMsg::ToggleAutostart));
    assert_eq!(ask("4"), Some(AppMsg::Quit));
    assert_eq!(ask("5"), None);
    assert_eq!(click_message(true, true), Some(AppMsg::Capture { video: false }));
    assert_eq!(click_message(true, false), None);
    assert_eq!(click_message(false, true), None);
}

#[test]
fn only_one_copy_runs() {
    assert!(acquire(Some(7), false).is_some());
    assert!(acquire(Some(7), true).is_none());
    assert!(acquire::<i32>(None, false).is_none());
}

#[test]
fn the_user_interface_is_woken_once_it_runs() {
    assert!(!request_repaint(None));
    let ctx = egui::Context::default();
    assert!(request_repaint(Some(&ctx)));
    assert!(ctx.has_requested_repaint());
}
