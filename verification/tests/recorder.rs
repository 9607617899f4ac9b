//! The region picker, the control pill, and recordings.
use glimt::config::VideoFormat;
use glimt::encode_gif::{GifSink, FRAME_DELAY};
use glimt::encode_mp4::Mp4Sink;
use glimt::picker::{
    client_point, current_hole, Action, Message, Picker, PickerError, RecordBorder, Sel, VK_ESCAPE,
    VK_RETURN,
};
use glimt::pill::{hit_test, layout, to_bgra, Cursor, Item, Pill, PillMessage, Shape};
use glimt::record::{
    conclude, flag_of, frame_duration, settle, Flag, Pacer, RecorderHandle, RecorderMsg, Step,
};

fn lparam(x: i16, y: i16) -> i64 {
    (((y as u16 as u32) << 16) | x as u16 as u32) as i64
}

fn picker() -> Picker {
    let monitors = vec![(-200, 0, 200, 100), (0, 0, 300, 200)];
    match Picker::open(monitors, (-200, 0, 500, 200)) {
        Ok(p) => p,
        Err(_) => panic!("no picker"),
    }
}

/// Drags in virtual-screen pixels.
fn pick(p: &mut Picker, a: (i16, i16), b: (i16, i16)) {
    let down = p.wndproc(Message::LeftDown { lparam: lparam(a.0 + 200, a.1) });
    assert!(down.grab_mouse && down.relayout && down.result == Some(0));
    let moved = p.wndproc(Message::MouseMove { lparam: lparam(b.0 + 200, b.1) });
    assert!(moved.relayout);
    let up = p.wndproc(Message::LeftUp);
    assert!(up.release_mouse && up.relayout && up.repaint);
}

#[test]
fn a_picker_needs_a_monitor() {
    match Picker::open(vec![], (0, 0, 10, 10)) {
        Err(e) => assert_eq!(e, PickerError::NoMonitors),
        Ok(_) => panic!("opened without monitors"),
    }
}

#[test]
fn a_picked_region_has_even_sides() {
    let mut p = picker();
    assert_eq!(p.placed(), None);
    pick(&mut p, (10, 20), (41, 57));
    assert_eq!(p.placed(), Some(((10, 20, 30, 36), 1)));
}

#[test]
fn a_region_stays_on_the_monitor_of_the_press() {
    let mut p = picker();
    pick(&mut p, (-50, 10), (120, 400));
    assert_eq!(p.placed(), Some(((-50, 10, 50, 90), 0)));
    assert_eq!(current_hole(&p.state), Some((-50, 10, 50, 90)));
}

#[test]
fn a_stray_click_clears_the_region() {
    let mut p = picker();
    pick(&mut p, (10, 20), (41, 57));
    pick(&mut p, (10, 20), (13, 57));
    assert_eq!(p.placed(), None);
    assert!(matches!(p.state.sel, Sel::Empty));
}

#[test]
fn keys_cancel_and_start() {
    let mut p = picker();
    p.wndproc(Message::KeyDown { wparam: VK_RETURN as u64 });
    assert_eq!(p.take_action(), None);
    pick(&mut p, (10, 20), (41, 57));
    p.wndproc(Message::KeyDown { wparam: VK_RETURN as u64 });
    assert_eq!(p.take_action(), Some(Action::Start));
    assert_eq!(p.take_action(), None);
    p.wndproc(Message::KeyDown { wparam: VK_ESCAPE as u64 });
    assert_eq!(p.take_action(), Some(Action::Cancel));
    assert!(p.wndproc(Message::RightDown).repaint);
    assert_eq!(p.take_action(), Some(Action::Cancel));
    assert_eq!(p.wndproc(Message::Other).result, None);
    let cursor = p.wndproc(Message::SetCursor);
    assert!(cursor.set_cursor && cursor.result == Some(1));
}

#[test]
fn strips_darken_everything_around_the_region() {
    let mut p = picker();
    let l = p.relayout();
    // Nothing is picked: the whole virtual screen is dark, and there is no frame.
    let dark: i64 = l.dim.iter().filter(|s| s.show).map(|s| s.w as i64 * s.h as i64).sum();
    assert_eq!(dark, 500 * 200);
    assert!(l.border.iter().all(|s| !s.show));
    pick(&mut p, (10, 20), (41, 57));
    let l = p.relayout();
    let dark: i64 = l.dim.iter().filter(|s| s.show).map(|s| s.w as i64 * s.h as i64).sum();
    assert_eq!(dark, 500 * 200 - 31 * 37);
    assert!(l.border.iter().all(|s| s.show));
    let frame: i64 = l.border.iter().map(|s| s.w as i64 * s.h as i64).sum();
    assert_eq!(frame, 35 * 41 - 31 * 37);
}

#[test]
fn the_frame_of_a_recording_stays_outside() {
    let border = RecordBorder::show((100, 50, 20, 10));
    let area: i64 = border.rects.iter().map(|s| s.2 as i64 * s.3 as i64).sum();
    assert_eq!(area, 24 * 14 - 20 * 10);
    for s in border.rects.iter() {
        let apart = s.0 + s.2 <= 100 || s.0 >= 120 || s.1 + s.3 <= 50 || s.1 >= 60;
        assert!(apart);
    }
}

#[test]
fn mouse_positions_are_signed() {
    assert_eq!(client_point(lparam(7, 9)), (7, 9));
    assert_eq!(client_point(lparam(-3, -40)), (-3, -40));
}

fn buttons() -> (Vec<Item>, Vec<i64>) {
    let items = vec![
        Item::Dot,
        Item::Label(String::from("0:07")),
        Item::Sep,
        Item::Button { id: 1, text: String::from("Stop"), selected: false },
        Item::Button { id: 2, text: String::from("Discard"), selected: true },
    ];
    let widths = vec![0, 30 * 65536, 0, 28 * 65536 + 20000, 50 * 65536];
    (items, widths)
}

#[test]
fn items_are_copied_and_told_apart() {
    let (items, _) = buttons();
    assert!(items == items.clone());
    assert!(items[3] != items[4] && items[0] != items[2]);
}

#[test]
fn a_pill_is_laid_out_from_left_to_right() {
    let (items, widths) = buttons();
    let l = layout(&items, &widths, 65536);
    let px: Vec<(i64, i64, i64)> =
        l.areas.iter().map(|a| (a.x / 65536, a.y / 65536, a.w / 65536)).collect();
    // The label is 19.6 high, so it starts at 12.2, rounded.
    assert_eq!(px, vec![(12, 17, 10), (30, 12, 30), (68, 12, 1), (77, 9, 48), (133, 9, 70)]);
    assert_eq!((l.w, l.h), (215, 44));
    assert_eq!(Pill::measure(&items, &widths, 65536), (215, 44));
    // At one and a half times the scale.
    assert_eq!(layout(&items, &widths, 98304).h, 66);
    assert_eq!(layout(&Vec::new(), &Vec::new(), 65536).w, 24);
}

#[test]
fn items_stand_apart_and_inside() {
    let (items, widths) = buttons();
    let l = layout(&items, &widths, 81920);
    for k in 1..l.areas.len() {
        assert!(l.areas[k - 1].x + l.areas[k - 1].w + 8 * 81920 <= l.areas[k].x);
    }
    for a in l.areas.iter() {
        assert!(a.x >= 0 && a.x + a.w <= l.w * 65536);
        assert!(a.y >= 0 && a.y + a.h <= l.h * 65536);
    }
}

#[test]
fn a_measured_pill_has_the_size_of_the_drawn_one() {
    let (items, widths) = buttons();
    let size = Pill::measure(&items, &widths, 98304);
    let mut pill = Pill::open(98304, false, None);
    pill.set(0, 0, items, widths);
    for x in [0, 130] {
        pill.wndproc(PillMessage::MouseMove { lparam: lparam(x, 30) });
        let r = pill.rendering();
        assert_eq!((r.w, r.h), (size.0 as i64, size.1 as i64));
        let canvas = glimt::export::blank_canvas(r.w, r.h).unwrap();
        assert_eq!((canvas.width(), canvas.height()), (size.0 as u32, size.1 as u32));
    }
    assert_eq!(pill.hover, Some(1));
    let (mut items, widths) = buttons();
    items[3] = Item::Button { id: 77, text: String::from("Stop"), selected: true };
    assert_eq!(Pill::measure(&items, &widths, 98304), size);
}

#[test]
fn a_pill_is_drawn_again_only_when_it_changes() {
    let (items, widths) = buttons();
    let mut pill = Pill::open(65536, false, None);
    let first = pill.set(5, 6, items, widths);
    assert!(first.redraw && first.show);
    let (items, widths) = buttons();
    let again = pill.set(5, 6, items, widths);
    assert!(!again.redraw && !again.show);
    let (items, widths) = buttons();
    let moved = pill.set(5, 7, items, widths);
    assert!(moved.redraw && !moved.show);
    let changed = pill.set(5, 7, vec![Item::Label(String::from("0:08"))], vec![65536]);
    assert!(changed.redraw);
    assert_eq!(pill.pos, (5, 7));
    assert!(pill.hits.is_empty());
}

#[test]
fn clicks_find_their_button() {
    let (items, widths) = buttons();
    let mut pill = Pill::open(65536, true, Some(2));
    pill.set(0, 0, items, widths);
    assert_eq!(hit_test(&pill.hits, 80, 20), Some(1));
    assert_eq!(hit_test(&pill.hits, 77, 9), Some(1));
    assert_eq!(hit_test(&pill.hits, 125, 9), None);
    assert_eq!(hit_test(&pill.hits, 202, 34), Some(2));
    assert_eq!(hit_test(&pill.hits, 202, 35), None);
    let hit = pill.wndproc(PillMessage::LeftDown { lparam: lparam(80, 20) });
    assert!(hit.repaint);
    assert_eq!(pill.take_click(), Some(1));
    assert_eq!(pill.take_click(), None);
    assert!(!pill.wndproc(PillMessage::LeftDown { lparam: lparam(20, 20) }).repaint);
    assert!(pill.wndproc(PillMessage::KeyDown { wparam: VK_ESCAPE as u64 }).repaint);
    assert_eq!(pill.take_click(), Some(2));
    assert!(!pill.wndproc(PillMessage::KeyDown { wparam: VK_RETURN as u64 }).repaint);
    assert_eq!(pill.wndproc(PillMessage::MouseActivate).result, None);
    assert_eq!(Pill::open(65536, false, None).wndproc(PillMessage::MouseActivate).result, Some(3));
    assert_eq!(pill.wndproc(PillMessage::SetCursor { x: 80, y: 20 }).cursor, Some(Cursor::Hand));
    assert_eq!(pill.wndproc(PillMessage::SetCursor { x: 2, y: 2 }).cursor, Some(Cursor::Arrow));
    assert_eq!(pill.wndproc(PillMessage::Other).result, None);
}

#[test]
fn hovering_redraws_once() {
    let (items, widths) = buttons();
    let mut pill = Pill::open(65536, false, None);
    pill.set(0, 0, items, widths);
    let over = pill.wndproc(PillMessage::MouseMove { lparam: lparam(80, 20) });
    assert!(over.redraw && over.track_mouse);
    assert_eq!(pill.hover, Some(1));
    assert!(!pill.wndproc(PillMessage::MouseMove { lparam: lparam(81, 21) }).redraw);
    match &pill.rendering().shapes[5] {
        Shape::Fill { color, .. } => assert_eq!((color.r, color.g, color.b), (60, 66, 84)),
        _ => panic!("not a button"),
    }
    assert!(pill.wndproc(PillMessage::MouseLeave).redraw);
    assert!(!pill.wndproc(PillMessage::MouseLeave).redraw);
    let r = pill.rendering();
    assert_eq!(r.shapes.len(), 9);
    match &r.shapes[5] {
        Shape::Fill { color, .. } => assert_eq!((color.r, color.g, color.b), (45, 49, 63)),
        _ => panic!("not a button"),
    }
    match &r.shapes[7] {
        Shape::Fill { color, .. } => assert_eq!((color.r, color.g, color.b), (53, 116, 212)),
        _ => panic!("not a button"),
    }
    match &r.shapes[8] {
        Shape::Text { x, text, .. } => {
            assert_eq!(*x, 143 * 65536);
            assert_eq!(text, "Discard");
        }
        _ => panic!("not a text"),
    }
}

#[test]
fn window_bytes_have_blue_first() {
    assert_eq!(to_bgra(&vec![1, 2, 3, 4, 5, 6, 7, 8]), vec![3, 2, 1, 4, 7, 6, 5, 8]);
    let canvas = glimt::export::blank_canvas(3, 2).unwrap();
    assert_eq!(glimt::pill::window_bytes(canvas), Some(vec![0u8; 24]));
    let mut canvas = glimt::export::blank_canvas(1, 1).unwrap();
    canvas.data_mut().copy_from_slice(&[9, 8, 7, 255]);
    assert_eq!(glimt::pill::window_bytes(canvas), Some(vec![7, 8, 9, 255]));
}

#[test]
fn frames_come_at_a_constant_rate() {
    assert_eq!(frame_duration(VideoFormat::Mp4), 33_333_333);
    assert_eq!(frame_duration(VideoFormat::Gif), 70_000_000);
    assert_eq!(frame_duration(VideoFormat::Gif), FRAME_DELAY as u64 * 10_000_000);
    let mut p = Pacer::new(VideoFormat::Gif);
    assert_eq!(p.next(Flag::Run, 0), Step::Capture { timestamp: 0 });
    assert_eq!(p.next(Flag::Run, 1_000_000), Step::Sleep { nanos: 10_000_000 });
    assert_eq!(p.next(Flag::Run, 65_000_000), Step::Sleep { nanos: 5_000_000 });
    assert_eq!(p.next(Flag::Run, 70_000_000), Step::Capture { timestamp: 70_000_000 });
    // Two slots were missed: the next timestamp is that of the clock.
    assert_eq!(p.next(Flag::Run, 290_000_000), Step::Capture { timestamp: 280_000_000 });
    assert_eq!(p.next(Flag::Run, 300_000_000), Step::Sleep { nanos: 10_000_000 });
    // Long past 2^32 slots the timestamps are still those of the clock.
    let late = 70_000_000 * 5_000_000_000;
    assert_eq!(p.next(Flag::Run, late + 3), Step::Capture { timestamp: late });
    assert_eq!(p.next(Flag::Run, late + 69_999_999), Step::Sleep { nanos: 1 });
    assert_eq!(p.next(Flag::Save, 300_000_000), Step::Save);
    assert_eq!(p.next(Flag::Discard, 300_000_000), Step::Discard);
}

#[test]
fn a_recording_is_stopped_or_discarded() {
    let mut h = RecorderHandle::new();
    assert_eq!(flag_of(h.stop), Flag::Run);
    h.stop();
    assert_eq!(flag_of(h.stop), Flag::Save);
    h.discard();
    assert_eq!(flag_of(h.stop), Flag::Discard);
}

#[test]
fn a_discarded_recording_leaves_nothing() {
    let mut h = RecorderHandle::new();
    h.stop();
    h.discard();
    let flag = flag_of(h.stop);
    let mut p = Pacer::new(VideoFormat::Mp4);
    assert_eq!(p.next(flag, 5), Step::Discard);
    for done in [Ok("tmp"), Err(String::from("not finished"))] {
        let (msg, delete) = conclude(settle(flag, done));
        assert!(matches!(msg, RecorderMsg::Discarded) && delete);
    }
    assert_eq!(settle(Flag::Save, Ok("a.mp4")), Ok(Some("a.mp4")));
    assert_eq!(settle::<&str>(Flag::Save, Err(String::from("x"))), Err(String::from("x")));
}

#[test]
fn only_a_saved_recording_keeps_its_file() {
    let (msg, delete) = conclude(Ok(Some("a.mp4")));
    assert!(matches!(msg, RecorderMsg::Done("a.mp4")) && !delete);
    let (msg, delete) = conclude::<&str>(Ok(None));
    assert!(matches!(msg, RecorderMsg::Discarded) && delete);
    let (msg, delete) = conclude::<&str>(Err(String::from("disk full")));
    match msg {
        RecorderMsg::Failed(e) => assert_eq!(e, "disk full"),
        _ => panic!("no failure"),
    }
    assert!(delete);
}

#[test]
fn gif_frames_are_flipped_and_exact() {
    let mut sink = GifSink::new(2, 2);
    // Bottom row first: blue, green; then red, white.
    let bgra: Vec<u8> =
        vec![255, 0, 0, 0, 0, 255, 0, 0, 0, 0, 255, 0, 255, 255, 255, 0];
    let frame = sink.write(&bgra);
    assert_eq!((frame.width, frame.height, frame.delay), (2, 2, 7));
    assert_eq!(frame.transparent, None);
    let shown: Vec<(u8, u8, u8)> = frame
        .indices
        .iter()
        .map(|i| {
            let at = 3 * *i as usize;
            (frame.palette[at], frame.palette[at + 1], frame.palette[at + 2])
        })
        .collect();
    assert_eq!(shown, vec![(255, 0, 0), (255, 255, 255), (0, 0, 255), (0, 255, 0)]);
    assert_eq!(
        sink.rgba,
        vec![255, 0, 0, 255, 255, 255, 255, 255, 0, 0, 255, 255, 0, 255, 0, 255]
    );
}

#[test]
fn mp4_parameters() {
    let sink = Mp4Sink::new(1920, 1080);
    assert_eq!((sink.width, sink.height, sink.frame_rate), (1920, 1080, 30));
    assert_eq!(sink.bitrate, 6_220_800);
    assert_eq!(Mp4Sink::new(320, 240).bitrate, 2_000_000);
    assert_eq!(sink.write(33_333_333), 333_333);
    assert_eq!(sink.write(99), 0);
}
