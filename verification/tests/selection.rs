//! Geometry of selections, and the course of a capture.
use glimt::capture::MonitorShot;
use glimt::chrome::{
    badge_label, badge_rect, dim_strips, loupe_rect, loupe_source, toolbar_pos,
};
use glimt::geom::{
    clamp_rect, handle_positions, hit_handle, phys_of, points_of, resize_rect, round_px, Pos2, Rect,
    Vec2, UNIT,
};
use glimt::marks::{
    colors, Annotation, Key, KeyEvent, Mouse, Outcome, Selection, Tool,
};
use glimt::overlay::Overlay;
use glimt::pixels::Image;

fn at(x: i64, y: i64) -> Pos2 {
    Pos2 { x: x * UNIT, y: y * UNIT }
}

fn rect(x0: i64, y0: i64, x1: i64, y1: i64) -> Rect {
    Rect { min: at(x0, y0), max: at(x1, y1) }
}

fn shot(x: i32, y: i32, w: i32, h: i32) -> MonitorShot {
    let data = vec![255u8; (w * h * 4) as usize];
    let image = Image::from_raw(w as u32, h as u32, data).unwrap();
    MonitorShot { rect: (x, y, w, h), image }
}

fn frozen() -> Overlay {
    let mut overlay = Overlay::new(vec![(0, 0, 100, 80), (100, 0, 50, 50)]);
    overlay.start(vec![shot(0, 0, 100, 80), shot(100, 0, 50, 50)]);
    overlay
}

fn sel_of(overlay: &Overlay) -> Rect {
    match overlay.cap.as_ref().unwrap().selection() {
        Selection::Placed { rect } => rect,
        Selection::Dragging { start, cur } => Rect::from_two_pos(start, cur),
        Selection::Empty => rect(0, 0, 0, 0),
    }
}

fn idle() -> Mouse {
    Mouse {
        pointer: None,
        press_origin: None,
        scale: 65536,
        drag_started: false,
        dragged: false,
        drag_stopped: false,
        clicked: false,
    }
}

fn press(p: Pos2) -> Mouse {
    Mouse { pointer: Some(p), press_origin: Some(p), drag_started: true, dragged: true, ..idle() }
}

fn drag(p: Pos2) -> Mouse {
    Mouse { pointer: Some(p), dragged: true, ..idle() }
}

fn release(p: Pos2) -> Mouse {
    Mouse { pointer: Some(p), drag_stopped: true, ..idle() }
}

fn click(p: Pos2) -> Mouse {
    Mouse { pointer: Some(p), clicked: true, ..idle() }
}

/// Drags on monitor 0 from `a` to `b`.
fn stroke(overlay: &mut Overlay, a: Pos2, b: Pos2) {
    overlay.monitor_ui(0, press(a));
    overlay.monitor_ui(0, drag(b));
    overlay.monitor_ui(0, release(b));
}

fn key(key: Key, ctrl: bool, shift: bool) -> Vec<KeyEvent> {
    vec![KeyEvent::Key { key, pressed: true, ctrl, shift }]
}

#[test]
fn rounding_is_half_away_from_zero() {
    assert_eq!(round_px(UNIT / 2), 1);
    assert_eq!(round_px(UNIT / 2 - 1), 0);
    assert_eq!(round_px(-UNIT / 2), -1);
    assert_eq!(round_px(-UNIT / 2 + 1), 0);
    assert_eq!(round_px(7 * UNIT), 7);
}

#[test]
fn rects_from_any_two_corners() {
    let r = Rect::from_two_pos(at(5, 1), at(2, 9));
    assert_eq!(r, rect(2, 1, 5, 9));
    assert!(r.contains(at(2, 9)));
    assert!(!r.contains(at(6, 9)));
    assert_eq!(r.translate(Vec2 { x: UNIT, y: -UNIT }), rect(3, 0, 6, 8));
    assert_eq!(r.intersect(rect(3, 0, 10, 4)), rect(3, 1, 5, 4));
}

#[test]
fn handles_are_clockwise_from_top_left() {
    let h = handle_positions(rect(0, 0, 10, 20));
    assert_eq!(
        h,
        [at(0, 0), at(5, 0), at(10, 0), at(10, 10), at(10, 20), at(5, 20), at(0, 20), at(0, 10)]
    );
}

#[test]
fn the_nearest_handle_is_grabbed() {
    let r = rect(0, 0, 100, 100);
    assert_eq!(hit_handle(r, at(3, 4)), Some(0));
    assert_eq!(hit_handle(r, at(98, 55)), Some(3));
    assert_eq!(hit_handle(r, at(25, 25)), None);
    // Two handles are within reach: the nearer one counts.
    assert_eq!(hit_handle(rect(0, 0, 20, 20), at(8, 0)), Some(1));
}

#[test]
fn a_handle_moves_its_edges_only() {
    let r = rect(10, 10, 30, 40);
    assert_eq!(resize_rect(r, 0, at(5, 6)), rect(5, 6, 30, 40));
    assert_eq!(resize_rect(r, 3, at(50, 99)), rect(10, 10, 50, 40));
    assert_eq!(resize_rect(r, 5, at(0, 60)), rect(10, 10, 30, 60));
    // Past the opposite edge the rectangle turns over.
    assert_eq!(resize_rect(r, 7, at(35, 0)), rect(30, 10, 35, 40));
}

#[test]
fn resizing_in_place_changes_nothing() {
    let r = rect(10, 10, 30, 40);
    assert_eq!(resize_rect(r, 4, at(30, 40)), r);
}

#[test]
fn clamping_moves_back_onto_the_monitor() {
    let size = Vec2 { x: 100 * UNIT, y: 80 * UNIT };
    assert_eq!(clamp_rect(rect(90, 70, 110, 90), size), rect(80, 60, 100, 80));
    assert_eq!(clamp_rect(rect(-5, -6, 15, 14), size), rect(0, 0, 20, 20));
    assert_eq!(clamp_rect(rect(10, 10, 20, 20), size), rect(10, 10, 20, 20));
}

#[test]
fn a_drag_selects() {
    let mut overlay = frozen();
    assert!(overlay.active());
    assert!(overlay.cap.as_ref().unwrap().wants_crosshair());
    stroke(&mut overlay, at(40, 50), at(10, 20));
    assert_eq!(sel_of(&overlay), rect(10, 20, 40, 50));
    assert_eq!(overlay.cap.as_ref().unwrap().active_monitor(), Some(0));
    assert!(!overlay.cap.as_ref().unwrap().wants_crosshair());
}

#[test]
fn points_and_pixels() {
    assert_eq!(phys_of(at(10, -3), 98304), Pos2 { x: 15 * UNIT, y: -9 * UNIT / 2 });
    assert_eq!(points_of(at(15, -9), 98304), at(10, -6));
    assert_eq!(points_of(at(1, -1), 196608), Pos2 { x: 21845, y: -21846 });
    assert_eq!(phys_of(at(7, 8), 65536), at(7, 8));
}

#[test]
fn the_mouse_is_scaled() {
    // One and a half pixels per point: the drag is in points, the selection in pixels.
    let scaled = |m: Mouse| Mouse { scale: 98304, ..m };
    let mut overlay = frozen();
    overlay.monitor_ui(0, scaled(press(at(10, 10))));
    overlay.monitor_ui(0, scaled(drag(at(40, 40))));
    overlay.monitor_ui(0, scaled(release(at(40, 40))));
    assert_eq!(sel_of(&overlay), rect(15, 15, 60, 60));
    let cap = overlay.cap.as_ref().unwrap();
    assert_eq!(cap.sel_points(0, 98304), Some(rect(10, 10, 40, 40)));
    assert_eq!(cap.sel_points(1, 98304), None);
    // The handle is where the selection is drawn, eleven points away from the press.
    overlay.monitor_ui(0, scaled(press(at(51, 40))));
    overlay.monitor_ui(0, scaled(release(at(51, 40))));
    let wider = Pos2 { x: 153 * UNIT / 2, y: 60 * UNIT };
    assert_eq!(sel_of(&overlay), Rect { min: at(15, 15), max: wider });
}

#[test]
fn a_drag_stops_at_the_edge() {
    let mut overlay = frozen();
    stroke(&mut overlay, at(40, 50), at(500, -30));
    assert_eq!(sel_of(&overlay), rect(40, 0, 100, 50));
}

#[test]
fn the_selection_moves_but_stays_on_its_monitor() {
    let mut overlay = frozen();
    stroke(&mut overlay, at(10, 10), at(60, 60));
    stroke(&mut overlay, at(35, 30), at(45, 35));
    assert_eq!(sel_of(&overlay), rect(20, 15, 70, 65));
    stroke(&mut overlay, at(45, 35), at(99, 79));
    assert_eq!(sel_of(&overlay), rect(50, 30, 100, 80));
}

#[test]
fn a_corner_resizes_the_selection() {
    let mut overlay = frozen();
    stroke(&mut overlay, at(10, 10), at(60, 60));
    stroke(&mut overlay, at(60, 60), at(70, 75));
    assert_eq!(sel_of(&overlay), rect(10, 10, 70, 75));
}

#[test]
fn another_monitor_cannot_take_over() {
    let mut overlay = frozen();
    stroke(&mut overlay, at(10, 10), at(60, 60));
    overlay.monitor_ui(1, press(at(5, 5)));
    overlay.monitor_ui(1, release(at(20, 20)));
    assert_eq!(sel_of(&overlay), rect(10, 10, 60, 60));
    assert_eq!(overlay.cap.as_ref().unwrap().active_monitor(), Some(0));
}

#[test]
fn arrow_keys_nudge_and_nudge_back() {
    let mut overlay = frozen();
    stroke(&mut overlay, at(10, 10), at(60, 60));
    assert_eq!(overlay.monitor_keys(0, &key(Key::ArrowRight, false, false)), None);
    assert_eq!(sel_of(&overlay), rect(11, 10, 61, 60));
    overlay.monitor_keys(0, &key(Key::ArrowDown, false, true));
    assert_eq!(sel_of(&overlay), rect(11, 20, 61, 70));
    overlay.monitor_keys(0, &key(Key::ArrowUp, false, true));
    overlay.monitor_keys(0, &key(Key::ArrowLeft, false, false));
    assert_eq!(sel_of(&overlay), rect(10, 10, 60, 60));
    for _ in 0..3 {
        overlay.monitor_keys(0, &key(Key::ArrowLeft, false, true));
    }
    assert_eq!(sel_of(&overlay), rect(0, 10, 50, 60));
}

#[test]
fn any_number_of_keys_nudges_to_the_edge() {
    let mut overlay = frozen();
    stroke(&mut overlay, at(10, 10), at(60, 60));
    let right = KeyEvent::Key { key: Key::ArrowRight, pressed: true, ctrl: false, shift: true };
    let up = KeyEvent::Key { key: Key::ArrowUp, pressed: true, ctrl: false, shift: false };
    let mut events = vec![right; 2_000_000];
    events.push(up);
    assert_eq!(overlay.monitor_keys(0, &events), None);
    assert_eq!(sel_of(&overlay), rect(50, 9, 100, 59));
}

#[test]
fn a_dragged_selection_stays_on_its_monitor() {
    let mut overlay = frozen();
    stroke(&mut overlay, at(10, 10), at(60, 60));
    overlay.monitor_ui(0, press(at(35, 30)));
    overlay.monitor_ui(0, drag(at(-900, 2000)));
    assert_eq!(sel_of(&overlay), rect(0, 30, 50, 80));
    overlay.monitor_ui(0, release(at(-900, 2000)));
    // By its right edge, past the left one and off the monitor.
    overlay.monitor_ui(0, press(at(50, 55)));
    overlay.monitor_ui(0, drag(at(9000, 55)));
    assert_eq!(sel_of(&overlay), rect(0, 30, 100, 80));
}

#[test]
fn escape_cancels_and_exports_need_a_selection() {
    let mut overlay = frozen();
    assert_eq!(overlay.monitor_keys(0, &key(Key::C, true, false)), None);
    assert_eq!(overlay.monitor_keys(0, &vec![KeyEvent::Copy]), None);
    assert_eq!(overlay.monitor_keys(0, &key(Key::S, true, false)), None);
    assert_eq!(overlay.monitor_keys(0, &key(Key::Escape, false, false)), Some(Outcome::Cancel));
    assert!(overlay.export_data().is_none());
    stroke(&mut overlay, at(10, 10), at(60, 60));
    assert_eq!(overlay.monitor_keys(0, &vec![KeyEvent::Copy]), Some(Outcome::Copy));
    assert_eq!(overlay.monitor_keys(0, &key(Key::S, true, false)), Some(Outcome::Save));
    assert_eq!(overlay.monitor_keys(0, &key(Key::S, false, false)), None);
    let (image, sel, marks) = overlay.export_data().unwrap();
    assert_eq!((image.width, image.height), (100, 80));
    assert_eq!(sel, rect(10, 10, 60, 60));
    assert!(marks.is_empty());
    overlay.close();
    assert!(!overlay.active());
    assert_eq!(overlay.len(), 2);
}

#[test]
fn drawing_tools_add_annotations_and_undo_takes_them_back() {
    let mut overlay = frozen();
    stroke(&mut overlay, at(10, 10), at(60, 60));
    overlay.cap.as_mut().unwrap().pick_tool(Tool::Arrow);
    overlay.cap.as_mut().unwrap().pick_color(colors()[3]);
    stroke(&mut overlay, at(20, 20), at(40, 50));
    {
        let marks = overlay.cap.as_ref().unwrap().annotations();
        assert_eq!(marks.len(), 1);
        match &marks[0] {
            Annotation::Arrow { from, to, color } => {
                assert_eq!(*from, at(20, 20));
                assert_eq!(*to, at(40, 50));
                assert_eq!(*color, colors()[3]);
            }
            _ => panic!("not an arrow"),
        }
    }
    overlay.cap.as_mut().unwrap().pick_tool(Tool::Rect);
    stroke(&mut overlay, at(50, 40), at(30, 20));
    match &overlay.cap.as_ref().unwrap().annotations()[1] {
        Annotation::Rect { rect: r, color: _ } => assert_eq!(*r, rect(30, 20, 50, 40)),
        _ => panic!("not a rectangle"),
    }
    overlay.monitor_keys(0, &key(Key::Z, true, false));
    assert_eq!(overlay.cap.as_ref().unwrap().annotations().len(), 1);
    overlay.cap.as_mut().unwrap().undo();
    assert_eq!(overlay.cap.as_ref().unwrap().annotations().len(), 0);
    overlay.cap.as_mut().unwrap().undo();
    assert_eq!(overlay.cap.as_ref().unwrap().annotations().len(), 0);
    assert_eq!(sel_of(&overlay), rect(10, 10, 60, 60));
}

#[test]
fn a_pen_line_keeps_the_points_of_the_drag() {
    let mut overlay = frozen();
    stroke(&mut overlay, at(10, 10), at(60, 60));
    overlay.cap.as_mut().unwrap().pick_tool(Tool::Pen);
    overlay.monitor_ui(0, press(at(20, 20)));
    overlay.monitor_ui(0, drag(at(30, 20)));
    assert!(overlay.cap.as_ref().unwrap().in_progress().is_some());
    overlay.monitor_ui(0, drag(at(30, 40)));
    overlay.monitor_ui(0, release(at(30, 40)));
    assert!(overlay.cap.as_ref().unwrap().in_progress().is_none());
    match &overlay.cap.as_ref().unwrap().annotations()[0] {
        Annotation::Pen { points, color } => {
            assert_eq!(*points, vec![at(20, 20), at(30, 20), at(30, 40)]);
            assert_eq!(*color, colors()[0]);
        }
        _ => panic!("not a pen line"),
    }
}

#[test]
fn text_is_kept_unless_blank() {
    let mut overlay = frozen();
    stroke(&mut overlay, at(10, 10), at(60, 60));
    overlay.cap.as_mut().unwrap().pick_tool(Tool::Text);
    overlay.monitor_ui(0, click(at(20, 20)));
    assert!(overlay.cap.as_ref().unwrap().draft().is_some());
    overlay.cap.as_mut().unwrap().set_draft_text(String::from(" \u{2003}\t"));
    assert_eq!(overlay.monitor_keys(0, &key(Key::Enter, false, false)), None);
    assert!(overlay.cap.as_ref().unwrap().draft().is_none());
    assert_eq!(overlay.cap.as_ref().unwrap().annotations().len(), 0);

    overlay.monitor_ui(0, click(at(20, 20)));
    overlay.cap.as_mut().unwrap().set_draft_text(String::from("hi"));
    // While text is typed, Escape drops the text and does not end the capture.
    assert_eq!(overlay.monitor_keys(0, &key(Key::Escape, false, false)), None);
    assert_eq!(overlay.cap.as_ref().unwrap().annotations().len(), 0);

    overlay.monitor_ui(0, click(at(20, 20)));
    overlay.cap.as_mut().unwrap().set_draft_text(String::from("hi"));
    // Clicking elsewhere in the selection keeps the text and starts a new one.
    overlay.monitor_ui(0, click(at(40, 40)));
    match &overlay.cap.as_ref().unwrap().annotations()[0] {
        Annotation::Text { pos, text, color: _ } => {
            assert_eq!(*pos, at(20, 20));
            assert_eq!(text, "hi");
        }
        _ => panic!("not a text"),
    }
    assert_eq!(overlay.cap.as_ref().unwrap().draft(), Some((at(40, 40), "")));
}

#[test]
fn a_fresh_capture_is_painted_before_it_is_shown() {
    let mut overlay = frozen();
    assert!(!overlay.visible());
    let first = overlay.end_frame();
    assert!(first.disable_animations && !first.focus && first.repaint);
    assert!(overlay.visible());
    let second = overlay.end_frame();
    assert!(!second.disable_animations && second.focus && second.repaint);
    assert_eq!(overlay.cap.as_ref().unwrap().frame_count(), 2);
    let third = overlay.end_frame();
    assert!(!third.focus && !third.repaint);
}

#[test]
fn scales_are_forgotten_when_monitors_change() {
    let mut overlay = frozen();
    assert_eq!(overlay.scale_of(0), 65536);
    overlay.monitor_ui(0, Mouse { scale: 98304, ..idle() });
    assert_eq!(overlay.scale_of(0), 98304);
    assert_eq!(overlay.scale_of(7), 65536);
    assert_eq!(overlay.scale_or(1, 131072), 131072);
    overlay.start(vec![shot(0, 0, 100, 80), shot(100, 0, 50, 50)]);
    assert_eq!(overlay.scale_of(0), 98304);
    overlay.start(vec![shot(0, 0, 60, 60)]);
    assert_eq!(overlay.scale_of(0), 65536);
    assert_eq!(overlay.monitor_rect(0), (0, 0, 60, 60));
}

#[test]
fn the_chrome_belongs_to_the_selected_monitor() {
    let mut overlay = frozen();
    overlay.monitor_ui(0, press(at(10, 10)));
    overlay.monitor_ui(0, drag(at(30, 20)));
    let cap = overlay.cap.as_ref().unwrap();
    let c = cap.chrome(0, true);
    assert_eq!(c.loupe, Some(at(30, 20)));
    assert!(c.badge && c.annotations && !c.handles && !c.toolbar);
    let other = cap.chrome(1, false);
    assert!(!other.badge && !other.annotations && other.loupe.is_none());
}

#[test]
fn dark_strips_leave_the_selection_free() {
    let screen = rect(0, 0, 100, 80);
    let strips = dim_strips(Some(rect(10, 20, 40, 50)), screen);
    assert_eq!(
        strips,
        vec![rect(0, 0, 100, 20), rect(0, 50, 100, 80), rect(0, 20, 10, 50), rect(40, 20, 100, 50)]
    );
    assert_eq!(dim_strips(None, screen), vec![screen]);
}

#[test]
fn badge_loupe_and_toolbar_flip_at_the_edges() {
    let end = at(100, 80);
    let text = Vec2 { x: 20 * UNIT, y: 10 * UNIT };
    assert_eq!(badge_rect(at(40, 30), text, end), rect(44, 34, 76, 50));
    assert_eq!(badge_rect(at(90, 30), text, end), rect(54, 10, 86, 26));
    assert_eq!(loupe_rect(at(10, 10), at(300, 300)), rect(34, 34, 154, 154));
    assert_eq!(loupe_rect(at(290, 10), at(300, 300)), rect(146, 34, 266, 154));
    assert_eq!(loupe_source(at(50, 60), 131072), rect(35, 45, 65, 75));
    assert_eq!(toolbar_pos(rect(10, 10, 40, 20), end), at(10, 30));
    assert_eq!(toolbar_pos(rect(10, 60, 40, 70), end), at(10, 14));
    assert_eq!(badge_label(rect(10, 20, 40, 95)), "30\u{00D7}75");
}
