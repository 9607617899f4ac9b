//! Screen images, exports, names of files, icons.
use glimt::capture::{
    bgra_to_rgba, capture_monitor, frozen_texture, monitor_rects, Bounds, CaptureError,
    GdiCapturer, ScreenCapturer,
};
use glimt::config::{filename, filename_now, temp_filename, video_ext, Settings, VideoFormat};
use glimt::export::{
    blank_canvas, crop_region, drawings, finish_render, pixel_index, render, render_plain, Crop,
};
use glimt::geom::{Pos2, Rect, UNIT};
use glimt::marks::{Annotation, Color};
use glimt::pixels::Image;
use glimt::text::{decimal, is_blank, size_label, timer_label};
use glimt::tray::{icon_from, load_icon, IconError};

fn at(x: i64, y: i64) -> Pos2 {
    Pos2 { x: x * UNIT, y: y * UNIT }
}

fn rect(x0: i64, y0: i64, x1: i64, y1: i64) -> Rect {
    Rect { min: at(x0, y0), max: at(x1, y1) }
}

/// An opaque image whose red is the column and whose green is the row.
fn chart(w: u32, h: u32) -> Image {
    let mut data = Vec::new();
    for y in 0..h {
        for x in 0..w {
            data.extend_from_slice(&[x as u8, y as u8, 99, 255]);
        }
    }
    Image::from_raw(w, h, data).unwrap()
}

#[test]
fn an_image_needs_the_right_number_of_bytes() {
    assert!(Image::from_raw(2, 2, vec![0; 16]).is_some());
    assert!(Image::from_raw(2, 2, vec![0; 15]).is_none());
    assert!(Image::from_raw(2, 2, vec![0; 17]).is_none());
}

#[test]
fn monitors_have_positions_and_sizes() {
    let m = vec![
        Bounds { left: 0, top: 0, right: 1920, bottom: 1080 },
        Bounds { left: -1280, top: 56, right: 0, bottom: 1080 },
    ];
    assert_eq!(monitor_rects(&m), vec![(0, 0, 1920, 1080), (-1280, 56, 1280, 1024)]);
}

#[test]
fn screen_copies_become_opaque_images() {
    assert_eq!(bgra_to_rgba(vec![1, 2, 3, 0, 4, 5, 6, 7]), vec![3, 2, 1, 255, 6, 5, 4, 255]);
    let b = Bounds { left: 10, top: 20, right: 12, bottom: 21 };
    match capture_monitor(b, true, 1, vec![1, 2, 3, 0, 4, 5, 6, 7]) {
        Ok(shot) => {
            assert_eq!(shot.rect, (10, 20, 2, 1));
            assert_eq!(shot.image.data, vec![3, 2, 1, 255, 6, 5, 4, 255]);
        }
        Err(_) => panic!("no shot"),
    }
    assert!(matches!(capture_monitor(b, false, 1, vec![0; 8]), Err(CaptureError::CopyFailed)));
    assert!(matches!(capture_monitor(b, true, 0, vec![0; 8]), Err(CaptureError::ReadFailed)));
}

#[test]
fn one_failed_monitor_fails_the_capture() {
    let b = Bounds { left: 0, top: 0, right: 1, bottom: 1 };
    assert!(matches!(GdiCapturer.capture_all(vec![]), Err(CaptureError::NoMonitors)));
    let all = GdiCapturer.capture_all(vec![
        capture_monitor(b, true, 1, vec![0; 4]),
        capture_monitor(b, true, 1, vec![1; 4]),
    ]);
    match all {
        Ok(shots) => {
            assert_eq!(shots.len(), 2);
            assert_eq!(shots[1].image.data, vec![1, 1, 1, 255]);
        }
        Err(_) => panic!("failed"),
    }
    let some = GdiCapturer.capture_all(vec![
        capture_monitor(b, true, 1, vec![0; 4]),
        Err(CaptureError::NoScreen),
        Err(CaptureError::ReadFailed),
    ]);
    assert!(matches!(some, Err(CaptureError::NoScreen)));
}

#[test]
fn the_frozen_texture_is_the_image() {
    let texture = frozen_texture(&chart(3, 2));
    assert_eq!(texture.size, [3, 2]);
    assert_eq!(texture.pixels[5], egui::Color32::from_rgb(2, 1, 99));
}

#[test]
fn the_crop_lies_in_the_image() {
    let c = crop_region(100, 80, rect(10, 20, 40, 60));
    assert_eq!((c.x, c.y, c.w, c.h), (10, 20, 30, 40));
    // An empty selection still has a pixel, and nothing sticks out.
    let c = crop_region(100, 80, rect(100, 80, 100, 80));
    assert_eq!((c.x, c.y, c.w, c.h), (99, 79, 1, 1));
    let c = crop_region(100, 80, rect(90, -10, 300, 200));
    assert_eq!((c.x, c.y, c.w, c.h), (90, 0, 10, 80));
}

#[test]
fn an_export_is_the_selected_part() {
    let shot = chart(10, 8);
    let image = match render_plain(&shot, rect(3, 2, 5, 5)) {
        Ok(image) => image,
        Err(_) => panic!("no image"),
    };
    assert_eq!((image.width, image.height), (2, 3));
    assert_eq!(&image.data[0..8], &[3, 2, 99, 255, 4, 2, 99, 255]);
    assert_eq!(&image.data[16..20], &[3, 4, 99, 255]);
}

#[test]
fn what_is_drawn_on_the_canvas_is_exported() {
    let shot = chart(10, 8);
    let (mut canvas, crop) = match render(&shot, rect(3, 2, 5, 5)) {
        Ok(res) => res,
        Err(_) => panic!("no canvas"),
    };
    assert_eq!((canvas.width(), canvas.height()), (2, 3));
    canvas.data_mut()[0] = 200;
    let image = finish_render(canvas, crop).unwrap();
    assert_eq!(&image.data[0..4], &[200, 2, 99, 255]);
    let wrong = blank_canvas(1, 1).unwrap();
    assert!(finish_render(wrong, crop).is_none());
}

#[test]
fn canvases_are_blank_and_not_empty() {
    let canvas = blank_canvas(4, 2).unwrap();
    assert_eq!((canvas.width(), canvas.height()), (4, 2));
    assert!(canvas.data().iter().all(|b| *b == 0));
    assert!(blank_canvas(0, 5).is_none());
    assert!(blank_canvas(5, -1).is_none());
    // A row of more than 2^31 - 1 bytes is too long.
    assert!(blank_canvas(1 << 29, 1).is_none());
    assert!(blank_canvas(1 << 40, 1).is_none());
}

#[test]
fn annotations_are_drawn_relative_to_the_crop() {
    let color = Color { r: 1, g: 2, b: 3, a: 255 };
    let marks = vec![
        Annotation::Pen { points: vec![at(9, 9)], color },
        Annotation::Pen { points: vec![at(12, 25), at(14, 26)], color },
        Annotation::Text { pos: at(11, 21), text: String::from("x"), color },
        Annotation::Rect { rect: rect(12, 22, 15, 30), color },
        Annotation::Line { from: at(10, 20), to: at(0, 0), color },
    ];
    let drawn = drawings(&marks, Crop { x: 10, y: 20, w: 30, h: 40 });
    assert_eq!(drawn.len(), 4);
    match &drawn[0] {
        Annotation::Pen { points, .. } => assert_eq!(*points, vec![at(2, 5), at(4, 6)]),
        _ => panic!("not a pen line"),
    }
    match &drawn[1] {
        Annotation::Text { pos, text, .. } => {
            assert_eq!(*pos, at(1, 1));
            assert_eq!(text, "x");
        }
        _ => panic!("not a text"),
    }
    match &drawn[2] {
        Annotation::Rect { rect: r, .. } => assert_eq!(*r, rect(2, 2, 5, 10)),
        _ => panic!("not a rectangle"),
    }
    match &drawn[3] {
        Annotation::Line { from, to, .. } => {
            assert_eq!(*from, at(0, 0));
            assert_eq!(*to, at(-10, -20));
        }
        _ => panic!("not a line"),
    }
}

#[test]
fn an_export_of_an_export_is_the_same() {
    let shot = chart(10, 8);
    let color = Color { r: 1, g: 2, b: 3, a: 255 };
    let line = |x: i64, y: i64| {
        Annotation::Line { from: at(4 - x, 3 - y), to: at(9 - x, 9 - y), color }
    };
    let ends = |a: &Annotation| match a {
        Annotation::Line { from, to, .. } => (*from, *to),
        _ => panic!("not a line"),
    };
    let first = match render_plain(&shot, rect(3, 2, 8, 5)) {
        Ok(image) => image,
        Err(_) => panic!("no image"),
    };
    let again = match render_plain(&first, rect(0, 0, 5, 3)) {
        Ok(image) => image,
        Err(_) => panic!("no image"),
    };
    assert_eq!((again.width, again.height), (5, 3));
    assert_eq!(again.data, first.data);
    let outer = drawings(&vec![line(0, 0)], Crop { x: 3, y: 2, w: 5, h: 3 });
    let inner = drawings(&vec![line(3, 2)], Crop { x: 0, y: 0, w: 5, h: 3 });
    assert_eq!(ends(&outer[0]), ends(&inner[0]));
}

#[test]
fn pixels_outside_the_canvas_have_no_place() {
    assert_eq!(pixel_index(2, 1, 3, 2), Some(20));
    assert_eq!(pixel_index(3, 1, 3, 2), None);
    assert_eq!(pixel_index(0, 2, 3, 2), None);
    assert_eq!(pixel_index(-1, 0, 3, 2), None);
    assert_eq!(pixel_index(10, 60_000, 50_000, 60_001), Some(12_000_000_040));
    assert_eq!(pixel_index(0, -1, 3, 2), None);
}

#[test]
fn numbers_and_labels() {
    assert_eq!(decimal(0), "0");
    assert_eq!(decimal(10), "10");
    assert_eq!(decimal(18446744073709551615), "18446744073709551615");
    assert_eq!(size_label(640, 480), "640\u{00D7}480");
    assert_eq!(timer_label(7), "0:07");
    assert_eq!(timer_label(71), "1:11");
    assert_eq!(timer_label(3600), "60:00");
    assert!(is_blank(""));
    assert!(is_blank(" \n\u{3000}"));
    assert!(!is_blank(" a "));
    for c in ['\u{9}', '\u{85}', '\u{a0}', '\u{1680}', '\u{2028}', '\u{202f}', '\u{205f}'] {
        assert_eq!(is_blank(&c.to_string()), c.to_string().trim().is_empty());
    }
}

#[test]
fn file_names_carry_the_time() {
    assert_eq!(filename("2024-05-06_07-08-09", "png"), "glimt_2024-05-06_07-08-09.png");
    assert_eq!(temp_filename("gif"), ".glimt_rec_tmp.gif");
    assert_eq!(video_ext(VideoFormat::Mp4), "mp4");
    assert_eq!(video_ext(VideoFormat::Gif), "gif");
    let now = filename_now("png");
    assert_eq!(now.len(), 6 + 19 + 4);
    assert!(now.starts_with("glimt_2") && now.ends_with(".png"));
    assert!(!now.contains('/') && !now.contains('%'));
    assert_eq!(&now[10..11], "-");
    assert_eq!(&now[16..17], "_");
    let part = |from: usize| now[from..from + 2].parse::<u32>().unwrap();
    assert!((1..=12).contains(&part(11)) && (1..=31).contains(&part(14)));
    assert!(part(17) <= 23 && part(20) <= 59 && part(23) <= 60);
}

#[test]
fn settings_fall_back_to_their_defaults() {
    let initial = Settings::load(None);
    assert!(initial.autostart && !initial.prtsc_warning_shown);
    assert_eq!(initial.video_format, VideoFormat::Mp4);
    let read = Settings {
        autostart: false,
        prtsc_warning_shown: true,
        video_format: VideoFormat::Gif,
    };
    assert_eq!(Settings::load(Some(read)), read);
    assert_eq!(Settings::default(), initial);
}

#[test]
fn icons_are_decoded() {
    let mut file = std::io::Cursor::new(Vec::new());
    let picture = image::RgbaImage::from_raw(2, 1, vec![1, 2, 3, 255, 4, 5, 6, 128]).unwrap();
    picture.write_to(&mut file, image::ImageFormat::Png).unwrap();
    match load_icon(&file.into_inner()) {
        Ok(icon) => {
            assert_eq!((icon.width, icon.height), (2, 1));
            assert_eq!(icon.data, vec![1, 2, 3, 255, 4, 5, 6, 128]);
        }
        Err(_) => panic!("no icon"),
    }
    assert!(matches!(load_icon(&[1, 2, 3]), Err(IconError::Unreadable)));
    assert!(matches!(load_icon(b"GIF89a"), Err(IconError::Unreadable)));
    assert!(matches!(icon_from(2, 2, vec![0; 15]), Err(IconError::BadSize)));
    assert!(icon_from(2, 2, vec![0; 16]).is_ok());
}
