//! The tray icon and its menu.
use vstd::prelude::*;

use crate::control::AppMsg;
use crate::pixels::Image;

verus! {

/// The pictures of the tray icon.
#[derive(Clone, Copy, PartialEq, Eq, Structural, Debug)]
pub enum Icon {
    Normal,
    /// The one with a red dot.
    Recording,
}

/// Why there is no icon.
#[derive(Clone, Copy, PartialEq, Eq, Structural, Debug)]
pub enum IconError {
    /// The bytes are no PNG image.
    Unreadable,
    /// The image has more or fewer bytes than its size asks for.
    BadSize,
}

/// One line of the tray menu.
#[derive(Clone, Copy, PartialEq, Eq, Debug)]
pub enum Entry {
    Item(&'static str),
    Check(&'static str, bool),
    Separator,
}

/// The numbers that the system gave to the lines of the menu.
pub struct Tray {
    pub capture_id: String,
    pub open_folder_id: String,
    pub autostart_id: String,
    pub quit_id: String,
}

/// The lines of the tray menu, from the top.
pub fn build(autostart_enabled: bool) -> (menu: [Entry; 5])
    ensures
        menu@ == seq![
            Entry::Item("Capture (PrtSc)"),
            Entry::Item("Open screenshots folder"),
            Entry::Check("Start with Windows", autostart_enabled),
            Entry::Separator,
            Entry::Item("Quit"),
        ],
{
    let menu = [
        Entry::Item("Capture (PrtSc)"),
        Entry::Item("Open screenshots folder"),
        Entry::Check("Start with Windows", autostart_enabled),
        Entry::Separator,
        Entry::Item("Quit"),
    ];
    assert(menu@ =~= seq![
        Entry::Item("Capture (PrtSc)"),
        Entry::Item("Open screenshots folder"),
        Entry::Check("Start with Windows", autostart_enabled),
        Entry::Separator,
        Entry::Item("Quit"),
    ]);
    menu
}

impl Tray {
    /// The picture to show while a recording runs, or while none does.
    pub fn set_recording(on: bool) -> (icon: Icon)
        ensures
            icon == (if on {
                Icon::Recording
            } else {
                Icon::Normal
            }),
    {
        if on {
            Icon::Recording
        } else {
            Icon::Normal
        }
    }

    /// What choosing a line of the menu asks of the program.
    pub open spec fn asks(&self, id: Seq<char>) -> Option<AppMsg> {
        if id == self.capture_id@ {
            Some(AppMsg::Capture { video: false })
        } else if id == self.open_folder_id@ {
            Some(AppMsg::OpenFolder)
        } else if id == self.autostart_id@ {
            Some(AppMsg::ToggleAutostart)
        } else if id == self.quit_id@ {
            Some(AppMsg::Quit)
        } else {
            None
        }
    }

    /// What choosing a line of the menu asks of the program.
    pub fn menu_message(&self, id: &String) -> (msg: Option<AppMsg>)
        ensures
            msg == self.asks(id@),
    {
        if id.eq(&self.capture_id) {
            Some(AppMsg::Capture { video: false })
        } else if id.eq(&self.open_folder_id) {
            Some(AppMsg::OpenFolder)
        } else if id.eq(&self.autostart_id) {
            Some(AppMsg::ToggleAutostart)
        } else if id.eq(&self.quit_id) {
            Some(AppMsg::Quit)
        } else {
            None
        }
    }
}

/// What a mouse button on the tray icon asks of the program: releasing the left one
/// starts a capture.
pub fn click_message(left: bool, released: bool) -> (msg: Option<AppMsg>)
    ensures
        msg == (if left && released {
            Some(AppMsg::Capture { video: false })
        } else {
            None
        }),
{
    if left && released {
        Some(AppMsg::Capture { video: false })
    } else {
        None
    }
}

/// The errors of the image library.
#[verifier::external_type_specification]
#[verifier::external_body]
pub struct ExImageError(image::ImageError);

/// What the image library makes of the bytes of a PNG file: width, height, and RGBA
/// bytes; nothing where it cannot read them.
pub uninterp spec fn decoded(file: Seq<u8>) -> Option<(u32, u32, Seq<u8>)>;

/// The result of decoding holds the image.
pub open spec fn decoded_as(
    res: Result<(u32, u32, Vec<u8>), image::ImageError>,
    image: Option<(u32, u32, Seq<u8>)>,
) -> bool {
    match res {
        Ok((w, h, data)) => image == Some((w, h, data@)),
        Err(_) => image is None,
    }
}

/// Calls `image::load_from_memory_with_format` for the PNG format, and `into_rgba8` on its
/// result.  Claims that what comes back depends on the bytes alone.
#[verifier::external_body]
fn decode_image(file: &[u8]) -> (res: Result<(u32, u32, Vec<u8>), image::ImageError>)
    ensures
        decoded_as(res, decoded(file@)),
{
    let format = image::ImageFormat::Png;
    let rgba = image::load_from_memory_with_format(file, format)?.into_rgba8();
    let (w, h) = rgba.dimensions();
    Ok((w, h, rgba.into_raw()))
}

/// The picture of an icon out of the bytes of its PNG file.
pub fn load_icon(file: &[u8]) -> (res: Result<Image, IconError>)
    ensures
        match decoded(file@) {
            None => res == Err::<Image, IconError>(IconError::Unreadable),
            Some((w, h, data)) => icon_made(w, h, data, res),
        },
{
    match decode_image(file) {
        Ok((w, h, data)) => icon_from(w, h, data),
        Err(_) => Err(IconError::Unreadable),
    }
}

/// The decoded image is an icon if it has as many bytes as its size asks for.
pub open spec fn icon_made(
    w: u32,
    h: u32,
    data: Seq<u8>,
    res: Result<Image, IconError>,
) -> bool {
    if data.len() == crate::pixels::byte_len(w as int, h as int) {
        res matches Ok(image) && image.wf() && image.width == w && image.height == h
            && image.data@ == data
    } else {
        res == Err::<Image, IconError>(IconError::BadSize)
    }
}

/// The picture of an icon out of a decoded image.
pub fn icon_from(w: u32, h: u32, data: Vec<u8>) -> (res: Result<Image, IconError>)
    ensures
        icon_made(w, h, data@, res),
{
    match Image::from_raw(w, h, data) {
        Some(image) => Ok(image),
        None => Err(IconError::BadSize),
    }
}

/// Each line of the menu asks for its own thing, and anything else for nothing; where lines
/// have the same number the upper one counts.
pub proof fn law_menu_lines_ask(tray: Tray, id: Seq<char>)
    ensures
        ({
            let (capture, folder) = (id == tray.capture_id@, id == tray.open_folder_id@);
            let (start, quit) = (id == tray.autostart_id@, id == tray.quit_id@);
            let asked = tray.asks(id);
            &&& asked == Some(AppMsg::Capture { video: false }) <==> capture
            &&& asked == Some(AppMsg::OpenFolder) <==> folder && !capture
            &&& asked == Some(AppMsg::ToggleAutostart) <==> start && !capture && !folder
            &&& asked == Some(AppMsg::Quit) <==> quit && !capture && !folder && !start
            &&& asked is None <==> !capture && !folder && !start && !quit
        }),
{
}

/// A decoded image is taken as it is where four bytes for each pixel came out, and refused
/// where not.
pub proof fn law_icon_has_all_pixels(w: u32, h: u32, data: Seq<u8>, res: Result<Image, IconError>)
    requires
        icon_made(w, h, data, res),
    ensures
        res is Ok <==> data.len() == 4 * (w * h),
        res matches Ok(image) ==> image.width == w && image.height == h && image.data@ == data,
        res matches Err(e) ==> e is BadSize,
{
}

} // verus!
