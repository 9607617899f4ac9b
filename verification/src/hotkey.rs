//! The global hotkeys: PrtSc and Shift+PrtSc.
use vstd::prelude::*;

use crate::config::Settings;
use crate::control::AppMsg;

verus! {

/// The hotkeys of the program, by their numbers.
#[derive(Clone, Copy, PartialEq, Eq, Structural, Debug)]
pub struct Hotkey {
    pub prtsc_id: u32,
    pub shift_prtsc_id: u32,
}

/// Calls `global_hotkey::hotkey::HotKey::new` for the print-screen key, and `id` on the
/// result.  Claims that the number holds the modifiers in its upper half, where shift is
/// bit 9, and the position of the key among the key codes in its lower half.
#[verifier::external_body]
fn print_screen_id(shift: bool) -> (id: u32)
    ensures
        id == (if shift { 0x0200_0075u32 } else { 0x75u32 }),
{
    let mods = shift.then_some(global_hotkey::hotkey::Modifiers::SHIFT);
    global_hotkey::hotkey::HotKey::new(mods, global_hotkey::hotkey::Code::PrintScreen).id()
}

/// The hotkeys of the program.
pub open spec fn hotkeys() -> Hotkey {
    Hotkey { prtsc_id: 0x75, shift_prtsc_id: 0x0200_0075 }
}

/// The hotkeys, and whether to warn that PrtSc belongs to another program.  `registered`
/// tells whether PrtSc could be registered; without it, captures start from the tray.
pub fn register_prtsc(registered: bool) -> (res: (Hotkey, bool))
    ensures
        res.0 == hotkeys(),
        res.1 == !registered,
{
    let prtsc_id: u32 = print_screen_id(false);
    let shift_prtsc_id: u32 = print_screen_id(true);
    (Hotkey { prtsc_id, shift_prtsc_id }, !registered)
}

impl Hotkey {
    /// What a hotkey event asks of the program.
    pub open spec fn asks(self, id: u32, pressed: bool) -> Option<AppMsg> {
        if !pressed {
            None
        } else if id == self.prtsc_id {
            Some(AppMsg::Capture { video: false })
        } else if id == self.shift_prtsc_id {
            Some(AppMsg::Capture { video: true })
        } else {
            None
        }
    }

    /// What a hotkey event asks of the program.
    pub fn message(&self, id: u32, pressed: bool) -> (msg: Option<AppMsg>)
        ensures
            msg == self.asks(id, pressed),
    {
        if !pressed {
            None
        } else if id == self.prtsc_id {
            Some(AppMsg::Capture { video: false })
        } else if id == self.shift_prtsc_id {
            Some(AppMsg::Capture { video: true })
        } else {
            None
        }
    }
}

/// The warning about the system's own screenshot tool is due: it was not shown yet, and
/// the tool owns the PrtSc key.
pub open spec fn warning_due(settings: Settings, snipping: Option<u32>) -> bool {
    !settings.prtsc_warning_shown && snipping == Some(1u32)
}

/// Tells whether to warn that the system's own screenshot tool owns the PrtSc key, and to
/// save the settings.  `snipping` is what the system says of that.
pub fn warn_if_snipping_owns_prtsc(settings: &mut Settings, snipping: Option<u32>) -> (warn: bool)
    ensures
        warn == warning_due(*old(settings), snipping),
        *final(settings) == (Settings {
            prtsc_warning_shown: old(settings).prtsc_warning_shown || warn,
            ..*old(settings)
        }),
{
    if settings.prtsc_warning_shown {
        return false;
    }
    let owned: bool = match snipping {
        Some(value) => value == 1,
        None => false,
    };
    if owned {
        settings.prtsc_warning_shown = true;
    }
    owned
}

/// Once the warning is shown it is never due again, whatever the system says.
pub proof fn law_warned_once(settings: Settings, first: Option<u32>, second: Option<u32>)
    requires
        warning_due(settings, first),
    ensures
        !warning_due(Settings { prtsc_warning_shown: true, ..settings }, second),
{
}

/// The two hotkeys are told apart: PrtSc asks for a picture, Shift+PrtSc for a video, and
/// releasing a key asks for nothing.
pub proof fn law_hotkeys_differ(id: u32)
    ensures
        hotkeys().asks(hotkeys().prtsc_id, true) == Some(AppMsg::Capture { video: false }),
        hotkeys().asks(hotkeys().shift_prtsc_id, true) == Some(AppMsg::Capture { video: true }),
        hotkeys().asks(id, false) is None,
{
}

/// Of all events only the press of a hotkey asks for something: the first for a picture, the
/// other one for a video.
pub proof fn law_only_hotkeys_ask(h: Hotkey, id: u32, pressed: bool)
    ensures
        h.asks(id, pressed) is Some <==> pressed && (id == h.prtsc_id || id == h.shift_prtsc_id),
        h.asks(id, pressed) matches Some(msg) ==> (msg matches AppMsg::Capture { video } && video
            == (id != h.prtsc_id)),
{
}

/// The warning is due exactly where the system says 1 and it was not shown before.
pub proof fn law_warning_is_due(settings: Settings, value: u32)
    ensures
        !warning_due(settings, None),
        value != 1 ==> !warning_due(settings, Some(value)),
        warning_due(settings, Some(1)) <==> !settings.prtsc_warning_shown,
{
}

} // verus!
