use vstd::prelude::*;

pub mod conf;
pub mod icon;
pub mod text;
pub mod trash;
pub mod tray;
pub mod wide;

verus! {

/// The commands of the tray menu.
pub enum Message {
    Exit,
    Open,
    Empty,
    Settings,
}

/// The fill levels of the bin that the tray icon can show.
#[derive(Debug, Clone, Copy, PartialEq, Eq, Structural)]
pub enum Icon {
    Empty,
    Quarter,
    Half,
    ThreeQuarters,
    Full,
}

/// How full the bin is, in percent, at each level.
pub open spec fn spec_icon_percent(icon: Icon) -> u8 {
    match icon {
        Icon::Empty => 0,
        Icon::Quarter => 25,
        Icon::Half => 50,
        Icon::ThreeQuarters => 75,
        Icon::Full => 100,
    }
}

impl Icon {
    /// How full the bin is, in percent, at this level.
    pub fn percent(&self) -> (percent: u8)
        ensures
            percent == spec_icon_percent(*self),
    {
        match self {
            Icon::Empty => 0,
            Icon::Quarter => 25,
            Icon::Half => 50,
            Icon::ThreeQuarters => 75,
            Icon::Full => 100,
        }
    }
}

/// `WM_LBUTTONDOWN` of windows-sys, the Win32 message code of a press of
/// the left mouse button; the crate defines it as 513.
#[verifier::external_body]
fn left_button_down() -> (code: u32)
    ensures
        code == 513,
{
    windows_sys::Win32::UI::WindowsAndMessaging::WM_LBUTTONDOWN
}

/// Whether a window message opens the bin: the tray's own message (code 1)
/// whose low sixteen bits of `lparam` carry a press of the left button.
pub fn window_proc_opens_trash(msg: u32, lparam: isize) -> (opens: bool)
    ensures
        opens == (msg == 1 && (lparam & 0xFFFF) as u32 == 513),
{
    if msg == 1 {
        let event = (lparam & 0xFFFF) as u32;
        event == left_button_down()
    } else {
        false
    }
}

} // verus!
