//! Typed views of the raw window messages the platform delivers.
//!
//! A message arrives as a numeric identifier and two pointer-sized parameter
//! words. [`Message::from_raw`] maps the identifier onto a closed set of
//! named variants, each carrying only the raw words meaningful to it, with a
//! catch-all for anything unrecognized. The accessor methods decode the
//! packed fields of each variant.

use crate::messagebox;
use crate::Handle;
use vstd::prelude::*;

verus! {

pub const WM_CREATE: u32 = 0x0001;

pub const WM_DESTROY: u32 = 0x0002;

pub const WM_SIZE: u32 = 0x0005;

pub const WM_PAINT: u32 = 0x000F;

pub const WM_CLOSE: u32 = 0x0010;

pub const WM_INITDIALOG: u32 = 0x0110;

pub const WM_COMMAND: u32 = 0x0111;

pub const WM_TIMER: u32 = 0x0113;

pub const WM_LBUTTONDOWN: u32 = 0x0201;

pub const WM_LBUTTONUP: u32 = 0x0202;

pub const WM_RBUTTONDOWN: u32 = 0x0204;

pub const WM_RBUTTONUP: u32 = 0x0205;

pub const WM_MBUTTONDOWN: u32 = 0x0207;

pub const WM_MBUTTONUP: u32 = 0x0208;

pub const WM_CTLCOLORDLG: u32 = 0x0136;

pub const WM_CTLCOLORSTATIC: u32 = 0x0138;

/// The message the platform sends when a window is finally torn down; the
/// routing registry drops its entry for the window on seeing it.
pub const WM_NCDESTROY: u32 = 0x0082;

pub const MK_LBUTTON: usize = 0x0001;

pub const MK_RBUTTON: usize = 0x0002;

pub const MK_SHIFT: usize = 0x0004;

pub const MK_CONTROL: usize = 0x0008;

pub const MK_MBUTTON: usize = 0x0010;

pub const MK_XBUTTON1: usize = 0x0020;

pub const MK_XBUTTON2: usize = 0x0040;

pub const SIZE_RESTORED: usize = 0;

pub const SIZE_MINIMIZED: usize = 1;

pub const SIZE_MAXIMIZED: usize = 2;

pub const SIZE_MAXSHOW: usize = 3;

pub const SIZE_MAXHIDE: usize = 4;

pub const LBN_SELCHANGE: u16 = 1;

/// The low word of a packed parameter: its value modulo 2^16.
pub fn loword(x: usize) -> (r: u16)
    ensures
        r == x % 0x10000,
{
    (x % 0x10000) as u16
}

/// The high word of a packed parameter: bits 16 through 31.
pub fn hiword(x: usize) -> (r: u16)
    ensures
        r == (x / 0x10000) % 0x10000,
{
    ((x / 0x10000) % 0x10000) as u16
}

#[derive(Clone, Copy, Debug, PartialEq, Eq, Structural)]
pub struct SizeData {
    pub wparam: usize,
    pub lparam: usize,
}

#[derive(Clone, Copy, Debug, PartialEq, Eq, Structural)]
pub struct TimerData {
    pub wparam: usize,
    pub lparam: usize,
}

#[derive(Clone, Copy, Debug, PartialEq, Eq, Structural)]
pub struct MouseData {
    pub wparam: usize,
    pub lparam: usize,
}

#[derive(Clone, Copy, Debug, PartialEq, Eq, Structural)]
pub struct CommandData {
    pub wparam: usize,
    pub lparam: usize,
}

/// The decoded form of a command message emitted by a control.
#[derive(Clone, Copy, Debug, PartialEq, Eq, Structural)]
pub struct ControlData {
    /// Control-defined notification code.
    pub code: u16,
    /// Control identifier.
    pub id: u16,
    /// Handle to the control window.
    pub window: Handle,
}

#[derive(Clone, Copy, Debug, PartialEq, Eq, Structural)]
pub struct ColorData {
    pub wparam: usize,
    pub lparam: usize,
}

/// A window message, by kind, carrying the raw parameter words that are
/// meaningful to that kind.
#[derive(Clone, Copy, Debug, PartialEq, Eq, Structural)]
pub enum Message {
    Create,
    Size(SizeData),
    Destroy,
    Close,
    InitDialog,
    Paint,
    Timer(TimerData),
    LeftMouseButtonDown(MouseData),
    RightMouseButtonDown(MouseData),
    MiddleMouseButtonDown(MouseData),
    LeftMouseButtonUp(MouseData),
    RightMouseButtonUp(MouseData),
    MiddleMouseButtonUp(MouseData),
    Command(CommandData),
    ControlColorDialog(ColorData),
    ControlColorStatic(ColorData),
    Other { msg: u32, wparam: usize, lparam: usize },
}

/// A notification code reinterpreted as one a list box emits.
#[derive(Clone, Copy, Debug, PartialEq, Eq, Structural)]
pub enum ListBoxMessage {
    SelectionChange,
    Other { code: u16 },
}

impl SizeData {
    /// `true` if the message was sent to all pop-up windows when some other
    /// window is maximized.
    pub fn maximize_hide(&self) -> (r: bool)
        ensures
            r <==> self.wparam == SIZE_MAXHIDE,
    {
        self.wparam == SIZE_MAXHIDE
    }

    /// `true` if the window has been maximized.
    pub fn maximized(&self) -> (r: bool)
        ensures
            r <==> self.wparam == SIZE_MAXIMIZED,
    {
        self.wparam == SIZE_MAXIMIZED
    }

    /// `true` if the message was sent to all pop-up windows when some other
    /// window has been restored to its former size.
    pub fn maximize_show(&self) -> (r: bool)
        ensures
            r <==> self.wparam == SIZE_MAXSHOW,
    {
        self.wparam == SIZE_MAXSHOW
    }

    /// `true` if the window has been minimized.
    pub fn minimized(&self) -> (r: bool)
        ensures
            r <==> self.wparam == SIZE_MINIMIZED,
    {
        self.wparam == SIZE_MINIMIZED
    }

    /// `true` if the window has been resized, but neither `minimized` nor
    /// `maximized` applies.
    pub fn restored(&self) -> (r: bool)
        ensures
            r <==> self.wparam == SIZE_RESTORED,
    {
        self.wparam == SIZE_RESTORED
    }

    /// The new width of the client area (the low word of the second
    /// parameter).
    pub fn width(&self) -> (r: u16)
        ensures
            r == self.lparam % 0x10000,
    {
        loword(self.lparam)
    }

    /// The new height of the client area (the high word of the second
    /// parameter).
    pub fn height(&self) -> (r: u16)
        ensures
            r == (self.lparam / 0x10000) % 0x10000,
    {
        hiword(self.lparam)
    }
}

impl TimerData {
    /// The identifier of the timer that fired.
    pub fn timer_id(&self) -> (r: usize)
        ensures
            r == self.wparam,
    {
        self.wparam
    }
}

impl MouseData {
    /// The x-coordinate of the cursor, relative to the upper-left corner of
    /// the client area.
    pub fn x(&self) -> (r: u16)
        ensures
            r == self.lparam % 0x10000,
    {
        loword(self.lparam)
    }

    /// The y-coordinate of the cursor, relative to the upper-left corner of
    /// the client area.
    pub fn y(&self) -> (r: u16)
        ensures
            r == (self.lparam / 0x10000) % 0x10000,
    {
        hiword(self.lparam)
    }

    /// Whether the CTRL key is down.
    pub fn control(&self) -> (r: bool)
        ensures
            r <==> self.wparam & MK_CONTROL != 0,
    {
        (self.wparam & MK_CONTROL) != 0
    }

    /// Whether the left mouse button is down.
    pub fn lmb(&self) -> (r: bool)
        ensures
            r <==> self.wparam & MK_LBUTTON != 0,
    {
        (self.wparam & MK_LBUTTON) != 0
    }

    /// Whether the middle mouse button is down.
    pub fn mmb(&self) -> (r: bool)
        ensures
            r <==> self.wparam & MK_MBUTTON != 0,
    {
        (self.wparam & MK_MBUTTON) != 0
    }

    /// Whether the right mouse button is down.
    pub fn rmb(&self) -> (r: bool)
        ensures
            r <==> self.wparam & MK_RBUTTON != 0,
    {
        (self.wparam & MK_RBUTTON) != 0
    }

    /// Whether the SHIFT key is down.
    pub fn shift(&self) -> (r: bool)
        ensures
            r <==> self.wparam & MK_SHIFT != 0,
    {
        (self.wparam & MK_SHIFT) != 0
    }

    /// Whether the first X button is down.
    pub fn xbutton1(&self) -> (r: bool)
        ensures
            r <==> self.wparam & MK_XBUTTON1 != 0,
    {
        (self.wparam & MK_XBUTTON1) != 0
    }

    /// Whether the second X button is down.
    pub fn xbutton2(&self) -> (r: bool)
        ensures
            r <==> self.wparam & MK_XBUTTON2 != 0,
    {
        (self.wparam & MK_XBUTTON2) != 0
    }
}

impl CommandData {
    /// The selected menu identifier, if the message source is a menu: the
    /// second parameter is zero and the first parameter's high word is 0.
    pub fn menu_id(&self) -> (r: Option<u16>)
        ensures
            r == if self.lparam == 0 && (self.wparam / 0x10000) % 0x10000 == 0 {
                Some((self.wparam % 0x10000) as u16)
            } else {
                None::<u16>
            },
    {
        if self.lparam == 0 && hiword(self.wparam) == 0 {
            Some(loword(self.wparam))
        } else {
            None
        }
    }

    /// The selected accelerator identifier, if the message source is an
    /// accelerator: the second parameter is zero and the first parameter's
    /// high word is 1.
    pub fn accelerator_id(&self) -> (r: Option<u16>)
        ensures
            r == if self.lparam == 0 && (self.wparam / 0x10000) % 0x10000 == 1 {
                Some((self.wparam % 0x10000) as u16)
            } else {
                None::<u16>
            },
    {
        if self.lparam == 0 && hiword(self.wparam) == 1 {
            Some(loword(self.wparam))
        } else {
            None
        }
    }

    /// The raw data emitted by a control: the second parameter carries the
    /// control's window handle and the first packs the notification code
    /// over the control identifier. `None` when no control handle is
    /// present.
    pub fn control_data(&self) -> (r: Option<ControlData>)
        ensures
            r matches Some(d) ==> {
                &&& self.lparam != 0
                &&& d.code == (self.wparam / 0x10000) % 0x10000
                &&& d.id == self.wparam % 0x10000
                &&& d.window.id() == self.lparam
            },
            r is None <==> self.lparam == 0,
    {
        match crate::non_null_or_err(self.lparam, 0) {
            Ok(window) => Some(
                ControlData { code: hiword(self.wparam), id: loword(self.wparam), window },
            ),
            Err(_) => None,
        }
    }
}

impl ControlData {
    /// Which standard button is responsible for this message, or `None` if
    /// it was emitted by some other custom control.
    pub fn std_button(&self) -> (r: Option<messagebox::Button>)
        ensures
            r == messagebox::spec_button_from_id(self.id as i32),
    {
        match messagebox::Button::from_id(self.id as i32) {
            Ok(Some(button)) => Some(button),
            _ => None,
        }
    }

    /// Interpret the `code` as if it was a notification emitted by a list
    /// box.
    pub fn list_box_code(&self) -> (r: ListBoxMessage)
        ensures
            self.code == LBN_SELCHANGE ==> r == ListBoxMessage::SelectionChange,
            self.code != LBN_SELCHANGE ==> r == (ListBoxMessage::Other { code: self.code }),
    {
        ListBoxMessage::from_raw(self.code)
    }
}

/// The value the platform's color-setting calls return on failure.
pub const CLR_INVALID: u32 = 0xFFFFFFFF;

/// Background-mix value meaning the background shows through.
pub const TRANSPARENT_MODE: u32 = 1;

/// Background-mix value meaning the background is filled first.
pub const OPAQUE_MODE: u32 = 2;

impl ColorData {
    /// The device context the control asks to have colored (carried in the
    /// first parameter). The embedding application issues the native color
    /// calls against it; the decisions about their outcomes are below.
    pub fn hdc(&self) -> (r: usize)
        ensures
            r == self.wparam,
    {
        self.wparam
    }

    /// Judges the result of the native text-color call: the failure value
    /// becomes an opaque error, any other value decodes as the previous
    /// color's red, green and blue channels.
    pub fn text_color_outcome(result: u32) -> (r: Result<(u8, u8, u8), ()>)
        ensures
            result == CLR_INVALID <==> r is Err,
            r matches Ok(c) ==> c == (
                (result % 0x100) as u8,
                ((result / 0x100) % 0x100) as u8,
                ((result / 0x10000) % 0x100) as u8,
            ),
    {
        if result != CLR_INVALID {
            Ok((
                (result % 0x100) as u8,
                ((result / 0x100) % 0x100) as u8,
                ((result / 0x10000) % 0x100) as u8,
            ))
        } else {
            Err(())
        }
    }

    /// The background-mix value to request for the wanted transparency.
    pub fn background_mode_value(transparent: bool) -> (r: u32)
        ensures
            r == if transparent { TRANSPARENT_MODE } else { OPAQUE_MODE },
    {
        if transparent {
            TRANSPARENT_MODE
        } else {
            OPAQUE_MODE
        }
    }

    /// Judges the result of the native background-mix call: zero is a
    /// failure, the two mix values report the previous setting. The
    /// platform returns nothing else from this call.
    pub fn background_mode_outcome(result: u32) -> (r: Result<bool, ()>)
        requires
            result == 0 || result == TRANSPARENT_MODE || result == OPAQUE_MODE,
        ensures
            result == 0 <==> r is Err,
            result == TRANSPARENT_MODE ==> r == Result::<bool, ()>::Ok(true),
            result == OPAQUE_MODE ==> r == Result::<bool, ()>::Ok(false),
    {
        if result == TRANSPARENT_MODE {
            Ok(true)
        } else if result == OPAQUE_MODE {
            Ok(false)
        } else {
            Err(())
        }
    }
}

/// Whether a message identifier is one of the named variants.
pub open spec fn is_known_message(msg: u32) -> bool {
    ||| msg == WM_CREATE
    ||| msg == WM_SIZE
    ||| msg == WM_DESTROY
    ||| msg == WM_CLOSE
    ||| msg == WM_INITDIALOG
    ||| msg == WM_PAINT
    ||| msg == WM_TIMER
    ||| msg == WM_LBUTTONDOWN
    ||| msg == WM_RBUTTONDOWN
    ||| msg == WM_MBUTTONDOWN
    ||| msg == WM_LBUTTONUP
    ||| msg == WM_RBUTTONUP
    ||| msg == WM_MBUTTONUP
    ||| msg == WM_COMMAND
    ||| msg == WM_CTLCOLORDLG
    ||| msg == WM_CTLCOLORSTATIC
}

impl Message {
    /// Decodes a raw message triple into its named variant; an identifier
    /// outside the closed set keeps all three raw values in `Other`.
    pub fn from_raw(msg: u32, wparam: usize, lparam: usize) -> (r: Message)
        ensures
            msg == WM_CREATE ==> r == Message::Create,
            msg == WM_SIZE ==> r == Message::Size(SizeData { wparam, lparam }),
            msg == WM_DESTROY ==> r == Message::Destroy,
            msg == WM_CLOSE ==> r == Message::Close,
            msg == WM_INITDIALOG ==> r == Message::InitDialog,
            msg == WM_PAINT ==> r == Message::Paint,
            msg == WM_TIMER ==> r == Message::Timer(TimerData { wparam, lparam }),
            msg == WM_LBUTTONDOWN ==> r == Message::LeftMouseButtonDown(
                MouseData { wparam, lparam },
            ),
            msg == WM_RBUTTONDOWN ==> r == Message::RightMouseButtonDown(
                MouseData { wparam, lparam },
            ),
            msg == WM_MBUTTONDOWN ==> r == Message::MiddleMouseButtonDown(
                MouseData { wparam, lparam },
            ),
            msg == WM_LBUTTONUP ==> r == Message::LeftMouseButtonUp(MouseData { wparam, lparam }),
            msg == WM_RBUTTONUP ==> r == Message::RightMouseButtonUp(MouseData { wparam, lparam }),
            msg == WM_MBUTTONUP ==> r == Message::MiddleMouseButtonUp(
                MouseData { wparam, lparam },
            ),
            msg == WM_COMMAND ==> r == Message::Command(CommandData { wparam, lparam }),
            msg == WM_CTLCOLORDLG ==> r == Message::ControlColorDialog(
                ColorData { wparam, lparam },
            ),
            msg == WM_CTLCOLORSTATIC ==> r == Message::ControlColorStatic(
                ColorData { wparam, lparam },
            ),
            !is_known_message(msg) ==> r == (Message::Other { msg, wparam, lparam }),
    {
        if msg == WM_CREATE {
            Message::Create
        } else if msg == WM_SIZE {
            Message::Size(SizeData { wparam, lparam })
        } else if msg == WM_DESTROY {
            Message::Destroy
        } else if msg == WM_CLOSE {
            Message::Close
        } else if msg == WM_INITDIALOG {
            Message::InitDialog
        } else if msg == WM_PAINT {
            Message::Paint
        } else if msg == WM_TIMER {
            Message::Timer(TimerData { wparam, lparam })
        } else if msg == WM_LBUTTONDOWN {
            Message::LeftMouseButtonDown(MouseData { wparam, lparam })
        } else if msg == WM_RBUTTONDOWN {
            Message::RightMouseButtonDown(MouseData { wparam, lparam })
        } else if msg == WM_MBUTTONDOWN {
            Message::MiddleMouseButtonDown(MouseData { wparam, lparam })
        } else if msg == WM_LBUTTONUP {
            Message::LeftMouseButtonUp(MouseData { wparam, lparam })
        } else if msg == WM_RBUTTONUP {
            Message::RightMouseButtonUp(MouseData { wparam, lparam })
        } else if msg == WM_MBUTTONUP {
            Message::MiddleMouseButtonUp(MouseData { wparam, lparam })
        } else if msg == WM_COMMAND {
            Message::Command(CommandData { wparam, lparam })
        } else if msg == WM_CTLCOLORDLG {
            Message::ControlColorDialog(ColorData { wparam, lparam })
        } else if msg == WM_CTLCOLORSTATIC {
            Message::ControlColorStatic(ColorData { wparam, lparam })
        } else {
            Message::Other { msg, wparam, lparam }
        }
    }
}

impl ListBoxMessage {
    /// Reads a control notification code as a list-box notification.
    pub fn from_raw(code: u16) -> (r: ListBoxMessage)
        ensures
            code == LBN_SELCHANGE ==> r == ListBoxMessage::SelectionChange,
            code != LBN_SELCHANGE ==> r == (ListBoxMessage::Other { code }),
    {
        if code == LBN_SELCHANGE {
            ListBoxMessage::SelectionChange
        } else {
            ListBoxMessage::Other { code }
        }
    }
}

} // verus!
