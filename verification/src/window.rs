//! Windows and the builder that creates them.
//!
//! Creation is the delicate part: the native creation call synchronously
//! delivers messages before it returns the new window's handle, so the
//! message callback must already be reachable. [`Builder::begin_create`]
//! registers it under the routing registry's sentinel key before the
//! native call, and [`Builder::finish_create`] migrates the registration
//! to the real handle (or drops it) once the call has returned. The
//! dialog trampoline's registry decisions ([`dlg_proc_enter`],
//! [`dlg_proc_exit`]) live here as well.

use crate::message::{WM_INITDIALOG, WM_NCDESTROY};
use crate::registry::{Registry, SENTINEL};
use crate::Error;
use vstd::prelude::*;

verus! {

/// The default-position marker the platform accepts for a new window's
/// coordinates and size.
pub const CW_USEDEFAULT: i32 = i32::MIN;

/// A window, either owned (destroyed when its owning scope ends) or
/// borrowed (someone else tears it down).
#[derive(Clone, Copy, Debug, PartialEq, Eq, Structural)]
pub enum Window {
    Owned { hwnd: usize },
    Borrowed { hwnd: usize },
}

impl Window {
    /// Well-formedness: the handle is never null.
    pub open spec fn wf(&self) -> bool {
        self.spec_hwnd() != 0
    }

    /// The window's handle, for use in contracts.
    pub open spec fn spec_hwnd(&self) -> usize {
        match self {
            Window::Owned { hwnd } => *hwnd,
            Window::Borrowed { hwnd } => *hwnd,
        }
    }

    /// The window's handle.
    pub fn hwnd(&self) -> (r: usize)
        ensures
            r == self.spec_hwnd(),
    {
        match self {
            Window::Owned { hwnd } => *hwnd,
            Window::Borrowed { hwnd } => *hwnd,
        }
    }

    /// Wraps a handle the platform reported for a window that someone
    /// else owns.
    pub fn borrowed(hwnd: crate::Handle) -> (r: Window)
        requires
            hwnd.id() != 0,
        ensures
            r == (Window::Borrowed { hwnd: hwnd.id() }),
            r.wf(),
    {
        Window::Borrowed { hwnd: hwnd.value() }
    }

    /// The handle to hand to the native destroy call when this window's
    /// owning scope ends: only an owned window is destroyed. A destroy
    /// call that then fails is judged by [`crate::check_release`] — a
    /// fatal invariant violation, never ignored.
    pub fn release_action(&self) -> (r: Option<usize>)
        ensures
            r == if self is Owned {
                Some(self.spec_hwnd())
            } else {
                None::<usize>
            },
    {
        match self {
            Window::Owned { hwnd } => Some(*hwnd),
            Window::Borrowed { .. } => None,
        }
    }

    /// Judges the result of the native modal-dialog call issued for this
    /// window: -1 reports a failed call, carrying the last-error code;
    /// anything else is the value the dialog ended with. A zero result
    /// (an invalid owner handle) is a programming error the platform
    /// reports by a hard failure, not an error result.
    pub fn show_dialog_outcome(result: isize, last_error: i32) -> (r: Result<isize, Error>)
        requires
            result != 0,
        ensures
            result == -1 <==> r is Err,
            r matches Ok(v) ==> v == result,
            r matches Err(e) ==> e.spec_code() == last_error,
    {
        if result == -1 {
            Err(Error::from_os_code(last_error))
        } else {
            Ok(result)
        }
    }

    /// Judges the result of the native modeless-dialog creation call: a
    /// null handle reports failure with the last-error code; any other
    /// handle is a borrowed window around the new dialog.
    pub fn create_dialog_outcome(raw: usize, last_error: i32) -> (r: Result<Window, Error>)
        ensures
            raw != 0 <==> r is Ok,
            r matches Ok(w) ==> w == (Window::Borrowed { hwnd: raw }) && w.wf(),
            r matches Err(e) ==> e.spec_code() == last_error,
    {
        match crate::non_null_or_err(raw, last_error) {
            Ok(handle) => Ok(Window::borrowed(handle)),
            Err(e) => Err(e),
        }
    }

    /// Judges the result of the native client-rectangle query: a zero
    /// result reports failure with the last-error code; otherwise the
    /// rectangle's corners become origin and size.
    pub fn get_rect_outcome(
        result: i32,
        last_error: i32,
        left: i32,
        top: i32,
        right: i32,
        bottom: i32,
    ) -> (r: Result<(i32, i32, i32, i32), Error>)
        requires
            i32::MIN <= right - left <= i32::MAX,
            i32::MIN <= bottom - top <= i32::MAX,
        ensures
            result != 0 <==> r is Ok,
            r matches Ok(v) ==> v == (left, top, (right - left) as i32, (bottom - top) as i32),
            r matches Err(e) ==> e.spec_code() == last_error,
    {
        if result != 0 {
            Ok((left, top, right - left, bottom - top))
        } else {
            Err(Error::from_os_code(last_error))
        }
    }
}

/// The decisions the dialog trampoline makes on entry, before the user
/// callback runs: on the dialog-initialization message the pending
/// registration migrates from the sentinel to the real handle; then the
/// handle's registration, if any, is the callback to invoke. The lock
/// around the registry is released before that invocation.
pub fn dlg_proc_enter<C: Copy>(registry: &mut Registry<C>, handle: usize, msg: u32) -> (r: Option<
    C,
>)
    requires
        msg == WM_INITDIALOG ==> old(registry)@.contains_key(SENTINEL),
    ensures
        msg == WM_INITDIALOG ==> final(registry)@ == old(registry)@.remove(SENTINEL).insert(
            handle,
            old(registry)@[SENTINEL],
        ),
        msg != WM_INITDIALOG ==> final(registry)@ == old(registry)@,
        handle == 0 ==> r is None,
        handle != 0 ==> r == if final(registry)@.contains_key(handle) {
            Some(final(registry)@[handle])
        } else {
            None::<C>
        },
{
    if msg == WM_INITDIALOG {
        registry.migrate_pending(handle);
    }
    if handle == 0 {
        None
    } else {
        registry.get(handle)
    }
}

/// The decision the dialog trampoline makes after the user callback has
/// returned: on the terminal destruction message the handle's
/// registration is removed — no further messages will arrive for it.
pub fn dlg_proc_exit<C: Copy>(registry: &mut Registry<C>, handle: usize, msg: u32)
    requires
        msg == WM_NCDESTROY ==> old(registry)@.contains_key(handle),
    ensures
        msg == WM_NCDESTROY ==> final(registry)@ == old(registry)@.remove(handle),
        msg != WM_NCDESTROY ==> final(registry)@ == old(registry)@,
{
    if msg == WM_NCDESTROY {
        registry.remove(handle);
    }
}

/// Accumulates the configuration of a window to create: styles, geometry,
/// parentage, and the message callback to register.
pub struct Builder<C: Copy> {
    pub extended_style: u32,
    pub style: u32,
    pub x: i32,
    pub y: i32,
    pub width: i32,
    pub height: i32,
    /// The parent window's handle, if any.
    pub parent: Option<usize>,
    /// The menu word: a child-window identifier, or 0 for none.
    pub menu: usize,
    pub callback: Option<C>,
}

/// A builder with no styles, default geometry, no parent and no callback.
pub fn build<C: Copy>() -> (r: Builder<C>)
    ensures
        r.extended_style == 0,
        r.style == 0,
        r.x == CW_USEDEFAULT,
        r.y == CW_USEDEFAULT,
        r.width == CW_USEDEFAULT,
        r.height == CW_USEDEFAULT,
        r.parent is None,
        r.menu == 0,
        r.callback is None,
{
    Builder {
        extended_style: 0,
        style: 0,
        x: CW_USEDEFAULT,
        y: CW_USEDEFAULT,
        width: CW_USEDEFAULT,
        height: CW_USEDEFAULT,
        parent: None,
        menu: 0,
        callback: None,
    }
}

impl<C: Copy> Builder<C> {
    /// Adds a new extended window style.
    pub fn add_extended_style(self, style: ExtendedStyle) -> (r: Builder<C>)
        ensures
            r == (Builder { extended_style: self.extended_style | style.spec_value(), ..self }),
    {
        Builder { extended_style: self.extended_style | style.value(), ..self }
    }

    /// Adds a new window style.
    pub fn add_style(self, style: Style) -> (r: Builder<C>)
        ensures
            r == (Builder { style: self.style | style.spec_value(), ..self }),
    {
        Builder { style: self.style | style.value(), ..self }
    }

    /// The initial horizontal position of the window.
    pub fn x(self, x: u16) -> (r: Builder<C>)
        ensures
            r == (Builder { x: x as i32, ..self }),
    {
        Builder { x: x as i32, ..self }
    }

    /// The initial vertical position of the window.
    pub fn y(self, y: u16) -> (r: Builder<C>)
        ensures
            r == (Builder { y: y as i32, ..self }),
    {
        Builder { y: y as i32, ..self }
    }

    /// The initial position of the window (both `x` and `y`).
    pub fn pos(self, x: u16, y: u16) -> (r: Builder<C>)
        ensures
            r == (Builder { x: x as i32, y: y as i32, ..self }),
    {
        Builder { x: x as i32, y: y as i32, ..self }
    }

    /// The width, in device units, of the window.
    pub fn width(self, width: u16) -> (r: Builder<C>)
        ensures
            r == (Builder { width: width as i32, ..self }),
    {
        Builder { width: width as i32, ..self }
    }

    /// The height, in device units, of the window.
    pub fn height(self, height: u16) -> (r: Builder<C>)
        ensures
            r == (Builder { height: height as i32, ..self }),
    {
        Builder { height: height as i32, ..self }
    }

    /// The initial size of the window (both `width` and `height`).
    pub fn size(self, width: u16, height: u16) -> (r: Builder<C>)
        ensures
            r == (Builder { width: width as i32, height: height as i32, ..self }),
    {
        Builder { width: width as i32, height: height as i32, ..self }
    }

    /// A handle to the parent or owner window of the window being
    /// created.
    pub fn parent(self, parent: &Window) -> (r: Builder<C>)
        requires
            parent.wf(),
        ensures
            r == (Builder { parent: Some(parent.spec_hwnd()), ..self }),
    {
        Builder { parent: Some(parent.hwnd()), ..self }
    }

    /// Configures the window to be a child window and sets its
    /// identifier, which must be unique among the children of one parent.
    pub fn set_child_id(self, id: u16) -> (r: Builder<C>)
        ensures
            r == (Builder { style: self.style | Style::Child.spec_value(), menu: id as usize, ..self }),
    {
        Builder { style: self.style | Style::Child.value(), menu: id as usize, ..self }
    }

    /// Callback that will process messages sent to this window.
    pub fn set_message_callback(self, callback: C) -> (r: Builder<C>)
        ensures
            r == (Builder { callback: Some(callback), ..self }),
    {
        Builder { callback: Some(callback), ..self }
    }

    /// The first half of creation, run before the native creation call:
    /// if a callback was supplied it is registered under the sentinel
    /// key, because creation delivers messages before the real handle is
    /// known.
    pub fn begin_create(&self, registry: &mut Registry<C>)
        ensures
            self.callback matches Some(cb) ==> final(registry)@ == old(registry)@.insert(
                SENTINEL,
                cb,
            ),
            self.callback is None ==> final(registry)@ == old(registry)@,
    {
        match &self.callback {
            Some(callback) => registry.register_pending(*callback),
            None => {},
        }
    }

    /// The second half of creation, run after the native creation call
    /// returned `raw`: the sentinel registration is dropped either way; a
    /// null handle becomes an error carrying the last-error code, and a
    /// live one becomes the window — owned if no parent was configured —
    /// with the callback now registered under the real handle.
    pub fn finish_create(&self, registry: &mut Registry<C>, raw: usize, last_error: i32) -> (r:
        Result<Window, Error>)
        ensures
            raw != 0 <==> r is Ok,
            r matches Ok(w) ==> {
                &&& w.wf()
                &&& w.spec_hwnd() == raw
                &&& (w is Owned <==> self.parent is None)
            },
            r matches Err(e) ==> e.spec_code() == last_error,
            final(registry)@ == if raw != 0 && self.callback is Some {
                old(registry)@.remove(SENTINEL).insert(raw, self.callback->0)
            } else {
                old(registry)@.remove(SENTINEL)
            },
    {
        registry.cancel_pending();
        match crate::non_null_or_err(raw, last_error) {
            Ok(handle) => {
                let window = if self.parent.is_none() {
                    Window::Owned { hwnd: handle.value() }
                } else {
                    Window::Borrowed { hwnd: handle.value() }
                };
                match &self.callback {
                    Some(callback) => registry.insert(raw, *callback),
                    None => {},
                }
                Ok(window)
            },
            Err(e) => Err(e),
        }
    }
}

/// Window styles, including edit-control styles.
#[derive(Clone, Copy, Debug, PartialEq, Eq, Structural)]
pub enum Style {
    /// The window has a thin-line border.
    Border,
    /// The window has a title bar (includes the `Border` style).
    Caption,
    /// The window is a child window.
    Child,
    /// Excludes the area occupied by child windows when drawing occurs within the parent window.
    ClipChildren,
    /// Clips child windows relative to each other.
    ClipSiblings,
    /// The window is initially disabled.
    Disabled,
    /// The window has a border of a style typically used with dialog boxes.
    DialogFrame,
    /// The window is the first control of a group of controls.
    Group,
    /// The window has a horizontal scroll bar.
    HorizontalScroll,
    /// The window is initially maximized.
    Maximize,
    /// The window is initially minimized.
    Minimize,
    /// The window is an overlapped window, with a title bar and a border.
    Overlapped,
    /// The window is an overlapped window with the full overlapped set of decorations.
    OverlappedWindow,
    /// The window is a pop-up window.
    Popup,
    /// The window is a pop-up window with a border and window menu.
    PopupWindow,
    /// The window has a window menu on its title bar.
    SysMenu,
    /// The window is a control that can receive the keyboard focus when the user presses the TAB key.
    TabStop,
    /// The window has a sizing border.
    ThickFrame,
    /// The window is initially visible.
    Visible,
    /// The window has a vertical scroll bar.
    VerticalScroll,
    /// Automatically scrolls text to the right by 10 characters when the user types at the end of the line.
    AutoHorizontalScroll,
    /// Automatically scrolls text up one page when the user presses ENTER on the last line.
    AutoVerticalScroll,
    /// Centers text in an edit control.
    Center,
    /// Converts all characters to lowercase as they are typed into the edit control.
    Lowercase,
    /// Designates a multiline edit control.
    Multiline,
    /// Keeps the selection inverted even when the control loses focus.
    NoHideSelection,
    /// Allows only digits to be entered into the edit control.
    Number,
    /// Converts text entered in the edit control through the OEM character set and back.
    OemConvert,
    /// Displays an asterisk for each character typed into the edit control.
    Password,
    /// Prevents the user from typing or editing text in the edit control.
    Readonly,
    /// Right-aligns text in an edit control.
    Right,
    /// Converts all characters to uppercase as they are typed into the edit control.
    Uppercase,
    /// Inserts a carriage return when the user presses ENTER in a multiline edit control.
    WantReturn,
}

impl Style {
    /// The platform flag word this value stands for.
    pub fn value(&self) -> (r: u32)
        ensures
            r == self.spec_value(),
    {
        match self {
            Style::Border => 0x0080_0000,
            Style::Caption => 0x00C0_0000,
            Style::Child => 0x4000_0000,
            Style::ClipChildren => 0x0200_0000,
            Style::ClipSiblings => 0x0400_0000,
            Style::Disabled => 0x0800_0000,
            Style::DialogFrame => 0x0040_0000,
            Style::Group => 0x0002_0000,
            Style::HorizontalScroll => 0x0010_0000,
            Style::Maximize => 0x0100_0000,
            Style::Minimize => 0x2000_0000,
            Style::Overlapped => 0x0000_0000,
            Style::OverlappedWindow => 0x00CF_0000,
            Style::Popup => 0x8000_0000,
            Style::PopupWindow => 0x8088_0000,
            Style::SysMenu => 0x0008_0000,
            Style::TabStop => 0x0001_0000,
            Style::ThickFrame => 0x0004_0000,
            Style::Visible => 0x1000_0000,
            Style::VerticalScroll => 0x0020_0000,
            Style::AutoHorizontalScroll => 0x0000_0080,
            Style::AutoVerticalScroll => 0x0000_0040,
            Style::Center => 0x0000_0001,
            Style::Lowercase => 0x0000_0010,
            Style::Multiline => 0x0000_0004,
            Style::NoHideSelection => 0x0000_0100,
            Style::Number => 0x0000_2000,
            Style::OemConvert => 0x0000_0400,
            Style::Password => 0x0000_0020,
            Style::Readonly => 0x0000_0800,
            Style::Right => 0x0000_0002,
            Style::Uppercase => 0x0000_0008,
            Style::WantReturn => 0x0000_1000,
        }
    }

    /// The flag word, for use in contracts.
    pub open spec fn spec_value(&self) -> u32 {
        match self {
            Style::Border => 0x0080_0000,
            Style::Caption => 0x00C0_0000,
            Style::Child => 0x4000_0000,
            Style::ClipChildren => 0x0200_0000,
            Style::ClipSiblings => 0x0400_0000,
            Style::Disabled => 0x0800_0000,
            Style::DialogFrame => 0x0040_0000,
            Style::Group => 0x0002_0000,
            Style::HorizontalScroll => 0x0010_0000,
            Style::Maximize => 0x0100_0000,
            Style::Minimize => 0x2000_0000,
            Style::Overlapped => 0x0000_0000,
            Style::OverlappedWindow => 0x00CF_0000,
            Style::Popup => 0x8000_0000,
            Style::PopupWindow => 0x8088_0000,
            Style::SysMenu => 0x0008_0000,
            Style::TabStop => 0x0001_0000,
            Style::ThickFrame => 0x0004_0000,
            Style::Visible => 0x1000_0000,
            Style::VerticalScroll => 0x0020_0000,
            Style::AutoHorizontalScroll => 0x0000_0080,
            Style::AutoVerticalScroll => 0x0000_0040,
            Style::Center => 0x0000_0001,
            Style::Lowercase => 0x0000_0010,
            Style::Multiline => 0x0000_0004,
            Style::NoHideSelection => 0x0000_0100,
            Style::Number => 0x0000_2000,
            Style::OemConvert => 0x0000_0400,
            Style::Password => 0x0000_0020,
            Style::Readonly => 0x0000_0800,
            Style::Right => 0x0000_0002,
            Style::Uppercase => 0x0000_0008,
            Style::WantReturn => 0x0000_1000,
        }
    }
}

/// Extended window styles.
#[derive(Clone, Copy, Debug, PartialEq, Eq, Structural)]
pub enum ExtendedStyle {
    /// The window accepts drag-drop files.
    AcceptFiles,
    /// Forces a top-level window onto the taskbar when the window is visible.
    AppWindow,
    /// The window has a border with a sunken edge.
    ClientEdge,
    /// Paints all descendants of the window in bottom-to-top order with double-buffering.
    Composited,
    /// The title bar includes a question mark.
    ContextHelp,
    /// The window contains child windows that take part in dialog box navigation.
    ControlParent,
    /// The window has a double border.
    DialogModalFrame,
    /// The window is a layered window.
    Layered,
    /// The horizontal origin is on the right edge for right-to-left shell languages.
    LayoutRtl,
    /// The window has generic left-aligned properties.
    Left,
    /// The vertical scroll bar is to the left of the client area for right-to-left shell languages.
    LeftScrollbar,
    /// The window is an MDI child window.
    MdiChild,
    /// The window does not become the foreground window when clicked.
    NoActivate,
    /// The window does not pass its window layout to its child windows.
    NoInheritLayout,
    /// The child window does not notify its parent window when created or destroyed.
    NoParentNotify,
    /// The window does not render to a redirection surface.
    NoRedirectionBitmap,
    /// The window is an overlapped window, combining the window edge and client edge.
    OverlappedWindow,
    /// The window is a palette window: a modeless dialog presenting an array of commands.
    PaletteWindow,
    /// The window has generic right-aligned properties.
    Right,
    /// The window text is displayed right-to-left for right-to-left shell languages.
    RtlReading,
    /// The window has a three-dimensional border for items that do not accept input.
    StaticEdge,
    /// The window is intended to be used as a floating toolbar.
    ToolWindow,
    /// The window stays above all non-topmost windows, even when deactivated.
    TopMost,
    /// The window is not painted until siblings beneath it have been painted.
    Transparent,
    /// The window has a border with a raised edge.
    WindowEdge,
}

impl ExtendedStyle {
    /// The platform flag word this value stands for.
    pub fn value(&self) -> (r: u32)
        ensures
            r == self.spec_value(),
    {
        match self {
            ExtendedStyle::AcceptFiles => 0x0000_0010,
            ExtendedStyle::AppWindow => 0x0004_0000,
            ExtendedStyle::ClientEdge => 0x0000_0200,
            ExtendedStyle::Composited => 0x0200_0000,
            ExtendedStyle::ContextHelp => 0x0000_0400,
            ExtendedStyle::ControlParent => 0x0001_0000,
            ExtendedStyle::DialogModalFrame => 0x0000_0001,
            ExtendedStyle::Layered => 0x0008_0000,
            ExtendedStyle::LayoutRtl => 0x0040_0000,
            ExtendedStyle::Left => 0x0000_0000,
            ExtendedStyle::LeftScrollbar => 0x0000_4000,
            ExtendedStyle::MdiChild => 0x0000_0040,
            ExtendedStyle::NoActivate => 0x0800_0000,
            ExtendedStyle::NoInheritLayout => 0x0010_0000,
            ExtendedStyle::NoParentNotify => 0x0000_0004,
            ExtendedStyle::NoRedirectionBitmap => 0x0020_0000,
            ExtendedStyle::OverlappedWindow => 0x0000_0300,
            ExtendedStyle::PaletteWindow => 0x0000_0188,
            ExtendedStyle::Right => 0x0000_1000,
            ExtendedStyle::RtlReading => 0x0000_2000,
            ExtendedStyle::StaticEdge => 0x0002_0000,
            ExtendedStyle::ToolWindow => 0x0000_0080,
            ExtendedStyle::TopMost => 0x0000_0008,
            ExtendedStyle::Transparent => 0x0000_0020,
            ExtendedStyle::WindowEdge => 0x0000_0100,
        }
    }

    /// The flag word, for use in contracts.
    pub open spec fn spec_value(&self) -> u32 {
        match self {
            ExtendedStyle::AcceptFiles => 0x0000_0010,
            ExtendedStyle::AppWindow => 0x0004_0000,
            ExtendedStyle::ClientEdge => 0x0000_0200,
            ExtendedStyle::Composited => 0x0200_0000,
            ExtendedStyle::ContextHelp => 0x0000_0400,
            ExtendedStyle::ControlParent => 0x0001_0000,
            ExtendedStyle::DialogModalFrame => 0x0000_0001,
            ExtendedStyle::Layered => 0x0008_0000,
            ExtendedStyle::LayoutRtl => 0x0040_0000,
            ExtendedStyle::Left => 0x0000_0000,
            ExtendedStyle::LeftScrollbar => 0x0000_4000,
            ExtendedStyle::MdiChild => 0x0000_0040,
            ExtendedStyle::NoActivate => 0x0800_0000,
            ExtendedStyle::NoInheritLayout => 0x0010_0000,
            ExtendedStyle::NoParentNotify => 0x0000_0004,
            ExtendedStyle::NoRedirectionBitmap => 0x0020_0000,
            ExtendedStyle::OverlappedWindow => 0x0000_0300,
            ExtendedStyle::PaletteWindow => 0x0000_0188,
            ExtendedStyle::Right => 0x0000_1000,
            ExtendedStyle::RtlReading => 0x0000_2000,
            ExtendedStyle::StaticEdge => 0x0002_0000,
            ExtendedStyle::ToolWindow => 0x0000_0080,
            ExtendedStyle::TopMost => 0x0000_0008,
            ExtendedStyle::Transparent => 0x0000_0020,
            ExtendedStyle::WindowEdge => 0x0000_0100,
        }
    }
}

/// Window show states.
#[derive(Clone, Copy, Debug, PartialEq, Eq, Structural)]
pub enum Show {
    /// Minimizes the window even if its owning thread is not responding.
    ForceMinimize,
    /// Hides the window and activates another window.
    Hide,
    /// Activates the window and displays it maximized.
    Maximize,
    /// Minimizes the window and activates the next top-level window.
    Minimize,
    /// Activates and displays the window, restoring it from minimized or maximized.
    Restore,
    /// Activates the window and displays it in its current size and position.
    Show,
    /// Sets the show state from the startup information of the process.
    ShowDefault,
    /// Activates the window and displays it minimized.
    ShowMinimized,
    /// Displays the window minimized without activating it.
    ShowMinNoActive,
    /// Displays the window in its current state without activating it.
    ShowNa,
    /// Displays the window in its most recent size and position without activating it.
    ShowNoActivate,
    /// Activates and displays the window in its original size and position.
    ShowNormal,
}

impl Show {
    /// The platform flag word this value stands for.
    pub fn value(&self) -> (r: i32)
        ensures
            r == self.spec_value(),
    {
        match self {
            Show::ForceMinimize => 11,
            Show::Hide => 0,
            Show::Maximize => 3,
            Show::Minimize => 6,
            Show::Restore => 9,
            Show::Show => 5,
            Show::ShowDefault => 10,
            Show::ShowMinimized => 2,
            Show::ShowMinNoActive => 7,
            Show::ShowNa => 8,
            Show::ShowNoActivate => 4,
            Show::ShowNormal => 1,
        }
    }

    /// The flag word, for use in contracts.
    pub open spec fn spec_value(&self) -> i32 {
        match self {
            Show::ForceMinimize => 11,
            Show::Hide => 0,
            Show::Maximize => 3,
            Show::Minimize => 6,
            Show::Restore => 9,
            Show::Show => 5,
            Show::ShowDefault => 10,
            Show::ShowMinimized => 2,
            Show::ShowMinNoActive => 7,
            Show::ShowNa => 8,
            Show::ShowNoActivate => 4,
            Show::ShowNormal => 1,
        }
    }
}
} // verus!
