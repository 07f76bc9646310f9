//! Window classes, and the window-procedure trampoline's routing decision.
//!
//! A class is registered with the platform once and carries the single
//! untyped window procedure every window of the class shares; the
//! trampoline finds the per-window callback through the routing registry
//! ([`wnd_proc_wrapper`]).

use crate::registry::Registry;
use crate::Error;
use vstd::prelude::*;

verus! {

/// Window class styles.
#[derive(Clone, Copy, Debug, PartialEq, Eq, Structural)]
pub enum Style {
    /// Aligns the window's client area on a byte boundary in the x direction.
    ByteAlignClient,
    /// Aligns the window on a byte boundary in the x direction.
    ByteAlignWindow,
    /// Allocates one device context to be shared by all windows in the class.
    ClassDc,
    /// Sends a double-click message when the user double-clicks within a window of the class.
    DoubleClicks,
    /// Enables the drop shadow effect on the window.
    DropShadow,
    /// The window class is an application global class.
    GlobalClass,
    /// Redraws the entire window if a movement or size adjustment changes the client width.
    HorizontalRedraw,
    /// Disables Close on the window menu.
    NoClose,
    /// Allocates a unique device context for each window in the class.
    Wndc,
    /// Sets the clipping rectangle of the child window to that of the parent window.
    ParentDc,
    /// Saves the portion of the screen image obscured by a window of this class as a bitmap.
    SaveBits,
    /// Redraws the entire window if a movement or size adjustment changes the client height.
    VerticalRedraw,
}

impl Style {
    /// The platform value this stands for.
    pub fn value(&self) -> (r: u32)
        ensures
            r == self.spec_value(),
    {
        match self {
            Style::ByteAlignClient => 0x1000,
            Style::ByteAlignWindow => 0x2000,
            Style::ClassDc => 0x0040,
            Style::DoubleClicks => 0x0008,
            Style::DropShadow => 0x0002_0000,
            Style::GlobalClass => 0x4000,
            Style::HorizontalRedraw => 0x0002,
            Style::NoClose => 0x0200,
            Style::Wndc => 0x0020,
            Style::ParentDc => 0x0080,
            Style::SaveBits => 0x0800,
            Style::VerticalRedraw => 0x0001,
        }
    }

    /// The platform value, for use in contracts.
    pub open spec fn spec_value(&self) -> u32 {
        match self {
            Style::ByteAlignClient => 0x1000,
            Style::ByteAlignWindow => 0x2000,
            Style::ClassDc => 0x0040,
            Style::DoubleClicks => 0x0008,
            Style::DropShadow => 0x0002_0000,
            Style::GlobalClass => 0x4000,
            Style::HorizontalRedraw => 0x0002,
            Style::NoClose => 0x0200,
            Style::Wndc => 0x0020,
            Style::ParentDc => 0x0080,
            Style::SaveBits => 0x0800,
            Style::VerticalRedraw => 0x0001,
        }
    }
}

/// Standard system colors a class background can name.
#[derive(Clone, Copy, Debug, PartialEq, Eq, Structural)]
pub enum Background {
    /// Dark shadow for three-dimensional display elements.
    DarkShadow3D,
    /// Face color for three-dimensional display elements and dialog box backgrounds.
    Face3D,
    /// Highlight color for three-dimensional display elements.
    Highlight3D,
    /// Light color for three-dimensional display elements.
    Light3D,
    /// Shadow color for three-dimensional display elements.
    Shadow3D,
    /// Active window border.
    ActiveBorder,
    /// Active window title bar.
    ActiveCaption,
    /// Background color of multiple document interface applications.
    AppWorkspace,
    /// Text on push buttons.
    ButtonText,
    /// Text in caption, size box, and scroll bar arrow box.
    CaptionText,
    /// Desktop.
    Desktop,
    /// Right side color in the color gradient of an active window's title bar.
    GradientActiveCaption,
    /// Right side color in the color gradient of an inactive window's title bar.
    GradientInactiveCaption,
    /// Grayed (disabled) text.
    GrayText,
    /// Items selected in a control.
    Highlight,
    /// Text of items selected in a control.
    HighlightText,
    /// Color for a hyperlink or hot-tracked item.
    HotLight,
    /// Inactive window border.
    InactiveBorder,
    /// Inactive window caption.
    InactiveCaption,
    /// Color of text in an inactive caption.
    InactiveCaptionText,
    /// Background color for tooltip controls.
    InfoBackground,
    /// Text color for tooltip controls.
    InfoText,
    /// Menu background.
    Menu,
    /// The color used to highlight menu items in flat menus.
    MenuHighlight,
    /// The background color for the menu bar in flat menus.
    MenuBar,
    /// Text in menus.
    MenuText,
    /// Scroll bar gray area.
    ScrollBar,
    /// Window background.
    Window,
    /// Window frame.
    WindowFrame,
    /// Text in windows.
    WindowText,
}

impl Background {
    /// The platform value this stands for.
    pub fn value(&self) -> (r: i32)
        ensures
            r == self.spec_value(),
    {
        match self {
            Background::DarkShadow3D => 21,
            Background::Face3D => 15,
            Background::Highlight3D => 20,
            Background::Light3D => 22,
            Background::Shadow3D => 16,
            Background::ActiveBorder => 10,
            Background::ActiveCaption => 2,
            Background::AppWorkspace => 12,
            Background::ButtonText => 18,
            Background::CaptionText => 9,
            Background::Desktop => 1,
            Background::GradientActiveCaption => 27,
            Background::GradientInactiveCaption => 28,
            Background::GrayText => 17,
            Background::Highlight => 13,
            Background::HighlightText => 14,
            Background::HotLight => 26,
            Background::InactiveBorder => 11,
            Background::InactiveCaption => 3,
            Background::InactiveCaptionText => 19,
            Background::InfoBackground => 24,
            Background::InfoText => 23,
            Background::Menu => 4,
            Background::MenuHighlight => 29,
            Background::MenuBar => 30,
            Background::MenuText => 7,
            Background::ScrollBar => 0,
            Background::Window => 5,
            Background::WindowFrame => 6,
            Background::WindowText => 8,
        }
    }

    /// The platform value, for use in contracts.
    pub open spec fn spec_value(&self) -> i32 {
        match self {
            Background::DarkShadow3D => 21,
            Background::Face3D => 15,
            Background::Highlight3D => 20,
            Background::Light3D => 22,
            Background::Shadow3D => 16,
            Background::ActiveBorder => 10,
            Background::ActiveCaption => 2,
            Background::AppWorkspace => 12,
            Background::ButtonText => 18,
            Background::CaptionText => 9,
            Background::Desktop => 1,
            Background::GradientActiveCaption => 27,
            Background::GradientInactiveCaption => 28,
            Background::GrayText => 17,
            Background::Highlight => 13,
            Background::HighlightText => 14,
            Background::HotLight => 26,
            Background::InactiveBorder => 11,
            Background::InactiveCaption => 3,
            Background::InactiveCaptionText => 19,
            Background::InfoBackground => 24,
            Background::InfoText => 23,
            Background::Menu => 4,
            Background::MenuHighlight => 29,
            Background::MenuBar => 30,
            Background::MenuText => 7,
            Background::ScrollBar => 0,
            Background::Window => 5,
            Background::WindowFrame => 6,
            Background::WindowText => 8,
        }
    }
}
/// A window class: one this program registered (and must unregister), or
/// one of the system's predefined control classes.
pub enum Class {
    Owned { class_name: String, atom: u16 },
    Static { class_name: &'static str },
}

impl Class {
    /// Well-formedness: a registered class has a nonzero atom.
    pub open spec fn wf(&self) -> bool {
        match self {
            Class::Owned { atom, .. } => *atom != 0,
            Class::Static { .. } => true,
        }
    }

    /// The registration atom, for a class this program registered.
    pub fn atom(&self) -> (r: Option<u16>)
        ensures
            self matches Class::Owned { atom, .. } ==> r == Some(*atom),
            self is Static ==> r is None,
    {
        match self {
            Class::Owned { atom, .. } => Some(*atom),
            Class::Static { .. } => None,
        }
    }

    /// Whether this class must be unregistered when its owning scope
    /// ends: only a class this program registered. A failed unregister
    /// call is judged by [`crate::check_release`] — a class deleted by
    /// other means or a window still alive is a fatal invariant
    /// violation, never ignored.
    pub fn release_action(&self) -> (r: bool)
        ensures
            r <==> self is Owned,
    {
        match self {
            Class::Owned { .. } => true,
            Class::Static { .. } => false,
        }
    }
}

/// The window-procedure trampoline's routing decision: which registered
/// callback, if any, a message delivered to `handle` goes to. The
/// registration under the real handle wins; a window still being created
/// is found under the sentinel; with no registration at all the message
/// falls through to the platform's default processing. The embedding
/// application holds the registry's lock only around this lookup and
/// releases it before invoking the callback, which may re-enter.
pub fn wnd_proc_wrapper<C: Copy>(registry: &Registry<C>, handle: usize) -> (r: Option<C>)
    ensures
        r == crate::registry::spec_route(registry@, handle),
{
    registry.route(handle)
}

/// Accumulates the configuration of a window class to register.
pub struct Builder {
    pub style: u32,
    /// Handle of the loaded class icon, or 0 for the default.
    pub icon: usize,
    /// Handle of the loaded class cursor, or 0 for the default.
    pub cursor: usize,
    /// The class background brush word: a system color index plus one.
    pub background: usize,
    /// The menu resource ordinal, if the class carries one.
    pub menu: Option<u16>,
    /// Handle of the loaded small class icon, or 0 for the default.
    pub icon_small: usize,
}

/// A builder for a new application-defined class, with no styles, the
/// default icons and cursor, and the standard window background.
pub fn build() -> (r: Builder)
    ensures
        r.style == 0,
        r.icon == 0,
        r.cursor == 0,
        r.background == Background::Window.spec_value() as usize,
        r.menu is None,
        r.icon_small == 0,
{
    Builder {
        style: 0,
        icon: 0,
        cursor: 0,
        background: Background::Window.value() as usize,
        menu: None,
        icon_small: 0,
    }
}

impl Builder {
    /// Adds a new class style.
    pub fn add_style(self, style: Style) -> (r: Builder)
        ensures
            r == (Builder { style: self.style | style.spec_value(), ..self }),
    {
        Builder { style: self.style | style.value(), ..self }
    }

    /// Replaces the default class icon with a loaded one.
    pub fn load_icon(self, icon: crate::Handle) -> (r: Builder)
        ensures
            r == (Builder { icon: icon.id(), ..self }),
    {
        Builder { icon: icon.value(), ..self }
    }

    /// Replaces the default cursor with a loaded one.
    pub fn load_cursor(self, cursor: crate::Handle) -> (r: Builder)
        ensures
            r == (Builder { cursor: cursor.id(), ..self }),
    {
        Builder { cursor: cursor.value(), ..self }
    }

    /// Sets the background brush to a standard system color. The platform
    /// wants the color index plus one in the brush slot.
    pub fn background(self, background: Background) -> (r: Builder)
        ensures
            r == (Builder { background: (background.spec_value() + 1) as usize, ..self }),
    {
        Builder { background: (background.value() + 1) as usize, ..self }
    }

    /// Sets the menu resource ordinal, matching the resource script.
    pub fn menu(self, menu: u16) -> (r: Builder)
        ensures
            r == (Builder { menu: Some(menu), ..self }),
    {
        Builder { menu: Some(menu), ..self }
    }

    /// Replaces the default small class icon with a loaded one.
    pub fn load_small_icon(self, icon: crate::Handle) -> (r: Builder)
        ensures
            r == (Builder { icon_small: icon.id(), ..self }),
    {
        Builder { icon_small: icon.value(), ..self }
    }

    /// Judges the result of the native class registration: `atom` is the
    /// value it returned, zero on failure, in which case the last-error
    /// code is the error.
    pub fn register(self, name: String, atom: u16, last_error: i32) -> (r: Result<Class, Error>)
        ensures
            atom != 0 <==> r is Ok,
            r matches Ok(c) ==> c == (Class::Owned { class_name: name, atom }) && c.wf(),
            r matches Err(e) ==> e.spec_code() == last_error,
    {
        if atom != 0 {
            Ok(Class::Owned { class_name: name, atom })
        } else {
            Err(Error::from_os_code(last_error))
        }
    }
}

/// The system class for a button.
pub fn button() -> (r: Class)
    ensures
        r matches Class::Static { class_name } && class_name@ == "Button"@,
{
    Class::Static { class_name: "Button" }
}

/// The system class for a combo box.
pub fn combo_box() -> (r: Class)
    ensures
        r matches Class::Static { class_name } && class_name@ == "ComboBox"@,
{
    Class::Static { class_name: "ComboBox" }
}

/// The system class for an edit control.
pub fn edit_control() -> (r: Class)
    ensures
        r matches Class::Static { class_name } && class_name@ == "Edit"@,
{
    Class::Static { class_name: "Edit" }
}

/// The system class for a list box.
pub fn list_box() -> (r: Class)
    ensures
        r matches Class::Static { class_name } && class_name@ == "ListBox"@,
{
    Class::Static { class_name: "ListBox" }
}

/// The system class for an MDI client window.
pub fn mdi_client() -> (r: Class)
    ensures
        r matches Class::Static { class_name } && class_name@ == "MDIClient"@,
{
    Class::Static { class_name: "MDIClient" }
}

/// The system class for a scroll bar.
pub fn scroll_bar() -> (r: Class)
    ensures
        r matches Class::Static { class_name } && class_name@ == "ScrollBar"@,
{
    Class::Static { class_name: "ScrollBar" }
}

/// The system class for a static control.
pub fn static_control() -> (r: Class)
    ensures
        r matches Class::Static { class_name } && class_name@ == "Static"@,
{
    Class::Static { class_name: "Static" }
}

/// The common control class for a tool bar.
pub fn toolbar() -> (r: Class)
    ensures
        r matches Class::Static { class_name } && class_name@ == "ToolbarWindow32"@,
{
    Class::Static { class_name: "ToolbarWindow32" }
}

/// The common control class for a "re-bar".
pub fn re_bar() -> (r: Class)
    ensures
        r matches Class::Static { class_name } && class_name@ == "ReBarWindow32"@,
{
    Class::Static { class_name: "ReBarWindow32" }
}

/// The common control class for a status bar.
pub fn status_bar() -> (r: Class)
    ensures
        r matches Class::Static { class_name } && class_name@ == "msctls_statusbar32"@,
{
    Class::Static { class_name: "msctls_statusbar32" }
}

} // verus!
