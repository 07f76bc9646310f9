//! Icons: the platform's built-in ones, custom ones bundled as program
//! resources, and ones stored on disk. The native loading calls are issued
//! by the embedding application and judged with [`crate::non_null_or_err`];
//! this module decides what each icon's load request names.

use vstd::prelude::*;

verus! {

/// The on-disk location of a custom icon.
pub struct FileData {
    pub path: String,
}

/// An icon to load.
pub enum Icon {
    /// Default application icon.
    Application,
    /// Hand-shaped icon.
    Error,
    /// Asterisk icon.
    Information,
    /// Question mark icon.
    Question,
    /// Security shield icon.
    Shield,
    /// Exclamation point icon.
    Warning,
    /// Default application icon.
    WinLogo,
    /// A custom icon bundled as a program resource.
    FromResource(u16),
    /// A custom icon stored somewhere on disk.
    FromFile(FileData),
}

impl Icon {
    /// An icon loaded from an on-disk file.
    pub fn from_file(path: String) -> (r: Icon)
        ensures
            r matches Icon::FromFile(data) && data.path == path,
    {
        Icon::FromFile(FileData { path })
    }

    /// The resource ordinal the native loading call takes for this icon,
    /// or `None` when the icon is named by a file path instead.
    pub fn value(&self) -> (r: Option<u16>)
        ensures
            r == self.spec_value(),
    {
        match self {
            Icon::Application => Some(32512),
            Icon::Error => Some(32513),
            Icon::Question => Some(32514),
            Icon::Warning => Some(32515),
            Icon::Information => Some(32516),
            Icon::WinLogo => Some(32517),
            Icon::Shield => Some(32518),
            Icon::FromResource(value) => Some(*value),
            Icon::FromFile(_) => None,
        }
    }

    /// The resource ordinal, for use in contracts.
    pub open spec fn spec_value(&self) -> Option<u16> {
        match self {
            Icon::Application => Some(32512u16),
            Icon::Error => Some(32513u16),
            Icon::Question => Some(32514u16),
            Icon::Warning => Some(32515u16),
            Icon::Information => Some(32516u16),
            Icon::WinLogo => Some(32517u16),
            Icon::Shield => Some(32518u16),
            Icon::FromResource(value) => Some(*value),
            Icon::FromFile(_) => None,
        }
    }

    /// Whether loading this icon must name the program's own module (a
    /// bundled resource) rather than the system's shared pool.
    pub fn from_own_module(&self) -> (r: bool)
        ensures
            r <==> self is FromResource,
    {
        match self {
            Icon::FromResource(_) => true,
            _ => false,
        }
    }
}

} // verus!
