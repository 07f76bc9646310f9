//! The platform's built-in cursors. Each stands for a resource ordinal
//! that the native cursor-loading call takes; the call itself is issued by
//! the embedding application and judged with [`crate::non_null_or_err`].

use vstd::prelude::*;

verus! {

/// Built-in cursors.
#[derive(Clone, Copy, Debug, PartialEq, Eq, Structural)]
pub enum Cursor {
    /// Standard arrow and small hourglass.
    AppStarting,
    /// Standard arrow.
    Arrow,
    /// Crosshair.
    Cross,
    /// Hand.
    Hand,
    /// Arrow and question mark.
    Help,
    /// I-beam.
    Ibeam,
    /// Obsolete for applications marked version 4.0 or later.
    Icon,
    /// Slashed circle.
    No,
    /// Obsolete for applications marked version 4.0 or later. Use `SizeAll`.
    Size,
    /// Four-pointed arrow pointing north, south, east, and west.
    SizeAll,
    /// Double-pointed arrow pointing northeast and southwest.
    SizeNesw,
    /// Double-pointed arrow pointing north and south.
    SizeNs,
    /// Double-pointed arrow pointing northwest and southeast.
    SizeNwse,
    /// Double-pointed arrow pointing west and east.
    SizeWe,
    /// Vertical arrow.
    UpArrow,
    /// Hourglass.
    Wait,
}

impl Cursor {
    /// The resource ordinal the native cursor-loading call takes for this
    /// cursor.
    pub fn value(&self) -> (r: u16)
        ensures
            r == self.spec_value(),
    {
        match self {
            Cursor::AppStarting => 32650,
            Cursor::Arrow => 32512,
            Cursor::Cross => 32515,
            Cursor::Hand => 32649,
            Cursor::Help => 32651,
            Cursor::Ibeam => 32513,
            Cursor::Icon => 32641,
            Cursor::No => 32648,
            Cursor::Size => 32640,
            Cursor::SizeAll => 32646,
            Cursor::SizeNesw => 32643,
            Cursor::SizeNs => 32645,
            Cursor::SizeNwse => 32642,
            Cursor::SizeWe => 32644,
            Cursor::UpArrow => 32516,
            Cursor::Wait => 32514,
        }
    }

    /// The resource ordinal, for use in contracts.
    pub open spec fn spec_value(&self) -> u16 {
        match self {
            Cursor::AppStarting => 32650u16,
            Cursor::Arrow => 32512u16,
            Cursor::Cross => 32515u16,
            Cursor::Hand => 32649u16,
            Cursor::Help => 32651u16,
            Cursor::Ibeam => 32513u16,
            Cursor::Icon => 32641u16,
            Cursor::No => 32648u16,
            Cursor::Size => 32640u16,
            Cursor::SizeAll => 32646u16,
            Cursor::SizeNesw => 32643u16,
            Cursor::SizeNs => 32645u16,
            Cursor::SizeNwse => 32642u16,
            Cursor::SizeWe => 32644u16,
            Cursor::UpArrow => 32516u16,
            Cursor::Wait => 32514u16,
        }
    }
}

} // verus!
