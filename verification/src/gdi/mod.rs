//! The graphics-device subsystem: device contexts ([`Canvas`]), the
//! objects selected into them ([`Bitmap`], [`Brush`]), and the pixel
//! surfaces they draw on.
//!
//! A device context always has exactly one object selected into it; by
//! default an implicit 1x1 monochrome placeholder. Binding another object
//! consumes the canvas value, and tearing a canvas down restores the
//! original selection before the context itself is released.

pub mod bitmap;
pub mod brush;
pub mod canvas;
pub mod surface;

use vstd::prelude::*;

pub use bitmap::Bitmap;
pub use brush::Brush;
pub use canvas::Canvas;

verus! {

/// The background color a fresh device context starts with (white).
pub const DEFAULT_BACKGROUND: u32 = 0x00FF_FFFF;

/// The text color a fresh device context starts with (black).
pub const DEFAULT_TEXT_COLOR: u32 = 0;

/// The capability of objects that can be selected into a canvas.
pub trait Paint {
    /// The object's identity, as handed to the platform's select call.
    fn as_gdi_obj(&self) -> usize;
}

/// Packs red, green and blue channels into the platform's color word
/// (red in the low byte).
pub fn rgb(r: u8, g: u8, b: u8) -> (c: u32)
    ensures
        c == spec_rgb(r, g, b),
{
    r as u32 + g as u32 * 0x100 + b as u32 * 0x10000
}

/// The color word for the given channels.
pub open spec fn spec_rgb(r: u8, g: u8, b: u8) -> u32 {
    (r + g * 0x100 + b * 0x10000) as u32
}

} // verus!
