//! Solid brushes, including the platform's shared ("stock") brushes.
//!
//! A stock brush is owned by the platform's shared pool: its wrapper must
//! never hand it to the destroy call. [`Brush::release_action`] is the one
//! place that decision is made.

use vstd::prelude::*;

verus! {

/// A solid brush: the handle of the platform object, whether it came from
/// the shared pool, and the color it paints with.
#[derive(Clone, Copy, Debug, PartialEq, Eq, Structural)]
pub struct Brush {
    pub handle: usize,
    pub stock: bool,
    pub color: u32,
}

/// The handle a brush's teardown passes to the destroy call: none for a
/// stock brush, which the platform owns, and the brush's own handle
/// otherwise.
pub open spec fn spec_release_action(b: Brush) -> Option<usize> {
    if b.stock {
        None
    } else {
        Some(b.handle)
    }
}

impl Brush {
    /// Well-formedness: the handle is never null.
    pub open spec fn wf(&self) -> bool {
        self.handle != 0
    }

    /// Wraps the result of the native solid-brush creation call: `raw` is
    /// the handle it returned, null on failure.
    pub fn new_solid_rgb(raw: usize, r: u8, g: u8, b: u8) -> (result: Option<Brush>)
        ensures
            raw != 0 <==> result is Some,
            result matches Some(brush) ==> {
                &&& brush.wf()
                &&& brush.handle == raw
                &&& !brush.stock
                &&& brush.color == crate::gdi::spec_rgb(r, g, b)
            },
    {
        if raw != 0 {
            Some(Brush { handle: raw, stock: false, color: crate::gdi::rgb(r, g, b) })
        } else {
            None
        }
    }

    /// Value to be returned from a dialog procedure to use this brush.
    pub fn dlg_proc_value(&self) -> (r: isize)
        requires
            self.handle <= 0x7FFF_FFFF,
        ensures
            r == self.handle as int,
    {
        self.handle as isize
    }

    /// The handle to hand to the destroy call when this brush's owning
    /// scope ends: `None` for a stock brush, which must never be
    /// destroyed. A destroy call that then fails is judged by
    /// [`crate::check_release`], never ignored.
    pub fn release_action(&self) -> (r: Option<usize>)
        ensures
            r == spec_release_action(*self),
            self.stock <==> r is None,
    {
        if self.stock {
            None
        } else {
            Some(self.handle)
        }
    }
}

/// A brush from the platform's shared pool is never passed to the destroy
/// call, even when its wrapper's scope ends.
pub proof fn lemma_stock_brush_immunity(b: Brush)
    requires
        b.stock,
    ensures
        spec_release_action(b) is None,
{
}

/// Wraps the shared pool's white brush: `raw` is the handle the stock
/// lookup returned, null on failure.
pub fn white(raw: usize) -> (result: Result<Brush, ()>)
    ensures
        raw != 0 <==> result is Ok,
        result matches Ok(brush) ==> {
            &&& brush.wf()
            &&& brush.handle == raw
            &&& brush.stock
            &&& brush.color == 0x00FF_FFFFu32
        },
{
    if raw != 0 {
        Ok(Brush { handle: raw, stock: true, color: 0x00FF_FFFF })
    } else {
        Err(())
    }
}

/// Wraps the shared pool's light-gray brush: `raw` is the handle the stock
/// lookup returned, null on failure.
pub fn light_gray(raw: usize) -> (result: Result<Brush, ()>)
    ensures
        raw != 0 <==> result is Ok,
        result matches Ok(brush) ==> {
            &&& brush.wf()
            &&& brush.handle == raw
            &&& brush.stock
            &&& brush.color == 0x00C0_C0C0u32
        },
{
    if raw != 0 {
        Ok(Brush { handle: raw, stock: true, color: 0x00C0_C0C0 })
    } else {
        Err(())
    }
}

} // verus!
