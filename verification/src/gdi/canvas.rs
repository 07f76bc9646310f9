//! A [`Canvas`] is a device-context: a drawing target with exactly one
//! object selected into it at any time.
//!
//! By default the selection is the context's implicit 1x1 monochrome
//! placeholder. [`Canvas::bind`] selects a bitmap in, consuming the canvas
//! value and taking ownership of the bitmap, so the bitmap cannot be
//! released while it is selected; the object to restore is captured at the
//! first bind and survives any chain of rebinds. Tearing a canvas down
//! ([`Canvas::release`]) restores that original object strictly before the
//! context itself is released, and how the context is released follows the
//! way it was acquired ([`Mode`]).

use crate::gdi::bitmap::Bitmap;
use crate::gdi::brush::Brush;
use crate::gdi::surface::{pix, BlitOp, Surface, SRCAND, SRCCOPY, SRCINVERT, SRCPAINT};
use crate::gdi::{DEFAULT_BACKGROUND, DEFAULT_TEXT_COLOR};
use crate::rect::Rect;
use crate::window::Window;
use vstd::prelude::*;

verus! {

/// How a canvas's device-context was acquired, and so how it must be
/// released.
#[derive(Clone, Copy, Debug, PartialEq, Eq, Structural)]
pub enum Mode {
    /// A paint session begun on a window; released by ending the paint
    /// bracket on the same window.
    Paint { window: usize },
    /// A window's context borrowed without a paint bracket; released by
    /// the release call, distinct from deletion.
    BorrowedDc { window: usize },
    /// A private memory context; released by outright deletion.
    OwnedDc,
    /// The context has been relocated into another canvas value; this one
    /// performs no cleanup.
    Moved,
}

/// What is selected into the context: the implicit default object, or a
/// custom bitmap together with the object captured for restoration.
pub enum Selection {
    Default,
    Custom { dc_object: usize, bitmap: Bitmap },
}

/// A live device-context.
pub struct Canvas {
    /// The context's own handle.
    pub hdc: usize,
    /// The handle of the context's implicit default object.
    pub default_object: usize,
    pub mode: Mode,
    pub selection: Selection,
    /// The default object's 1x1 monochrome surface, drawn on while no
    /// custom object is bound.
    pub default_surface: Surface,
    /// The context's current background color.
    pub background: u32,
    /// The context's current text color.
    pub text_color: u32,
}

/// One step of a canvas teardown, in the order the steps must run. The
/// embedding application performs each step's native call and judges a
/// failed restore or release with [`crate::check_release`] (a fatal
/// invariant violation, never ignored).
#[derive(Clone, Copy, Debug, PartialEq, Eq, Structural)]
pub enum TeardownStep {
    /// Select the captured object back into the context.
    RestoreObject { object: usize },
    /// End the paint bracket on the window that began it.
    EndPaint { window: usize },
    /// Release the context borrowed from the window.
    ReleaseDc { window: usize },
    /// Delete the owned memory context.
    DeleteDc { dc: usize },
}

/// The object a selection would restore on teardown, if any.
pub open spec fn spec_sel_view(s: Selection) -> Option<usize> {
    match s {
        Selection::Default => None,
        Selection::Custom { dc_object, .. } => Some(dc_object),
    }
}

/// The bitmap a selection holds, if any.
pub open spec fn spec_bound_bitmap(s: Selection) -> Option<Bitmap> {
    match s {
        Selection::Default => None,
        Selection::Custom { bitmap, .. } => Some(bitmap),
    }
}

impl Canvas {
    /// Well-formedness: nonzero handles, a sound 1x1 monochrome default
    /// surface, and a custom selection that restores exactly the
    /// context's default object and holds a sound bitmap.
    pub open spec fn wf(&self) -> bool {
        &&& self.hdc != 0
        &&& self.default_object != 0
        &&& self.default_surface.wf()
        &&& self.default_surface.width == 1
        &&& self.default_surface.height == 1
        &&& self.default_surface.bits_per_pixel == 1
        &&& match self.selection {
            Selection::Default => true,
            Selection::Custom { dc_object, bitmap } => dc_object == self.default_object
                && bitmap.wf(),
        }
    }

    /// The surface the context currently draws on: the bound bitmap's, or
    /// the default object's.
    pub open spec fn spec_active(&self) -> Surface {
        match self.selection {
            Selection::Default => self.default_surface,
            Selection::Custom { bitmap, .. } => bitmap.surface,
        }
    }

    /// The selection keeps its shape: the same variant, the same captured
    /// restore object, and the same bitmap identity; only the drawn
    /// pixels may differ. While a custom object is bound, the default
    /// surface is untouched as well.
    pub open spec fn spec_same_binding(a: &Canvas, b: &Canvas) -> bool {
        match (a.selection, b.selection) {
            (Selection::Default, Selection::Default) => true,
            (
                Selection::Custom { dc_object: o1, bitmap: b1 },
                Selection::Custom { dc_object: o2, bitmap: b2 },
            ) => o1 == o2 && b1.handle == b2.handle && b1.planes == b2.planes
                && a.default_surface == b.default_surface,
            _ => false,
        }
    }

    /// Everything except the selection and the drawn pixels is the same.
    pub open spec fn spec_same_context(a: &Canvas, b: &Canvas) -> bool {
        &&& a.hdc == b.hdc
        &&& a.default_object == b.default_object
        &&& a.mode == b.mode
        &&& a.background == b.background
        &&& a.text_color == b.text_color
    }
}

/// A fresh canvas around the given context handle and mode.
fn fresh(raw: usize, mode: Mode) -> (r: Canvas)
    requires
        raw != 0,
    ensures
        r.wf(),
        r.hdc == raw,
        r.default_object == raw,
        r.mode == mode,
        r.selection is Default,
        r.background == DEFAULT_BACKGROUND,
        r.text_color == DEFAULT_TEXT_COLOR,
        r.spec_active().width == 1,
        r.spec_active().height == 1,
{
    Canvas {
        hdc: raw,
        default_object: raw,
        mode,
        selection: Selection::Default,
        default_surface: Surface::new(1, 1, 1),
        background: DEFAULT_BACKGROUND,
        text_color: DEFAULT_TEXT_COLOR,
    }
}

impl Canvas {
    /// Wraps the result of creating an owned memory context compatible
    /// with the current screen: `raw` is the handle the native call
    /// returned, null on failure.
    pub fn from_current_screen(raw: usize) -> (r: Result<Canvas, ()>)
        ensures
            raw != 0 <==> r is Ok,
            r matches Ok(c) ==> {
                &&& c.wf()
                &&& c.hdc == raw
                &&& c.default_object == raw
                &&& c.mode == Mode::OwnedDc
                &&& c.selection is Default
                &&& c.background == DEFAULT_BACKGROUND
                &&& c.text_color == DEFAULT_TEXT_COLOR
            },
    {
        if raw != 0 {
            Ok(fresh(raw, Mode::OwnedDc))
        } else {
            Err(())
        }
    }

    /// Wraps the result of beginning a paint session on `window`: `raw` is
    /// the context handle the native call returned, null on failure. The
    /// canvas must be released by ending the bracket on the same window,
    /// which its teardown plan does.
    pub fn from_window(window: &Window, raw: usize) -> (r: Result<Canvas, ()>)
        requires
            window.wf(),
        ensures
            raw != 0 <==> r is Ok,
            r matches Ok(c) ==> {
                &&& c.wf()
                &&& c.hdc == raw
                &&& c.default_object == raw
                &&& c.mode == (Mode::Paint { window: window.spec_hwnd() })
                &&& c.selection is Default
                &&& c.background == DEFAULT_BACKGROUND
                &&& c.text_color == DEFAULT_TEXT_COLOR
            },
    {
        if raw != 0 {
            Ok(fresh(raw, Mode::Paint { window: window.hwnd() }))
        } else {
            Err(())
        }
    }

    /// Wraps the result of borrowing `window`'s context without a paint
    /// bracket: `raw` is the handle the native call returned, null on
    /// failure.
    pub fn from_window_settings(window: &Window, raw: usize) -> (r: Result<Canvas, ()>)
        requires
            window.wf(),
        ensures
            raw != 0 <==> r is Ok,
            r matches Ok(c) ==> {
                &&& c.wf()
                &&& c.hdc == raw
                &&& c.default_object == raw
                &&& c.mode == (Mode::BorrowedDc { window: window.spec_hwnd() })
                &&& c.selection is Default
                &&& c.background == DEFAULT_BACKGROUND
                &&& c.text_color == DEFAULT_TEXT_COLOR
            },
    {
        if raw != 0 {
            Ok(fresh(raw, Mode::BorrowedDc { window: window.hwnd() }))
        } else {
            Err(())
        }
    }

    /// Wraps the result of creating a second owned context compatible with
    /// this one, to hold another simultaneously-bound object: `raw` is the
    /// handle the native call returned, null on failure.
    pub fn try_clone(&self, raw: usize) -> (r: Result<Canvas, ()>)
        requires
            self.wf(),
        ensures
            raw != 0 <==> r is Ok,
            r matches Ok(c) ==> {
                &&& c.wf()
                &&& c.hdc == raw
                &&& c.default_object == raw
                &&& c.mode == Mode::OwnedDc
                &&& c.selection is Default
                &&& c.background == DEFAULT_BACKGROUND
                &&& c.text_color == DEFAULT_TEXT_COLOR
            },
    {
        if raw != 0 {
            Ok(fresh(raw, Mode::OwnedDc))
        } else {
            Err(())
        }
    }

    /// Wraps the result of creating a bitmap compatible with this
    /// context's current format: `raw` is the handle the native call
    /// returned, null on failure.
    pub fn create_bitmap(&self, raw: usize, width: i32, height: i32) -> (r: Result<Bitmap, ()>)
        requires
            self.wf(),
            width >= 0,
            height >= 0,
            width * height <= usize::MAX,
            width * self.spec_active().bits_per_pixel <= 0x7FFF_FFFF,
        ensures
            raw != 0 <==> r is Ok,
            r matches Ok(b) ==> {
                &&& b.wf()
                &&& b.handle == raw
                &&& b.surface.width == width
                &&& b.surface.height == height
                &&& b.surface.bits_per_pixel == self.spec_active().bits_per_pixel
            },
    {
        let bits: u16 = match &self.selection {
            Selection::Default => self.default_surface.bits_per_pixel,
            Selection::Custom { bitmap, .. } => bitmap.surface.bits_per_pixel,
        };
        crate::gdi::bitmap::new(raw, width, height, 1, bits as u32)
    }

    /// Width, in pixels, of the surface the context draws on.
    pub fn width(&self) -> (r: i32)
        requires
            self.wf(),
        ensures
            r == self.spec_active().width,
    {
        match &self.selection {
            Selection::Default => self.default_surface.width as i32,
            Selection::Custom { bitmap, .. } => bitmap.surface.width as i32,
        }
    }

    /// Height, in raster lines, of the surface the context draws on.
    pub fn height(&self) -> (r: i32)
        requires
            self.wf(),
        ensures
            r == self.spec_active().height,
    {
        match &self.selection {
            Selection::Default => self.default_surface.height as i32,
            Selection::Custom { bitmap, .. } => bitmap.surface.height as i32,
        }
    }

    /// Fills a rectangle of the drawn surface with the brush's color. The
    /// fill succeeds exactly when the rectangle lies within the surface;
    /// nothing changes on failure.
    pub fn fill_rect(&mut self, rect: Rect, brush: Brush) -> (r: Result<(), ()>)
        requires
            old(self).wf(),
        ensures
            final(self).wf(),
            Canvas::spec_same_context(old(self), final(self)),
            Canvas::spec_same_binding(old(self), final(self)),
            final(self).spec_active().same_shape(&old(self).spec_active()),
            r is Ok <==> {
                &&& 0 <= rect.left <= rect.right <= old(self).spec_active().width
                &&& 0 <= rect.top <= rect.bottom <= old(self).spec_active().height
            },
            r is Ok ==> forall|x: int, y: int|
                0 <= x < old(self).spec_active().width && 0 <= y < old(self).spec_active().height
                    ==> #[trigger] pix(final(self).spec_active(), x, y) == if rect.left <= x
                    < rect.right && rect.top <= y < rect.bottom {
                    spec_brush_pixel(old(self).spec_active().bits_per_pixel, brush.color)
                } else {
                    pix(old(self).spec_active(), x, y)
                },
            r is Err ==> final(self).spec_active() == old(self).spec_active(),
    {
        let aw = self.width();
        let ah = self.height();
        if !(0 <= rect.left() && rect.left() <= rect.right() && rect.right() <= aw && 0
            <= rect.top() && rect.top() <= rect.bottom() && rect.bottom() <= ah) {
            return Err(());
        }
        let fx = rect.left() as usize;
        let fy = rect.top() as usize;
        let fw = (rect.right() - rect.left()) as usize;
        let fh = (rect.bottom() - rect.top()) as usize;
        let bits: u16 = match &self.selection {
            Selection::Default => self.default_surface.bits_per_pixel,
            Selection::Custom { bitmap, .. } => bitmap.surface.bits_per_pixel,
        };
        let value = brush_pixel_value(bits, brush.color);
        match &mut self.selection {
            Selection::Default => self.default_surface.fill(fx, fy, fw, fh, value),
            Selection::Custom { bitmap, .. } => bitmap.surface.fill(fx, fy, fw, fh, value),
        }
        Ok(())
    }

    /// Sets the background color of the device-context; the previous
    /// color is replaced and everything else is untouched.
    pub fn set_background(&mut self, color: (u8, u8, u8)) -> (r: Result<(), ()>)
        requires
            old(self).wf(),
        ensures
            r is Ok,
            final(self).wf(),
            final(self).background == crate::gdi::spec_rgb(color.0, color.1, color.2),
            final(self).hdc == old(self).hdc,
            final(self).default_object == old(self).default_object,
            final(self).mode == old(self).mode,
            final(self).text_color == old(self).text_color,
            final(self).selection == old(self).selection,
            final(self).default_surface == old(self).default_surface,
    {
        self.background = crate::gdi::rgb(color.0, color.1, color.2);
        Ok(())
    }

    /// Selects `bitmap` into the context, consuming the canvas and taking
    /// ownership of the bitmap so it cannot be released while selected.
    /// The object to restore is captured at the first bind: a rebind keeps
    /// the original captured object and hands the previously bound bitmap
    /// back to the caller.
    pub fn bind(self, bitmap: Bitmap) -> (r: Result<(Canvas, Option<Bitmap>), ()>)
        requires
            self.wf(),
            bitmap.wf(),
        ensures
            r is Ok,
            r matches Ok(pair) ==> {
                &&& pair.0.wf()
                &&& Canvas::spec_same_context(&self, &pair.0)
                &&& pair.0.default_surface == self.default_surface
                &&& pair.0.selection matches Selection::Custom { dc_object, bitmap: b } && b
                    == bitmap && dc_object == self.default_object
                &&& spec_sel_view(pair.0.selection) == spec_bind_step(
                    self.default_object,
                    spec_sel_view(self.selection),
                )
                &&& pair.1 == spec_bound_bitmap(self.selection)
            },
    {
        let Canvas { hdc, default_object, mode, selection, default_surface, background, text_color }
            = self;
        let (dc_object, previous): (usize, Option<Bitmap>) = match selection {
            Selection::Default => (default_object, None),
            Selection::Custom { dc_object, bitmap: prev } => (dc_object, Some(prev)),
        };
        let canvas = Canvas {
            hdc,
            default_object,
            mode,
            selection: Selection::Custom { dc_object, bitmap },
            default_surface,
            background,
            text_color,
        };
        Ok((canvas, previous))
    }

    /// Restores the context's default object, handing back the bitmap that
    /// was bound, if any. Does nothing if the default is already selected.
    pub fn bind_default(self) -> (r: Result<(Canvas, Option<Bitmap>), ()>)
        ensures
            r is Ok,
            r matches Ok(pair) ==> {
                &&& Canvas::spec_same_context(&self, &pair.0)
                &&& pair.0.default_surface == self.default_surface
                &&& pair.0.selection is Default
                &&& pair.1 == spec_bound_bitmap(self.selection)
                &&& self.wf() ==> pair.0.wf()
            },
    {
        let Canvas { hdc, default_object, mode, selection, default_surface, background, text_color }
            = self;
        let previous: Option<Bitmap> = match selection {
            Selection::Default => None,
            Selection::Custom { bitmap, .. } => Some(bitmap),
        };
        let canvas = Canvas {
            hdc,
            default_object,
            mode,
            selection: Selection::Default,
            default_surface,
            background,
            text_color,
        };
        Ok((canvas, previous))
    }

    /// Begins a bitwise transfer into this canvas, targeting by default
    /// the full drawn surface from source offset (0, 0).
    pub fn bitwise(&self) -> (r: Bitwise)
        requires
            self.wf(),
        ensures
            r.rect.left == 0,
            r.rect.top == 0,
            r.rect.right == self.spec_active().width,
            r.rect.bottom == self.spec_active().height,
            r.src_x == 0,
            r.src_y == 0,
    {
        Bitwise { rect: Rect::new(self.width(), self.height()), src_x: 0, src_y: 0 }
    }

    /// Takes the canvas apart: hands back the bitmap that was bound, if
    /// any, together with the ordered teardown steps the embedding
    /// application must perform — restore the captured object first,
    /// release the context after, according to how it was acquired.
    pub fn release(self) -> (r: (Option<Bitmap>, Vec<TeardownStep>))
        requires
            self.wf(),
        ensures
            r.1@ == spec_teardown(&self),
            r.0 == spec_bound_bitmap(self.selection),
    {
        let ghost orig = self;
        let Canvas { hdc, default_object, mode, selection, .. } = self;
        let mut steps: Vec<TeardownStep> = Vec::new();
        let previous: Option<Bitmap> = match selection {
            Selection::Default => None,
            Selection::Custom { dc_object, bitmap } => {
                steps.push(TeardownStep::RestoreObject { object: dc_object });
                Some(bitmap)
            },
        };
        match mode {
            Mode::Paint { window } => steps.push(TeardownStep::EndPaint { window }),
            Mode::BorrowedDc { window } => steps.push(TeardownStep::ReleaseDc { window }),
            Mode::OwnedDc => steps.push(TeardownStep::DeleteDc { dc: hdc }),
            Mode::Moved => {},
        }
        proof {
            assert(steps@ =~= spec_teardown(&orig));
        }
        (previous, steps)
    }
}

/// The steps that release the context itself, by acquisition mode.
pub open spec fn spec_mode_steps(c: &Canvas) -> Seq<TeardownStep> {
    match c.mode {
        Mode::Paint { window } => seq![TeardownStep::EndPaint { window }],
        Mode::BorrowedDc { window } => seq![TeardownStep::ReleaseDc { window }],
        Mode::OwnedDc => seq![TeardownStep::DeleteDc { dc: c.hdc }],
        Mode::Moved => seq![],
    }
}

/// The full teardown plan: restore the captured object first if a custom
/// object is bound, then release the context per acquisition mode.
pub open spec fn spec_teardown(c: &Canvas) -> Seq<TeardownStep> {
    match c.selection {
        Selection::Default => spec_mode_steps(c),
        Selection::Custom { dc_object, .. } => seq![
            TeardownStep::RestoreObject { object: dc_object },
        ] + spec_mode_steps(c),
    }
}

/// Tearing down a canvas with a custom binding restores the captured
/// object strictly before the context-release step, and restores exactly
/// the context's original default object.
pub proof fn lemma_restore_before_release(c: &Canvas)
    requires
        c.wf(),
        c.selection is Custom,
        !(c.mode is Moved),
    ensures
        spec_teardown(c).len() == 2,
        spec_teardown(c)[0] == (TeardownStep::RestoreObject { object: c.default_object }),
        !(spec_teardown(c)[1] is RestoreObject),
{
}

/// What one bind does to the restore capture: a first bind captures the
/// currently selected object (the context's default); a rebind keeps the
/// capture it already has.
pub open spec fn spec_bind_step(default_object: usize, s: Option<usize>) -> Option<usize> {
    match s {
        None => Some(default_object),
        Some(o) => Some(o),
    }
}

/// The restore capture after `n` successive binds.
pub open spec fn spec_bind_chain(default_object: usize, s: Option<usize>, n: nat) -> Option<usize>
    decreases n,
{
    if n == 0 {
        s
    } else {
        spec_bind_step(default_object, spec_bind_chain(default_object, s, (n - 1) as nat))
    }
}

/// However many successful binds are chained on a canvas, at most one
/// object is ever selected, and the object to restore stays the context's
/// original default — never an intermediate bitmap. Restoring the default
/// afterwards therefore yields exactly the original default selection.
pub proof fn lemma_single_binding(default_object: usize, n: nat)
    requires
        n >= 1,
    ensures
        spec_bind_chain(default_object, None, n) == Some(default_object),
    decreases n,
{
    if n == 1 {
        assert(spec_bind_chain(default_object, None, 0) == None::<usize>);
    } else {
        lemma_single_binding(default_object, (n - 1) as nat);
    }
}

/// The pixel value a brush writes: its color word, or its monochrome
/// reduction (1 for white, 0 otherwise) on a monochrome surface.
pub open spec fn spec_brush_pixel(bits: u16, color: u32) -> u32 {
    if bits == 1 {
        if color == 0x00FF_FFFF {
            1u32
        } else {
            0u32
        }
    } else {
        color
    }
}

/// Computes the pixel value a brush writes on a surface of the given
/// depth.
pub fn brush_pixel_value(bits: u16, color: u32) -> (r: u32)
    ensures
        r == spec_brush_pixel(bits, color),
        bits == 1 ==> r < 2,
{
    if bits == 1 {
        if color == 0x00FF_FFFF {
            1
        } else {
            0
        }
    } else {
        color
    }
}

/// A configurable bit-block transfer: the destination rectangle and the
/// source offset, applied by one of the four raster operations.
#[derive(Clone, Copy, Debug, PartialEq, Eq, Structural)]
pub struct Bitwise {
    pub rect: Rect,
    pub src_x: i32,
    pub src_y: i32,
}

/// Whether the transfer's rectangle lies within the destination surface
/// and its source window within the source surface.
pub open spec fn spec_region_ok(bw: Bitwise, dst: Surface, src: Surface) -> bool {
    &&& 0 <= bw.rect.left <= bw.rect.right <= dst.width
    &&& 0 <= bw.rect.top <= bw.rect.bottom <= dst.height
    &&& 0 <= bw.src_x
    &&& 0 <= bw.src_y
    &&& bw.src_x + bw.rect.right - bw.rect.left <= src.width
    &&& bw.src_y + bw.rect.bottom - bw.rect.top <= src.height
}

/// The transfer request a configuration stands for, with the given raster
/// operation.
pub open spec fn spec_blit_op(bw: Bitwise, rop: u32) -> BlitOp {
    BlitOp {
        dx: bw.rect.left as usize,
        dy: bw.rect.top as usize,
        width: (bw.rect.right - bw.rect.left) as usize,
        height: (bw.rect.bottom - bw.rect.top) as usize,
        sx: bw.src_x as usize,
        sy: bw.src_y as usize,
        rop,
    }
}

impl Bitwise {
    /// Sets the rectangular region where the transfer will be applied.
    pub fn region(self, rect: Rect) -> (r: Bitwise)
        ensures
            r.rect == rect,
            r.src_x == self.src_x,
            r.src_y == self.src_y,
    {
        Bitwise { rect, src_x: self.src_x, src_y: self.src_y }
    }

    /// Offsets the source of the transfer by this amount.
    pub fn offset_source(self, x: i32, y: i32) -> (r: Bitwise)
        ensures
            r.rect == self.rect,
            r.src_x == x,
            r.src_y == y,
    {
        Bitwise { rect: self.rect, src_x: x, src_y: y }
    }

    /// Applies the bitwise AND of the source canvas into the destination.
    pub fn and(self, dest: &mut Canvas, source: &Canvas) -> (r: Result<(), ()>)
        requires
            old(dest).wf(),
            source.wf(),
        ensures
            transfer_post(self, old(dest), final(dest), source, SRCAND, r),
    {
        self.transfer(dest, source, SRCAND)
    }

    /// Applies the bitwise OR of the source canvas into the destination.
    pub fn or(self, dest: &mut Canvas, source: &Canvas) -> (r: Result<(), ()>)
        requires
            old(dest).wf(),
            source.wf(),
        ensures
            transfer_post(self, old(dest), final(dest), source, SRCPAINT, r),
    {
        self.transfer(dest, source, SRCPAINT)
    }

    /// Applies the bitwise XOR of the source canvas into the destination.
    pub fn xor(self, dest: &mut Canvas, source: &Canvas) -> (r: Result<(), ()>)
        requires
            old(dest).wf(),
            source.wf(),
        ensures
            transfer_post(self, old(dest), final(dest), source, SRCINVERT, r),
    {
        self.transfer(dest, source, SRCINVERT)
    }

    /// Copies the source canvas into the destination.
    pub fn set(self, dest: &mut Canvas, source: &Canvas) -> (r: Result<(), ()>)
        requires
            old(dest).wf(),
            source.wf(),
        ensures
            transfer_post(self, old(dest), final(dest), source, SRCCOPY, r),
    {
        self.transfer(dest, source, SRCCOPY)
    }

    /// Issues the transfer with the given raster operation. It succeeds
    /// exactly when the configured region is valid for both surfaces;
    /// nothing changes on failure.
    pub fn transfer(self, dest: &mut Canvas, source: &Canvas, rop: u32) -> (r: Result<(), ()>)
        requires
            old(dest).wf(),
            source.wf(),
        ensures
            transfer_post(self, old(dest), final(dest), source, rop, r),
    {
        let dw = dest.width();
        let dh = dest.height();
        let sw = source.width();
        let sh = source.height();
        let left = self.rect.left();
        let top = self.rect.top();
        let right = self.rect.right();
        let bottom = self.rect.bottom();
        if !(0 <= left && left <= right && right <= dw && 0 <= top && top <= bottom && bottom <= dh
            && 0 <= self.src_x && 0 <= self.src_y && self.src_x <= sw - (right - left) && self.src_y
            <= sh - (bottom - top)) {
            return Err(());
        }
        let op = BlitOp {
            dx: left as usize,
            dy: top as usize,
            width: (right - left) as usize,
            height: (bottom - top) as usize,
            sx: self.src_x as usize,
            sy: self.src_y as usize,
            rop,
        };
        let src_surface: &Surface = match &source.selection {
            Selection::Default => &source.default_surface,
            Selection::Custom { bitmap, .. } => &bitmap.surface,
        };
        let src_bk = source.background;
        let dst_bk = dest.background;
        let dst_text = dest.text_color;
        match &mut dest.selection {
            Selection::Default => {
                dest.default_surface.blit(src_surface, op, src_bk, dst_bk, dst_text)
            },
            Selection::Custom { bitmap, .. } => {
                bitmap.surface.blit(src_surface, op, src_bk, dst_bk, dst_text)
            },
        }
        Ok(())
    }
}

/// The contract of a canvas-level transfer: the destination keeps its
/// identity, mode, colors and binding; the transfer succeeds exactly when
/// the region is valid; on success every destination pixel follows the
/// transfer rule, on failure nothing changes.
pub open spec fn transfer_post(
    bw: Bitwise,
    before: &Canvas,
    after: &Canvas,
    source: &Canvas,
    rop: u32,
    r: Result<(), ()>,
) -> bool {
    &&& after.wf()
    &&& Canvas::spec_same_context(before, after)
    &&& Canvas::spec_same_binding(before, after)
    &&& after.spec_active().same_shape(&before.spec_active())
    &&& (r is Ok <==> spec_region_ok(bw, before.spec_active(), source.spec_active()))
    &&& r is Ok ==> forall|x: int, y: int|
        0 <= x < before.spec_active().width && 0 <= y < before.spec_active().height
            ==> #[trigger] pix(after.spec_active(), x, y) == crate::gdi::surface::spec_blit_pixel(
            before.spec_active(),
            source.spec_active(),
            spec_blit_op(bw, rop),
            source.background,
            before.background,
            before.text_color,
            x,
            y,
        )
    &&& r is Err ==> after.spec_active() == before.spec_active()
}

} // verus!
