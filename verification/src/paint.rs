//! A paint session on a window: the bracket a paint-message handler opens,
//! draws into, and closes. Drawing a bitmap goes through a temporary
//! memory context with the bitmap selected in, transferred by a raster
//! operation, and the temporary selection and context torn down in reverse
//! order; here that whole round is one checked transfer.

use crate::gdi::bitmap::Bitmap;
use crate::gdi::brush::Brush;
use crate::gdi::canvas::spec_brush_pixel;
use crate::gdi::surface::{pix, spec_blit_pixel, BlitOp, Surface, SRCAND, SRCCOPY, SRCPAINT};
use crate::gdi::{DEFAULT_BACKGROUND, DEFAULT_TEXT_COLOR};
use crate::window::Window;
use vstd::prelude::*;

verus! {

/// A live paint session: the window it was begun on, the context handle
/// the native call returned, and the session's drawing surface (sized to
/// the area to repaint) with the context's colors.
pub struct Paint {
    pub window: usize,
    pub hdc: usize,
    pub surface: Surface,
    pub background: u32,
    pub text_color: u32,
}

impl Paint {
    /// Well-formedness: nonzero handles and a sound surface.
    pub open spec fn wf(&self) -> bool {
        &&& self.window != 0
        &&& self.hdc != 0
        &&& self.surface.wf()
    }

    /// Wraps the result of beginning a paint session on `window`: `raw`
    /// is the context handle the native call returned, null on failure;
    /// `width` and `height` measure the area to repaint.
    pub fn new(window: &Window, raw: usize, width: i32, height: i32) -> (r: Result<Paint, ()>)
        requires
            window.wf(),
            width >= 0,
            height >= 0,
            width * height <= usize::MAX,
        ensures
            raw != 0 <==> r is Ok,
            r matches Ok(p) ==> {
                &&& p.wf()
                &&& p.window == window.spec_hwnd()
                &&& p.hdc == raw
                &&& p.surface.width == width
                &&& p.surface.height == height
                &&& p.background == DEFAULT_BACKGROUND
                &&& p.text_color == DEFAULT_TEXT_COLOR
            },
    {
        if raw == 0 {
            return Err(());
        }
        let bits: u16 = 32;
        Ok(
            Paint {
                window: window.hwnd(),
                hdc: raw,
                surface: Surface::new(width as usize, height as usize, bits),
                background: DEFAULT_BACKGROUND,
                text_color: DEFAULT_TEXT_COLOR,
            },
        )
    }

    /// Fills a rectangle of the session's surface with the brush's color.
    /// The fill succeeds exactly when the rectangle lies within the
    /// surface; nothing changes on failure.
    pub fn fill_rect(&mut self, rect: (i32, i32, i32, i32), brush: Brush) -> (r: Result<(), ()>)
        requires
            old(self).wf(),
        ensures
            final(self).wf(),
            final(self).window == old(self).window,
            final(self).hdc == old(self).hdc,
            final(self).background == old(self).background,
            final(self).text_color == old(self).text_color,
            final(self).surface.same_shape(&old(self).surface),
            r is Ok <==> {
                &&& 0 <= rect.0
                &&& 0 <= rect.1
                &&& 0 <= rect.2
                &&& 0 <= rect.3
                &&& rect.0 + rect.2 <= old(self).surface.width
                &&& rect.1 + rect.3 <= old(self).surface.height
            },
            r is Ok ==> forall|x: int, y: int|
                0 <= x < old(self).surface.width && 0 <= y < old(self).surface.height
                    ==> #[trigger] pix(final(self).surface, x, y) == if rect.0 <= x < rect.0
                    + rect.2 && rect.1 <= y < rect.1 + rect.3 {
                    spec_brush_pixel(old(self).surface.bits_per_pixel, brush.color)
                } else {
                    pix(old(self).surface, x, y)
                },
            r is Err ==> final(self).surface == old(self).surface,
    {
        let (x, y, width, height) = rect;
        let sw = self.surface.width;
        let sh = self.surface.height;
        if !(0 <= x && 0 <= y && 0 <= width && 0 <= height && x as usize <= sw && width as usize
            <= sw - x as usize && y as usize <= sh && height as usize <= sh - y as usize) {
            return Err(());
        }
        let value = crate::gdi::canvas::brush_pixel_value(self.surface.bits_per_pixel, brush.color);
        self.surface.fill(x as usize, y as usize, width as usize, height as usize, value);
        Ok(())
    }

    /// Draws `bmp` into the given rectangle with a bitwise AND.
    pub fn and_bitmap_to_rect(
        &mut self,
        x: i32,
        y: i32,
        width: i32,
        height: i32,
        bmp: &Bitmap,
        src_x: i32,
        src_y: i32,
    ) -> (r: Result<(), ()>)
        requires
            old(self).wf(),
            bmp.wf(),
        ensures
            rop_post(old(self), final(self), bmp, x, y, width, height, src_x, src_y, SRCAND, r),
    {
        self.rop_bitmap_to_rect(x, y, width, height, bmp, src_x, src_y, SRCAND)
    }

    /// Draws `bmp` into the given rectangle by plain copy.
    pub fn copy_bitmap_to_rect(
        &mut self,
        x: i32,
        y: i32,
        width: i32,
        height: i32,
        bmp: &Bitmap,
        src_x: i32,
        src_y: i32,
    ) -> (r: Result<(), ()>)
        requires
            old(self).wf(),
            bmp.wf(),
        ensures
            rop_post(old(self), final(self), bmp, x, y, width, height, src_x, src_y, SRCCOPY, r),
    {
        self.rop_bitmap_to_rect(x, y, width, height, bmp, src_x, src_y, SRCCOPY)
    }

    /// Draws `bmp` into the given rectangle with a bitwise OR.
    pub fn paint_bitmap_to_rect(
        &mut self,
        x: i32,
        y: i32,
        width: i32,
        height: i32,
        bmp: &Bitmap,
        src_x: i32,
        src_y: i32,
    ) -> (r: Result<(), ()>)
        requires
            old(self).wf(),
            bmp.wf(),
        ensures
            rop_post(old(self), final(self), bmp, x, y, width, height, src_x, src_y, SRCPAINT, r),
    {
        self.rop_bitmap_to_rect(x, y, width, height, bmp, src_x, src_y, SRCPAINT)
    }

    /// Draws `bmp` into the given rectangle with the raster operation
    /// `rop`: the bitmap is selected into a temporary memory context,
    /// transferred, and the temporary selection and context are torn down
    /// again in reverse order. The transfer succeeds exactly when the
    /// rectangle lies within the session's surface and the source window
    /// within the bitmap; nothing changes on failure.
    pub fn rop_bitmap_to_rect(
        &mut self,
        x: i32,
        y: i32,
        width: i32,
        height: i32,
        bmp: &Bitmap,
        src_x: i32,
        src_y: i32,
        rop: u32,
    ) -> (r: Result<(), ()>)
        requires
            old(self).wf(),
            bmp.wf(),
        ensures
            rop_post(old(self), final(self), bmp, x, y, width, height, src_x, src_y, rop, r),
    {
        let sw = self.surface.width;
        let sh = self.surface.height;
        let bw = bmp.surface.width;
        let bh = bmp.surface.height;
        if !(0 <= x && 0 <= y && 0 <= width && 0 <= height && 0 <= src_x && 0 <= src_y && x as usize
            <= sw && width as usize <= sw - x as usize && y as usize <= sh && height as usize <= sh
            - y as usize && src_x as usize <= bw && width as usize <= bw - src_x as usize && src_y
            as usize <= bh && height as usize <= bh - src_y as usize) {
            return Err(());
        }
        let op = BlitOp {
            dx: x as usize,
            dy: y as usize,
            width: width as usize,
            height: height as usize,
            sx: src_x as usize,
            sy: src_y as usize,
            rop,
        };
        self.surface.blit(&bmp.surface, op, DEFAULT_BACKGROUND, self.background, self.text_color);
        Ok(())
    }
}

/// The contract of drawing a bitmap into a paint session: the session
/// keeps its identity and colors; the transfer succeeds exactly when both
/// rectangles are in bounds; on success every surface pixel follows the
/// transfer rule (the temporary memory context holding the bitmap has the
/// default colors), on failure nothing changes.
pub open spec fn rop_post(
    before: &Paint,
    after: &Paint,
    bmp: &Bitmap,
    x: i32,
    y: i32,
    width: i32,
    height: i32,
    src_x: i32,
    src_y: i32,
    rop: u32,
    r: Result<(), ()>,
) -> bool {
    &&& after.wf()
    &&& after.window == before.window
    &&& after.hdc == before.hdc
    &&& after.background == before.background
    &&& after.text_color == before.text_color
    &&& after.surface.same_shape(&before.surface)
    &&& (r is Ok <==> {
        &&& 0 <= x
        &&& 0 <= y
        &&& 0 <= width
        &&& 0 <= height
        &&& 0 <= src_x
        &&& 0 <= src_y
        &&& x + width <= before.surface.width
        &&& y + height <= before.surface.height
        &&& src_x + width <= bmp.surface.width
        &&& src_y + height <= bmp.surface.height
    })
    &&& r is Ok ==> forall|a: int, b: int|
        0 <= a < before.surface.width && 0 <= b < before.surface.height ==> #[trigger] pix(
            after.surface,
            a,
            b,
        ) == spec_blit_pixel(
            before.surface,
            bmp.surface,
            BlitOp {
                dx: x as usize,
                dy: y as usize,
                width: width as usize,
                height: height as usize,
                sx: src_x as usize,
                sy: src_y as usize,
                rop,
            },
            DEFAULT_BACKGROUND,
            before.background,
            before.text_color,
            a,
            b,
        )
    &&& r is Err ==> after.surface == before.surface
}

} // verus!
