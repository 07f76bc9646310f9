//! Pixel surfaces and the raster operations over them.
//!
//! Every drawable object is backed by a [`Surface`]: a rectangle of pixel
//! words in row-major order. The bit-block transfer [`Surface::blit`] is
//! the one primitive behind every bitwise canvas operation; its combining
//! rule and its color-depth conversion rule are stated as spec functions
//! that the rest of the crate's contracts reuse.

use vstd::prelude::*;

verus! {

/// Raster operation: copy the source over the destination.
pub const SRCCOPY: u32 = 0x00CC0020;

/// Raster operation: bitwise AND of source and destination.
pub const SRCAND: u32 = 0x008800C6;

/// Raster operation: bitwise OR of source and destination.
pub const SRCPAINT: u32 = 0x00EE0086;

/// Raster operation: bitwise XOR of source and destination.
pub const SRCINVERT: u32 = 0x00660046;

/// A rectangle of pixels, row-major. A monochrome surface (one bit per
/// pixel) holds only the words 0 and 1.
pub struct Surface {
    pub width: usize,
    pub height: usize,
    pub bits_per_pixel: u16,
    pub pixels: Vec<u32>,
}

/// The pixel of `s` at column `x`, row `y`.
pub open spec fn pix(s: Surface, x: int, y: int) -> u32 {
    s.pixels@[y * s.width + x]
}

impl Surface {
    /// Well-formedness: the pixel store matches the dimensions, the
    /// dimensions fit the platform's signed measures, and a monochrome
    /// surface holds only 0 and 1.
    pub open spec fn wf(&self) -> bool {
        &&& self.pixels@.len() == self.width * self.height
        &&& self.width <= 0x7FFF_FFFF
        &&& self.height <= 0x7FFF_FFFF
        &&& self.bits_per_pixel >= 1
        &&& self.bits_per_pixel == 1 ==> forall|i: int|
            0 <= i < self.pixels@.len() ==> #[trigger] self.pixels@[i] < 2
    }

    /// Same dimensions and pixel depth.
    pub open spec fn same_shape(&self, other: &Surface) -> bool {
        &&& self.width == other.width
        &&& self.height == other.height
        &&& self.bits_per_pixel == other.bits_per_pixel
    }

    /// A zero-filled surface of the given shape.
    pub fn new(width: usize, height: usize, bits_per_pixel: u16) -> (r: Surface)
        requires
            width * height <= usize::MAX,
            width <= 0x7FFF_FFFF,
            height <= 0x7FFF_FFFF,
            bits_per_pixel >= 1,
        ensures
            r.wf(),
            r.width == width,
            r.height == height,
            r.bits_per_pixel == bits_per_pixel,
            forall|x: int, y: int|
                0 <= x < width && 0 <= y < height ==> #[trigger] pix(r, x, y) == 0,
    {
        let count: usize = width * height;
        let r = Surface { width, height, bits_per_pixel, pixels: vec![0u32; count] };
        proof {
            assert forall|x: int, y: int|
                0 <= x < width && 0 <= y < height implies #[trigger] pix(r, x, y) == 0 by {
                assert(0 <= y * width + x < width * height) by (nonlinear_arith)
                    requires
                        0 <= x < width,
                        0 <= y < height,
                ;
            }
        }
        r
    }

    /// Reads the pixel at column `x`, row `y`.
    pub fn get_pixel(&self, x: usize, y: usize) -> (r: u32)
        requires
            self.wf(),
            x < self.width,
            y < self.height,
        ensures
            r == pix(*self, x as int, y as int),
            self.bits_per_pixel == 1 ==> r < 2,
    {
        let count = self.pixels.len();
        proof {
            assert(0 <= y * self.width + x < self.width * self.height) by (nonlinear_arith)
                requires
                    0 <= x < self.width,
                    0 <= y < self.height,
            ;
            assert(y * self.width + x < count);
        }
        let idx: usize = y * self.width + x;
        self.pixels[idx]
    }

    /// Writes the pixel at column `x`, row `y`; every other pixel keeps
    /// its value.
    pub fn set_pixel(&mut self, x: usize, y: usize, value: u32)
        requires
            old(self).wf(),
            x < old(self).width,
            y < old(self).height,
            old(self).bits_per_pixel == 1 ==> value < 2,
        ensures
            final(self).wf(),
            final(self).same_shape(old(self)),
            forall|a: int, b: int|
                0 <= a < old(self).width && 0 <= b < old(self).height ==> #[trigger] pix(
                    *final(self),
                    a,
                    b,
                ) == if a == x && b == y {
                    value
                } else {
                    pix(*old(self), a, b)
                },
    {
        let count = self.pixels.len();
        proof {
            assert(0 <= y * self.width + x < self.width * self.height) by (nonlinear_arith)
                requires
                    0 <= x < self.width,
                    0 <= y < self.height,
            ;
            assert(y * self.width + x < count);
        }
        let idx: usize = y * self.width + x;
        self.pixels[idx] = value;
        proof {
            assert forall|a: int, b: int|
                0 <= a < old(self).width && 0 <= b < old(self).height implies #[trigger] pix(
                *self,
                a,
                b,
            ) == if a == x && b == y {
                value
            } else {
                pix(*old(self), a, b)
            } by {
                let w = old(self).width;
                let h = old(self).height;
                assert(0 <= b * w + a < w * h) by (nonlinear_arith)
                    requires
                        0 <= a < w,
                        0 <= b < h,
                ;
                if !(a == x && b == y) {
                    assert(b * w + a != y * w + x) by (nonlinear_arith)
                        requires
                            0 <= a < w,
                            0 <= x < w,
                            0 <= b,
                            0 <= y,
                            !(a == x && b == y),
                    ;
                }
            }
        }
    }
}

/// The combining rule of a bit-block transfer: how a destination pixel and
/// a (converted) source pixel make the new destination pixel. An operation
/// outside the four supported ones leaves the destination pixel unchanged.
pub open spec fn spec_rop(rop: u32, d: u32, s: u32) -> u32 {
    if rop == SRCCOPY {
        s
    } else if rop == SRCAND {
        d & s
    } else if rop == SRCPAINT {
        d | s
    } else if rop == SRCINVERT {
        d ^ s
    } else {
        d
    }
}

/// The color-depth conversion rule of a bit-block transfer. Equal depths
/// copy the pixel word as it is. A color pixel entering a monochrome
/// destination becomes 1 exactly when it matches the source context's
/// background color. A monochrome pixel entering a color destination
/// becomes the destination context's background color when it is 1, and
/// its text color when it is 0.
pub open spec fn spec_convert(
    src_bits: u16,
    dst_bits: u16,
    src_bk: u32,
    dst_bk: u32,
    dst_text: u32,
    p: u32,
) -> u32 {
    if src_bits == dst_bits {
        p
    } else if dst_bits == 1 {
        if p == src_bk {
            1u32
        } else {
            0u32
        }
    } else {
        if p == 1 {
            dst_bk
        } else {
            dst_text
        }
    }
}

/// A bit-block transfer request: the destination rectangle, the source
/// offset, and the combining raster operation.
#[derive(Clone, Copy, Debug, PartialEq, Eq, Structural)]
pub struct BlitOp {
    pub dx: usize,
    pub dy: usize,
    pub width: usize,
    pub height: usize,
    pub sx: usize,
    pub sy: usize,
    pub rop: u32,
}

/// Whether destination coordinates `(a, b)` fall in the transfer's target
/// rectangle.
pub open spec fn in_region(op: BlitOp, a: int, b: int) -> bool {
    &&& op.dx <= a < op.dx + op.width
    &&& op.dy <= b < op.dy + op.height
}

/// What a destination pixel holds after the transfer: inside the target
/// rectangle, the raster combination of the old pixel with the converted
/// source pixel; outside it, the old pixel.
pub open spec fn spec_blit_pixel(
    dst: Surface,
    src: Surface,
    op: BlitOp,
    src_bk: u32,
    dst_bk: u32,
    dst_text: u32,
    a: int,
    b: int,
) -> u32 {
    if in_region(op, a, b) {
        spec_rop(
            op.rop,
            pix(dst, a, b),
            spec_convert(
                src.bits_per_pixel,
                dst.bits_per_pixel,
                src_bk,
                dst_bk,
                dst_text,
                pix(src, op.sx + a - op.dx, op.sy + b - op.dy),
            ),
        )
    } else {
        pix(dst, a, b)
    }
}

/// Bitwise combinations of two monochrome pixel words stay monochrome.
proof fn lemma_mono_ops(d: u32, s: u32)
    requires
        d < 2,
        s < 2,
    ensures
        (d & s) < 2,
        (d | s) < 2,
        (d ^ s) < 2,
{
    assert((d & s) < 2 && (d | s) < 2 && (d ^ s) < 2) by (bit_vector)
        requires
            d < 2 && s < 2,
    ;
}

/// Applies the combining rule of a transfer to one pixel.
fn rop_pixel(rop: u32, d: u32, s: u32) -> (r: u32)
    ensures
        r == spec_rop(rop, d, s),
{
    if rop == SRCCOPY {
        s
    } else if rop == SRCAND {
        d & s
    } else if rop == SRCPAINT {
        d | s
    } else if rop == SRCINVERT {
        d ^ s
    } else {
        d
    }
}

/// Applies the color-depth conversion rule of a transfer to one pixel.
fn convert_pixel(src_bits: u16, dst_bits: u16, src_bk: u32, dst_bk: u32, dst_text: u32, p: u32) -> (r:
    u32)
    ensures
        r == spec_convert(src_bits, dst_bits, src_bk, dst_bk, dst_text, p),
{
    if src_bits == dst_bits {
        p
    } else if dst_bits == 1 {
        if p == src_bk {
            1
        } else {
            0
        }
    } else {
        if p == 1 {
            dst_bk
        } else {
            dst_text
        }
    }
}

impl Surface {
    /// Fills a rectangle of the surface with one pixel value; every pixel
    /// outside the rectangle keeps its value.
    pub fn fill(&mut self, fx: usize, fy: usize, w: usize, h: usize, value: u32)
        requires
            old(self).wf(),
            fx + w <= old(self).width,
            fy + h <= old(self).height,
            old(self).bits_per_pixel == 1 ==> value < 2,
        ensures
            final(self).wf(),
            final(self).same_shape(old(self)),
            forall|a: int, b: int|
                0 <= a < old(self).width && 0 <= b < old(self).height ==> #[trigger] pix(
                    *final(self),
                    a,
                    b,
                ) == if fx <= a < fx + w && fy <= b < fy + h {
                    value
                } else {
                    pix(*old(self), a, b)
                },
    {
        let mut row: usize = 0;
        while row < h
            invariant
                self.wf(),
                self.same_shape(old(self)),
                fx + w <= self.width,
                fy + h <= self.height,
                self.bits_per_pixel == 1 ==> value < 2,
                row <= h,
                forall|a: int, b: int|
                    0 <= a < self.width && 0 <= b < self.height ==> #[trigger] pix(*self, a, b)
                        == if fx <= a < fx + w && fy <= b < fy + row {
                        value
                    } else {
                        pix(*old(self), a, b)
                    },
            decreases h - row,
        {
            let mut col: usize = 0;
            while col < w
                invariant
                    self.wf(),
                    self.same_shape(old(self)),
                    fx + w <= self.width,
                    fy + h <= self.height,
                    self.bits_per_pixel == 1 ==> value < 2,
                    row < h,
                    col <= w,
                    forall|a: int, b: int|
                        0 <= a < self.width && 0 <= b < self.height ==> #[trigger] pix(*self, a, b)
                            == if (fx <= a < fx + w && fy <= b < fy + row) || (b == fy + row && fx
                            <= a < fx + col) {
                            value
                        } else {
                            pix(*old(self), a, b)
                        },
                decreases w - col,
            {
                self.set_pixel(fx + col, fy + row, value);
                col = col + 1;
            }
            row = row + 1;
        }
    }

    /// Performs a bit-block transfer from `src` into this surface: each
    /// pixel of the target rectangle is replaced by the raster combination
    /// of its old value with the converted source pixel, and every pixel
    /// outside the rectangle keeps its value. `src_bk` is the source
    /// context's background color; `dst_bk` and `dst_text` are the
    /// destination context's background and text colors, used when the
    /// depths differ.
    pub fn blit(&mut self, src: &Surface, op: BlitOp, src_bk: u32, dst_bk: u32, dst_text: u32)
        requires
            old(self).wf(),
            src.wf(),
            op.dx + op.width <= old(self).width,
            op.dy + op.height <= old(self).height,
            op.sx + op.width <= src.width,
            op.sy + op.height <= src.height,
        ensures
            final(self).wf(),
            final(self).same_shape(old(self)),
            forall|a: int, b: int|
                0 <= a < old(self).width && 0 <= b < old(self).height ==> #[trigger] pix(
                    *final(self),
                    a,
                    b,
                ) == spec_blit_pixel(*old(self), *src, op, src_bk, dst_bk, dst_text, a, b),
    {
        let mut row: usize = 0;
        while row < op.height
            invariant
                self.wf(),
                src.wf(),
                self.same_shape(old(self)),
                op.dx + op.width <= self.width,
                op.dy + op.height <= self.height,
                op.sx + op.width <= src.width,
                op.sy + op.height <= src.height,
                row <= op.height,
                forall|a: int, b: int|
                    0 <= a < self.width && 0 <= b < self.height ==> #[trigger] pix(*self, a, b)
                        == if in_region(op, a, b) && b < op.dy + row {
                        spec_blit_pixel(*old(self), *src, op, src_bk, dst_bk, dst_text, a, b)
                    } else {
                        pix(*old(self), a, b)
                    },
            decreases op.height - row,
        {
            let mut col: usize = 0;
            while col < op.width
                invariant
                    self.wf(),
                    src.wf(),
                    self.same_shape(old(self)),
                    op.dx + op.width <= self.width,
                    op.dy + op.height <= self.height,
                    op.sx + op.width <= src.width,
                    op.sy + op.height <= src.height,
                    row < op.height,
                    col <= op.width,
                    forall|a: int, b: int|
                        0 <= a < self.width && 0 <= b < self.height ==> #[trigger] pix(*self, a, b)
                            == if in_region(op, a, b) && (b < op.dy + row || (b == op.dy + row && a
                            < op.dx + col)) {
                            spec_blit_pixel(*old(self), *src, op, src_bk, dst_bk, dst_text, a, b)
                        } else {
                            pix(*old(self), a, b)
                        },
                decreases op.width - col,
            {
                let s_raw = src.get_pixel(op.sx + col, op.sy + row);
                let s = convert_pixel(
                    src.bits_per_pixel,
                    self.bits_per_pixel,
                    src_bk,
                    dst_bk,
                    dst_text,
                    s_raw,
                );
                let d = self.get_pixel(op.dx + col, op.dy + row);
                let v = rop_pixel(op.rop, d, s);
                proof {
                    if self.bits_per_pixel == 1 {
                        assert(d < 2);
                        if src.bits_per_pixel == 1 {
                            assert(s < 2);
                        }
                        lemma_mono_ops(d, s);
                    }
                }
                self.set_pixel(op.dx + col, op.dy + row, v);
                col = col + 1;
            }
            row = row + 1;
        }
    }
}

} // verus!
