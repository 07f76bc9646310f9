//! Bitmaps: pixel rectangles that can be selected into a canvas, measured,
//! and derived from one another. The transparency-mask derivation at the
//! bottom of this file is the involved piece: it is stated pixel for pixel.

use crate::gdi::surface::{pix, spec_blit_pixel, BlitOp, Surface, SRCCOPY, SRCINVERT};
use crate::gdi::{spec_rgb, Paint, DEFAULT_BACKGROUND, DEFAULT_TEXT_COLOR};
use crate::Error;
use vstd::prelude::*;

verus! {

/// A bitmap: the platform object's handle, its plane count, and the pixel
/// surface it is backed by.
pub struct Bitmap {
    pub handle: usize,
    pub planes: u16,
    pub surface: Surface,
}

/// The measurements of a bitmap, as the platform's query call reports
/// them.
#[derive(Clone, Copy, Debug, PartialEq, Eq, Structural)]
pub struct Info {
    pub width: i32,
    pub height: i32,
    pub stride: i32,
    pub planes: u16,
    pub bits_per_pixel: u16,
}

impl Bitmap {
    /// Well-formedness: the handle is never null, the surface is sound,
    /// at least one plane, and one scan line's bits fit the signed stride
    /// measure.
    pub open spec fn wf(&self) -> bool {
        &&& self.handle != 0
        &&& self.surface.wf()
        &&& self.planes >= 1
        &&& self.surface.width * self.surface.bits_per_pixel <= 0x7FFF_FFFF
    }
}

/// Wraps the result of the native blank-bitmap creation call: `raw` is the
/// handle it returned, null on failure. A fresh bitmap's pixels are zero.
/// Width and height must not be negative (the platform rejects such sizes
/// by a hard failure, not an error result).
pub fn new(raw: usize, width: i32, height: i32, planes: u32, bit_count: u32) -> (result: Result<
    Bitmap,
    (),
>)
    requires
        width >= 0,
        height >= 0,
        width * height <= usize::MAX,
        1 <= planes <= 0xFFFF,
        1 <= bit_count <= 0xFFFF,
        width * bit_count <= 0x7FFF_FFFF,
    ensures
        raw != 0 <==> result is Ok,
        result matches Ok(b) ==> {
            &&& b.wf()
            &&& b.handle == raw
            &&& b.planes == planes
            &&& b.surface.width == width
            &&& b.surface.height == height
            &&& b.surface.bits_per_pixel == bit_count
            &&& forall|x: int, y: int|
                0 <= x < width && 0 <= y < height ==> #[trigger] pix(b.surface, x, y) == 0
        },
{
    if raw == 0 {
        return Err(());
    }
    let surface = Surface::new(width as usize, height as usize, bit_count as u16);
    Ok(Bitmap { handle: raw, planes: planes as u16, surface })
}

/// Wraps the result of loading a bitmap bundled as a program resource:
/// `raw` is the handle the native load returned (null on failure), and the
/// dimensions are those the platform reports for the resource.
pub fn load(raw: usize, width: i32, height: i32, planes: u32, bit_count: u32) -> (result: Result<
    Bitmap,
    (),
>)
    requires
        width >= 0,
        height >= 0,
        width * height <= usize::MAX,
        1 <= planes <= 0xFFFF,
        1 <= bit_count <= 0xFFFF,
        width * bit_count <= 0x7FFF_FFFF,
    ensures
        raw != 0 <==> result is Ok,
        result matches Ok(b) ==> {
            &&& b.wf()
            &&& b.handle == raw
            &&& b.planes == planes
            &&& b.surface.width == width
            &&& b.surface.height == height
            &&& b.surface.bits_per_pixel == bit_count
        },
{
    new(raw, width, height, planes, bit_count)
}

/// Wraps the result of loading a bitmap from a file: `raw` is the handle
/// the native load returned, null when the file could not be loaded — a
/// recoverable error carrying the platform's last-error code, never a
/// failure that stops the process.
pub fn from_file(
    raw: usize,
    last_error: i32,
    width: i32,
    height: i32,
    planes: u32,
    bit_count: u32,
) -> (result: Result<Bitmap, Error>)
    requires
        width >= 0,
        height >= 0,
        width * height <= usize::MAX,
        1 <= planes <= 0xFFFF,
        1 <= bit_count <= 0xFFFF,
        width * bit_count <= 0x7FFF_FFFF,
    ensures
        raw != 0 <==> result is Ok,
        result matches Ok(b) ==> {
            &&& b.wf()
            &&& b.handle == raw
            &&& b.surface.width == width
            &&& b.surface.height == height
            &&& b.surface.bits_per_pixel == bit_count
        },
        result matches Err(e) ==> e.spec_code() == last_error,
{
    match new(raw, width, height, planes, bit_count) {
        Ok(b) => Ok(b),
        Err(_) => Err(Error::from_os_code(last_error)),
    }
}

impl Info {
    /// The width, in pixels, of the bitmap.
    pub fn width(&self) -> (r: i32)
        ensures
            r == self.width,
    {
        self.width
    }

    /// The height, in pixels, of the bitmap.
    pub fn height(&self) -> (r: i32)
        ensures
            r == self.height,
    {
        self.height
    }

    /// The number of bytes in each scan line; word alignment makes it
    /// divisible by two.
    pub fn stride(&self) -> (r: i32)
        ensures
            r == self.stride,
    {
        self.stride
    }

    /// The count of color planes.
    pub fn planes(&self) -> (r: u16)
        ensures
            r == self.planes,
    {
        self.planes
    }

    /// The number of bits required to indicate the color of a pixel.
    pub fn bits_per_pixel(&self) -> (r: u16)
        ensures
            r == self.bits_per_pixel,
    {
        self.bits_per_pixel
    }
}

impl Bitmap {
    /// Measures the bitmap. The stride is the word-aligned byte length of
    /// one scan line.
    pub fn info(&self) -> (result: Result<Info, ()>)
        requires
            self.wf(),
        ensures
            result matches Ok(i) ==> {
                &&& i.width == self.surface.width
                &&& i.height == self.surface.height
                &&& i.planes == self.planes
                &&& i.bits_per_pixel == self.surface.bits_per_pixel
                &&& i.stride == ((self.surface.width * self.surface.bits_per_pixel + 15) / 16) * 2
            },
            result is Ok,
    {
        let row_bits: usize = self.surface.width * self.surface.bits_per_pixel as usize;
        let stride: usize = ((row_bits + 15) / 16) * 2;
        Ok(
            Info {
                width: self.surface.width as i32,
                height: self.surface.height as i32,
                stride: stride as i32,
                planes: self.planes,
                bits_per_pixel: self.surface.bits_per_pixel,
            },
        )
    }

    /// Replaces every pixel of the given color with a zeroed (black)
    /// pixel, and returns the monochrome mask that was used: the mask is
    /// the bitmap's size, and holds 1 exactly where the bitmap held the
    /// color. `mask_raw` is the handle the native creation call returned
    /// for the mask bitmap; the derivation only runs once that creation
    /// has succeeded.
    pub fn set_color_transparent(&mut self, mask_raw: usize, color: (u8, u8, u8)) -> (result:
        Result<Bitmap, ()>)
        requires
            old(self).wf(),
            old(self).surface.bits_per_pixel > 1,
            mask_raw != 0,
        ensures
            result is Ok,
            final(self).wf(),
            final(self).handle == old(self).handle,
            final(self).planes == old(self).planes,
            final(self).surface.same_shape(&old(self).surface),
            result matches Ok(mask) ==> {
                &&& mask.wf()
                &&& mask.handle == mask_raw
                &&& mask.planes == 1
                &&& mask.surface.width == old(self).surface.width
                &&& mask.surface.height == old(self).surface.height
                &&& mask.surface.bits_per_pixel == 1
                &&& forall|x: int, y: int|
                    0 <= x < old(self).surface.width && 0 <= y < old(self).surface.height
                        ==> #[trigger] pix(mask.surface, x, y) == if pix(old(self).surface, x, y)
                        == spec_rgb(color.0, color.1, color.2) {
                        1u32
                    } else {
                        0u32
                    }
            },
            forall|x: int, y: int|
                0 <= x < old(self).surface.width && 0 <= y < old(self).surface.height
                    ==> #[trigger] pix(final(self).surface, x, y) == if pix(old(self).surface, x, y)
                    == spec_rgb(color.0, color.1, color.2) {
                    0u32
                } else {
                    pix(old(self).surface, x, y)
                },
    {
        let c = crate::gdi::rgb(color.0, color.1, color.2);
        let width = self.surface.width;
        let height = self.surface.height;
        let pixel_count = self.surface.pixels.len();
        proof {
            assert(width * height == pixel_count);
        }

        // The mask bitmap: single plane, single bit depth, sized to self.
        let mut mask_surface = Surface::new(width, height, 1);

        // Copy self into the mask. Self's context has its background set
        // to the transparent color, so the color-to-monochrome conversion
        // writes 1 exactly where self matches it.
        let copy_op = BlitOp { dx: 0, dy: 0, width, height, sx: 0, sy: 0, rop: SRCCOPY };
        mask_surface.blit(&self.surface, copy_op, c, DEFAULT_BACKGROUND, DEFAULT_TEXT_COLOR);

        // Bring the mask back over self with an exclusive-or. The
        // monochrome-to-color conversion reads self's context colors: its
        // background is the transparent color and its text color is black,
        // so matching pixels get flipped to black and the rest stay.
        let xor_op = BlitOp { dx: 0, dy: 0, width, height, sx: 0, sy: 0, rop: SRCINVERT };
        self.surface.blit(&mask_surface, xor_op, DEFAULT_BACKGROUND, c, DEFAULT_TEXT_COLOR);

        proof {
            assert forall|x: int, y: int|
                0 <= x < old(self).surface.width && 0 <= y < old(self).surface.height
                implies #[trigger] pix(self.surface, x, y) == if pix(old(self).surface, x, y)
                == spec_rgb(color.0, color.1, color.2) {
                0u32
            } else {
                pix(old(self).surface, x, y)
            } by {
                let p = pix(old(self).surface, x, y);
                lemma_xor(p);
                lemma_xor(c);
            }
        }
        Ok(Bitmap { handle: mask_raw, planes: 1, surface: mask_surface })
    }

    /// Turns this bitmap into a transparency mask of `template`, over the
    /// `size.0` by `size.1` region at the origin: the template is copied
    /// in with its context's background set to the transparent color (the
    /// conversion into this bitmap marks the matching pixels), and the
    /// result is brought back over the template with an exclusive-or. The
    /// template is deliberately modified in place by that second step; the
    /// transfer succeeds exactly when the region lies within both bitmaps,
    /// and on failure nothing changes.
    pub fn into_mask(&mut self, template: &mut Bitmap, size: (i32, i32), transparent: (
        u8,
        u8,
        u8,
    )) -> (r: Result<(), ()>)
        requires
            old(self).wf(),
            old(template).wf(),
        ensures
            final(self).wf(),
            final(template).wf(),
            final(self).handle == old(self).handle,
            final(self).planes == old(self).planes,
            final(self).surface.same_shape(&old(self).surface),
            final(template).handle == old(template).handle,
            final(template).planes == old(template).planes,
            final(template).surface.same_shape(&old(template).surface),
            r is Ok <==> {
                &&& 0 <= size.0
                &&& 0 <= size.1
                &&& size.0 <= old(self).surface.width
                &&& size.1 <= old(self).surface.height
                &&& size.0 <= old(template).surface.width
                &&& size.1 <= old(template).surface.height
            },
            r is Err ==> *final(self) == *old(self) && *final(template) == *old(template),
            r is Ok ==> forall|x: int, y: int|
                0 <= x < old(self).surface.width && 0 <= y < old(self).surface.height
                    ==> #[trigger] pix(final(self).surface, x, y) == spec_blit_pixel(
                    old(self).surface,
                    old(template).surface,
                    mask_region(size, SRCCOPY),
                    spec_rgb(transparent.0, transparent.1, transparent.2),
                    DEFAULT_BACKGROUND,
                    DEFAULT_TEXT_COLOR,
                    x,
                    y,
                ),
            r is Ok ==> forall|x: int, y: int|
                0 <= x < old(template).surface.width && 0 <= y < old(template).surface.height
                    ==> #[trigger] pix(final(template).surface, x, y) == spec_blit_pixel(
                    old(template).surface,
                    final(self).surface,
                    mask_region(size, SRCINVERT),
                    DEFAULT_BACKGROUND,
                    spec_rgb(transparent.0, transparent.1, transparent.2),
                    DEFAULT_TEXT_COLOR,
                    x,
                    y,
                ),
    {
        let (size_x, size_y) = size;
        let sw = self.surface.width;
        let sh = self.surface.height;
        let tw = template.surface.width;
        let th = template.surface.height;
        if !(0 <= size_x && 0 <= size_y && size_x as usize <= sw && size_y as usize <= sh && size_x
            as usize <= tw && size_y as usize <= th) {
            return Err(());
        }
        let c = crate::gdi::rgb(transparent.0, transparent.1, transparent.2);
        let copy_op = BlitOp {
            dx: 0,
            dy: 0,
            width: size_x as usize,
            height: size_y as usize,
            sx: 0,
            sy: 0,
            rop: SRCCOPY,
        };
        // The template's context has its background set to the
        // transparent color; it is the source of this first transfer.
        self.surface.blit(&template.surface, copy_op, c, DEFAULT_BACKGROUND, DEFAULT_TEXT_COLOR);
        let xor_op = BlitOp {
            dx: 0,
            dy: 0,
            width: size_x as usize,
            height: size_y as usize,
            sx: 0,
            sy: 0,
            rop: SRCINVERT,
        };
        // Now the template is the destination: its background is still
        // the transparent color, its text color black.
        template.surface.blit(&self.surface, xor_op, DEFAULT_BACKGROUND, c, DEFAULT_TEXT_COLOR);
        Ok(())
    }
}

/// The transfer request the mask derivation issues: the sized region at
/// the origin of both surfaces.
pub open spec fn mask_region(size: (i32, i32), rop: u32) -> BlitOp {
    BlitOp {
        dx: 0,
        dy: 0,
        width: size.0 as usize,
        height: size.1 as usize,
        sx: 0,
        sy: 0,
        rop,
    }
}

/// Exclusive-or facts the mask derivation rests on: a value against
/// itself vanishes, a value against zero stays.
proof fn lemma_xor(x: u32)
    ensures
        (x ^ x) == 0,
        (x ^ 0) == x,
{
    assert((x ^ x) == 0 && (x ^ 0) == x) by (bit_vector);
}

impl Paint for Bitmap {
    fn as_gdi_obj(&self) -> usize {
        self.handle
    }
}

} // verus!
