//! Pixel-level behavior of canvases, bitmaps and brushes.

use winwrap::gdi::bitmap;
use winwrap::gdi::brush;
use winwrap::gdi::canvas::{Canvas, Mode, Selection, TeardownStep};
use winwrap::gdi::surface::Surface;
use winwrap::window::Window;
use winwrap::gdi::rgb;
use winwrap::rect::Rect;
use winwrap::ReleaseVerdict;

fn must<T, E>(r: Result<T, E>) -> T {
    match r {
        Ok(v) => v,
        Err(_) => panic!("unexpected failure"),
    }
}

/// A 2x2 color bitmap bound into an owned canvas, with the given pixels
/// in row-major order.
fn canvas_2x2(dc_raw: usize, bmp_raw: usize, pixels: [u32; 4]) -> Canvas {
    let canvas = must(Canvas::from_current_screen(dc_raw));
    let mut bmp = must(bitmap::new(bmp_raw, 2, 2, 1, 32));
    bmp.surface.set_pixel(0, 0, pixels[0]);
    bmp.surface.set_pixel(1, 0, pixels[1]);
    bmp.surface.set_pixel(0, 1, pixels[2]);
    bmp.surface.set_pixel(1, 1, pixels[3]);
    let (canvas, prev) = must(canvas.bind(bmp));
    assert!(prev.is_none());
    canvas
}

fn active_pixels(canvas: &Canvas) -> [u32; 4] {
    match &canvas.selection {
        Selection::Custom { bitmap, .. } => [
            bitmap.surface.get_pixel(0, 0),
            bitmap.surface.get_pixel(1, 0),
            bitmap.surface.get_pixel(0, 1),
            bitmap.surface.get_pixel(1, 1),
        ],
        Selection::Default => panic!("no custom binding"),
    }
}

#[test]
fn bitblt_and_of_ones_into_zeros_is_zeros() {
    let mut dest = canvas_2x2(1, 2, [0, 0, 0, 0]);
    let src = canvas_2x2(3, 4, [u32::MAX; 4]);
    must(dest.bitwise().and(&mut dest, &src));
    assert_eq!(active_pixels(&dest), [0, 0, 0, 0]);
}

#[test]
fn bitblt_or_of_ones_into_zeros_is_ones() {
    let mut dest = canvas_2x2(1, 2, [0, 0, 0, 0]);
    let src = canvas_2x2(3, 4, [u32::MAX; 4]);
    must(dest.bitwise().or(&mut dest, &src));
    assert_eq!(active_pixels(&dest), [u32::MAX; 4]);
}

#[test]
fn bitblt_set_of_ones_into_zeros_is_ones() {
    let mut dest = canvas_2x2(1, 2, [0, 0, 0, 0]);
    let src = canvas_2x2(3, 4, [u32::MAX; 4]);
    must(dest.bitwise().set(&mut dest, &src));
    assert_eq!(active_pixels(&dest), [u32::MAX; 4]);
}

#[test]
fn bitblt_xor_toggles() {
    let mut dest = canvas_2x2(1, 2, [0, u32::MAX, 0b1100, 0]);
    let src = canvas_2x2(3, 4, [u32::MAX, u32::MAX, 0b1010, 0]);
    must(dest.bitwise().xor(&mut dest, &src));
    assert_eq!(active_pixels(&dest), [u32::MAX, 0, 0b0110, 0]);
    // A second XOR with the same source restores the original pixels.
    let again = dest.bitwise();
    must(again.xor(&mut dest, &src));
    assert_eq!(active_pixels(&dest), [0, u32::MAX, 0b1100, 0]);
}

#[test]
fn bitblt_bitwise_patterns() {
    let mut dest = canvas_2x2(1, 2, [0b1100, 0b1100, 0b1100, 0b1100]);
    let src = canvas_2x2(3, 4, [0b1010, 0b1010, 0b1010, 0b1010]);
    must(dest.bitwise().and(&mut dest, &src));
    assert_eq!(active_pixels(&dest), [0b1000; 4]);
}

#[test]
fn bitblt_region_out_of_bounds_fails_and_changes_nothing() {
    let mut dest = canvas_2x2(1, 2, [7, 7, 7, 7]);
    let src = canvas_2x2(3, 4, [1, 1, 1, 1]);
    let op = dest.bitwise().region(Rect::new(3, 2));
    assert!(op.set(&mut dest, &src).is_err());
    assert_eq!(active_pixels(&dest), [7, 7, 7, 7]);
    let op = dest.bitwise().offset_source(1, 0);
    assert!(op.set(&mut dest, &src).is_err());
    assert_eq!(active_pixels(&dest), [7, 7, 7, 7]);
}

#[test]
fn bitblt_partial_region() {
    let mut dest = canvas_2x2(1, 2, [5, 5, 5, 5]);
    let src = canvas_2x2(3, 4, [9, 8, 7, 6]);
    // Copy only the left column.
    let op = dest.bitwise().region(Rect::new(1, 2));
    must(op.set(&mut dest, &src));
    assert_eq!(active_pixels(&dest), [9, 5, 7, 5]);
}

#[test]
fn fill_rect_paints_the_rectangle_only() {
    let mut dest = canvas_2x2(1, 2, [3, 3, 3, 3]);
    let b = brush::Brush { handle: 9, stock: false, color: 0x123456 };
    assert!(dest.fill_rect(Rect::new(1, 2), b).is_ok());
    assert_eq!(active_pixels(&dest), [0x123456, 3, 0x123456, 3]);
}

#[test]
fn fill_rect_out_of_bounds_fails() {
    let mut dest = canvas_2x2(1, 2, [3, 3, 3, 3]);
    let b = brush::Brush { handle: 9, stock: false, color: 1 };
    assert!(dest.fill_rect(Rect::new(5, 1), b).is_err());
    assert_eq!(active_pixels(&dest), [3, 3, 3, 3]);
}

#[test]
fn mask_derivation_checkerboard_round_trip() {
    let c = rgb(1, 2, 3);
    let d = rgb(9, 9, 9);
    let mut bmp = must(bitmap::new(11, 2, 2, 1, 32));
    bmp.surface.set_pixel(0, 0, c);
    bmp.surface.set_pixel(1, 0, d);
    bmp.surface.set_pixel(0, 1, d);
    bmp.surface.set_pixel(1, 1, c);

    let mask = must(bmp.set_color_transparent(12, (1, 2, 3)));

    // The mask is monochrome, keeps the dimensions, and its set bits are
    // exactly the positions that held the transparent color.
    assert_eq!(mask.surface.width, 2);
    assert_eq!(mask.surface.height, 2);
    assert_eq!(mask.surface.bits_per_pixel, 1);
    assert_eq!(mask.surface.get_pixel(0, 0), 1);
    assert_eq!(mask.surface.get_pixel(1, 0), 0);
    assert_eq!(mask.surface.get_pixel(0, 1), 0);
    assert_eq!(mask.surface.get_pixel(1, 1), 1);

    // The source had its transparent pixels zeroed in place and kept the
    // rest, at unchanged dimensions.
    assert_eq!(bmp.surface.width, 2);
    assert_eq!(bmp.surface.height, 2);
    assert_eq!(bmp.surface.get_pixel(0, 0), 0);
    assert_eq!(bmp.surface.get_pixel(1, 0), d);
    assert_eq!(bmp.surface.get_pixel(0, 1), d);
    assert_eq!(bmp.surface.get_pixel(1, 1), 0);
}

#[test]
fn single_binding_rebind_and_restore() {
    let canvas = must(Canvas::from_current_screen(21));
    let a = must(bitmap::new(22, 1, 1, 1, 32));
    let b = must(bitmap::new(23, 1, 1, 1, 32));

    // Bind A: nothing was bound before.
    let (canvas, prev) = must(canvas.bind(a));
    assert!(prev.is_none());

    // Rebind B over A: A comes back to the caller, usable again.
    let (canvas, prev) = must(canvas.bind(b));
    let a = prev.expect("the first bitmap must be handed back");
    assert_eq!(a.handle, 22);

    // The capture to restore is still the context's own default object,
    // never an intermediate bitmap.
    match &canvas.selection {
        Selection::Custom { dc_object, bitmap } => {
            assert_eq!(*dc_object, 21);
            assert_eq!(bitmap.handle, 23);
        }
        Selection::Default => panic!("a custom object must be bound"),
    }

    // Restoring the default hands B back and shows the default selection.
    let (canvas, prev) = must(canvas.bind_default());
    assert_eq!(prev.expect("the second bitmap must be handed back").handle, 23);
    assert!(matches!(canvas.selection, Selection::Default));
}

#[test]
fn restore_runs_strictly_before_release() {
    let canvas = must(Canvas::from_current_screen(31));
    let bmp = must(bitmap::new(32, 1, 1, 1, 32));
    let (canvas, _) = must(canvas.bind(bmp));

    let (returned, steps) = canvas.release();
    assert_eq!(returned.expect("the bound bitmap comes back").handle, 32);

    // Walk the plan as the embedding application would, recording order.
    let mut order = Vec::new();
    for step in steps.iter() {
        match step {
            TeardownStep::RestoreObject { object } => {
                assert_eq!(*object, 31);
                order.push("restore");
            }
            TeardownStep::DeleteDc { dc } => {
                assert_eq!(*dc, 31);
                order.push("release");
            }
            TeardownStep::EndPaint { .. } | TeardownStep::ReleaseDc { .. } => {
                order.push("release");
            }
        }
    }
    assert_eq!(order, vec!["restore", "release"]);
}

#[test]
fn release_without_binding_skips_the_restore() {
    let canvas = must(Canvas::from_current_screen(41));
    let (returned, steps) = canvas.release();
    assert!(returned.is_none());
    assert_eq!(steps.len(), 1);
    assert!(matches!(steps[0], TeardownStep::DeleteDc { dc: 41 }));
}

#[test]
fn stock_brush_is_never_destroyed() {
    let stock = brush::white(51).unwrap();
    assert!(stock.stock);
    assert_eq!(stock.color, 0x00FF_FFFF);
    assert_eq!(stock.release_action(), None);

    let gray = brush::light_gray(52).unwrap();
    assert_eq!(gray.color, 0x00C0_C0C0);
    assert_eq!(gray.release_action(), None);

    let owned = brush::Brush::new_solid_rgb(53, 1, 2, 3).unwrap();
    assert!(!owned.stock);
    assert_eq!(owned.color, rgb(1, 2, 3));
    assert_eq!(owned.release_action(), Some(53));
}

#[test]
fn acquisition_failure_is_recoverable_invariant_violation_is_fatal() {
    // Loading a bitmap from a path the platform rejected: the null handle
    // becomes an ordinary error carrying the last-error code, and the
    // process goes on.
    match bitmap::from_file(0, 2, 4, 4, 1, 32) {
        Err(e) => assert_eq!(e.code(), 2),
        Ok(_) => panic!("a null handle cannot load"),
    }

    // A destroy call the platform refused (an object still selected into
    // a context, or already invalid) is a fatal invariant violation,
    // never a silent no-op.
    assert_eq!(winwrap::check_release(0), ReleaseVerdict::Fatal);
    assert_eq!(winwrap::check_release(1), ReleaseVerdict::Released);
}

#[test]
fn bitmap_info_reports_shape_and_stride() {
    let bmp = must(bitmap::new(61, 3, 5, 1, 32));
    let info = must(bmp.info());
    assert_eq!(info.width, 3);
    assert_eq!(info.height, 5);
    assert_eq!(info.planes, 1);
    assert_eq!(info.bits_per_pixel, 32);
    // Word-aligned: 3 pixels of 32 bits are 96 bits; 96/16 words of two
    // bytes each give 12 bytes a scan line.
    assert_eq!(info.stride, 12);

    let mono = must(bitmap::new(62, 2, 2, 1, 1));
    assert_eq!(must(mono.info()).stride, 2);
}

#[test]
fn canvas_constructors_check_the_raw_handle() {
    assert!(Canvas::from_current_screen(0).is_err());
    assert!(bitmap::new(0, 1, 1, 1, 32).is_err());
    assert!(brush::Brush::new_solid_rgb(0, 1, 1, 1).is_none());
    assert!(brush::white(0).is_err());

    let canvas = must(Canvas::from_current_screen(9));
    assert!(canvas.try_clone(0).is_err());
    let clone = must(canvas.try_clone(10));
    assert_eq!(clone.hdc, 10);
    assert!(canvas.create_bitmap(0, 4, 4).is_err());
    let bmp = must(canvas.create_bitmap(11, 4, 4));
    assert_eq!(bmp.surface.bits_per_pixel, 1);
}

#[test]
fn canvas_reports_the_bound_surface_size() {
    let canvas = must(Canvas::from_current_screen(71));
    assert_eq!(canvas.width(), 1);
    assert_eq!(canvas.height(), 1);
    let bmp = must(bitmap::new(72, 6, 4, 1, 32));
    let (canvas, _) = must(canvas.bind(bmp));
    assert_eq!(canvas.width(), 6);
    assert_eq!(canvas.height(), 4);
    let bw = canvas.bitwise();
    assert_eq!(bw.rect.right, 6);
    assert_eq!(bw.rect.bottom, 4);
    assert_eq!((bw.src_x, bw.src_y), (0, 0));
}

#[test]
fn set_background_records_the_color() {
    let mut canvas = must(Canvas::from_current_screen(81));
    assert!(canvas.set_background((5, 6, 7)).is_ok());
    assert_eq!(canvas.background, rgb(5, 6, 7));
}

#[test]
fn rgb_packs_red_in_the_low_byte() {
    assert_eq!(rgb(0, 0, 0), 0);
    assert_eq!(rgb(255, 255, 255), 0x00FF_FFFF);
    assert_eq!(rgb(0x12, 0x34, 0x56), 0x0056_3412);
}

#[test]
fn into_mask_marks_matches_and_blacks_out_the_template() {
    let c = rgb(4, 5, 6);
    let d = rgb(1, 1, 1);
    let mut template = must(bitmap::new(91, 2, 2, 1, 32));
    template.surface.set_pixel(0, 0, c);
    template.surface.set_pixel(1, 0, d);
    template.surface.set_pixel(0, 1, c);
    template.surface.set_pixel(1, 1, d);
    let mut mask = must(bitmap::new(92, 2, 2, 1, 1));

    must(mask.into_mask(&mut template, (2, 2), (4, 5, 6)));

    assert_eq!(mask.surface.get_pixel(0, 0), 1);
    assert_eq!(mask.surface.get_pixel(1, 0), 0);
    assert_eq!(mask.surface.get_pixel(0, 1), 1);
    assert_eq!(mask.surface.get_pixel(1, 1), 0);
    // The template is deliberately modified in place: matching pixels
    // are zeroed, the rest stay.
    assert_eq!(template.surface.get_pixel(0, 0), 0);
    assert_eq!(template.surface.get_pixel(1, 0), d);
    assert_eq!(template.surface.get_pixel(0, 1), 0);
    assert_eq!(template.surface.get_pixel(1, 1), d);

    // A region larger than either bitmap is refused and changes nothing.
    assert!(mask.into_mask(&mut template, (3, 2), (4, 5, 6)).is_err());
    assert!(mask.into_mask(&mut template, (-1, 2), (4, 5, 6)).is_err());
    assert_eq!(template.surface.get_pixel(1, 0), d);
}

#[test]
fn bitmap_load_wraps_the_reported_shape() {
    let bmp = must(bitmap::load(95, 8, 4, 1, 24));
    assert_eq!(bmp.handle, 95);
    assert_eq!(bmp.surface.width, 8);
    assert_eq!(bmp.surface.height, 4);
    assert_eq!(bmp.surface.bits_per_pixel, 24);
    assert!(bitmap::load(0, 8, 4, 1, 24).is_err());
}

#[test]
fn release_follows_the_acquisition_mode() {
    let window = Window::Borrowed { hwnd: 150 };
    let paint_canvas = must(Canvas::from_window(&window, 151));
    let (_, steps) = paint_canvas.release();
    assert_eq!(steps.len(), 1);
    assert!(matches!(steps[0], TeardownStep::EndPaint { window: 150 }));

    let borrowed = must(Canvas::from_window_settings(&window, 152));
    let (_, steps) = borrowed.release();
    assert!(matches!(steps[0], TeardownStep::ReleaseDc { window: 150 }));

    // A moved-from canvas performs no cleanup at all.
    let moved = Canvas {
        hdc: 153,
        default_object: 153,
        mode: Mode::Moved,
        selection: Selection::Default,
        default_surface: Surface::new(1, 1, 1),
        background: 0x00FF_FFFF,
        text_color: 0,
    };
    let (returned, steps) = moved.release();
    assert!(returned.is_none());
    assert!(steps.is_empty());
}
