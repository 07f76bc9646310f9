//! Handles, rectangles, classes, cursors, icons, message boxes, and the
//! paint session.

use winwrap::class::{build as class_build, Background, Class, Style as ClassStyle};
use winwrap::cursor::Cursor;
use winwrap::gdi::bitmap;
use winwrap::icon::Icon;
use winwrap::window::{ExtendedStyle, Show, Style};
use winwrap::messagebox::{combine, message_box_outcome, Button, Config};
use winwrap::paint::Paint;
use winwrap::rect::Rect;
use winwrap::window::Window;
use winwrap::{check_release, non_null_or_err, ok_or_last_err, ReleaseVerdict};

#[test]
fn non_null_or_err_accepts_live_handles_only() {
    let handle = non_null_or_err(0x500, 0).unwrap();
    assert_eq!(handle.value(), 0x500);
    let err = non_null_or_err(0, 1234).unwrap_err();
    assert_eq!(err.code(), 1234);
}

#[test]
fn ok_or_last_err_checks_the_boolean_result() {
    assert!(ok_or_last_err(1, 0).is_ok());
    assert!(ok_or_last_err(-1, 0).is_ok());
    assert_eq!(ok_or_last_err(0, 77).unwrap_err().code(), 77);
}

#[test]
fn check_release_never_ignores_a_failed_release() {
    assert_eq!(check_release(0), ReleaseVerdict::Fatal);
    assert_eq!(check_release(1), ReleaseVerdict::Released);
    assert_eq!(check_release(-1), ReleaseVerdict::Released);
}

#[test]
fn rect_geometry() {
    let r = Rect::new(10, 20);
    assert_eq!((r.left(), r.top(), r.right(), r.bottom()), (0, 0, 10, 20));
    assert_eq!((r.x(), r.y()), (0, 0));
    assert_eq!((r.width(), r.height()), (10, 20));

    let moved = r.at(5, 6);
    assert_eq!((moved.left(), moved.top(), moved.right(), moved.bottom()), (5, 6, 15, 26));
    assert_eq!((moved.width(), moved.height()), (10, 20));

    let resized = moved.sized(4, 3);
    assert_eq!((resized.left(), resized.top(), resized.right(), resized.bottom()), (5, 6, 9, 9));

    // Negative sizes make the sides switch positions.
    let flipped = moved.sized(-4, -3);
    assert_eq!((flipped.left(), flipped.top(), flipped.right(), flipped.bottom()), (1, 3, 5, 6));

    let grown = moved.resized_by(2, -25);
    assert_eq!((grown.left(), grown.top(), grown.right(), grown.bottom()), (5, 1, 17, 6));
}

#[test]
fn class_registration_and_system_classes() {
    let b = class_build();
    assert_eq!(b.background, 5);
    let b = b.add_style(ClassStyle::HorizontalRedraw).add_style(ClassStyle::VerticalRedraw);
    assert_eq!(b.style, 3);
    let b = b.background(Background::Face3D).menu(3);
    assert_eq!(b.background, 16);
    assert_eq!(b.menu, Some(3));

    match b.register(String::from("main"), 0, 55) {
        Err(e) => assert_eq!(e.code(), 55),
        Ok(_) => panic!("a zero atom cannot register"),
    }
    let b = class_build();
    let class = b.register(String::from("main"), 42, 0).unwrap();
    assert_eq!(class.atom(), Some(42));
    assert!(class.release_action());

    let listbox = winwrap::class::list_box();
    assert_eq!(listbox.atom(), None);
    assert!(!listbox.release_action());
    assert!(matches!(listbox, Class::Static { class_name: "ListBox" }));
}

#[test]
fn cursor_ordinals() {
    assert_eq!(Cursor::Arrow.value(), 32512);
    assert_eq!(Cursor::Ibeam.value(), 32513);
    assert_eq!(Cursor::Wait.value(), 32514);
    assert_eq!(Cursor::No.value(), 32648);
    assert_eq!(Cursor::Hand.value(), 32649);
    assert_eq!(Cursor::SizeAll.value(), 32646);
}

#[test]
fn icon_ordinals_and_files() {
    assert_eq!(Icon::Application.value(), Some(32512));
    assert_eq!(Icon::Warning.value(), Some(32515));
    assert_eq!(Icon::Shield.value(), Some(32518));
    assert_eq!(Icon::FromResource(9).value(), Some(9));
    assert!(Icon::FromResource(9).from_own_module());
    let icon = Icon::from_file(String::from("logo.ico"));
    assert_eq!(icon.value(), None);
    assert!(!icon.from_own_module());
}

#[test]
fn message_box_flags_fold_together() {
    assert_eq!(combine(&[]), 0);
    assert_eq!(combine(&[Config::OkCancel, Config::IconError]), 0x11);
    assert_eq!(
        combine(&[Config::YesNo, Config::IconQuestion, Config::DefaultButton2]),
        0x124
    );
}

#[test]
fn message_box_result_decodes_buttons() {
    assert_eq!(Button::from_id(1), Ok(Some(Button::Okay)));
    assert_eq!(Button::from_id(7), Ok(Some(Button::No)));
    assert_eq!(Button::from_id(11), Ok(Some(Button::Continue)));
    assert_eq!(Button::from_id(99), Err(()));
    assert_eq!(Button::Yes.id(), 6);

    assert_eq!(message_box_outcome(0, 9).unwrap_err().code(), 9);
    assert_eq!(message_box_outcome(2, 0).unwrap(), Button::Cancel);
}

#[test]
fn paint_session_draws_and_transfers() {
    let window = Window::Borrowed { hwnd: 600 };
    assert!(Paint::new(&window, 0, 4, 4).is_err());
    let mut paint = Paint::new(&window, 601, 4, 4).unwrap();
    assert_eq!(paint.window, 600);

    // Fill the top-left 2x2 corner.
    let brush = winwrap::gdi::brush::Brush { handle: 602, stock: false, color: 0xABCD };
    assert!(paint.fill_rect((0, 0, 2, 2), brush).is_ok());
    assert_eq!(paint.surface.get_pixel(0, 0), 0xABCD);
    assert_eq!(paint.surface.get_pixel(1, 1), 0xABCD);
    assert_eq!(paint.surface.get_pixel(2, 2), 0);

    // Copy a bitmap into the bottom-right corner.
    let mut bmp = bitmap::new(603, 2, 2, 1, 32).unwrap();
    bmp.surface.set_pixel(0, 0, 7);
    bmp.surface.set_pixel(1, 0, 8);
    bmp.surface.set_pixel(0, 1, 9);
    bmp.surface.set_pixel(1, 1, 10);
    assert!(paint.copy_bitmap_to_rect(2, 2, 2, 2, &bmp, 0, 0).is_ok());
    assert_eq!(paint.surface.get_pixel(2, 2), 7);
    assert_eq!(paint.surface.get_pixel(3, 3), 10);
    assert_eq!(paint.surface.get_pixel(0, 0), 0xABCD);

    // An OR over the same corner keeps existing bits.
    assert!(paint.paint_bitmap_to_rect(2, 2, 2, 2, &bmp, 0, 0).is_ok());
    assert_eq!(paint.surface.get_pixel(2, 2), 7);

    // An AND with an all-zero bitmap clears the corner.
    let zeros = bitmap::new(604, 2, 2, 1, 32).unwrap();
    assert!(paint.and_bitmap_to_rect(2, 2, 2, 2, &zeros, 0, 0).is_ok());
    assert_eq!(paint.surface.get_pixel(2, 2), 0);
    assert_eq!(paint.surface.get_pixel(3, 3), 0);

    // Out-of-bounds requests fail and change nothing.
    assert!(paint.copy_bitmap_to_rect(3, 3, 2, 2, &bmp, 0, 0).is_err());
    assert!(paint.copy_bitmap_to_rect(0, 0, 2, 2, &bmp, 1, 1).is_err());
    assert_eq!(paint.surface.get_pixel(0, 0), 0xABCD);
}

#[test]
fn window_styles_carry_their_flag_words() {
    assert_eq!(Style::Visible.value(), 0x1000_0000);
    assert_eq!(Style::OverlappedWindow.value(), 0x00CF_0000);
    assert_eq!(Style::Child.value(), 0x4000_0000);
    assert_eq!(ExtendedStyle::ClientEdge.value(), 0x200);
    assert_eq!(ExtendedStyle::OverlappedWindow.value(), 0x300);
    assert_eq!(Show::Hide.value(), 0);
    assert_eq!(Show::Show.value(), 5);
    assert_eq!(Show::ShowDefault.value(), 10);
}
