//! The callback registry, the trampoline routing, and window creation's
//! sentinel-then-migrate protocol.

use winwrap::class::wnd_proc_wrapper;
use winwrap::message::{WM_CREATE, WM_INITDIALOG, WM_NCDESTROY, WM_PAINT};
use winwrap::registry::Registry;
use winwrap::window::{build, dlg_proc_enter, dlg_proc_exit, ExtendedStyle, Style, Window, CW_USEDEFAULT};

fn cb_one() -> i32 {
    1
}

fn cb_two() -> i32 {
    2
}

#[test]
fn sentinel_reaches_the_pending_callback() {
    let mut reg: Registry<fn() -> i32> = Registry::new();
    reg.register_pending(cb_one);

    // A message delivered during creation, before the real handle is
    // registered, reaches the pending callback through the sentinel.
    let early = wnd_proc_wrapper(&reg, 700).expect("the sentinel must catch it");
    assert_eq!(early(), 1);

    // After migration the same handle reaches the same callback.
    reg.migrate_pending(700);
    let late = wnd_proc_wrapper(&reg, 700).expect("the real key must match");
    assert_eq!(late(), 1);
}

#[test]
fn distinct_windows_never_cross_deliver() {
    let mut reg: Registry<fn() -> i32> = Registry::new();
    reg.insert(701, cb_one);
    reg.insert(702, cb_two);
    assert_eq!(wnd_proc_wrapper(&reg, 701).unwrap()(), 1);
    assert_eq!(wnd_proc_wrapper(&reg, 702).unwrap()(), 2);
    assert!(wnd_proc_wrapper(&reg, 703).is_none());
}

#[test]
fn null_handle_is_never_routed() {
    let mut reg: Registry<u64> = Registry::new();
    reg.register_pending(9);
    assert_eq!(wnd_proc_wrapper(&reg, 0), None);
}

#[test]
fn create_migrates_the_sentinel_to_the_real_handle() {
    let mut reg: Registry<u64> = Registry::new();
    let builder = build::<u64>().set_message_callback(40);

    builder.begin_create(&mut reg);
    // Creation is in flight: a synchronously delivered message finds the
    // callback through the sentinel.
    assert_eq!(wnd_proc_wrapper(&reg, 800), Some(40));

    let window = builder.finish_create(&mut reg, 800, 0).unwrap();
    assert_eq!(window.hwnd(), 800);
    assert!(matches!(window, Window::Owned { .. }));

    // The registration now sits under the real handle only.
    assert_eq!(wnd_proc_wrapper(&reg, 800), Some(40));
    assert!(!reg.contains(0));
}

#[test]
fn failed_create_drops_the_pending_registration() {
    let mut reg: Registry<u64> = Registry::new();
    let builder = build::<u64>().set_message_callback(41);
    builder.begin_create(&mut reg);
    let err = builder.finish_create(&mut reg, 0, 87).unwrap_err();
    assert_eq!(err.code(), 87);
    assert!(!reg.contains(0));
    assert!(wnd_proc_wrapper(&reg, 801).is_none());
}

#[test]
fn create_with_parent_yields_a_borrowed_window() {
    let mut reg: Registry<u64> = Registry::new();
    let parent = Window::Borrowed { hwnd: 900 };
    let builder = build::<u64>().parent(&parent);
    builder.begin_create(&mut reg);
    let child = builder.finish_create(&mut reg, 901, 0).unwrap();
    assert!(matches!(child, Window::Borrowed { hwnd: 901 }));
    // No callback was configured, so nothing is registered.
    assert!(wnd_proc_wrapper(&reg, 901).is_none());
}

#[test]
fn builder_accumulates_configuration() {
    let b = build::<u64>();
    assert_eq!(b.style, 0);
    assert_eq!(b.x, CW_USEDEFAULT);
    let b = b
        .add_style(Style::Visible)
        .add_style(Style::Border)
        .add_extended_style(ExtendedStyle::TopMost)
        .pos(10, 20)
        .size(300, 200)
        .set_child_id(7);
    assert_eq!(b.style, 0x1080_0000 | 0x4000_0000);
    assert_eq!(b.extended_style, 8);
    assert_eq!((b.x, b.y, b.width, b.height), (10, 20, 300, 200));
    assert_eq!(b.menu, 7);
}

#[test]
fn dialog_trampoline_migrates_and_cleans_up() {
    let mut reg: Registry<u64> = Registry::new();
    reg.register_pending(55);

    // The initialization message migrates the pending registration and
    // routes to it.
    assert_eq!(dlg_proc_enter(&mut reg, 950, WM_INITDIALOG), Some(55));
    dlg_proc_exit(&mut reg, 950, WM_INITDIALOG);
    assert!(reg.contains(950));
    assert!(!reg.contains(0));

    // An ordinary message routes to the registered handle and leaves the
    // registry alone.
    assert_eq!(dlg_proc_enter(&mut reg, 950, WM_PAINT), Some(55));
    dlg_proc_exit(&mut reg, 950, WM_PAINT);
    assert!(reg.contains(950));

    // A message for an unknown dialog goes to default processing.
    assert_eq!(dlg_proc_enter(&mut reg, 951, WM_CREATE), None);

    // The terminal destruction message removes the registration.
    assert_eq!(dlg_proc_enter(&mut reg, 950, WM_NCDESTROY), Some(55));
    dlg_proc_exit(&mut reg, 950, WM_NCDESTROY);
    assert!(!reg.contains(950));
}

#[test]
fn registry_insert_replaces_and_remove_clears() {
    let mut reg: Registry<u64> = Registry::new();
    reg.insert(5, 1);
    reg.insert(5, 2);
    assert_eq!(reg.get(5), Some(2));
    reg.remove(5);
    assert_eq!(reg.get(5), None);
    reg.register_pending(3);
    reg.cancel_pending();
    assert!(!reg.contains(0));
}

#[test]
fn window_release_destroys_owned_only() {
    let owned = Window::Owned { hwnd: 77 };
    let borrowed = Window::Borrowed { hwnd: 78 };
    assert_eq!(owned.release_action(), Some(77));
    assert_eq!(borrowed.release_action(), None);
}

#[test]
fn window_outcome_decisions() {
    // A modal dialog that failed reports the last-error code; otherwise
    // the value it ended with comes through.
    assert_eq!(Window::show_dialog_outcome(-1, 6).unwrap_err().code(), 6);
    assert_eq!(Window::show_dialog_outcome(9, 0).unwrap(), 9);

    // Ownerless modal dialogs accept a zero result.
    assert_eq!(winwrap::dialog::show_outcome(0, 0).unwrap(), 0);
    assert_eq!(winwrap::dialog::show_outcome(-1, 3).unwrap_err().code(), 3);

    // A modeless dialog's creation result becomes a borrowed window.
    let w = Window::create_dialog_outcome(444, 0).unwrap();
    assert!(matches!(w, Window::Borrowed { hwnd: 444 }));
    assert_eq!(Window::create_dialog_outcome(0, 5).unwrap_err().code(), 5);

    // The client rectangle's corners become origin and size.
    let r = Window::get_rect_outcome(1, 0, 3, 4, 13, 24).unwrap();
    assert_eq!(r, (3, 4, 10, 20));
    assert_eq!(Window::get_rect_outcome(0, 8, 0, 0, 0, 0).unwrap_err().code(), 8);
}
