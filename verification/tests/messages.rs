//! Decoding raw messages into their typed variants and fields.

use winwrap::message::{
    ColorData, CommandData, ListBoxMessage, Message, MouseData, SizeData, TimerData, WM_CLOSE,
    WM_COMMAND, WM_CREATE, WM_DESTROY, WM_INITDIALOG, WM_LBUTTONDOWN, WM_PAINT, WM_SIZE, WM_TIMER,
};
use winwrap::messagebox::Button;

#[test]
fn from_raw_maps_the_known_identifiers() {
    assert!(matches!(Message::from_raw(WM_CREATE, 0, 0), Message::Create));
    assert!(matches!(Message::from_raw(WM_DESTROY, 0, 0), Message::Destroy));
    assert!(matches!(Message::from_raw(WM_CLOSE, 0, 0), Message::Close));
    assert!(matches!(Message::from_raw(WM_PAINT, 0, 0), Message::Paint));
    assert!(matches!(Message::from_raw(WM_INITDIALOG, 0, 0), Message::InitDialog));
    assert!(matches!(Message::from_raw(WM_SIZE, 0, 0), Message::Size(_)));
    assert!(matches!(Message::from_raw(WM_TIMER, 0, 0), Message::Timer(_)));
    assert!(matches!(
        Message::from_raw(WM_LBUTTONDOWN, 0, 0),
        Message::LeftMouseButtonDown(_)
    ));
    assert!(matches!(Message::from_raw(WM_COMMAND, 0, 0), Message::Command(_)));
    assert!(matches!(
        Message::from_raw(0x4242, 3, 4),
        Message::Other { msg: 0x4242, wparam: 3, lparam: 4 }
    ));
}

#[test]
fn size_data_unpacks_width_and_height() {
    // Width in the low word, height in the high word.
    let d = SizeData { wparam: 0, lparam: (480 << 16) | 640 };
    assert_eq!(d.width(), 640);
    assert_eq!(d.height(), 480);
    assert!(d.restored());
    assert!(!d.minimized());
    let d = SizeData { wparam: 1, lparam: 0 };
    assert!(d.minimized());
    let d = SizeData { wparam: 2, lparam: 0 };
    assert!(d.maximized());
    let d = SizeData { wparam: 3, lparam: 0 };
    assert!(d.maximize_show());
    let d = SizeData { wparam: 4, lparam: 0 };
    assert!(d.maximize_hide());
}

#[test]
fn timer_data_reports_the_identifier() {
    let d = TimerData { wparam: 17, lparam: 0 };
    assert_eq!(d.timer_id(), 17);
}

#[test]
fn mouse_data_unpacks_position_and_keys() {
    let d = MouseData { wparam: 0x0008 | 0x0001, lparam: (75 << 16) | 44 };
    assert_eq!(d.x(), 44);
    assert_eq!(d.y(), 75);
    assert!(d.control());
    assert!(d.lmb());
    assert!(!d.shift());
    assert!(!d.rmb());
    assert!(!d.mmb());
    assert!(!d.xbutton1());
    assert!(!d.xbutton2());
}

#[test]
fn command_data_distinguishes_menu_accelerator_and_control() {
    // A menu source: no control handle, high word zero.
    let menu = CommandData { wparam: 35, lparam: 0 };
    assert_eq!(menu.menu_id(), Some(35));
    assert_eq!(menu.accelerator_id(), None);
    assert!(menu.control_data().is_none());

    // An accelerator source: high word one.
    let accel = CommandData { wparam: (1 << 16) | 36, lparam: 0 };
    assert_eq!(accel.menu_id(), None);
    assert_eq!(accel.accelerator_id(), Some(36));

    // A control source carries its window handle.
    let control = CommandData { wparam: (3 << 16) | 37, lparam: 0x1234 };
    assert_eq!(control.menu_id(), None);
    assert_eq!(control.accelerator_id(), None);
    let data = control.control_data().expect("a control handle is present");
    assert_eq!(data.code, 3);
    assert_eq!(data.id, 37);
    assert_eq!(data.window.value(), 0x1234);
}

#[test]
fn control_data_recognizes_standard_buttons() {
    let control = CommandData { wparam: 1, lparam: 0x10 };
    let data = control.control_data().unwrap();
    assert_eq!(data.std_button(), Some(Button::Okay));

    let other = CommandData { wparam: 12345, lparam: 0x10 };
    assert_eq!(other.control_data().unwrap().std_button(), None);
}

#[test]
fn control_data_reads_list_box_codes() {
    let sel = CommandData { wparam: (1 << 16) | 9, lparam: 0x10 };
    assert!(matches!(
        sel.control_data().unwrap().list_box_code(),
        ListBoxMessage::SelectionChange
    ));
    let other = CommandData { wparam: (7 << 16) | 9, lparam: 0x10 };
    assert!(matches!(
        other.control_data().unwrap().list_box_code(),
        ListBoxMessage::Other { code: 7 }
    ));
}

#[test]
fn color_data_outcomes() {
    let d = ColorData { wparam: 0x77, lparam: 0 };
    assert_eq!(d.hdc(), 0x77);

    // The previous text color decodes by channel; the failure word is an
    // opaque error.
    assert_eq!(ColorData::text_color_outcome(0x0056_3412), Ok((0x12, 0x34, 0x56)));
    assert_eq!(ColorData::text_color_outcome(0xFFFF_FFFF), Err(()));

    assert_eq!(ColorData::background_mode_value(true), 1);
    assert_eq!(ColorData::background_mode_value(false), 2);
    assert_eq!(ColorData::background_mode_outcome(1), Ok(true));
    assert_eq!(ColorData::background_mode_outcome(2), Ok(false));
    assert_eq!(ColorData::background_mode_outcome(0), Err(()));
}

#[test]
fn list_box_message_from_raw() {
    assert!(matches!(ListBoxMessage::from_raw(1), ListBoxMessage::SelectionChange));
    assert!(matches!(ListBoxMessage::from_raw(2), ListBoxMessage::Other { code: 2 }));
}
