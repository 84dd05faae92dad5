use beagle_config::action::Action;
use beagle_config::components::views::pinout::{load_pin_data, PinColor, PinInfo, PinOut, PinType, SelectedTable};
use beagle_config::components::views::ViewComponent;
use beagle_config::input::{KeyCode, KeyEvent};

fn press(code: KeyCode) -> KeyEvent {
    KeyEvent::press(code)
}

#[test]
fn pin_data_covers_the_header() {
    let pins = load_pin_data();
    assert_eq!(pins.len(), 40);
    let numbers: Vec<u16> = pins.iter().map(|p| p.number).collect();
    let expected: Vec<u16> = (0..20).map(|k| 2 * k + 1).chain((0..20).map(|k| 2 * k + 2)).collect();
    assert_eq!(numbers, expected);
    assert_eq!(pins[0].name, "3v3 Power");
    assert_eq!(pins[0].note.as_deref(), Some("Shared rail - 500mA usable"));
    assert_eq!(pins[39].function, "PCM DOUT");
    assert_eq!(pins.iter().filter(|p| p.pin_type == PinType::Ground).count(), 8);
}

#[test]
fn pin_info_helpers() {
    let e = PinInfo::empty();
    assert_eq!((e.number, e.pin_type), (0, PinType::Ground));
    assert_eq!(e.type_color(), PinColor::White);
    let pins = load_pin_data();
    assert_eq!(pins[1].ref_info(), (3, "GPIO 2", PinColor::Sky));
}

#[test]
fn tables_split_odd_and_even() {
    let v = PinOut::init();
    assert_eq!(v.title(), "pinout");
    let left = v.table_rows(true);
    assert_eq!(left.len(), 20);
    assert_eq!(left[0].name_text, " 3v3 Power");
    assert_eq!(left[0].number_text, "1");
    assert_eq!(left[19].number_text, "39");
    let right = v.table_rows(false);
    assert_eq!(right[0].name_text, "5v Power");
    assert_eq!(right[0].color, PinColor::Red);
    assert_eq!(right[19].number_text, "40");
    assert_eq!(v.left_items().len(), 20);
    assert!(v.right_items().iter().all(|r| r.number % 2 == 0));
}

#[test]
fn navigation_wraps_over_all_pins() {
    let mut v = PinOut::init();
    assert_eq!(v.selected_pin(), Some(0));
    let d = v.details(0);
    assert_eq!(d.number_text, "1");
    assert_eq!(d.kind_label, "Power3v3");
    assert_eq!(d.color, PinColor::Amber);
    v.handle_key_events(press(KeyCode::Char('k')));
    assert_eq!(v.state_l.selected, Some(39));
    assert_eq!(v.selected_pin(), None);
    v.handle_key_events(press(KeyCode::Down));
    assert_eq!(v.state_l.selected, Some(0));
    v.handle_key_events(press(KeyCode::Char('j')));
    assert_eq!(v.selected_pin(), Some(1));
    v.handle_key_events(press(KeyCode::Right));
    assert_eq!(v.selected_table, SelectedTable::Right);
    assert_eq!(v.state_r.selected, Some(1));
    assert_eq!(v.state_l.selected, None);
    assert_eq!(v.selected_pin(), Some(21));
    assert_eq!(v.details(21).name, "5v Power");
    v.handle_key_events(press(KeyCode::Char('h')));
    assert_eq!(v.state_l.selected, Some(1));
    assert_eq!(v.state_r.selected, None);
    assert_eq!(v.handle_key_events(press(KeyCode::Backspace)), Some(Action::BackToMenu));
}
