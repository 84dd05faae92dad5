use beagle_config::input::{KeyCode, MouseEventKind, Rect};
use beagle_config::selection::SelectionState;
use beagle_config::text::{i64_to_string, pad_start, repeat_char, u64_to_string};
use beagle_config::widgets::button::{ButtonState, ButtonWidget, TextButtonWidget};
use beagle_config::widgets::switch::{LabelStyle, Switch, SwitchState, ThumbStyle, TrackStyle};

#[test]
fn decimal_text() {
    assert_eq!(u64_to_string(0), "0");
    assert_eq!(u64_to_string(40), "40");
    assert_eq!(u64_to_string(18446744073709551615), "18446744073709551615");
    assert_eq!(i64_to_string(-454), "-454");
    assert_eq!(i64_to_string(i64::MIN), "-9223372036854775808");
    assert_eq!(pad_start("2", 3), "  2");
    assert_eq!(pad_start("100", 3), "100");
    assert_eq!(pad_start("-454", 3), "-454");
    assert_eq!(repeat_char('*', 3), "***");
}

#[test]
fn list_selection_moves_like_ratatui() {
    let mut s = SelectionState::new();
    s.select_previous();
    assert_eq!(s.selected, Some(usize::MAX));
    s.select_next();
    assert_eq!(s.selected, Some(usize::MAX));
    let mut s = SelectionState { selected: Some(3), offset: 2 };
    s.select_next();
    assert_eq!(s, SelectionState { selected: Some(4), offset: 2 });
    s.select_previous();
    assert_eq!(s, SelectionState { selected: Some(3), offset: 2 });
    s.select(None);
    assert_eq!(s, SelectionState { selected: None, offset: 0 });
    let mut s = SelectionState { selected: Some(0), offset: 5 };
    s.select_previous();
    assert_eq!(s.selected, Some(0));
    s.select_last();
    assert_eq!(s, SelectionState { selected: Some(usize::MAX), offset: 5 });
    s.select_first();
    assert_eq!(s, SelectionState { selected: Some(0), offset: 5 });
    s.select_row(Some(7));
    assert_eq!(s, SelectionState { selected: Some(7), offset: 5 });
    s.select_row(None);
    assert_eq!(s, SelectionState { selected: None, offset: 0 });
}

#[test]
fn text_button_is_centred() {
    let b = TextButtonWidget::new("Exit").state(ButtonState::Selected);
    let p = b.placement(Rect { x: 10, y: 4, width: 20, height: 3 });
    assert_eq!(p.text, "[Exit]");
    assert_eq!(p.x, 10 + (20 - 4) / 2);
    assert_eq!(p.y, 5);
    assert_eq!(p.max_width, 20);
    assert!(p.highlighted);
    let wide = TextButtonWidget::new("漢字").placement(Rect { x: 0, y: 0, width: 8, height: 1 });
    assert_eq!(wide.x, 2);
    let narrow = TextButtonWidget::new("Exit").placement(Rect { x: 3, y: 0, width: 2, height: 0 });
    assert_eq!(narrow.x, 3);
    assert_eq!(narrow.y, 0);
    assert!(!narrow.highlighted);
}

#[test]
fn framed_button_highlight() {
    assert!(ButtonWidget::new("Back").state(ButtonState::Selected).highlighted());
    assert!(!ButtonWidget::new("Back").state(ButtonState::Active).highlighted());
    assert!(!ButtonWidget::new("Back").highlighted());
}

#[test]
fn switch_toggles_unless_disabled() {
    let mut s = Switch::new(SwitchState::Off);
    s.toggle();
    assert_eq!(s.state(), SwitchState::On);
    s.toggle();
    assert_eq!(s.state(), SwitchState::Off);
    let mut d = Switch::new(SwitchState::Off).disabled(true);
    d.toggle();
    d.set_state(SwitchState::On);
    assert_eq!(d.state(), SwitchState::Off);
    assert!(!d.handle_input(KeyCode::Enter));
    assert_eq!(d.state(), SwitchState::Off);
}

#[test]
fn switch_keys() {
    let mut s = Switch::new(SwitchState::Off);
    assert!(s.handle_input(KeyCode::Char(' ')));
    assert_eq!(s.state(), SwitchState::On);
    assert!(s.handle_input(KeyCode::Left));
    assert_eq!(s.state(), SwitchState::Off);
    assert!(s.handle_input(KeyCode::Right));
    assert_eq!(s.state(), SwitchState::On);
    assert!(!s.handle_input(KeyCode::Char('x')));
    assert_eq!(s.state(), SwitchState::On);
}

#[test]
fn switch_mouse() {
    let area = Rect { x: 5, y: 5, width: 10, height: 1 };
    let mut s = Switch::new(SwitchState::Off);
    assert!(!s.handle_mouse(MouseEventKind::Moved, 6, 5, area));
    assert!(s.is_hovered);
    assert!(s.handle_mouse(MouseEventKind::Down, 14, 5, area));
    assert_eq!(s.state(), SwitchState::On);
    assert!(!s.handle_mouse(MouseEventKind::Down, 15, 5, area));
    assert!(!s.is_hovered);
    assert_eq!(s.state(), SwitchState::On);
}

#[test]
fn switch_widths() {
    let s = Switch::new(SwitchState::On);
    assert_eq!(s.calculate_total_width(), 7);
    assert_eq!(s.calculate_base_width(), 7);
    let s = s.labels("Enabled", "no");
    assert_eq!(s.calculate_total_width(), 11);
}

#[test]
fn switch_layout_on_and_off() {
    let area = Rect { x: 0, y: 0, width: 15, height: 3 };
    let inner = Rect { x: 1, y: 1, width: 13, height: 1 };
    let on = Switch::new(SwitchState::On).focused(true);
    let l = on.layout(area, inner).unwrap();
    assert_eq!(l.track, Rect { x: 4, y: 1, width: 7, height: 1 });
    assert_eq!(l.thumb, Rect { x: 8, y: 1, width: 3, height: 1 });
    assert_eq!((l.dot_x, l.dot_y), (9, 1));
    assert_eq!((l.label_x, l.label_y), (5, 1));
    assert!(l.shows_on_label);
    assert_eq!(l.label_style, LabelStyle::Focused);
    assert_eq!(l.thumb_style, ThumbStyle::Normal);
    assert_eq!(l.track_style, TrackStyle::Active);
    let off = Switch::new(SwitchState::Off);
    let l = off.layout(area, inner).unwrap();
    assert_eq!(l.thumb, Rect { x: 4, y: 1, width: 3, height: 1 });
    assert_eq!(l.label_x, 4 + 7 - 4);
    assert_eq!(l.label_style, LabelStyle::Plain);
    assert_eq!(l.track_style, TrackStyle::Inactive);
    assert!(off.layout(Rect { x: 0, y: 0, width: 6, height: 3 }, inner).is_none());
    assert!(off.layout(Rect { x: 0, y: 0, width: 15, height: 0 }, inner).is_none());
}
