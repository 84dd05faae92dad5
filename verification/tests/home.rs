use beagle_config::action::Action;
use beagle_config::components::home::{Home, MenuView};
use beagle_config::components::views::ViewComponent;
use beagle_config::input::{KeyCode, KeyEvent, KeyEventKind};
use beagle_config::selection::SelectionState;
use beagle_config::widgets::button::ButtonState;
use beagle_config::widgets::switch::SwitchState;

fn press(code: KeyCode) -> KeyEvent {
    KeyEvent::press(code)
}

#[test]
fn home_new_layout() {
    let h = Home::new();
    let names: Vec<&str> = h.menu_list.iter().map(|g| g.name.as_str()).collect();
    assert_eq!(names, vec!["System", "Audio", "Network", "Experiment"]);
    let titles: Vec<&str> = h.menu_list[3].component.iter().map(|c| c.title()).collect();
    assert_eq!(titles, vec!["Item10", "Item11", "Item12"]);
    assert_eq!(h.menu_list[0].component[1].title(), "SSH");
    assert_eq!(h.button_state, ButtonState::Selected);
    assert_eq!(h.menu_state, SelectionState::new());
    assert!(!h.active);
    let s = h.screen();
    assert!(s.menu_focused);
    assert_eq!(s.groups[0].title, "─System");
    assert_eq!(s.groups[0].items, vec![" Password", " SSH", " locale"]);
    assert_eq!(s.groups[2].height, 4);
    assert_eq!(s.selected, None);
    assert_eq!(s.exit_button, ButtonState::Selected);
}

#[test]
fn enter_on_exit_button_quits() {
    let mut h = Home::new();
    assert_eq!(h.handle_key_event(press(KeyCode::Enter)), Some(Action::Quit));
    h.handle_key_event(press(KeyCode::Esc));
    assert_eq!(h.button_state, ButtonState::Normal);
    assert_eq!(h.handle_key_event(press(KeyCode::Enter)), None);
}

#[test]
fn only_presses_count() {
    let mut h = Home::new();
    let release = KeyEvent { code: KeyCode::Enter, kind: KeyEventKind::Release };
    assert_eq!(h.handle_key_event(release), None);
    let repeat = KeyEvent { code: KeyCode::Down, kind: KeyEventKind::Repeat };
    h.handle_key_event(repeat);
    assert_eq!(h.menu_state.selected, None);
}

#[test]
fn down_walks_through_groups() {
    let mut h = Home::new();
    h.handle_key_event(press(KeyCode::Down));
    assert_eq!(h.menu_state.selected, Some(0));
    assert_eq!(h.menu_list[0].state.selected, Some(0));
    assert_eq!(h.button_state, ButtonState::Normal);
    h.handle_key_event(press(KeyCode::Down));
    h.handle_key_event(press(KeyCode::Down));
    assert_eq!(h.menu_list[0].state.selected, Some(2));
    h.handle_key_event(press(KeyCode::Down));
    assert_eq!(h.menu_state.selected, Some(1));
    assert_eq!(h.menu_list[0].state.selected, None);
    assert_eq!(h.menu_list[1].state.selected, Some(0));
    for _ in 0..20 {
        h.handle_key_event(press(KeyCode::Down));
    }
    assert_eq!(h.menu_state.selected, Some(3));
    assert_eq!(h.menu_list[3].state.selected, Some(2));
    assert_eq!(h.selected(), Some((3, 2)));
}

#[test]
fn up_crosses_groups_and_returns_to_exit() {
    let mut h = Home::new();
    for _ in 0..4 {
        h.handle_key_event(press(KeyCode::Down));
    }
    assert_eq!(h.menu_state.selected, Some(1));
    h.handle_key_event(press(KeyCode::Up));
    assert_eq!(h.menu_state.selected, Some(0));
    assert_eq!(h.menu_list[1].state.selected, None);
    assert_eq!(h.menu_list[0].state.selected, Some(usize::MAX));
    // rendering clamps the selection to the last view
    h.set_group_selection(0, SelectionState { selected: Some(2), offset: 0 });
    h.handle_key_event(press(KeyCode::Up));
    h.handle_key_event(press(KeyCode::Up));
    assert_eq!(h.menu_list[0].state.selected, Some(0));
    h.handle_key_event(press(KeyCode::Up));
    assert_eq!(h.menu_state.selected, None);
    assert_eq!(h.menu_list[0].state.selected, None);
    assert_eq!(h.button_state, ButtonState::Selected);
    h.handle_key_event(press(KeyCode::Up));
    assert_eq!(h.menu_state.selected, None);
}

#[test]
fn active_view_takes_keys_until_back_to_menu() {
    let mut h = Home::new();
    h.handle_key_event(press(KeyCode::Down));
    h.handle_key_event(press(KeyCode::Down));
    h.handle_key_event(press(KeyCode::Down));
    assert_eq!(h.selected(), Some((0, 2)));
    assert_eq!(h.handle_key_event(press(KeyCode::Enter)), None);
    assert!(h.active);
    assert!(!h.screen().menu_focused);
    h.handle_key_event(press(KeyCode::Down));
    match &h.menu_list[0].component[2] {
        MenuView::Locale(l) => assert_eq!(l.switch_focus, SwitchState::On),
        _ => panic!("the third System view is the locale view"),
    }
    assert_eq!(h.menu_list[0].state.selected, Some(2));
    let back = h.handle_key_event(press(KeyCode::Backspace));
    assert_eq!(back, Some(Action::BackToMenu));
    assert!(h.active);
    assert_eq!(h.update(back.unwrap()), None);
    assert!(!h.active);
    assert_eq!(h.update(Action::Tick), None);
    h.handle_key_event(press(KeyCode::Up));
    assert_eq!(h.menu_list[0].state.selected, Some(1));
}

#[test]
fn down_then_up_within_a_group_returns() {
    let mut h = Home::new();
    h.handle_key_event(press(KeyCode::Down));
    h.handle_key_event(press(KeyCode::Down));
    assert_eq!(h.selected(), Some((0, 1)));
    h.handle_key_event(press(KeyCode::Down));
    h.handle_key_event(press(KeyCode::Up));
    assert_eq!(h.selected(), Some((0, 1)));
    h.handle_key_event(press(KeyCode::Up));
    h.handle_key_event(press(KeyCode::Down));
    assert_eq!(h.selected(), Some((0, 1)));
}

#[test]
fn down_then_up_across_groups_comes_back() {
    let mut h = Home::new();
    for _ in 0..3 {
        h.handle_key_event(press(KeyCode::Down));
    }
    assert_eq!(h.menu_state.selected, Some(0));
    assert_eq!(h.menu_list[0].state.selected, Some(2));
    h.handle_key_event(press(KeyCode::Down));
    assert_eq!(h.menu_state.selected, Some(1));
    assert_eq!(h.menu_list[0].state.selected, None);
    assert_eq!(h.menu_list[1].state.selected, Some(0));
    h.handle_key_event(press(KeyCode::Up));
    assert_eq!(h.menu_state.selected, Some(0));
    assert_eq!(h.menu_list[0].state.selected, Some(usize::MAX));
    assert_eq!(h.menu_list[1].state.selected, None);
    h.set_group_selection(0, SelectionState::with_selected(Some(2)));
    assert_eq!(h.selected(), Some((0, 2)));
    assert_eq!(h.button_state, ButtonState::Normal);
}

#[test]
fn down_then_up_from_exit_button_comes_back() {
    let mut h = Home::new();
    h.handle_key_event(press(KeyCode::Down));
    h.handle_key_event(press(KeyCode::Up));
    assert_eq!(h.menu_state.selected, None);
    assert_eq!(h.button_state, ButtonState::Selected);
    assert!(h.menu_list.iter().all(|g| g.state.selected.is_none()));
}
