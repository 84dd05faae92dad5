use beagle_config::action::Action;
use beagle_config::components::views::locale::LocaleView;
use beagle_config::components::views::password::{ChangeOutcome, PasswordFocus, PasswordView};
use beagle_config::components::views::ssh::{SshFocus, SshView};
use beagle_config::components::views::test::TestViewComponent;
use beagle_config::components::views::ViewComponent;
use beagle_config::input::{KeyCode, KeyEvent, KeyEventKind};
use beagle_config::widgets::button::ButtonState;
use beagle_config::widgets::switch::SwitchState;

fn press(code: KeyCode) -> KeyEvent {
    KeyEvent::press(code)
}

#[test]
fn locale_view_init_and_keys() {
    let mut v = LocaleView::init();
    assert_eq!(v.title(), "locale");
    assert_eq!(v.switch_focus, SwitchState::Off);
    assert_eq!(v.handle_key_events(press(KeyCode::Down)), None);
    assert_eq!(v.switch_focus, SwitchState::On);
    assert_eq!(v.switch().state, SwitchState::On);
    assert_eq!(v.switch().off_label, "OFF");
    assert_eq!(v.handle_key_events(press(KeyCode::Up)), None);
    assert_eq!(v.switch_focus, SwitchState::Off);
    assert_eq!(v.handle_key_events(press(KeyCode::Backspace)), Some(Action::BackToMenu));
    assert_eq!(v.handle_key_events(press(KeyCode::Enter)), None);
}

#[test]
fn test_view_component_new() {
    let mut t = TestViewComponent::new("Item4");
    assert_eq!(t.title(), "Item4");
    assert_eq!(t.text(), " Item4: Component");
    assert_eq!(t.handle_key_events(press(KeyCode::Backspace)), None);
    assert_eq!(TestViewComponent::default().title, "");
}

#[test]
fn ssh_focus_moves_and_buttons_follow() {
    let mut v = SshView::init();
    assert_eq!(v.title(), "SSH");
    assert_eq!(v.status_line(), "Status: Active");
    v.handle_key_events(press(KeyCode::Down));
    assert_eq!(v.focus, SshFocus::Enable);
    assert_eq!(v.en_button_state, ButtonState::Selected);
    v.handle_key_events(press(KeyCode::Right));
    v.handle_key_events(press(KeyCode::Down));
    v.handle_key_events(press(KeyCode::Down));
    assert_eq!(v.focus, SshFocus::Back);
    assert_eq!(v.ba_button_state, ButtonState::Selected);
    assert_eq!(v.en_button_state, ButtonState::Normal);
    v.handle_key_events(press(KeyCode::Left));
    assert_eq!(v.focus, SshFocus::Disable);
    assert_eq!(v.handle_key_events(press(KeyCode::Enter)), None);
    v.handle_key_events(press(KeyCode::Down));
    assert_eq!(v.handle_key_events(press(KeyCode::Enter)), Some(Action::BackToMenu));
    assert_eq!(v.focus, SshFocus::Unfocused);
    assert_eq!(v.ba_button_state, ButtonState::Normal);
    v.handle_key_events(press(KeyCode::Up));
    assert_eq!(v.focus, SshFocus::Enable);
    assert_eq!(v.handle_key_events(press(KeyCode::Backspace)), Some(Action::BackToMenu));
    assert_eq!(v.focus, SshFocus::Unfocused);
}

fn typed(v: &mut PasswordView, s: &str) {
    for c in s.chars() {
        assert_eq!(v.handle_key_events(press(KeyCode::Char(c))), None);
    }
}

#[test]
fn password_form_editing() {
    let mut v = PasswordView::for_user("debian".to_string());
    assert_eq!(v.title(), "Password");
    typed(&mut v, "x");
    assert_eq!(v.old_input, "");
    v.handle_key_events(press(KeyCode::Down));
    assert_eq!(v.focus, PasswordFocus::OldPassword);
    assert!(v.editing);
    typed(&mut v, "old1");
    v.handle_key_events(press(KeyCode::Backspace));
    assert_eq!(v.old_input, "old");
    v.handle_key_events(press(KeyCode::Enter));
    assert!(!v.editing);
    typed(&mut v, "zz");
    assert_eq!(v.old_input, "old");
    v.handle_key_events(press(KeyCode::Enter));
    assert!(v.editing);
    v.handle_key_events(press(KeyCode::Esc));
    assert!(!v.editing);
    v.handle_key_events(press(KeyCode::Right));
    assert_eq!(v.focus, PasswordFocus::NewPassword);
    typed(&mut v, "né");
    let s = v.screen();
    assert_eq!(s.old_display, "***");
    assert_eq!(s.new_display, "***");
    assert!(s.new_framed && s.new_editing && !s.old_framed);
    assert_eq!(s.checkbox, "[ ] ");
    v.handle_key_events(press(KeyCode::Down));
    assert_eq!(v.focus, PasswordFocus::ShowPassword);
    v.handle_key_events(press(KeyCode::Enter));
    let s = v.screen();
    assert_eq!(s.new_display, "né");
    assert_eq!(s.checkbox, "[x] ");
    assert!(s.checkbox_focused);
    v.handle_key_events(press(KeyCode::Down));
    assert_eq!(v.button_state, ButtonState::Selected);
    v.handle_key_events(press(KeyCode::Down));
    assert_eq!(v.focus, PasswordFocus::BackButton);
    assert_eq!(v.back_button_state, ButtonState::Selected);
    assert_eq!(v.button_state, ButtonState::Normal);
    assert_eq!(v.handle_key_events(press(KeyCode::Enter)), Some(Action::BackToMenu));
    assert_eq!(v.old_input, "");
    assert_eq!(v.new_input, "");
    assert_eq!(v.focus, PasswordFocus::Unfocused);
}

fn filled_form() -> PasswordView {
    let mut v = PasswordView::for_user("debian".to_string());
    v.handle_key_events(press(KeyCode::Down));
    typed(&mut v, "old");
    v.handle_key_events(press(KeyCode::Down));
    typed(&mut v, "new");
    v.handle_key_events(press(KeyCode::Down));
    v.handle_key_events(press(KeyCode::Down));
    assert_eq!(v.focus, PasswordFocus::ApplyButton);
    v
}

#[test]
fn password_apply_requests_change_then_reports() {
    let mut v = filled_form();
    assert_eq!(v.handle_key_events(press(KeyCode::Enter)), None);
    assert!(v.update_active);
    assert_eq!(v.focus, PasswordFocus::Unfocused);
    assert_eq!(v.take_pending_change(), Some("old\ndebian:new\n".to_string()));
    v.finish_change(ChangeOutcome::Finished { success: true, stderr: String::new() });
    assert_eq!(v.error_message, Some("Success".to_string()));
    assert_eq!(v.old_input, "");
    assert!(v.pending_change.is_none());
    assert!(v.screen().outcome_panel);
    v.handle_key_events(press(KeyCode::Down));
    assert_eq!(v.focus, PasswordFocus::Unfocused);
    assert_eq!(v.handle_key_events(press(KeyCode::Enter)), Some(Action::BackToMenu));
    assert!(!v.update_active);
}

#[test]
fn password_change_failures() {
    let mut v = filled_form();
    v.handle_key_events(press(KeyCode::Enter));
    v.finish_change(ChangeOutcome::Finished { success: false, stderr: "  chpasswd: bad  \n".to_string() });
    assert_eq!(v.error_message, Some("Error: chpasswd: bad".to_string()));
    assert_eq!(v.new_input, "");
    let mut v = filled_form();
    v.handle_key_events(press(KeyCode::Enter));
    v.finish_change(ChangeOutcome::SpawnFailed("No such file".to_string()));
    assert_eq!(v.error_message, Some("Failed to start sudo: No such file".to_string()));
    let mut v = filled_form();
    v.handle_key_events(press(KeyCode::Enter));
    v.finish_change(ChangeOutcome::WriteFailed("Broken pipe".to_string()));
    assert_eq!(v.error_message, Some("Failed to write input: Broken pipe".to_string()));
}

#[test]
fn password_empty_fields_refused() {
    let mut v = PasswordView::for_user("debian".to_string());
    for _ in 0..4 {
        v.handle_key_events(press(KeyCode::Down));
    }
    assert_eq!(v.focus, PasswordFocus::ApplyButton);
    assert_eq!(v.handle_key_events(press(KeyCode::Enter)), None);
    assert_eq!(v.error_message, Some("Passwords cannot be empty".to_string()));
    assert!(v.update_active);
    assert!(v.pending_change.is_none());
}

#[test]
fn password_init_uses_current_user() {
    let v = PasswordView::init();
    assert_eq!(v.title, "Password");
    assert_eq!(v.focus, PasswordFocus::Unfocused);
    assert!(!v.username.is_empty());
}

#[test]
fn release_events_reach_views_unfiltered() {
    let mut v = LocaleView::init();
    let release = KeyEvent { code: KeyCode::Down, kind: KeyEventKind::Release };
    v.handle_key_events(release);
    assert_eq!(v.switch_focus, SwitchState::On);
}
