use beagle_config::components::home::Home;
use beagle_config::components::views::locale::LocaleView;
use beagle_config::components::views::password::PasswordView;
use beagle_config::components::views::pinout::PinOut;
use beagle_config::components::views::ssh::SshView;
use beagle_config::components::views::wifi::WifiView;
use beagle_config::input::Rect;

fn r(x: u16, y: u16, width: u16, height: u16) -> Rect {
    Rect { x, y, width, height }
}

#[test]
fn locale_switch_area_and_inside() {
    let (area, inner) = LocaleView::layout(r(0, 0, 40, 10));
    assert_eq!(area, r(0, 0, 15, 3));
    assert_eq!(inner, r(1, 1, 13, 1));
    let (_, tiny) = LocaleView::layout(r(5, 5, 1, 1));
    assert_eq!(tiny.width, 0);
}

#[test]
fn ssh_layout_rows() {
    let l = SshView::layout(r(0, 0, 40, 10));
    assert_eq!(l.status, r(2, 0, 36, 1));
    assert_eq!(l.enable, r(2, 1, 18, 3));
    assert_eq!(l.disable, r(20, 1, 18, 3));
    assert_eq!(l.back, r(2, 4, 36, 3));
}

#[test]
fn password_layouts() {
    let l = PasswordView::form_layout(r(0, 0, 44, 12));
    assert_eq!(l.user, r(2, 0, 40, 1));
    assert_eq!(l.old.frame, r(2, 1, 40, 3));
    assert_eq!(l.old.label, r(3, 2, 14, 1));
    assert_eq!(l.old.input, r(17, 2, 24, 1));
    assert_eq!(l.new.frame, r(2, 4, 40, 3));
    assert_eq!(l.checkbox, r(2, 7, 3, 1));
    assert_eq!(l.checkbox_label, r(5, 7, 37, 1));
    assert_eq!(l.apply, r(2, 8, 20, 3));
    assert_eq!(l.back, r(22, 8, 20, 3));
    let p = PasswordView::panel_layout(r(0, 0, 104, 28));
    assert_eq!(p.panel, r(22, 10, 60, 8));
    assert_eq!(p.message, r(23, 11, 58, 3));
    assert_eq!(p.button, r(23, 14, 58, 3));
}

#[test]
fn wifi_layout_rows() {
    let l = WifiView::layout(r(0, 0, 30, 20));
    assert_eq!(l.area, r(2, 0, 26, 20));
    assert_eq!(l.scan, r(2, 0, 26, 3));
    assert_eq!(l.known, r(2, 3, 26, 5));
    assert_eq!(l.networks, r(2, 8, 26, 9));
    assert_eq!(l.status, r(2, 17, 26, 3));
}

#[test]
fn pinout_layout_boxes() {
    let l = PinOut::layout(r(0, 0, 80, 30));
    assert_eq!(l.pins, r(1, 0, 38, 22));
    assert_eq!(l.legend, r(1, 22, 38, 8));
    assert_eq!(l.info, r(39, 0, 40, 30));
    assert_eq!(l.left_table, r(2, 1, 18, 20));
    assert_eq!(l.right_table, r(20, 1, 17, 20));
    let none = PinOut::layout(r(0, 0, 1, 30));
    assert_eq!(none.pins.width, 0);
}

#[test]
fn home_layout_parts() {
    let h = Home::new();
    let l = h.layout(r(0, 0, 60, 24));
    assert_eq!(l.header, r(0, 0, 60, 1));
    assert_eq!(l.footer, r(0, 22, 60, 2));
    assert_eq!(l.menu, r(0, 1, 10, 21));
    assert_eq!(l.config, r(10, 1, 50, 21));
    assert_eq!(l.menu_header, r(1, 2, 1, 1));
    assert_eq!(l.exit_button, r(2, 2, 7, 1));
    assert_eq!(l.groups.len(), 4);
    assert_eq!(l.groups[0], r(1, 3, 8, 4));
    assert_eq!(l.groups[3], r(1, 15, 8, 4));
    assert_eq!(l.menu_bottom, r(1, 19, 8, 1));
    assert_eq!(l.config_header, r(11, 2, 48, 2));
    assert_eq!(l.config_main, r(11, 4, 48, 17));
}
