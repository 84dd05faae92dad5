use beagle_config::action::Action;
use beagle_config::components::views::wifi::{signal_column, WifiFocus, WifiRequest, WifiView};
use beagle_config::components::views::ViewComponent;
use beagle_config::input::{KeyCode, KeyEvent};
use beagle_config::networks::{NetworkInfo, ScoredNetwork, StationSnapshot, WifiMode, WifiSnapshot};
use beagle_config::selection::SelectionState;
use beagle_config::widgets::button::ButtonState;

fn press(code: KeyCode) -> KeyEvent {
    KeyEvent::press(code)
}

fn net(name: &str, signal: i16) -> ScoredNetwork {
    ScoredNetwork {
        network: NetworkInfo { name: name.into(), network_type: "psk".into(), is_connected: false, known_network: None },
        signal,
    }
}

fn snapshot() -> WifiSnapshot {
    WifiSnapshot {
        mode: WifiMode::Station,
        station: Some(StationSnapshot {
            new_networks: vec![net("weak", -8800), net("strong", -4000), net("mid", -7000)],
            known_networks: vec![net("home", -9999), net("office", -6000)],
        }),
    }
}

#[test]
fn signal_columns() {
    assert_eq!(signal_column(-4000), "100% \u{f0928}");
    assert_eq!(signal_column(-6000), " 80% \u{f0928}");
    assert_eq!(signal_column(-7000), " 60% \u{f0925}");
    assert_eq!(signal_column(-7600), " 48% \u{f0922}");
    assert_eq!(signal_column(-8800), " 24% \u{f091f}");
    assert_eq!(signal_column(-9999), "  2% \u{f091f}");
    assert_eq!(signal_column(-12000), "-40% \u{f091f}");
    assert_eq!(signal_column(-5099), "100% \u{f0928}");
    assert_eq!(signal_column(150), "100% \u{f0928}");
}

#[test]
fn ready_view_sorts_networks() {
    let v = WifiView::ready(snapshot());
    assert_eq!(v.title(), "WiFi");
    let names: Vec<&str> = v.sorted_networks.iter().map(|n| n.network.name.as_str()).collect();
    assert_eq!(names, vec!["strong", "mid", "weak"]);
    let s = v.screen();
    assert!(s.error.is_none());
    assert_eq!(s.scan_label, "Scan");
    assert_eq!(s.known[0].name_text, "office    ");
    assert_eq!(s.known[1].signal_text, "  2% \u{f091f}");
    assert_eq!(s.networks[0].name_text, "strong    ");
    assert!(s.networks.iter().all(|l| !l.highlighted));
}

#[test]
fn error_view_shows_reason() {
    let v = WifiView::error_state("no adapter");
    let s = v.screen();
    assert_eq!(s.error, Some("Initialization error: no adapter".to_string()));
    assert!(s.networks.is_empty() && s.known.is_empty());
}

#[test]
fn focus_moves_through_button_and_list() {
    let mut v = WifiView::ready(snapshot());
    v.handle_key_events(press(KeyCode::Down));
    assert_eq!(v.focus, WifiFocus::Scan);
    assert_eq!(v.scan_button_state, ButtonState::Selected);
    v.handle_key_events(press(KeyCode::Down));
    assert_eq!(v.focus, WifiFocus::List);
    assert_eq!(v.list_state.selected, Some(0));
    assert_eq!(v.scan_button_state, ButtonState::Normal);
    v.handle_key_events(press(KeyCode::Down));
    v.handle_key_events(press(KeyCode::Down));
    v.handle_key_events(press(KeyCode::Down));
    assert_eq!(v.list_state.selected, Some(2));
    assert!(v.screen().networks[2].highlighted);
    v.handle_key_events(press(KeyCode::Up));
    assert_eq!(v.list_state.selected, Some(1));
    v.handle_key_events(press(KeyCode::Up));
    v.handle_key_events(press(KeyCode::Up));
    assert_eq!(v.focus, WifiFocus::Scan);
    assert_eq!(v.list_state.selected, Some(0));
    v.handle_key_events(press(KeyCode::Up));
    assert_eq!(v.focus, WifiFocus::Unfocused);
    assert_eq!(v.handle_key_events(press(KeyCode::Backspace)), Some(Action::BackToMenu));
}

#[test]
fn scan_and_refresh_requests() {
    let mut v = WifiView::ready(snapshot());
    v.handle_key_events(press(KeyCode::Down));
    v.handle_key_events(press(KeyCode::Enter));
    assert!(v.is_scanning);
    assert_eq!(v.screen().scan_label, "Scanning...");
    assert_eq!(v.take_request(), Some(WifiRequest::Scan));
    assert_eq!(v.take_request(), None);
    v.update(Action::ScanComplete);
    assert!(!v.is_scanning);
    assert_eq!(v.take_request(), Some(WifiRequest::Refresh));
    for _ in 0..181 {
        v.update(Action::Tick);
        assert_eq!(v.take_request(), None);
    }
    assert_eq!(v.tick_count, 181);
    v.update(Action::Tick);
    assert_eq!(v.tick_count, 0);
    assert_eq!(v.take_request(), Some(WifiRequest::Refresh));
}

#[test]
fn new_snapshot_replaces_networks() {
    let mut v = WifiView::ready(snapshot());
    v.set_list_selection(SelectionState { selected: Some(2), offset: 0 });
    let next = WifiSnapshot {
        mode: WifiMode::Station,
        station: Some(StationSnapshot { new_networks: vec![net("x", -9000), net("y", -5000)], known_networks: vec![] }),
    };
    assert_eq!(v.update(Action::UpdateWifiState(next)), None);
    let names: Vec<&str> = v.sorted_networks.iter().map(|n| n.network.name.as_str()).collect();
    assert_eq!(names, vec!["y", "x"]);
    assert_eq!(v.list_state.selected, Some(2));
    let empty = WifiSnapshot { mode: WifiMode::Ap, station: None };
    v.update(Action::UpdateWifiState(empty));
    assert!(v.sorted_networks.is_empty());
    assert!(v.screen().known.is_empty());
}
