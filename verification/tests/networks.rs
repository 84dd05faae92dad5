use beagle_config::components::views::wifi::{passphrase_answer, PassphraseEvent};
use beagle_config::networks::{
    sort_by_signal, DeviceInfo, KnownNetworkInfo, NetworkInfo, ScoredNetwork, StationChange,
    WifiMode,
};

fn net(name: &str, signal: i16) -> ScoredNetwork {
    ScoredNetwork {
        network: NetworkInfo {
            name: name.to_string(),
            network_type: "psk".to_string(),
            is_connected: false,
            known_network: None,
        },
        signal,
    }
}

#[test]
fn networks_sorted_strongest_first_keeping_ties() {
    let v = vec![net("a", -7000), net("b", -4000), net("c", -7000), net("d", -9000), net("e", -4000)];
    let sorted = sort_by_signal(v);
    let names: Vec<&str> = sorted.iter().map(|n| n.network.name.as_str()).collect();
    assert_eq!(names, vec!["b", "e", "a", "c", "d"]);
    assert!(sort_by_signal(Vec::new()).is_empty());
}

#[test]
fn known_network_last_connection_is_parsed() {
    let k = KnownNetworkInfo::new("home".into(), "psk".into(), true, false, Some("2024-01-01T00:00:00Z".into()));
    assert_eq!(k.last_connected, Some((1704067200, 0, 0)));
    let k = KnownNetworkInfo::new("home".into(), "psk".into(), true, false, Some("2024-01-01T02:00:00.5+02:00".into()));
    assert_eq!(k.last_connected, Some((1704067200, 500_000_000, 7200)));
    let k = KnownNetworkInfo::new("home".into(), "psk".into(), true, false, Some("yesterday".into()));
    assert_eq!(k.last_connected, None);
    let k = KnownNetworkInfo::new("home".into(), "psk".into(), false, true, None);
    assert_eq!(k.last_connected, None);
    assert!(k.toggled_autoconnect());
    assert!(k.is_hidden);
}

#[test]
fn device_refresh_decides_station() {
    let mut d = DeviceInfo { name: "wlan0".into(), address: "aa".into(), mode: WifiMode::Station, is_powered: true };
    assert_eq!(d.refresh(false, WifiMode::Station), StationChange::RefreshExisting);
    assert!(!d.is_powered);
    assert_eq!(d.refresh(true, WifiMode::Ap), StationChange::Remove);
    assert_eq!(d.mode, WifiMode::Ap);
    assert_eq!(d.refresh(true, WifiMode::Ap), StationChange::Keep);
    assert_eq!(d.refresh(true, WifiMode::Station), StationChange::Recreate);
    assert_eq!(d.mode, WifiMode::Station);
    assert_eq!(d.name, "wlan0");
}

#[test]
fn passphrase_answers() {
    assert_eq!(passphrase_answer(PassphraseEvent::Key(Some("secret".into()))), Ok("secret".to_string()));
    assert_eq!(passphrase_answer(PassphraseEvent::Key(None)), Err("Failed to receive the key".to_string()));
    assert_eq!(passphrase_answer(PassphraseEvent::Cancel(true)), Err("Operation Canceled".to_string()));
    assert_eq!(passphrase_answer(PassphraseEvent::Cancel(false)), Err("Failed to receive cancel signal".to_string()));
}

#[test]
fn discovered_networks_split_into_known_and_new() {
    let mut remembered = net("home", -5000);
    remembered.network.known_network = Some(KnownNetworkInfo::new("home".into(), "psk".into(), true, false, None));
    let mut other = net("cafe", -6000);
    other.network.known_network = Some(KnownNetworkInfo::new("cafe".into(), "open".into(), false, false, None));
    let s = beagle_config::networks::StationSnapshot::from_discovered(vec![
        net("a", -4000),
        remembered,
        net("b", -7000),
        other,
    ]);
    let known: Vec<&str> = s.known_networks.iter().map(|n| n.network.name.as_str()).collect();
    let fresh: Vec<&str> = s.new_networks.iter().map(|n| n.network.name.as_str()).collect();
    assert_eq!(known, vec!["home", "cafe"]);
    assert_eq!(fresh, vec!["a", "b"]);
}
