use robo_arm::link::{
    StaAction, UpdatePlan, Watch, WifiProvider, CONNECT_RETRY_TIMEOUT_SECS,
    START_RETRY_TIMEOUT_SECS, STOP_RETRY_TIMEOUT_SECS, WIFI_STABILIZATION_DELAY_MS,
};
use robo_arm::radio::{AccessPointParams, StationParams, TargetMode, WifiStaState};
use robo_arm::text::String;
use robo_arm::wifi_config::{AuthMethod, ProtocolsSet};

fn station(ssid: &str) -> StationParams {
    StationParams {
        ssid: String::try_from(ssid).unwrap(),
        password: String::try_from("secret").unwrap(),
        auth_method: AuthMethod::Wpa2Personal,
        bssid: None,
    }
}

fn access_point() -> AccessPointParams {
    AccessPointParams {
        ssid: String::try_from("robo-arm").unwrap(),
        password: String::new(),
        channel: 1,
        auth_method: AuthMethod::Open,
        protocols: ProtocolsSet::default(),
    }
}

fn provider_with(mode: TargetMode) -> WifiProvider {
    let mut provider = WifiProvider::new();
    provider.update_config(mode);
    provider
}

const STATES: [WifiStaState; 5] = [
    WifiStaState::Started,
    WifiStaState::Connected,
    WifiStaState::Disconnected,
    WifiStaState::Stopped,
    WifiStaState::Invalid,
];

#[test]
fn backoffs_and_stabilisation_delay() {
    assert_eq!(CONNECT_RETRY_TIMEOUT_SECS, 10);
    assert_eq!(START_RETRY_TIMEOUT_SECS, 10);
    assert_eq!(STOP_RETRY_TIMEOUT_SECS, 10);
    assert_eq!(WIFI_STABILIZATION_DELAY_MS, 1000);
}

#[test]
fn first_mode_is_applied_without_a_stop() {
    let mut provider = WifiProvider::new();
    let plan = provider.update_config(TargetMode::Client(station("home")));
    assert!(
        plan == UpdatePlan::Apply {
            stop_first: false,
            mode: TargetMode::Client(station("home")),
            start: true,
        }
    );
}

#[test]
fn same_mode_is_kept() {
    let mut provider = provider_with(TargetMode::Client(station("home")));
    assert!(provider.update_config(TargetMode::Client(station("home"))) == UpdatePlan::Keep);
}

#[test]
fn changed_mode_stops_the_radio_first() {
    let mut provider = provider_with(TargetMode::Client(station("home")));
    let plan = provider.update_config(TargetMode::ApSta(station("home"), access_point()));
    assert!(
        plan == UpdatePlan::Apply {
            stop_first: true,
            mode: TargetMode::ApSta(station("home"), access_point()),
            start: true,
        }
    );
}

#[test]
fn a_mode_differs_by_any_of_its_values() {
    let mut provider = provider_with(TargetMode::Client(station("home")));
    assert!(provider.update_config(TargetMode::Client(station("work"))) != UpdatePlan::Keep);
    let mut with_address = station("work");
    with_address.bssid = Some([1, 2, 3, 4, 5, 6]);
    assert!(provider.update_config(TargetMode::Client(with_address)) != UpdatePlan::Keep);
    let mut other_address = station("work");
    other_address.bssid = Some([1, 2, 3, 4, 5, 7]);
    assert!(provider.update_config(TargetMode::Client(other_address)) != UpdatePlan::Keep);
    let mut other_channel = access_point();
    other_channel.channel = 2;
    let mut provider = provider_with(TargetMode::AccessPoint(access_point()));
    assert!(provider.update_config(TargetMode::AccessPoint(other_channel)) != UpdatePlan::Keep);
}

#[test]
fn mode_off_is_applied_without_a_start() {
    let mut provider = provider_with(TargetMode::AccessPoint(access_point()));
    let plan = provider.update_config(TargetMode::Off);
    assert!(plan == UpdatePlan::Apply { stop_first: true, mode: TargetMode::Off, start: false });
    assert!(provider.update_config(TargetMode::Off) == UpdatePlan::Keep);
}

#[test]
fn station_is_active_in_client_and_ap_sta() {
    assert!(!WifiProvider::new().is_sta_active());
    assert!(provider_with(TargetMode::Client(station("home"))).is_sta_active());
    assert!(provider_with(TargetMode::ApSta(station("home"), access_point())).is_sta_active());
    assert!(!provider_with(TargetMode::AccessPoint(access_point())).is_sta_active());
    assert!(!provider_with(TargetMode::Off).is_sta_active());
}

#[test]
fn watch_waits_for_the_disconnect_of_a_connected_station() {
    let provider = provider_with(TargetMode::Client(station("home")));
    assert_eq!(provider.watch_connection(WifiStaState::Connected), Watch::AwaitDisconnect);
    for state in STATES {
        if state != WifiStaState::Connected {
            assert_eq!(provider.watch_connection(state), Watch::Done);
        }
    }
}

#[test]
fn watch_never_ends_without_a_station() {
    let provider = provider_with(TargetMode::AccessPoint(access_point()));
    for state in STATES {
        assert_eq!(provider.watch_connection(state), Watch::Forever);
        assert_eq!(WifiProvider::new().watch_connection(state), Watch::Forever);
    }
}

#[test]
fn station_is_started_then_connected() {
    let provider = provider_with(TargetMode::Client(station("home")));
    assert_eq!(provider.maintain_sta_connection(WifiStaState::Stopped), StaAction::Start);
    assert_eq!(provider.maintain_sta_connection(WifiStaState::Started), StaAction::Connect);
    assert_eq!(provider.maintain_sta_connection(WifiStaState::Disconnected), StaAction::Connect);
    assert_eq!(provider.maintain_sta_connection(WifiStaState::Connected), StaAction::Nothing);
    assert_eq!(provider.maintain_sta_connection(WifiStaState::Invalid), StaAction::Nothing);
}

#[test]
fn nothing_is_maintained_without_a_station() {
    let provider = provider_with(TargetMode::AccessPoint(access_point()));
    for state in STATES {
        assert_eq!(provider.maintain_sta_connection(state), StaAction::Nothing);
    }
}

#[test]
fn a_turn_applies_what_arrived_or_the_mode_in_force() {
    let fresh = WifiProvider::new();
    assert!(fresh.run(None).is_none());
    assert!(fresh.run(Some(TargetMode::Off)) == Some(TargetMode::Off));
    let provider = provider_with(TargetMode::Client(station("home")));
    assert!(provider.run(None) == Some(TargetMode::Client(station("home"))));
    assert!(
        provider.run(Some(TargetMode::AccessPoint(access_point())))
            == Some(TargetMode::AccessPoint(access_point()))
    );
}
