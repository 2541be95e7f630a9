use robo_arm::text::String;
use robo_arm::wifi_config::{
    AccessPointConfig, AuthMethod, ClientConfig, Protocol, ProtocolsSet, WifiConfig,
    MAX_PASS_LEN, MAX_SSID_LEN,
};

#[test]
fn capacities_of_ssid_and_password() {
    assert_eq!(MAX_SSID_LEN, 32);
    assert_eq!(MAX_PASS_LEN, 64);
}

#[test]
fn default_access_point_is_the_open_network_robo_arm() {
    let ap = AccessPointConfig::default();
    assert_eq!(ap.ssid.as_str(), "robo-arm");
    assert!(!ap.ssid_hidden);
    assert_eq!(ap.channel, 1);
    assert_eq!(ap.auth_method, AuthMethod::Open);
    assert_eq!(ap.password.as_str(), "");
    assert_eq!(
        ap.protocols.to_vec(),
        vec![Protocol::P802D11B, Protocol::P802D11BG, Protocol::P802D11BGN]
    );
    assert_eq!(ap.protocols.bits(), 0b000111);
}

#[test]
fn default_wifi_config_has_no_station_entry() {
    let config = WifiConfig::default();
    assert!(config.client.is_none());
    assert!(config.access_point == Some(AccessPointConfig::default()));
}

#[test]
fn default_auth_method_and_protocol() {
    assert_eq!(AuthMethod::default(), AuthMethod::Wpa2Personal);
    assert_eq!(Protocol::default(), Protocol::P802D11BGN);
    assert_eq!(ProtocolsSet::default().to_vec(), vec![Protocol::P802D11BGN]);
    assert_eq!(ProtocolsSet::default().bits(), 0b000100);
}

#[test]
fn protocol_positions_follow_the_declaration() {
    let all = [
        Protocol::P802D11B,
        Protocol::P802D11BG,
        Protocol::P802D11BGN,
        Protocol::P802D11BGNLR,
        Protocol::P802D11LR,
        Protocol::P802D11BGNAX,
    ];
    for (i, protocol) in all.iter().enumerate() {
        assert_eq!(protocol.index() as usize, i);
        assert_eq!(Protocol::from_index(i as u8), Some(*protocol));
    }
    assert_eq!(Protocol::from_index(6), None);
    assert_eq!(Protocol::from_index(255), None);
}

#[test]
fn protocols_set_insert_and_contains() {
    let mut set = ProtocolsSet::empty();
    assert_eq!(set.bits(), 0);
    assert!(!set.contains(Protocol::P802D11LR));
    assert!(set.insert(Protocol::P802D11LR));
    assert!(set.contains(Protocol::P802D11LR));
    assert!(!set.insert(Protocol::P802D11LR));
    assert!(set.insert(Protocol::P802D11B));
    assert_eq!(set.bits(), 0b010001);
    assert_eq!(set.to_vec(), vec![Protocol::P802D11B, Protocol::P802D11LR]);
}

#[test]
fn protocols_set_union_and_only() {
    let a = ProtocolsSet::only(Protocol::P802D11BGNAX);
    let b = ProtocolsSet::only(Protocol::P802D11BG);
    let joined = a.union(b);
    assert_eq!(joined.bits(), 0b100010);
    assert_eq!(joined, b.union(a));
    assert_eq!(joined.union(joined), joined);
}

#[test]
fn protocols_set_from_bits_drops_unknown_bits() {
    assert_eq!(ProtocolsSet::from_bits_truncated(0b1100_0101).bits(), 0b000101);
    assert_eq!(ProtocolsSet::from_bits_truncated(0x3f).to_vec().len(), 6);
    assert_eq!(ProtocolsSet::from_bits_truncated(0), ProtocolsSet::empty());
}

#[test]
fn configs_clone_to_equal_configs() {
    let client = ClientConfig {
        ssid: String::try_from("home").unwrap(),
        bssid: Some([1, 2, 3, 4, 5, 6]),
        auth_method: AuthMethod::Wpa3Personal,
        password: String::try_from("secret").unwrap(),
        channel: Some(11),
        protocols: ProtocolsSet::default(),
    };
    let config = WifiConfig { client: Some(client), access_point: None };
    let copy = config.clone();
    assert!(copy == config);
    assert_eq!(copy.client.unwrap().ssid.as_str(), "home");
}
