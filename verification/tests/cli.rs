use robo_arm::cli::{go_request, wifi_request, CliError, RESPONSE_BUFFER_SIZE};
use robo_arm::positioner::init_position;
use robo_arm::request::{Command, Request};
use robo_arm::wifi_config::{AccessPointConfig, AuthMethod, Protocol};

#[test]
fn wifi_selects_a_wpa2_network_beside_the_default_access_point() {
    match wifi_request("home", "secret") {
        Ok(Request::Immediate(Command::ConfigureWifi(config))) => {
            let client = config.client.unwrap();
            assert_eq!(client.ssid.as_str(), "home");
            assert_eq!(client.password.as_str(), "secret");
            assert_eq!(client.auth_method, AuthMethod::Wpa2Personal);
            assert_eq!(client.bssid, None);
            assert_eq!(client.channel, None);
            assert_eq!(client.protocols.to_vec(), vec![Protocol::P802D11BGN]);
            assert!(config.access_point == Some(AccessPointConfig::default()));
        }
        _ => panic!("the names fit"),
    }
}

#[test]
fn wifi_refuses_an_ssid_above_its_capacity() {
    let ssid = "s".repeat(33);
    assert!(wifi_request(&ssid, "secret") == Err(CliError::SsidTooLong));
    let password = "p".repeat(65);
    assert!(wifi_request(&ssid, &password) == Err(CliError::SsidTooLong));
}

#[test]
fn wifi_refuses_a_password_above_its_capacity() {
    let password = "p".repeat(65);
    assert!(wifi_request("home", &password) == Err(CliError::PasswordTooLong));
    let longest = "p".repeat(64);
    assert!(wifi_request("home", &longest).is_ok());
}

#[test]
fn go_enqueues_the_four_angles() {
    let request =
        go_request(1.5f32.to_bits(), 1.0f32.to_bits(), 0.5f32.to_bits(), 0.0f32.to_bits());
    match request {
        Request::Enqueue(position) => {
            assert_eq!(f32::from_bits(position.rotation.to_bits()), 1.5);
            assert_eq!(f32::from_bits(position.shoulder.to_bits()), 1.0);
            assert_eq!(f32::from_bits(position.forearm.to_bits()), 0.5);
            assert_eq!(f32::from_bits(position.claw.to_bits()), 0.0);
        }
        Request::Immediate(_) => panic!("a position is enqueued"),
    }
}

#[test]
fn move_to_the_position_at_power_on() {
    let request =
        go_request(1.57f32.to_bits(), 1.3f32.to_bits(), 0.7f32.to_bits(), 2.5f32.to_bits());
    assert!(request == Request::Enqueue(init_position()));
}

#[test]
fn responses_are_read_into_512_bytes() {
    assert_eq!(RESPONSE_BUFFER_SIZE, 512);
}
