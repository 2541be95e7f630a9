//! The requests that the command line client sends.

use crate::quantities::Position;
use crate::request::{Command, Request};
use crate::text::String;
use crate::units::WithUnit;
use crate::wifi_config::{
    AccessPointConfigView, AuthMethod, ClientConfig, ClientConfigView, Protocol, ProtocolsSet,
    WifiConfig, WifiConfigView, MAX_PASS_LEN, MAX_SSID_LEN,
};
use vstd::prelude::*;
use vstd::utf8::encode_utf8;

verus! {

/// Largest body of a response that the client reads.
pub const RESPONSE_BUFFER_SIZE: usize = 512;

/// Why a command line gives no request.
#[derive(Clone, Copy, Debug, PartialEq, Eq, Structural)]
pub enum CliError {
    /// The SSID has more than [`MAX_SSID_LEN`] bytes.
    SsidTooLong,
    /// The password has more than [`MAX_PASS_LEN`] bytes.
    PasswordTooLong,
}

/// The configuration that `wifi <SSID> <PASSWORD>` selects: the network
/// with that name and password, on WPA2 Personal and the default protocols,
/// beside the default access point.
pub open spec fn wifi_selection(ssid: Seq<char>, password: Seq<char>) -> WifiConfigView {
    WifiConfigView {
        client: Some(
            ClientConfigView {
                ssid,
                bssid: None,
                auth_method: AuthMethod::Wpa2Personal,
                password,
                channel: None,
                protocols: set![Protocol::P802D11BGN],
            },
        ),
        access_point: Some(AccessPointConfigView::default_view()),
    }
}

/// The request of `wifi <SSID> <PASSWORD>`.
pub fn wifi_request(ssid: &str, password: &str) -> (request: Result<Request, CliError>)
    ensures
        match request {
            Ok(request) => {
                &&& encode_utf8(ssid@).len() <= MAX_SSID_LEN
                &&& encode_utf8(password@).len() <= MAX_PASS_LEN
                &&& request matches Request::Immediate(Command::ConfigureWifi(config))
                &&& config@ == wifi_selection(ssid@, password@)
            },
            Err(CliError::SsidTooLong) => encode_utf8(ssid@).len() > MAX_SSID_LEN,
            Err(CliError::PasswordTooLong) => encode_utf8(ssid@).len() <= MAX_SSID_LEN
                && encode_utf8(password@).len() > MAX_PASS_LEN,
        },
{
    let ssid = match String::try_from(ssid) {
        Ok(ssid) => ssid,
        Err(_) => {
            return Err(CliError::SsidTooLong);
        },
    };
    let password = match String::try_from(password) {
        Ok(password) => password,
        Err(_) => {
            return Err(CliError::PasswordTooLong);
        },
    };
    let client = ClientConfig {
        ssid,
        bssid: None,
        auth_method: AuthMethod::Wpa2Personal,
        password,
        channel: None,
        protocols: ProtocolsSet::default(),
    };
    let mut config = WifiConfig::default();
    config.client = Some(client);
    Ok(Request::Immediate(Command::ConfigureWifi(config)))
}

/// The request of `go <rot> <sho> <for> <cla>`, each angle given by the
/// bits of its single.
pub fn go_request(rotation: u32, shoulder: u32, forearm: u32, claw: u32) -> (request: Request)
    ensures
        request matches Request::Enqueue(position) && position.rotation@ == rotation
            && position.shoulder@ == shoulder && position.forearm@ == forearm && position.claw@
            == claw,
{
    Request::Enqueue(
        Position {
            rotation: WithUnit::new(rotation),
            shoulder: WithUnit::new(shoulder),
            forearm: WithUnit::new(forearm),
            claw: WithUnit::new(claw),
        },
    )
}

} // verus!
