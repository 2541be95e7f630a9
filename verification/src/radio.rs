//! What the control plane asks of the radio, and what the radio reports.

use crate::text::String;
use crate::wifi_config::{
    bssid_view, lemma_protocols_set_by_members, AuthMethod, Protocol, ProtocolsSet, MAX_PASS_LEN,
    MAX_SSID_LEN,
};
use vstd::prelude::*;
use vstd::std_specs::cmp::PartialEqSpecImpl;

verus! {

/// The interface over which the operator's TCP client is connected.
#[derive(Clone, Copy, Debug, PartialEq, Eq, Structural)]
pub enum WifiInterface {
    /// No client is connected.
    NoClient,
    /// The client came in through the network that the device joined.
    Station,
    /// The client came in through the device's own access point.
    AccessPoint,
}

/// What the radio is told of the network to join. Whatever else the radio
/// can be told stays at the radio's defaults.
pub struct StationParams {
    pub ssid: String<MAX_SSID_LEN>,
    pub password: String<MAX_PASS_LEN>,
    pub auth_method: AuthMethod,
    pub bssid: Option<[u8; 6]>,
}

/// What a [`StationParams`] holds.
pub struct StationParamsView {
    pub ssid: Seq<char>,
    pub password: Seq<char>,
    pub auth_method: AuthMethod,
    pub bssid: Option<Seq<u8>>,
}

impl View for StationParams {
    type V = StationParamsView;

    open spec fn view(&self) -> StationParamsView {
        StationParamsView {
            ssid: self.ssid@,
            password: self.password@,
            auth_method: self.auth_method,
            bssid: bssid_view(self.bssid),
        }
    }
}

impl Clone for StationParams {
    fn clone(&self) -> (copy: Self)
        ensures
            copy == *self,
    {
        StationParams {
            ssid: self.ssid.clone(),
            password: self.password.clone(),
            auth_method: self.auth_method,
            bssid: self.bssid,
        }
    }
}

/// Whether two addresses hold the same bytes.
fn same_address(x: &[u8; 6], y: &[u8; 6]) -> (same: bool)
    ensures
        same == (x@ == y@),
{
    let mut i: usize = 0;
    while i < 6
        invariant
            i <= 6,
            forall|k: int| 0 <= k < i ==> x@[k] == y@[k],
        decreases 6 - i,
    {
        if x[i] != y[i] {
            return false;
        }
        i = i + 1;
    }
    proof {
        assert(x@ =~= y@);
    }
    true
}

/// Whether both hold no address, or both the same one.
fn same_bssid(a: &Option<[u8; 6]>, b: &Option<[u8; 6]>) -> (same: bool)
    ensures
        same == (bssid_view(*a) == bssid_view(*b)),
{
    match (a, b) {
        (None, None) => true,
        (Some(x), Some(y)) => same_address(x, y),
        _ => false,
    }
}

impl PartialEq for StationParams {
    fn eq(&self, other: &Self) -> (equal: bool) {
        self.ssid == other.ssid && self.password == other.password && self.auth_method
            == other.auth_method && same_bssid(&self.bssid, &other.bssid)
    }
}

impl PartialEqSpecImpl for StationParams {
    open spec fn obeys_eq_spec() -> bool {
        true
    }

    open spec fn eq_spec(&self, other: &Self) -> bool {
        self@ == other@
    }
}

/// What the radio is told of the access point to open. Whatever else the
/// radio can be told stays at the radio's defaults.
pub struct AccessPointParams {
    pub ssid: String<MAX_SSID_LEN>,
    pub password: String<MAX_PASS_LEN>,
    pub channel: u8,
    pub auth_method: AuthMethod,
    pub protocols: ProtocolsSet,
}

/// What an [`AccessPointParams`] holds.
pub struct AccessPointParamsView {
    pub ssid: Seq<char>,
    pub password: Seq<char>,
    pub channel: u8,
    pub auth_method: AuthMethod,
    pub protocols: Set<Protocol>,
}

impl View for AccessPointParams {
    type V = AccessPointParamsView;

    open spec fn view(&self) -> AccessPointParamsView {
        AccessPointParamsView {
            ssid: self.ssid@,
            password: self.password@,
            channel: self.channel,
            auth_method: self.auth_method,
            protocols: self.protocols@,
        }
    }
}

impl Clone for AccessPointParams {
    fn clone(&self) -> (copy: Self)
        ensures
            copy == *self,
    {
        AccessPointParams {
            ssid: self.ssid.clone(),
            password: self.password.clone(),
            channel: self.channel,
            auth_method: self.auth_method,
            protocols: self.protocols,
        }
    }
}

impl PartialEq for AccessPointParams {
    fn eq(&self, other: &Self) -> (equal: bool) {
        let same_protocols = self.protocols.bits() == other.protocols.bits();
        proof {
            if self.protocols@ == other.protocols@ {
                lemma_protocols_set_by_members(self.protocols, other.protocols);
            }
            if same_protocols {
                assert(self.protocols@ =~= other.protocols@);
            }
        }
        self.ssid == other.ssid && self.password == other.password && self.channel == other.channel
            && self.auth_method == other.auth_method && same_protocols
    }
}

impl PartialEqSpecImpl for AccessPointParams {
    open spec fn obeys_eq_spec() -> bool {
        true
    }

    open spec fn eq_spec(&self, other: &Self) -> bool {
        self@ == other@
    }
}

/// The mode that the radio should be in.
pub enum TargetMode {
    /// Radio off.
    Off,
    /// Station only.
    Client(StationParams),
    /// Access point only.
    AccessPoint(AccessPointParams),
    /// Station and access point at once.
    ApSta(StationParams, AccessPointParams),
}

/// What a [`TargetMode`] holds.
pub enum TargetModeView {
    Off,
    Client(StationParamsView),
    AccessPoint(AccessPointParamsView),
    ApSta(StationParamsView, AccessPointParamsView),
}

impl View for TargetMode {
    type V = TargetModeView;

    open spec fn view(&self) -> TargetModeView {
        match self {
            TargetMode::Off => TargetModeView::Off,
            TargetMode::Client(sta) => TargetModeView::Client(sta@),
            TargetMode::AccessPoint(ap) => TargetModeView::AccessPoint(ap@),
            TargetMode::ApSta(sta, ap) => TargetModeView::ApSta(sta@, ap@),
        }
    }
}

impl TargetModeView {
    /// Whether the mode has the radio join a network.
    pub open spec fn has_station(self) -> bool {
        self is Client || self is ApSta
    }
}

impl Clone for TargetMode {
    fn clone(&self) -> (copy: Self)
        ensures
            copy == *self,
    {
        match self {
            TargetMode::Off => TargetMode::Off,
            TargetMode::Client(sta) => TargetMode::Client(sta.clone()),
            TargetMode::AccessPoint(ap) => TargetMode::AccessPoint(ap.clone()),
            TargetMode::ApSta(sta, ap) => TargetMode::ApSta(sta.clone(), ap.clone()),
        }
    }
}

impl PartialEq for TargetMode {
    fn eq(&self, other: &Self) -> (equal: bool) {
        match (self, other) {
            (TargetMode::Off, TargetMode::Off) => true,
            (TargetMode::Client(a), TargetMode::Client(b)) => a == b,
            (TargetMode::AccessPoint(a), TargetMode::AccessPoint(b)) => a == b,
            (TargetMode::ApSta(a, c), TargetMode::ApSta(b, d)) => a == b && c == d,
            _ => false,
        }
    }
}

impl PartialEqSpecImpl for TargetMode {
    open spec fn obeys_eq_spec() -> bool {
        true
    }

    open spec fn eq_spec(&self, other: &Self) -> bool {
        self@ == other@
    }
}

/// State of the station side of the radio, as the radio reports it.
#[derive(Clone, Copy, Debug, PartialEq, Eq, Structural)]
pub enum WifiStaState {
    /// Started, not connected.
    Started,
    /// Connected to the network.
    Connected,
    /// The connection was lost.
    Disconnected,
    /// Stopped.
    Stopped,
    /// None of the others.
    Invalid,
}

} // verus!
