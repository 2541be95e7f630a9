//! The network orchestrator: which mode the radio should be in, given the
//! configuration that the operator selected and whether a client is there.
//!
//! The orchestrator first tries the pure mode of the configuration, a station
//! where a network to join is configured and the access point otherwise. A
//! client that connects locks that mode. Where none comes within the survival
//! timeout and a station is configured, the access point is opened beside it.

use crate::radio::{
    AccessPointParams, AccessPointParamsView, StationParams, StationParamsView, TargetMode,
    TargetModeView, WifiInterface,
};
use crate::wifi_config::{AccessPointConfig, AccessPointConfigView, WifiConfig, WifiConfigView};
use vstd::prelude::*;

verus! {

/// Seconds without a client after which the optimistic mode gives way.
pub const SURVIVAL_TIMEOUT_SECS: u64 = 30;

impl WifiConfigView {
    /// What the radio is told of the network to join, where one is
    /// configured: its name, password, authentication and address.
    pub open spec fn station_params(self) -> Option<StationParamsView> {
        match self.client {
            Some(client) => Some(
                StationParamsView {
                    ssid: client.ssid,
                    password: client.password,
                    auth_method: client.auth_method,
                    bssid: client.bssid,
                },
            ),
            None => None,
        }
    }

    /// What the radio is told of the access point: name, password, channel,
    /// authentication and protocols of the configured one, or of the default
    /// one where none is configured.
    pub open spec fn access_point_params(self) -> AccessPointParamsView {
        let source = match self.access_point {
            Some(access_point) => access_point,
            None => AccessPointConfigView::default_view(),
        };
        AccessPointParamsView {
            ssid: source.ssid,
            password: source.password,
            channel: source.channel,
            auth_method: source.auth_method,
            protocols: source.protocols,
        }
    }

    /// The pure mode: station only where a network to join is configured,
    /// access point only otherwise.
    pub open spec fn pure_mode(self) -> TargetModeView {
        match self.station_params() {
            Some(station) => TargetModeView::Client(station),
            None => TargetModeView::AccessPoint(self.access_point_params()),
        }
    }

    /// The survival mode: station and access point at once where a network
    /// to join is configured, access point only otherwise.
    pub open spec fn survival_mode(self) -> TargetModeView {
        match self.station_params() {
            Some(station) => TargetModeView::ApSta(station, self.access_point_params()),
            None => TargetModeView::AccessPoint(self.access_point_params()),
        }
    }
}

impl WifiConfig {
    /// The access point part of a mode.
    pub fn get_ap_config(&self) -> (params: AccessPointParams)
        ensures
            params@ == self@.access_point_params(),
    {
        let source = match &self.access_point {
            Some(access_point) => access_point.clone(),
            None => AccessPointConfig::default(),
        };
        AccessPointParams {
            ssid: source.ssid,
            password: source.password,
            channel: source.channel,
            auth_method: source.auth_method,
            protocols: source.protocols,
        }
    }

    /// The station part of a mode, where a network to join is configured.
    pub fn get_sta_config(&self) -> (params: Option<StationParams>)
        ensures
            match params {
                Some(station) => self@.station_params() == Some(station@),
                None => self@.station_params() is None,
            },
    {
        match &self.client {
            Some(client) => Some(
                StationParams {
                    ssid: client.ssid.clone(),
                    password: client.password.clone(),
                    auth_method: client.auth_method,
                    bssid: client.bssid,
                },
            ),
            None => None,
        }
    }

    /// The survival mode of the configuration.
    pub fn to_survival_config(self) -> (mode: TargetMode)
        ensures
            mode@ == self@.survival_mode(),
    {
        match self.get_sta_config() {
            Some(station) => TargetMode::ApSta(station, self.get_ap_config()),
            None => TargetMode::AccessPoint(self.get_ap_config()),
        }
    }

    /// The pure mode of the configuration.
    pub fn to_pure_config(&self) -> (mode: TargetMode)
        ensures
            mode@ == self@.pure_mode(),
    {
        match self.get_sta_config() {
            Some(station) => TargetMode::Client(station),
            None => TargetMode::AccessPoint(self.get_ap_config()),
        }
    }
}

/// Where the orchestrator stands.
#[derive(Clone, Copy, Debug, PartialEq, Eq, Structural)]
pub enum ManagerState {
    /// Trying the pure mode, waiting for a client.
    Optimistic,
    /// A client is connected, or nothing is left to try: the mode stays.
    Locked,
    /// No client came: the access point is open beside the station.
    Survival,
}

/// What the orchestrator waits for.
pub enum ManagerEvent {
    /// The transport reported over which interface a client is connected.
    Interface(WifiInterface),
    /// The operator selected a new configuration.
    ConfigUpdated(WifiConfig),
    /// The survival timeout passed.
    SurvivalTimeout,
}

impl ManagerState {
    /// The mode that the radio should be in while the orchestrator stands
    /// here: the survival mode in `Survival`, the pure mode elsewhere.
    pub open spec fn mode(self, config: WifiConfigView) -> TargetModeView {
        match self {
            ManagerState::Optimistic | ManagerState::Locked => config.pure_mode(),
            ManagerState::Survival => config.survival_mode(),
        }
    }

    /// Where `event` takes the orchestrator from here, `config` being the
    /// configuration in force when the event comes.
    ///
    /// A new configuration always leads back to `Optimistic`. A client that
    /// connects locks the mode; the last client leaving a locked mode leads
    /// back to `Optimistic`. The survival timeout counts only in
    /// `Optimistic`: with a network to join configured it leads to
    /// `Survival`, without one there is nothing more to try and the mode is
    /// locked.
    pub open spec fn next(self, event: ManagerEvent, config: WifiConfigView) -> ManagerState {
        match (self, event) {
            (_, ManagerEvent::ConfigUpdated(_)) => ManagerState::Optimistic,
            (ManagerState::Optimistic, ManagerEvent::Interface(interface)) => {
                if interface != WifiInterface::NoClient {
                    ManagerState::Locked
                } else {
                    ManagerState::Optimistic
                }
            },
            (ManagerState::Optimistic, ManagerEvent::SurvivalTimeout) => {
                if config.client is Some {
                    ManagerState::Survival
                } else {
                    ManagerState::Locked
                }
            },
            (ManagerState::Locked, ManagerEvent::Interface(interface)) => {
                if interface == WifiInterface::NoClient {
                    ManagerState::Optimistic
                } else {
                    ManagerState::Locked
                }
            },
            (ManagerState::Survival, ManagerEvent::Interface(interface)) => {
                if interface != WifiInterface::NoClient {
                    ManagerState::Locked
                } else {
                    ManagerState::Survival
                }
            },
            (ManagerState::Locked, ManagerEvent::SurvivalTimeout) => ManagerState::Locked,
            (ManagerState::Survival, ManagerEvent::SurvivalTimeout) => ManagerState::Survival,
        }
    }

    /// Seconds after which the survival timeout is due, where it runs: it is
    /// started anew on every entry into `Optimistic`.
    pub fn survival_timeout(self) -> (seconds: Option<u64>)
        ensures
            seconds == if self == ManagerState::Optimistic {
                Some(SURVIVAL_TIMEOUT_SECS)
            } else {
                None::<u64>
            },
    {
        match self {
            ManagerState::Optimistic => Some(SURVIVAL_TIMEOUT_SECS),
            _ => None,
        }
    }
}

/// The configuration in force once `event` has come.
pub open spec fn config_after(event: ManagerEvent, config: WifiConfigView) -> WifiConfigView {
    match event {
        ManagerEvent::ConfigUpdated(updated) => updated@,
        _ => config,
    }
}

/// What one turn of the orchestrator leaves: where it stands, the
/// configuration in force, and the mode that it publishes.
pub struct ManagerTurn {
    pub state: ManagerState,
    pub config: WifiConfig,
    pub mode: TargetMode,
}

/// The network orchestrator.
pub struct Manager(());

impl Manager {
    /// An orchestrator. It holds nothing: where it stands and the
    /// configuration in force travel through [`Manager::run`].
    pub fn make() -> Self {
        Manager(())
    }

    /// The first turn, once the configuration of the boot has arrived: the
    /// orchestrator is optimistic and publishes the pure mode.
    pub fn start(&self, config: WifiConfig) -> (turn: ManagerTurn)
        ensures
            turn.state == ManagerState::Optimistic,
            turn.config@ == config@,
            turn.mode@ == config@.pure_mode(),
    {
        let mode = config.to_pure_config();
        ManagerTurn { state: ManagerState::Optimistic, config, mode }
    }

    /// One turn of the orchestrator: takes `event` in `state`, with `config`
    /// in force, and gives the next state, the configuration then in force
    /// and the mode to publish for them.
    pub fn run(&self, state: ManagerState, config: WifiConfig, event: ManagerEvent) -> (turn:
        ManagerTurn)
        ensures
            turn.state == state.next(event, config@),
            turn.config@ == config_after(event, config@),
            turn.mode@ == turn.state.mode(turn.config@),
    {
        let (next, config) = match event {
            ManagerEvent::ConfigUpdated(updated) => (ManagerState::Optimistic, updated),
            ManagerEvent::Interface(interface) => {
                let connected = interface != WifiInterface::NoClient;
                let next = match state {
                    ManagerState::Optimistic | ManagerState::Survival => {
                        if connected {
                            ManagerState::Locked
                        } else {
                            state
                        }
                    },
                    ManagerState::Locked => {
                        if connected {
                            ManagerState::Locked
                        } else {
                            ManagerState::Optimistic
                        }
                    },
                };
                (next, config)
            },
            ManagerEvent::SurvivalTimeout => {
                let next = match state {
                    ManagerState::Optimistic => {
                        if config.client.is_some() {
                            ManagerState::Survival
                        } else {
                            ManagerState::Locked
                        }
                    },
                    _ => state,
                };
                (next, config)
            },
        };
        let mode = match next {
            ManagerState::Optimistic | ManagerState::Locked => config.to_pure_config(),
            ManagerState::Survival => config.clone().to_survival_config(),
        };
        ManagerTurn { state: next, config, mode }
    }
}

} // verus!
