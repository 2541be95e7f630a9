//! The Wi-Fi provider: turns the mode that the orchestrator publishes into
//! what is asked of the radio, and keeps the station connected.

use crate::radio::{TargetMode, TargetModeView, WifiStaState};
use vstd::prelude::*;

verus! {

/// Seconds to wait after a failed attempt to connect.
pub const CONNECT_RETRY_TIMEOUT_SECS: u64 = 10;

/// Seconds to wait after a failed attempt to start the station.
pub const START_RETRY_TIMEOUT_SECS: u64 = 10;

/// Seconds to wait after a failed attempt to stop the radio.
pub const STOP_RETRY_TIMEOUT_SECS: u64 = 10;

/// Milliseconds that the hardware is given to settle after a change, and
/// between two looks at the connection.
pub const WIFI_STABILIZATION_DELAY_MS: u64 = 1000;

/// What watching the connection amounts to, beside waiting for a new mode.
#[derive(Clone, Copy, Debug, PartialEq, Eq, Structural)]
pub enum Watch {
    /// The station is connected: wait until the radio reports that the
    /// connection is lost.
    AwaitDisconnect,
    /// The station is wanted and not connected: there is nothing to wait for.
    Done,
    /// No station is wanted: only a new mode can end the wait.
    Forever,
}

/// What is asked of the radio when a mode arrives.
#[derive(PartialEq)]
pub enum UpdatePlan {
    /// The mode is the one in force: nothing is asked.
    Keep,
    /// Stop the radio first where `stop_first` says so, trying again after
    /// [`STOP_RETRY_TIMEOUT_SECS`] until it stops. Hand `mode` to the radio.
    /// Start the radio where `start` says so. Then let the hardware settle
    /// for [`WIFI_STABILIZATION_DELAY_MS`]. A failure to hand over or to
    /// start ends nothing.
    Apply { stop_first: bool, mode: TargetMode, start: bool },
}

/// What is asked of the radio to keep the station connected.
#[derive(Clone, Copy, Debug, PartialEq, Eq, Structural)]
pub enum StaAction {
    /// Start the station; after a failure wait [`START_RETRY_TIMEOUT_SECS`].
    Start,
    /// Connect; after a failure wait [`CONNECT_RETRY_TIMEOUT_SECS`].
    Connect,
    /// The station is connected, or on its way.
    Nothing,
}

impl StaAction {
    /// What keeps the station connected while the radio reports `state`.
    pub open spec fn of(state: WifiStaState) -> StaAction {
        match state {
            WifiStaState::Stopped => StaAction::Start,
            WifiStaState::Started | WifiStaState::Disconnected => StaAction::Connect,
            WifiStaState::Connected | WifiStaState::Invalid => StaAction::Nothing,
        }
    }
}

/// The mode that an optional mode holds.
pub open spec fn mode_view(mode: Option<TargetMode>) -> Option<TargetModeView> {
    match mode {
        Some(mode) => Some(mode@),
        None => None,
    }
}

/// The Wi-Fi provider. It remembers the mode that it last handed to the
/// radio.
pub struct WifiProvider {
    current_config: Option<TargetMode>,
}

impl View for WifiProvider {
    type V = Option<TargetModeView>;

    closed spec fn view(&self) -> Option<TargetModeView> {
        mode_view(self.current_config)
    }
}

impl WifiProvider {
    /// A provider that has handed no mode to the radio yet.
    pub fn new() -> (provider: Self)
        ensures
            provider@ is None,
    {
        WifiProvider { current_config: None }
    }

    /// Whether the mode in force has the radio join a network.
    pub open spec fn sta_active(self) -> bool {
        self@ matches Some(mode) && mode.has_station()
    }

    /// The mode to apply in one turn of the provider: the one that arrived,
    /// or, where the turn was started by the connection, the one in force
    /// again. `None` where neither is there.
    pub fn run(&self, arrived: Option<TargetMode>) -> (mode: Option<TargetMode>)
        ensures
            mode_view(mode) == if arrived is Some {
                mode_view(arrived)
            } else {
                self@
            },
    {
        match arrived {
            Some(mode) => Some(mode),
            None => match &self.current_config {
                Some(current) => Some(current.clone()),
                None => None,
            },
        }
    }

    /// What watching the connection amounts to while the radio reports
    /// `state`.
    pub fn watch_connection(&self, state: WifiStaState) -> (watch: Watch)
        ensures
            watch == if !self.sta_active() {
                Watch::Forever
            } else if state == WifiStaState::Connected {
                Watch::AwaitDisconnect
            } else {
                Watch::Done
            },
    {
        if self.is_sta_active() {
            if state == WifiStaState::Connected {
                Watch::AwaitDisconnect
            } else {
                Watch::Done
            }
        } else {
            Watch::Forever
        }
    }

    /// Takes `new_config` as the mode in force and says what to ask of the
    /// radio for it. A mode that differs from the one in force is applied,
    /// on a radio that is stopped first where a mode was in force, and
    /// started after unless the new mode is `Off`.
    pub fn update_config(&mut self, new_config: TargetMode) -> (plan: UpdatePlan)
        ensures
            final(self)@ == Some(new_config@),
            old(self)@ == Some(new_config@) ==> plan is Keep,
            old(self)@ != Some(new_config@) ==> (plan matches UpdatePlan::Apply {
                stop_first,
                mode,
                start,
            } && stop_first == (old(self)@ is Some) && mode@ == new_config@ && start == !(
            new_config is Off)),
    {
        let unchanged = match &self.current_config {
            Some(current) => *current == new_config,
            None => false,
        };
        if unchanged {
            return UpdatePlan::Keep;
        }
        let stop_first = self.current_config.is_some();
        let start = match &new_config {
            TargetMode::Off => false,
            _ => true,
        };
        let mode = new_config.clone();
        self.current_config = Some(new_config);
        UpdatePlan::Apply { stop_first, mode, start }
    }

    /// Whether the mode in force has the radio join a network.
    pub fn is_sta_active(&self) -> (active: bool)
        ensures
            active == self.sta_active(),
    {
        match &self.current_config {
            Some(TargetMode::Client(_)) => true,
            Some(TargetMode::ApSta(_, _)) => true,
            _ => false,
        }
    }

    /// What to ask of the radio to keep the station connected while the
    /// radio reports `state`. Nothing where no station is wanted.
    pub fn maintain_sta_connection(&self, state: WifiStaState) -> (action: StaAction)
        ensures
            action == if self.sta_active() {
                StaAction::of(state)
            } else {
                StaAction::Nothing
            },
    {
        if !self.is_sta_active() {
            return StaAction::Nothing;
        }
        match state {
            WifiStaState::Stopped => StaAction::Start,
            WifiStaState::Started | WifiStaState::Disconnected => StaAction::Connect,
            _ => StaAction::Nothing,
        }
    }
}

} // verus!
