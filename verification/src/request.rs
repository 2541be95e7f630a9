//! What a client asks of the device.

use crate::quantities::Position;
use crate::units::RadianPerSecond;
use crate::wifi_config::WifiConfig;
use vstd::prelude::*;

verus! {

/// A message from the client.
#[derive(PartialEq)]
pub enum Request {
    /// A target position for the queue of the motion core.
    Enqueue(Position),
    /// A command that goes past the queue.
    Immediate(Command),
}

/// A command to the configurator.
#[derive(PartialEq)]
pub enum Command {
    /// Reserved.
    SetMaxSpeed(RadianPerSecond),
    /// Select a Wi-Fi configuration.
    ConfigureWifi(WifiConfig),
}

} // verus!
