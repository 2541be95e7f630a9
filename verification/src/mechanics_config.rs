//! What the mechanics start from.

use crate::quantities::{Position, Velocity};
use vstd::prelude::*;

verus! {

/// Position and speed limits of the joints at power-on.
#[derive(Clone, Debug, PartialEq)]
pub struct StartupMechanicsConfig {
    /// Position of the manipulator.
    pub init_position: Position,
    /// Largest speed of each joint.
    pub max_speed: Velocity,
}

} // verus!
