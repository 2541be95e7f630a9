//! One value for each of the four joints of the manipulator.

use crate::units::{Radians, RadiansPerSecond, Seconds};
use vstd::prelude::*;

verus! {

/// A value of the unit `Unit` for each joint.
#[derive(Clone, Copy, Debug, PartialEq)]
pub struct Quantity<Unit> {
    pub rotation: Unit,
    pub shoulder: Unit,
    pub forearm: Unit,
    pub claw: Unit,
}

/// The angle of each joint.
pub type Position = Quantity<Radians>;

/// The angular velocity of each joint.
pub type Velocity = Quantity<RadiansPerSecond>;

/// A time for each joint.
pub type Duration = Quantity<Seconds>;

} // verus!
