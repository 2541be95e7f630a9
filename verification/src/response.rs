//! What the device answers.

use vstd::prelude::*;

verus! {

/// An acknowledgement, one for each request that was carried out.
#[derive(Copy, Clone, Debug, PartialEq, Eq, Structural)]
pub enum Response {
    /// The target position is reached.
    PositionAck,
    /// The command is processed.
    CommandAck,
}

} // verus!
