//! Depths of the queues that connect the tasks.

use vstd::prelude::*;

verus! {

/// Target positions that can wait for the motion core.
pub const POS_QUEUE_LEN: usize = 16;

/// Acknowledgements of reached positions that can wait for the transport.
pub const POS_ACK_QUEUE_LEN: usize = 1;

/// Commands that can wait for the configurator.
pub const CMD_QUEUE_LEN: usize = 1;

/// Acknowledgements of commands that can wait for the transport.
pub const CMD_ACK_QUEUE_LEN: usize = 1;

/// Bytes of heap for the bookkeeping of the network stack.
pub const HEAP_SIZE: usize = 98767;

/// Bytes of stack of the motion core.
pub const CORE1_STACK_SIZE: usize = 16384;

} // verus!
