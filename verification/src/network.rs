//! What the network stacks of the two interfaces are set up with.

use vstd::prelude::*;

verus! {

/// Length of the network prefix of the access point's static address.
pub const AP_PREFIX_LEN: u8 = 24;

/// Number of sockets that the stack of one interface can hold.
pub const STACK_SOCKETS: usize = 3;

/// The static address of the device on its own access point, 192.168.4.1,
/// first byte first.
pub fn ap_address() -> (address: [u8; 4])
    ensures
        address@ == seq![192u8, 168, 4, 1],
{
    let address: [u8; 4] = [192, 168, 4, 1];
    proof {
        assert(address@ =~= seq![192u8, 168, 4, 1]);
    }
    address
}

/// The seed of a network stack, made of two words of the random number
/// generator: `low` gives the low half and `high` the high half.
pub fn random_seed(low: u32, high: u32) -> (seed: u64)
    ensures
        seed == low + high * 0x1_0000_0000,
        seed % 0x1_0000_0000 == low,
        seed / 0x1_0000_0000 == high,
{
    let low_half: u64 = low as u64;
    let high_half: u64 = high as u64;
    low_half + high_half * 0x1_0000_0000
}

} // verus!
