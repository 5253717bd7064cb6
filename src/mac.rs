//! Addresses of the nodes on a link.
use vstd::prelude::*;

verus! {

/// The address of a node: a PAN identifier and a short address
#[derive(Clone, Copy, Debug, PartialEq, Eq, Structural)]
pub struct Address {
    /// The PAN identifier
    pub pan_id: u16,
    /// The short address
    pub short_addr: u16,
}

impl Address {
    /// The address that reaches every node
    pub fn broadcast() -> (r: Address)
        ensures
            r == Address::spec_broadcast(),
    {
        Address { pan_id: 0xffff, short_addr: 0xffff }
    }

    /// The address that reaches every node
    pub open spec fn spec_broadcast() -> Address {
        Address { pan_id: 0xffff, short_addr: 0xffff }
    }
}

} // verus!
