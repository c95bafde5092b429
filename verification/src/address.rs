//! Link-layer node addresses and their one-byte wire form.

use vstd::prelude::*;

verus! {

/// A node address: either the reserved broadcast address or a unicast
/// address in `0..=254`. On the wire, `Broadcast` is the byte `255` and
/// `Unicast(n)` is the byte `n`.
#[derive(Debug, Clone, Copy, PartialEq, Eq, Structural)]
pub enum Address {
    Broadcast,
    Unicast(u8),
}

impl Address {
    /// A well-formed address never carries `255` in its `Unicast` payload;
    /// that byte is reserved for `Broadcast`.
    pub open spec fn wf(self) -> bool {
        match self {
            Address::Broadcast => true,
            Address::Unicast(n) => n != 255,
        }
    }

    /// The one-byte wire form of an address.
    pub open spec fn spec_as_u8(self) -> u8 {
        match self {
            Address::Broadcast => 255,
            Address::Unicast(n) => n,
        }
    }

    /// The address a received wire byte decodes to.
    pub open spec fn spec_from_u8(addr: u8) -> Address {
        if addr == 255 {
            Address::Broadcast
        } else {
            Address::Unicast(addr)
        }
    }

    /// Decodes a wire byte into an address; `255` is `Broadcast`.
    pub fn from_u8(addr: u8) -> (r: Address)
        ensures
            r == Address::spec_from_u8(addr),
            r.wf(),
    {
        if addr == 255 {
            Address::Broadcast
        } else {
            Address::Unicast(addr)
        }
    }

    /// Encodes the address as its wire byte.
    pub fn as_u8(&self) -> (r: u8)
        ensures
            r == self.spec_as_u8(),
    {
        match self {
            Address::Broadcast => 255,
            Address::Unicast(addr) => *addr,
        }
    }
}

/// Every well-formed address survives the trip onto the wire and back,
/// and every wire byte survives the trip into an address and back.
pub proof fn lemma_address_roundtrip(a: Address, b: u8)
    requires
        a.wf(),
    ensures
        Address::spec_from_u8(a.spec_as_u8()) == a,
        Address::spec_from_u8(b).spec_as_u8() == b,
{
}

} // verus!
