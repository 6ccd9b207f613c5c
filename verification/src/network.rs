//! The kinds of networks that the stack runs over.
use vstd::prelude::*;

verus! {

/// The ways in which a device can be discovered when it is to be commissioned, as a bitmap.
#[derive(Debug, Clone, Copy, PartialEq, Eq, Structural)]
pub struct DiscoveryCapabilities {
    bits: u8,
}

impl DiscoveryCapabilities {
    /// The bitmap.
    pub closed spec fn view(&self) -> u8 {
        self.bits
    }

    /// Over BLE only.
    pub fn ble() -> (r: Self)
        ensures
            r@ == 0x02,
    {
        DiscoveryCapabilities { bits: 0x02 }
    }

    /// Over the IP network only.
    pub fn ip() -> (r: Self)
        ensures
            r@ == 0x04,
    {
        DiscoveryCapabilities { bits: 0x04 }
    }

    /// Return the bitmap.
    pub fn bits(&self) -> (r: u8)
        ensures
            r == self@,
    {
        self.bits
    }
}

/// User data that can be embedded in the stack network.
pub trait Embedding: Sized {
    /// Return the data at the start.
    fn init() -> Self;
}

impl Embedding for () {
    fn init() -> Self {
        ()
    }
}

/// A trait modeling a specific network type.
/// `MatterStack` is parameterized by a network type implementing this trait.
///
/// The trait has only two implementations: `Eth` and `WirelessBle`.
pub trait Network: Sized {
    /// Optional additional state embedded in the network state
    type Embedding: Embedding;

    /// The embedded user data.
    spec fn embedded(&self) -> Self::Embedding;

    /// The bitmap of the discovery capabilities.
    spec fn capabilities() -> u8;

    /// Return the network at the start.
    fn init() -> (r: Self)
        ensures
            call_ensures(<Self::Embedding as Embedding>::init, (), r.embedded()),
    ;

    /// Return the discovery capabilities of this network when commissioning the device.
    fn discovery_capabilities(&self) -> (r: DiscoveryCapabilities)
        ensures
            r@ == Self::capabilities(),
    ;

    /// Return a reference to the embedded user data.
    fn embedding(&self) -> (r: &Self::Embedding)
        ensures
            *r == self.embedded(),
    ;
}

} // verus!
