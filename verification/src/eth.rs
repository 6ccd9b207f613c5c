//! Running over Ethernet.
use vstd::prelude::*;

use crate::network::{DiscoveryCapabilities, Embedding, Network};
use crate::persist::{MatterKvBlobStoreBufInstance, KV_BLOB_BUF_SIZE};
use crate::stack::{MatterStack, Startup};

verus! {

/// An implementation of the `Network` trait for Ethernet.
///
/// Note that "Ethernet" - in the context of this crate - means
/// not just the Ethernet transport, but also any other IP-based transport
/// (like Wifi or Thread), where the Matter stack would not be concerned
/// with the management of the network transport (as in re-connecting to the
/// network on lost signal, managing network credentials and so on).
#[derive(Debug)]
pub struct Eth<E> {
    embedding: E,
}

impl<E: Embedding> Network for Eth<E> {
    type Embedding = E;

    closed spec fn embedded(&self) -> E {
        self.embedding
    }

    open spec fn capabilities() -> u8 {
        0x04
    }

    fn init() -> (r: Self) {
        Eth { embedding: E::init() }
    }

    fn discovery_capabilities(&self) -> (r: DiscoveryCapabilities)
        ensures
            r@ == 0x04,
    {
        DiscoveryCapabilities::ip()
    }

    fn embedding(&self) -> (r: &E) {
        &self.embedding
    }
}

/// A type alias for a Matter stack running over Ethernet, with a buffer of the default size.
pub type EthMatterStack<const B: usize, E> = MatterStack<B, KV_BLOB_BUF_SIZE, Eth<E>>;

/// A specialization of the `MatterStack` for Ethernet.
impl<const B: usize, const S: usize, E: Embedding> MatterStack<B, S, Eth<E>> {
    /// Reset the device to the factory defaults by removing all fabrics and basic info settings:
    /// return the buffer through which this is to be done.
    pub fn reset(&mut self) -> (r: MatterKvBlobStoreBufInstance)
        requires
            old(self).wf(),
            old(self).store().contents() is Some,
        ensures
            final(self).wf(),
            final(self).net() == old(self).net(),
            final(self).phase() == old(self).phase(),
            final(self).memory() == old(self).memory(),
            final(self).store().contents() is None,
            r@ == crate::persist::filled_up(old(self).store().contents()->0, S as nat),
    {
        self.take_store_buf()
    }

    /// Load the persisted state: return the buffer through which this is to be done.
    pub fn load(&mut self) -> (r: MatterKvBlobStoreBufInstance)
        requires
            old(self).wf(),
            old(self).store().contents() is Some,
        ensures
            final(self).wf(),
            final(self).net() == old(self).net(),
            final(self).phase() == old(self).phase(),
            final(self).memory() == old(self).memory(),
            final(self).store().contents() is None,
            r@ == crate::persist::filled_up(old(self).store().contents()->0, S as nat),
    {
        self.take_store_buf()
    }

    /// Start the startup sequence of the stack, which includes loading the persisted state
    /// and opening the basic communication window if the device is not commissioned yet: return
    /// the sequence, and the buffer for its first step, through which the state is to be loaded.
    pub fn startup(&mut self) -> (r: (Startup, MatterKvBlobStoreBufInstance))
        requires
            old(self).wf(),
            old(self).store().contents() is Some,
        ensures
            final(self).wf(),
            final(self).net() == old(self).net(),
            final(self).phase() == old(self).phase(),
            final(self).memory() == old(self).memory(),
            final(self).store().contents() is None,
            r.0 == (Startup::Loading { icd: false }),
            r.1@ == crate::persist::filled_up(old(self).store().contents()->0, S as nat),
    {
        (Startup::new(false), self.load())
    }
}

/// A utility type for running an ethernet task with a pre-existing ethernet interface
/// rather than bringing up / tearing down the ethernet interface for the task.
#[derive(Debug)]
pub struct PreexistingEthernet<S, N, M> {
    stack: S,
    netif: N,
    mdns: M,
}

impl<S, N, M> PreexistingEthernet<S, N, M> {
    /// The network stack.
    pub closed spec fn stack(&self) -> S {
        self.stack
    }

    /// The network interface.
    pub closed spec fn netif(&self) -> N {
        self.netif
    }

    /// The mDNS.
    pub closed spec fn mdns(&self) -> M {
        self.mdns
    }

    /// Create a new `PreexistingEthernet` instance with the given network interface, UDP stack and mDNS.
    pub fn new(stack: S, netif: N, mdns: M) -> (r: Self)
        ensures
            r.stack() == stack,
            r.netif() == netif,
            r.mdns() == mdns,
    {
        Self { stack, netif, mdns }
    }

    /// Return what a task is run with: the network stack, the network interface and the mDNS.
    pub fn run<'a>(&'a mut self) -> (r: (&'a S, &'a N, &'a mut M))
        ensures
            *r.0 == old(self).stack(),
            *r.1 == old(self).netif(),
            *r.2 == old(self).mdns(),
            final(self).stack() == old(self).stack(),
            final(self).netif() == old(self).netif(),
            final(self).mdns() == *final(r.2),
    {
        (&self.stack, &self.netif, &mut self.mdns)
    }
}

} // verus!
