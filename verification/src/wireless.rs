//! Running over BLE during commissioning, and over Wifi or Thread when operating.
use vstd::prelude::*;

use core::marker::PhantomData;

use crate::network::{DiscoveryCapabilities, Embedding, Network};
use crate::persist::KV_BLOB_BUF_SIZE;
use crate::stack::{FactoryReset, MatterStack, Startup};
use crate::wireless::net_ctl::NetCtlState;

pub mod gatt;
pub mod net_ctl;
pub mod wifi;
pub mod window;

verus! {

/// How many wireless networks are stored at most.
pub const MAX_WIRELESS_NETWORKS: usize = 2;

/// An implementation of the `Network` trait for a Matter stack running over
/// BLE during commissioning, and then over either WiFi or Thread when operating.
///
/// The supported commissioning is either concurrent or non-concurrent.
/// Non-concurrent commissioning means that the device - at any point in time - either runs Bluetooth
/// or Wifi/Thread, but not both.
///
/// This is done to save memory and to avoid the usage of BLE+Wifi/Thread co-exist drivers on
/// devices which share a single wireless radio for both BLE and Wifi/Thread.
///
/// `T` is the type of the wireless network.
pub struct WirelessBle<T, E> {
    net_state: NetCtlState,
    embedding: E,
    network: PhantomData<T>,
}

impl<T, E> WirelessBle<T, E> {
    /// The outcome of the last scan or connect.
    pub closed spec fn net_state(&self) -> NetCtlState {
        self.net_state
    }
}

impl<T, E: Embedding> WirelessBle<T, E> {
    /// Creates a new instance of the `WirelessBle` network type.
    pub fn new() -> (r: Self)
        ensures
            r.net_state().forgotten(),
            r.net_state().network_id@.len() == 0,
            r.net_state().networking_status is None,
            r.net_state().connect_error_value is None,
            call_ensures(<E as Embedding>::init, (), r.embedded()),
    {
        WirelessBle { net_state: NetCtlState::new(), embedding: E::init(), network: PhantomData }
    }

    /// Return the outcome of the last scan or connect.
    pub fn net_ctl_state(&self) -> (r: &NetCtlState)
        ensures
            *r == self.net_state(),
    {
        &self.net_state
    }

    /// Note the outcome of a scan or connect.
    pub fn set_net_ctl_state(&mut self, net_state: NetCtlState)
        ensures
            final(self).net_state() == net_state,
            final(self).embedded() == old(self).embedded(),
    {
        self.net_state = net_state;
    }
}

impl<T, E: Embedding> Default for WirelessBle<T, E> {
    fn default() -> (r: Self)
        ensures
            r.net_state().forgotten(),
            r.net_state().network_id@.len() == 0,
            r.net_state().networking_status is None,
            r.net_state().connect_error_value is None,
            call_ensures(<E as Embedding>::init, (), r.embedded()),
    {
        Self::new()
    }
}

impl<T, E: Embedding> Network for WirelessBle<T, E> {
    type Embedding = E;

    closed spec fn embedded(&self) -> E {
        self.embedding
    }

    open spec fn capabilities() -> u8 {
        0x02
    }

    fn init() -> (r: Self)
        ensures
            r.net_state().forgotten(),
            r.net_state().network_id@.len() == 0,
            r.net_state().networking_status is None,
            r.net_state().connect_error_value is None,
    {
        WirelessBle::new()
    }

    fn discovery_capabilities(&self) -> (r: DiscoveryCapabilities)
        ensures
            r@ == 0x02,
    {
        DiscoveryCapabilities::ble()
    }

    fn embedding(&self) -> (r: &E) {
        &self.embedding
    }
}

/// A type alias for a Matter stack running over either Wifi or Thread (and BLE, during commissioning),
/// with a buffer of the default size.
pub type WirelessMatterStack<const B: usize, T, E> = MatterStack<
    B,
    KV_BLOB_BUF_SIZE,
    WirelessBle<T, E>,
>;

impl<const B: usize, const S: usize, T, E: Embedding> MatterStack<B, S, WirelessBle<T, E>> {
    /// Start the reset to the factory defaults by removing all fabrics and basic info settings,
    /// along with the state for intermittently connected devices, if there is any.
    pub fn reset(&self, icd: bool) -> (r: FactoryReset)
        ensures
            r == (FactoryReset::Fabrics { icd }),
    {
        FactoryReset::new(icd)
    }

    /// Start the startup sequence of the stack: re-hydrate the persisted state and
    /// open the basic communication window if the device is not commissioned yet.
    pub fn startup(&self, icd: bool) -> (r: Startup)
        ensures
            r == (Startup::Loading { icd }),
    {
        Startup::new(icd)
    }

    /// Forget the outcome of the last scan or connect.
    ///
    /// The BLE phase of non-concurrent commissioning ends when the commissioner has handed the
    /// network credentials over, and that verdict is sticky: nothing clears it, it is only ever
    /// overwritten by the next scan / connect. Clearing it as the BLE phase starts scopes it to
    /// the commissioning attempt that this window represents. Without it, a device commissioned
    /// earlier in this same boot would leave a freshly entered BLE phase again after one poll
    /// interval, on the strength of a verdict from the previous commissioning.
    pub fn reset_net_ctl_state(&mut self)
        requires
            old(self).wf(),
        ensures
            final(self).wf(),
            final(self).net().net_state().forgotten(),
            final(self).net().net_state().network_id@.len() == 0,
            final(self).net().net_state().networking_status is None,
            final(self).net().net_state().connect_error_value is None,
            final(self).net().embedded() == old(self).net().embedded(),
            final(self).memory() == old(self).memory(),
            final(self).store() == old(self).store(),
            final(self).phase() == old(self).phase(),
    {
        self.network_mut().net_state.reset();
    }
}

/// A utility type for running a wireless task with a pre-existing wireless interface
/// rather than bringing up / tearing down the wireless interface for the task.
///
/// This utility can only be used with hardware that implements wireless coexist mode
/// (i.e. the Thread/Wifi interface as well as the BLE GATT peripheral are available at the same time).
#[derive(Debug)]
pub struct PreexistingWireless<S, N, C, M, G> {
    net_stack: S,
    netif: N,
    net_ctl: C,
    mdns: M,
    gatt: G,
}

impl<S, N, C, M, G> PreexistingWireless<S, N, C, M, G> {
    /// The network stack.
    pub closed spec fn net_stack(&self) -> S {
        self.net_stack
    }

    /// The network interface.
    pub closed spec fn netif(&self) -> N {
        self.netif
    }

    /// The network controller.
    pub closed spec fn net_ctl(&self) -> C {
        self.net_ctl
    }

    /// The mDNS.
    pub closed spec fn mdns(&self) -> M {
        self.mdns
    }

    /// The GATT peripheral.
    pub closed spec fn gatt(&self) -> G {
        self.gatt
    }

    /// Create a new `PreexistingWireless` instance with the given network stack,
    /// network interface, network controller and GATT peripheral.
    pub fn new(net_stack: S, netif: N, net_ctl: C, mdns: M, gatt: G) -> (r: Self)
        ensures
            r.net_stack() == net_stack,
            r.netif() == netif,
            r.net_ctl() == net_ctl,
            r.mdns() == mdns,
            r.gatt() == gatt,
    {
        Self { net_stack, netif, net_ctl, mdns, gatt }
    }

    /// Return what a task is run with: the network stack, the network interface, the network
    /// controller, the mDNS and the GATT peripheral.
    pub fn run<'a>(&'a mut self) -> (r: (&'a S, &'a N, &'a C, &'a mut M, &'a mut G))
        ensures
            *r.0 == old(self).net_stack(),
            *r.1 == old(self).netif(),
            *r.2 == old(self).net_ctl(),
            *r.3 == old(self).mdns(),
            *r.4 == old(self).gatt(),
            final(self).net_stack() == old(self).net_stack(),
            final(self).netif() == old(self).netif(),
            final(self).net_ctl() == old(self).net_ctl(),
            final(self).mdns() == *final(r.3),
            final(self).gatt() == *final(r.4),
    {
        (&self.net_stack, &self.netif, &self.net_ctl, &mut self.mdns, &mut self.gatt)
    }
}

} // verus!
