//! The network controller, during commissioning and when operating.
use vstd::prelude::*;

use crate::error::ErrorCode;

verus! {

/// The type of a network.
#[derive(Debug, Clone, Copy, PartialEq, Eq, Structural)]
pub enum NetworkType {
    /// Ethernet
    Ethernet,
    /// Wifi
    Wifi,
    /// Thread
    Thread,
}

/// Why the network controller could not scan or connect.
#[derive(Debug, Clone, Copy, PartialEq, Eq, Structural)]
pub enum NetCtlError<X> {
    /// The network was not found
    NetworkNotFound,
    /// The security of the network is not supported
    UnsupportedSecurity,
    /// The network has refused the credentials
    AuthFailure,
    /// The connection has failed otherwise
    OtherConnectionFailure,
    /// No IP address could be bound
    IpBindFailed,
    /// The IPv6 setup has failed
    IpV6Failed,
    /// Any other error
    Other(X),
}

/// The status of a scan or connect.
#[derive(Debug, Clone, Copy, PartialEq, Eq, Structural)]
pub enum NetworkCommissioningStatus {
    /// The operation was successful
    Success,
    /// A value was out of range
    OutOfRange,
    /// There are too many networks
    BoundsExceeded,
    /// There is no network with that ID
    NetworkIdNotFound,
    /// There is a network with that ID already
    DuplicateNetworkId,
    /// The network was not found
    NetworkNotFound,
    /// The network is not allowed here
    RegulatoryError,
    /// The network has refused the credentials
    AuthFailure,
    /// The security of the network is not supported
    UnsupportedSecurity,
    /// The connection has failed otherwise
    OtherConnectionFailure,
    /// The IPv6 setup has failed
    IpV6Failed,
    /// No IP address could be bound
    IpBindFailed,
    /// Any other error
    UnknownError,
}

/// The outcome of the last scan or connect.
#[derive(Debug)]
pub struct NetCtlState {
    /// The ID of the network
    pub network_id: Vec<u8>,
    /// The status
    pub networking_status: Option<NetworkCommissioningStatus>,
    /// The error, if the last operation was a connect and has failed
    pub connect_error_value: Option<i32>,
}

impl NetCtlState {
    /// There is no outcome.
    pub open spec fn forgotten(&self) -> bool {
        &&& self.network_id@.len() == 0
        &&& self.networking_status is None
        &&& self.connect_error_value is None
    }

    /// Create a new state, without an outcome.
    pub fn new() -> (r: Self)
        ensures
            r.forgotten(),
            r.network_id@.len() == 0,
            r.networking_status is None,
            r.connect_error_value is None,
    {
        NetCtlState { network_id: Vec::new(), networking_status: None, connect_error_value: None }
    }

    /// Forget the outcome.
    pub fn reset(&mut self)
        ensures
            final(self).forgotten(),
            final(self).network_id@.len() == 0,
            final(self).networking_status is None,
            final(self).connect_error_value is None,
    {
        self.network_id.clear();
        self.networking_status = None;
        self.connect_error_value = None;
    }
}

/// A composite wireless network controller that is the same concrete type during both the (BLE)
/// commissioning phase and the operational (Thread/Wifi) phase.
///
/// During commissioning there is no operational controller yet: `scan` fails with
/// `InvalidAction`, `connect` only checks that the credentials match the network type, and every
/// diagnostic is absent. Afterwards, everything is asked of the real controller `Q`. How to ask
/// it is up to the caller, who hands that over as a function.
#[derive(Debug)]
pub enum WirelessNetCtl<'a, Q> {
    /// Commissioning phase: no operational controller yet (BLE only)
    Commissioning(NetworkType),
    /// Operational phase: delegate to the real controller
    Operational(&'a Q),
}

impl<'a, Q> WirelessNetCtl<'a, Q> {
    /// What is `answered` when `ask` is put to this controller: `default` during commissioning,
    /// and what the real controller gives to it afterwards.
    pub open spec fn answers<R, F: FnOnce(&Q) -> R>(
        self,
        ask: F,
        default: R,
        answered: R,
    ) -> bool {
        match self {
            WirelessNetCtl::Commissioning(_) => answered == default,
            WirelessNetCtl::Operational(q) => call_ensures(ask, (q,), answered),
        }
    }

    /// `ask` can be put to the real controller, if there is one.
    pub open spec fn can_ask<R, F: FnOnce(&Q) -> R>(self, ask: F) -> bool {
        self matches WirelessNetCtl::Operational(q) ==> call_requires(ask, (q,))
    }

    /// Put `ask` to the real controller if there is one, else answer with `default`.
    fn ask_or<R, F: FnOnce(&Q) -> R>(&self, ask: F, default: R) -> (r: R)
        requires
            self.can_ask(ask),
        ensures
            self.answers(ask, default, r),
    {
        match self {
            WirelessNetCtl::Commissioning(_) => default,
            WirelessNetCtl::Operational(q) => ask(q),
        }
    }

    /// What is `answered` when `ask` is put to this controller for the visitor `f`: during
    /// commissioning, that of `f` when it visits nothing; afterwards, what the real controller
    /// gives to it.
    pub open spec fn shows<V, X, F, A>(self, f: F, ask: A, answered: Result<(), X>) -> bool where
        F: FnOnce(Option<V>) -> Result<(), X>,
        A: FnOnce(&Q, F) -> Result<(), X>,
     {
        match self {
            WirelessNetCtl::Commissioning(_) => call_ensures(f, (None,), answered),
            WirelessNetCtl::Operational(q) => call_ensures(ask, (q, f), answered),
        }
    }

    /// `ask` can be put to the real controller for the visitor `f`, or `f` can visit nothing.
    pub open spec fn can_show<V, X, F, A>(self, f: F, ask: A) -> bool where
        F: FnOnce(Option<V>) -> Result<(), X>,
        A: FnOnce(&Q, F) -> Result<(), X>,
     {
        match self {
            WirelessNetCtl::Commissioning(_) => call_requires(f, (None,)),
            WirelessNetCtl::Operational(q) => call_requires(ask, (q, f)),
        }
    }

    /// Put `ask` to the real controller for the visitor `f` if there is one, else have `f` visit
    /// nothing.
    fn show_or_none<V, X, F, A>(&self, f: F, ask: A) -> (r: Result<(), X>) where
        F: FnOnce(Option<V>) -> Result<(), X>,
        A: FnOnce(&Q, F) -> Result<(), X>,

        requires
            self.can_show(f, ask),
        ensures
            self.shows(f, ask, r),
    {
        match self {
            WirelessNetCtl::Commissioning(_) => f(None),
            WirelessNetCtl::Operational(q) => ask(q, f),
        }
    }
}

/// During commissioning, whatever the network type, a question has the default as its only answer;
/// afterwards, its answers are exactly those of the real controller.
pub proof fn lemma_answers_come_from_the_real_controller<Q, R, F: FnOnce(&Q) -> R>(
    net_type: NetworkType,
    q: &Q,
    ask: F,
    default: R,
    answered: R,
)
    ensures
        WirelessNetCtl::<Q>::Commissioning(net_type).answers(ask, default, answered) <==> answered
            == default,
        WirelessNetCtl::<Q>::Operational(q).answers(ask, default, answered) <==> call_ensures(
            ask,
            (q,),
            answered,
        ),
{
}

/// During commissioning, whatever the network type, a visitor visits nothing; afterwards, it is
/// handed to the real controller.
pub proof fn lemma_visits_go_to_the_real_controller<Q, V, X, F, A>(
    net_type: NetworkType,
    q: &Q,
    f: F,
    ask: A,
    answered: Result<(), X>,
) where F: FnOnce(Option<V>) -> Result<(), X>, A: FnOnce(&Q, F) -> Result<(), X>
    ensures
        WirelessNetCtl::<Q>::Commissioning(net_type).shows(f, ask, answered) <==> call_ensures(
            f,
            (None,),
            answered,
        ),
        WirelessNetCtl::<Q>::Operational(q).shows(f, ask, answered) <==> call_ensures(
            ask,
            (q, f),
            answered,
        ),
{
}

/// What becomes of a request to connect to a network.
#[derive(Debug)]
pub enum Connect<'a, Q, X> {
    /// It is answered already
    Answered(Result<(), NetCtlError<X>>),
    /// This controller is to connect
    With(&'a Q),
}

/// The part of a network controller.
impl<'a, Q> WirelessNetCtl<'a, Q> {
    /// Return the type of the network.
    pub fn net_type<F: FnOnce(&Q) -> NetworkType>(&self, ask: F) -> (r: NetworkType)
        requires
            self.can_ask(ask),
        ensures
            match *self {
                WirelessNetCtl::Commissioning(net_type) => r == net_type,
                WirelessNetCtl::Operational(q) => call_ensures(ask, (q,), r),
            },
    {
        match self {
            WirelessNetCtl::Commissioning(net_type) => *net_type,
            WirelessNetCtl::Operational(q) => ask(q),
        }
    }

    /// Return how long connecting to a network takes at most, in seconds.
    pub fn connect_max_time_seconds<F: FnOnce(&Q) -> u8>(&self, ask: F) -> (r: u8)
        requires
            self.can_ask(ask),
        ensures
            self.answers(ask, 0u8, r),
    {
        self.ask_or(ask, 0u8)
    }

    /// Return how long scanning for networks takes at most, in seconds.
    pub fn scan_max_time_seconds<F: FnOnce(&Q) -> u8>(&self, ask: F) -> (r: u8)
        requires
            self.can_ask(ask),
        ensures
            self.answers(ask, 0u8, r),
    {
        self.ask_or(ask, 0u8)
    }

    /// Visit the supported Wifi bands: none during commissioning.
    pub fn supported_wifi_bands<X, F: FnOnce(&Q) -> Result<(), X>>(&self, ask: F) -> (r: Result<(), X>)
        requires
            self.can_ask(ask),
        ensures
            self.answers(ask, Ok(()), r),
    {
        self.ask_or(ask, Ok(()))
    }

    /// Return the bitmap of the supported Thread features.
    pub fn supported_thread_features<F: FnOnce(&Q) -> u16>(&self, ask: F) -> (r: u16)
        requires
            self.can_ask(ask),
        ensures
            self.answers(ask, 0u16, r),
    {
        self.ask_or(ask, 0u16)
    }

    /// Return the version of Thread.
    pub fn thread_version<F: FnOnce(&Q) -> u16>(&self, ask: F) -> (r: u16)
        requires
            self.can_ask(ask),
        ensures
            self.answers(ask, 0u16, r),
    {
        self.ask_or(ask, 0u16)
    }

    /// Return the controller that is to scan for networks, or why none can.
    pub fn scan(&self) -> (r: Result<&'a Q, NetCtlError<ErrorCode>>)
        ensures
            r == match *self {
                WirelessNetCtl::Commissioning(_) => Err::<&'a Q, NetCtlError<ErrorCode>>(
                    NetCtlError::Other(ErrorCode::InvalidAction),
                ),
                WirelessNetCtl::Operational(q) => Ok::<&'a Q, NetCtlError<ErrorCode>>(q),
            },
    {
        match self {
            WirelessNetCtl::Commissioning(_) => Err(NetCtlError::Other(ErrorCode::InvalidAction)),
            WirelessNetCtl::Operational(q) => Ok(q),
        }
    }

    /// Return the controller that is to connect to the network with some credentials. During
    /// commissioning, the answer is what `check_match` says of the network type: whether the
    /// credentials are for it.
    pub fn connect<X, F: FnOnce(NetworkType) -> Result<(), X>>(&self, check_match: F) -> (r: Connect<
        'a,
        Q,
        X,
    >)
        requires
            *self matches WirelessNetCtl::Commissioning(net_type) ==> call_requires(
                check_match,
                (net_type,),
            ),
        ensures
            match *self {
                WirelessNetCtl::Commissioning(net_type) => exists|checked: Result<(), X>|
                    {
                        &&& #[trigger] call_ensures(check_match, (net_type,), checked)
                        &&& r == Connect::<'a, Q, X>::Answered(
                            match checked {
                                Ok(_) => Ok(()),
                                Err(e) => Err(NetCtlError::Other(e)),
                            },
                        )
                    },
                WirelessNetCtl::Operational(q) => r == Connect::<'a, Q, X>::With(q),
            },
    {
        match self {
            WirelessNetCtl::Commissioning(net_type) => match check_match(*net_type) {
                Ok(()) => Connect::Answered(Ok(())),
                Err(e) => Connect::Answered(Err(NetCtlError::Other(e))),
            },
            WirelessNetCtl::Operational(q) => Connect::With(q),
        }
    }

    /// Return the controller whose network may change: during commissioning nothing ever does.
    pub fn wait_changed(&self) -> (r: Option<&'a Q>)
        ensures
            r == match *self {
                WirelessNetCtl::Commissioning(_) => None::<&'a Q>,
                WirelessNetCtl::Operational(q) => Some(q),
            },
    {
        match self {
            WirelessNetCtl::Commissioning(_) => None,
            WirelessNetCtl::Operational(q) => Some(q),
        }
    }
}

/// The part of the diagnostics of a Wifi network.
impl<'a, Q> WirelessNetCtl<'a, Q> {
    /// Return `true` if the device is connected to the network.
    pub fn connected<X, F: FnOnce(&Q) -> Result<bool, X>>(&self, ask: F) -> (r: Result<bool, X>)
        requires
            self.can_ask(ask),
        ensures
            self.answers(ask, Ok(false), r),
    {
        self.ask_or(ask, Ok(false))
    }

    /// Visit the BSSID of the access point, if there is one.
    pub fn bssid<'v, X, F, A>(&self, f: F, ask: A) -> (r: Result<(), X>) where
        F: FnOnce(Option<&'v [u8]>) -> Result<(), X>,
        A: FnOnce(&Q, F) -> Result<(), X>,

        requires
            self.can_show(f, ask),
        ensures
            self.shows(f, ask, r),
    {
        self.show_or_none(f, ask)
    }

    /// Return the type of the security in use.
    pub fn security_type<S, X, F: FnOnce(&Q) -> Result<Option<S>, X>>(&self, ask: F) -> (r: Result<Option<S>, X>)
        requires
            self.can_ask(ask),
        ensures
            self.answers(ask, Ok(None), r),
    {
        self.ask_or(ask, Ok(None))
    }

    /// Return the version of Wifi in use.
    pub fn wi_fi_version<V, X, F: FnOnce(&Q) -> Result<Option<V>, X>>(&self, ask: F) -> (r: Result<Option<V>, X>)
        requires
            self.can_ask(ask),
        ensures
            self.answers(ask, Ok(None), r),
    {
        self.ask_or(ask, Ok(None))
    }

    /// Return the number of the channel in use.
    pub fn channel_number<X, F: FnOnce(&Q) -> Result<Option<u16>, X>>(&self, ask: F) -> (r: Result<Option<u16>, X>)
        requires
            self.can_ask(ask),
        ensures
            self.answers(ask, Ok(None), r),
    {
        self.ask_or(ask, Ok(None))
    }

    /// Return the strength of the signal.
    pub fn rssi<X, F: FnOnce(&Q) -> Result<Option<i8>, X>>(&self, ask: F) -> (r: Result<Option<i8>, X>)
        requires
            self.can_ask(ask),
        ensures
            self.answers(ask, Ok(None), r),
    {
        self.ask_or(ask, Ok(None))
    }
}

/// The part of the diagnostics of a Thread network.
impl<'a, Q> WirelessNetCtl<'a, Q> {
    /// Return the channel in use.
    pub fn channel<X, F: FnOnce(&Q) -> Result<Option<u16>, X>>(&self, ask: F) -> (r: Result<Option<u16>, X>)
        requires
            self.can_ask(ask),
        ensures
            self.answers(ask, Ok(None), r),
    {
        self.ask_or(ask, Ok(None))
    }

    /// Return the role of the device in the mesh.
    pub fn routing_role<R, X, F: FnOnce(&Q) -> Result<Option<R>, X>>(&self, ask: F) -> (r: Result<Option<R>, X>)
        requires
            self.can_ask(ask),
        ensures
            self.answers(ask, Ok(None), r),
    {
        self.ask_or(ask, Ok(None))
    }

    /// Visit the name of the network, if there is one.
    pub fn network_name<'v, X, F, A>(&self, f: F, ask: A) -> (r: Result<(), X>) where
        F: FnOnce(Option<&'v str>) -> Result<(), X>,
        A: FnOnce(&Q, F) -> Result<(), X>,

        requires
            self.can_show(f, ask),
        ensures
            self.shows(f, ask, r),
    {
        self.show_or_none(f, ask)
    }

    /// Return the PAN ID.
    pub fn pan_id<X, F: FnOnce(&Q) -> Result<Option<u16>, X>>(&self, ask: F) -> (r: Result<Option<u16>, X>)
        requires
            self.can_ask(ask),
        ensures
            self.answers(ask, Ok(None), r),
    {
        self.ask_or(ask, Ok(None))
    }

    /// Return the extended PAN ID.
    pub fn extended_pan_id<X, F: FnOnce(&Q) -> Result<Option<u64>, X>>(&self, ask: F) -> (r: Result<Option<u64>, X>)
        requires
            self.can_ask(ask),
        ensures
            self.answers(ask, Ok(None), r),
    {
        self.ask_or(ask, Ok(None))
    }

    /// Visit the prefix of the mesh, if there is one.
    pub fn mesh_local_prefix<'v, X, F, A>(&self, f: F, ask: A) -> (r: Result<(), X>) where
        F: FnOnce(Option<&'v [u8]>) -> Result<(), X>,
        A: FnOnce(&Q, F) -> Result<(), X>,

        requires
            self.can_show(f, ask),
        ensures
            self.shows(f, ask, r),
    {
        self.show_or_none(f, ask)
    }

    /// Visit the neighbors: none during commissioning.
    pub fn neighbor_table<X, F: FnOnce(&Q) -> Result<(), X>>(&self, ask: F) -> (r: Result<(), X>)
        requires
            self.can_ask(ask),
        ensures
            self.answers(ask, Ok(()), r),
    {
        self.ask_or(ask, Ok(()))
    }

    /// Visit the routes: none during commissioning.
    pub fn route_table<X, F: FnOnce(&Q) -> Result<(), X>>(&self, ask: F) -> (r: Result<(), X>)
        requires
            self.can_ask(ask),
        ensures
            self.answers(ask, Ok(()), r),
    {
        self.ask_or(ask, Ok(()))
    }

    /// Return the ID of the partition.
    pub fn partition_id<X, F: FnOnce(&Q) -> Result<Option<u32>, X>>(&self, ask: F) -> (r: Result<Option<u32>, X>)
        requires
            self.can_ask(ask),
        ensures
            self.answers(ask, Ok(None), r),
    {
        self.ask_or(ask, Ok(None))
    }

    /// Return the weighting of the leader.
    pub fn weighting<X, F: FnOnce(&Q) -> Result<Option<u16>, X>>(&self, ask: F) -> (r: Result<Option<u16>, X>)
        requires
            self.can_ask(ask),
        ensures
            self.answers(ask, Ok(None), r),
    {
        self.ask_or(ask, Ok(None))
    }

    /// Return the version of the network data.
    pub fn data_version<X, F: FnOnce(&Q) -> Result<Option<u16>, X>>(&self, ask: F) -> (r: Result<Option<u16>, X>)
        requires
            self.can_ask(ask),
        ensures
            self.answers(ask, Ok(None), r),
    {
        self.ask_or(ask, Ok(None))
    }

    /// Return the version of the stable network data.
    pub fn stable_data_version<X, F: FnOnce(&Q) -> Result<Option<u16>, X>>(&self, ask: F) -> (r: Result<Option<u16>, X>)
        requires
            self.can_ask(ask),
        ensures
            self.answers(ask, Ok(None), r),
    {
        self.ask_or(ask, Ok(None))
    }

    /// Return the router ID of the leader.
    pub fn leader_router_id<X, F: FnOnce(&Q) -> Result<Option<u8>, X>>(&self, ask: F) -> (r: Result<Option<u8>, X>)
        requires
            self.can_ask(ask),
        ensures
            self.answers(ask, Ok(None), r),
    {
        self.ask_or(ask, Ok(None))
    }

    /// Return the extended address.
    pub fn ext_address<X, F: FnOnce(&Q) -> Result<Option<u64>, X>>(&self, ask: F) -> (r: Result<Option<u64>, X>)
        requires
            self.can_ask(ask),
        ensures
            self.answers(ask, Ok(None), r),
    {
        self.ask_or(ask, Ok(None))
    }

    /// Return the short address.
    pub fn rloc_16<X, F: FnOnce(&Q) -> Result<Option<u16>, X>>(&self, ask: F) -> (r: Result<Option<u16>, X>)
        requires
            self.can_ask(ask),
        ensures
            self.answers(ask, Ok(None), r),
    {
        self.ask_or(ask, Ok(None))
    }

    /// Return the security policy.
    pub fn security_policy<P, X, F: FnOnce(&Q) -> Result<Option<P>, X>>(&self, ask: F) -> (r: Result<Option<P>, X>)
        requires
            self.can_ask(ask),
        ensures
            self.answers(ask, Ok(None), r),
    {
        self.ask_or(ask, Ok(None))
    }

    /// Visit the mask of the channels on page 0, if there is one.
    pub fn channel_page0_mask<'v, X, F, A>(&self, f: F, ask: A) -> (r: Result<(), X>) where
        F: FnOnce(Option<&'v [u8]>) -> Result<(), X>,
        A: FnOnce(&Q, F) -> Result<(), X>,

        requires
            self.can_show(f, ask),
        ensures
            self.shows(f, ask, r),
    {
        self.show_or_none(f, ask)
    }

    /// Visit the components of the operational dataset, if there is one.
    pub fn operational_dataset_components<V, X, F, A>(&self, f: F, ask: A) -> (r: Result<(), X>) where
        F: FnOnce(Option<V>) -> Result<(), X>,
        A: FnOnce(&Q, F) -> Result<(), X>,

        requires
            self.can_show(f, ask),
        ensures
            self.shows(f, ask, r),
    {
        self.show_or_none(f, ask)
    }

    /// Visit the active faults of the network: none during commissioning.
    pub fn active_network_faults_list<X, F: FnOnce(&Q) -> Result<(), X>>(&self, ask: F) -> (r: Result<(), X>)
        requires
            self.can_ask(ask),
        ensures
            self.answers(ask, Ok(()), r),
    {
        self.ask_or(ask, Ok(()))
    }
}

} // verus!
