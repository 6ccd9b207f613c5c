//! Root endpoint (Endpoint 0) handler chains, split by ownership.
//!
//! The system clusters of the root endpoint are split into two chains:
//!
//! - [`root_handler`] - the clusters the *user* owns: Descriptor, Basic
//!   Information, Administrator Commissioning, Operational Credentials, Access
//!   Control, Group Key Management, Software Diagnostics and Time
//!   Synchronization. None of these depends on the operational network, so the
//!   user builds this chain once, chains it with the application clusters (and
//!   any additional root endpoint clusters) and hands the result to the stack.
//!
//! - [`eth_net_handler`] / [`wifi_net_handler`] / [`thread_net_handler`] - the
//!   clusters the *stack* owns, chained by the stack on top of the user handler:
//!   Network Commissioning, the network-type diagnostics cluster (Ethernet, Wifi
//!   or Thread), General Diagnostics and General Commissioning.
use vstd::prelude::*;

verus! {

/// The ID of an endpoint.
pub type EndptId = u16;

/// The ID of a cluster.
pub type ClusterId = u32;

/// The ID of the root endpoint (Endpoint 0).
pub const ROOT_ENDPOINT_ID: EndptId = 0;

/// A system cluster of the root endpoint.
#[derive(Debug, Clone, Copy, PartialEq, Eq, Structural)]
pub enum SystemCluster {
    /// Descriptor
    Desc,
    /// Access Control
    Acl,
    /// Basic Information
    BasicInfo,
    /// General Commissioning
    GenComm,
    /// Network Commissioning
    NetComm,
    /// General Diagnostics
    GenDiag,
    /// Software Diagnostics
    SwDiag,
    /// Thread Network Diagnostics
    ThreadDiag,
    /// Wi-Fi Network Diagnostics
    WifiDiag,
    /// Ethernet Network Diagnostics
    EthDiag,
    /// Time Synchronization
    TimeSync,
    /// Administrator Commissioning
    AdminComm,
    /// Operational Credentials
    Noc,
    /// Group Key Management
    GrpKeyMgmt,
}

impl SystemCluster {
    /// The ID of the cluster.
    pub open spec fn number(self) -> ClusterId {
        match self {
            SystemCluster::Desc => 0x1D,
            SystemCluster::Acl => 0x1F,
            SystemCluster::BasicInfo => 0x28,
            SystemCluster::GenComm => 0x30,
            SystemCluster::NetComm => 0x31,
            SystemCluster::GenDiag => 0x33,
            SystemCluster::SwDiag => 0x34,
            SystemCluster::ThreadDiag => 0x35,
            SystemCluster::WifiDiag => 0x36,
            SystemCluster::EthDiag => 0x37,
            SystemCluster::TimeSync => 0x38,
            SystemCluster::AdminComm => 0x3C,
            SystemCluster::Noc => 0x3E,
            SystemCluster::GrpKeyMgmt => 0x3F,
        }
    }

    /// Return the ID of the cluster.
    pub fn id(&self) -> (r: ClusterId)
        ensures
            r == self.number(),
    {
        match self {
            SystemCluster::Desc => 0x1D,
            SystemCluster::Acl => 0x1F,
            SystemCluster::BasicInfo => 0x28,
            SystemCluster::GenComm => 0x30,
            SystemCluster::NetComm => 0x31,
            SystemCluster::GenDiag => 0x33,
            SystemCluster::SwDiag => 0x34,
            SystemCluster::ThreadDiag => 0x35,
            SystemCluster::WifiDiag => 0x36,
            SystemCluster::EthDiag => 0x37,
            SystemCluster::TimeSync => 0x38,
            SystemCluster::AdminComm => 0x3C,
            SystemCluster::Noc => 0x3E,
            SystemCluster::GrpKeyMgmt => 0x3F,
        }
    }

    /// The cluster does not depend on the operational network, and belongs to the user.
    pub open spec fn user_owned(self) -> bool {
        match self {
            SystemCluster::Desc => true,
            SystemCluster::BasicInfo => true,
            SystemCluster::AdminComm => true,
            SystemCluster::Noc => true,
            SystemCluster::Acl => true,
            SystemCluster::GrpKeyMgmt => true,
            SystemCluster::SwDiag => true,
            SystemCluster::TimeSync => true,
            _ => false,
        }
    }

    /// The cluster belongs to a stack whose network has the diagnostics cluster `netw_diag`.
    pub open spec fn stack_owned(self, netw_diag: SystemCluster) -> bool {
        match self {
            SystemCluster::NetComm => true,
            SystemCluster::GenComm => true,
            SystemCluster::GenDiag => true,
            _ => self == netw_diag,
        }
    }

    /// The cluster describes one type of network.
    pub open spec fn is_netw_diag(self) -> bool {
        match self {
            SystemCluster::EthDiag => true,
            SystemCluster::WifiDiag => true,
            SystemCluster::ThreadDiag => true,
            _ => false,
        }
    }
}

/// A matcher over a plain function of the endpoint and cluster IDs.
///
/// A context without an endpoint or without a cluster (a global operation)
/// matches; everything else is decided by the function.
#[derive(Debug, Clone, Copy)]
pub struct FnMatcher<F>(pub F);

impl<F: Fn(EndptId, ClusterId) -> bool> FnMatcher<F> {
    /// Return `true` if the handler behind the matcher is to be invoked for an operation on the
    /// given endpoint and cluster.
    pub fn matches(&self, endpt: Option<EndptId>, cluster: Option<ClusterId>) -> (r: bool)
        requires
            endpt is Some && cluster is Some ==> call_requires(self.0, (endpt->0, cluster->0)),
        ensures
            endpt is None || cluster is None ==> r,
            endpt is Some && cluster is Some ==> call_ensures(
                self.0,
                (endpt->0, cluster->0),
                r,
            ),
    {
        let Some(endpt_id) = endpt else {
            return true;
        };
        let Some(cluster_id) = cluster else {
            return true;
        };
        (self.0)(endpt_id, cluster_id)
    }
}

/// A matcher for some of the system clusters on the root endpoint.
#[derive(Debug)]
pub struct SystemMatcher {
    clusters: Vec<SystemCluster>,
}

impl SystemMatcher {
    /// The clusters that match.
    pub closed spec fn view(&self) -> Seq<SystemCluster> {
        self.clusters@
    }

    /// The matcher lets an operation on the given endpoint and cluster through.
    pub open spec fn hits(&self, endpt: Option<EndptId>, cluster: Option<ClusterId>) -> bool {
        endpt is Some && cluster is Some ==> endpt->0 == ROOT_ENDPOINT_ID && exists|i: int|
            0 <= i < self@.len() && (#[trigger] self@[i]).number() == cluster->0
    }

    /// Create a matcher for the given clusters.
    pub fn new(clusters: Vec<SystemCluster>) -> (r: Self)
        ensures
            r@ == clusters@,
    {
        SystemMatcher { clusters }
    }

    /// Return `true` if an operation on the given endpoint and cluster is one on the root
    /// endpoint and on one of the clusters, or a global one.
    pub fn matches(&self, endpt: Option<EndptId>, cluster: Option<ClusterId>) -> (r: bool)
        ensures
            r == self.hits(endpt, cluster),
            endpt is None || cluster is None ==> r,
            endpt is Some && cluster is Some ==> (r <==> endpt->0 == 0 && exists|i: int|
                0 <= i < self@.len() && (#[trigger] self@[i]).number() == cluster->0),
    {
        let on_cluster = |e: EndptId, c: ClusterId| -> (r: bool)
            ensures
                r == self.hits(Some(e), Some(c)),
            { e == ROOT_ENDPOINT_ID && self.contains(c) };
        FnMatcher(on_cluster).matches(endpt, cluster)
    }

    /// Return `true` if one of the clusters has the given ID.
    fn contains(&self, cluster: ClusterId) -> (r: bool)
        ensures
            r == exists|i: int| 0 <= i < self@.len() && (#[trigger] self@[i]).number() == cluster,
    {
        for i in 0..self.clusters.len()
            invariant
                forall|j: int| 0 <= j < i ==> (#[trigger] self@[j]).number() != cluster,
        {
            if self.clusters[i].id() == cluster {
                assert(self@[i as int].number() == cluster);
                return true;
            }
        }
        false
    }
}

/// A handler, or several of them chained together. `L` is a single handler.
#[derive(Debug)]
pub enum HandlerChain<L> {
    /// The end of a chain that fails every operation
    Empty,
    /// A single handler
    Handler(L),
    /// Two handlers: `handler` gets what `matcher` lets through, and `next` everything else
    Chained {
        /// Determines whether `handler` is invoked for an operation
        matcher: SystemMatcher,
        /// Invoked where the matcher returns `true`
        handler: Box<HandlerChain<L>>,
        /// Invoked where the matcher returns `false`
        next: Box<HandlerChain<L>>,
    },
}

impl<L> HandlerChain<L> {
    /// The handler at which an operation on the given endpoint and cluster ends up, or `None` if
    /// no handler in the chain claims the endpoint and the cluster.
    pub open spec fn routes(&self, endpt: EndptId, cluster: ClusterId) -> Option<L>
        decreases self,
    {
        match self {
            HandlerChain::Empty => None,
            HandlerChain::Handler(handler) => Some(*handler),
            HandlerChain::Chained { matcher, handler, next } => if matcher.hits(
                Some(endpt),
                Some(cluster),
            ) {
                handler.routes(endpt, cluster)
            } else {
                next.routes(endpt, cluster)
            },
        }
    }

    /// Every link of the chain lets an operation on the given endpoint and cluster through.
    pub open spec fn lets_through(
        &self,
        endpt: Option<EndptId>,
        cluster: Option<ClusterId>,
    ) -> bool
        decreases self,
    {
        match self {
            HandlerChain::Chained { matcher, handler, next } => {
                &&& matcher.hits(endpt, cluster)
                &&& handler.lets_through(endpt, cluster)
                &&& next.lets_through(endpt, cluster)
            },
            _ => true,
        }
    }

    /// Chain itself with another handler, which gets what the matcher lets through.
    pub fn chain(self, matcher: SystemMatcher, handler: HandlerChain<L>) -> (r: Self)
        ensures
            forall|e: EndptId, c: ClusterId| #[trigger]
                r.routes(e, c) == if matcher.hits(Some(e), Some(c)) {
                    handler.routes(e, c)
                } else {
                    self.routes(e, c)
                },
    {
        HandlerChain::Chained { matcher, handler: Box::new(handler), next: Box::new(self) }
    }

    /// Chain itself with the handler of a system cluster on the root endpoint.
    fn chain_cluster(self, cluster: SystemCluster, handler: L) -> (r: Self)
        ensures
            forall|e: EndptId, c: ClusterId| #[trigger]
                r.routes(e, c) == if e == ROOT_ENDPOINT_ID && c == cluster.number() {
                    Some(handler)
                } else {
                    self.routes(e, c)
                },
    {
        let matcher = SystemMatcher::new(vec![cluster]);
        assert(matcher@ =~= seq![cluster]);
        assert(matcher@[0].number() == cluster.number());
        self.chain(matcher, HandlerChain::Handler(handler))
    }

    /// Find the handler of an operation on the given endpoint and cluster.
    pub fn dispatch(&self, endpt: EndptId, cluster: ClusterId) -> (r: Option<&L>)
        ensures
            match self.routes(endpt, cluster) {
                Some(handler) => r is Some && *r->0 == handler,
                None => r is None,
            },
        decreases self,
    {
        match self {
            HandlerChain::Empty => None,
            HandlerChain::Handler(handler) => Some(handler),
            HandlerChain::Chained { matcher, handler, next } => if matcher.matches(
                Some(endpt),
                Some(cluster),
            ) {
                handler.dispatch(endpt, cluster)
            } else {
                next.dispatch(endpt, cluster)
            },
        }
    }
}

/// A handler of a user-owned cluster, with the data version that the cluster starts at.
#[derive(Debug, Clone, Copy, PartialEq, Eq)]
pub enum RootCluster<S> {
    /// Time Synchronization
    TimeSync {
        /// The initial data version
        dataver: u32,
    },
    /// Software Diagnostics
    SwDiag {
        /// The initial data version
        dataver: u32,
        /// What answers for the software
        sw_diag: S,
    },
    /// Group Key Management
    GrpKeyMgmt {
        /// The initial data version
        dataver: u32,
    },
    /// Access Control
    Acl {
        /// The initial data version
        dataver: u32,
    },
    /// Operational Credentials
    Noc {
        /// The initial data version
        dataver: u32,
    },
    /// Administrator Commissioning
    AdminComm {
        /// The initial data version
        dataver: u32,
    },
    /// Basic Information
    BasicInfo {
        /// The initial data version
        dataver: u32,
    },
    /// Descriptor
    Desc {
        /// The initial data version
        dataver: u32,
    },
}

impl<S> RootCluster<S> {
    /// The cluster that is handled.
    pub open spec fn cluster(self) -> SystemCluster {
        match self {
            RootCluster::TimeSync { .. } => SystemCluster::TimeSync,
            RootCluster::SwDiag { .. } => SystemCluster::SwDiag,
            RootCluster::GrpKeyMgmt { .. } => SystemCluster::GrpKeyMgmt,
            RootCluster::Acl { .. } => SystemCluster::Acl,
            RootCluster::Noc { .. } => SystemCluster::Noc,
            RootCluster::AdminComm { .. } => SystemCluster::AdminComm,
            RootCluster::BasicInfo { .. } => SystemCluster::BasicInfo,
            RootCluster::Desc { .. } => SystemCluster::Desc,
        }
    }
}

/// A type alias for the handler chain returned by `root_handler()`.
pub type RootHandler<S> = HandlerChain<RootCluster<S>>;

/// Where an operation on the given endpoint and cluster ends up in the chain of `root_handler`: at
/// the handler of its cluster, for a user-owned cluster on the root endpoint, and at none
/// otherwise.
pub open spec fn root_route<S>(
    sw_diag: S,
    dataver: Seq<u32>,
    endpt: EndptId,
    cluster: ClusterId,
) -> Option<RootCluster<S>> {
    if endpt != ROOT_ENDPOINT_ID {
        None
    } else if cluster == SystemCluster::TimeSync.number() {
        Some(RootCluster::TimeSync { dataver: dataver[0] })
    } else if cluster == SystemCluster::SwDiag.number() {
        Some(RootCluster::SwDiag { dataver: dataver[1], sw_diag })
    } else if cluster == SystemCluster::GrpKeyMgmt.number() {
        Some(RootCluster::GrpKeyMgmt { dataver: dataver[2] })
    } else if cluster == SystemCluster::Acl.number() {
        Some(RootCluster::Acl { dataver: dataver[3] })
    } else if cluster == SystemCluster::Noc.number() {
        Some(RootCluster::Noc { dataver: dataver[4] })
    } else if cluster == SystemCluster::AdminComm.number() {
        Some(RootCluster::AdminComm { dataver: dataver[5] })
    } else if cluster == SystemCluster::BasicInfo.number() {
        Some(RootCluster::BasicInfo { dataver: dataver[6] })
    } else if cluster == SystemCluster::Desc.number() {
        Some(RootCluster::Desc { dataver: dataver[7] })
    } else {
        None
    }
}

/// `chain` serves the user-owned clusters on the root endpoint, and nothing else.
pub open spec fn serves_user_clusters<S>(
    chain: RootHandler<S>,
    sw_diag: S,
    dataver: Seq<u32>,
) -> bool {
    forall|e: EndptId, c: ClusterId| #[trigger]
        chain.routes(e, c) == root_route(sw_diag, dataver, e, c)
}

/// Return the user-owned system handler for the root endpoint (Endpoint 0).
///
/// The returned chain services every root endpoint system cluster except the
/// operational network ones (Network Commissioning, the network-type diagnostics
/// cluster, General Diagnostics and General Commissioning), which the stack
/// chains on top of the user handler by itself.
///
/// # Arguments:
/// - `sw_diag`: The implementation of the software diagnostics.
/// - `dataver`: The random initial data versions of the clusters, in the order in which the
///   clusters are chained.
pub fn root_handler<S>(sw_diag: S, dataver: &[u32; 8]) -> (r: RootHandler<S>)
    ensures
        serves_user_clusters(r, sw_diag, dataver@),
{
    HandlerChain::Empty.chain_cluster(
        SystemCluster::TimeSync,
        RootCluster::TimeSync { dataver: dataver[0] },
    ).chain_cluster(
        SystemCluster::SwDiag,
        RootCluster::SwDiag { dataver: dataver[1], sw_diag },
    ).chain_cluster(
        SystemCluster::GrpKeyMgmt,
        RootCluster::GrpKeyMgmt { dataver: dataver[2] },
    ).chain_cluster(
        SystemCluster::Acl,
        RootCluster::Acl { dataver: dataver[3] },
    ).chain_cluster(
        SystemCluster::Noc,
        RootCluster::Noc { dataver: dataver[4] },
    ).chain_cluster(
        SystemCluster::AdminComm,
        RootCluster::AdminComm { dataver: dataver[5] },
    ).chain_cluster(
        SystemCluster::BasicInfo,
        RootCluster::BasicInfo { dataver: dataver[6] },
    ).chain_cluster(
        SystemCluster::Desc,
        RootCluster::Desc { dataver: dataver[7] },
    )
}

/// The default network controller of an Ethernet network.
#[derive(Debug, Clone, Copy, PartialEq, Eq, Structural)]
pub struct EthNetCtl;

/// The status of a network that is always connected.
#[derive(Debug, Clone, Copy, PartialEq, Eq, Structural)]
pub struct AlwaysConnected;

/// A handler of the Ethernet Network Diagnostics cluster.
#[derive(Debug, Clone, Copy, PartialEq, Eq, Structural)]
pub struct EthDiagHandler {
    /// The initial data version
    pub dataver: u32,
}

/// A handler of the Wi-Fi Network Diagnostics cluster.
#[derive(Debug, PartialEq, Eq)]
pub struct WifiDiagHandler<'a, V> {
    /// The initial data version
    pub dataver: u32,
    /// What answers for the network
    pub wifi_diag: &'a V,
}

/// A handler of the Thread Network Diagnostics cluster.
#[derive(Debug, PartialEq, Eq)]
pub struct ThreadDiagHandler<'a, V> {
    /// The initial data version
    pub dataver: u32,
    /// What answers for the network
    pub thread_diag: &'a V,
}

/// A handler of a stack-owned cluster, with the data version that the cluster starts at, or the
/// handler that these are chained on top of.
#[derive(Debug, PartialEq, Eq)]
pub enum NetCluster<P, G, I, T, W, N, H> {
    /// Network Commissioning
    NetComm {
        /// The initial data version
        dataver: u32,
        /// The network controller
        net_ctl: T,
        /// What answers for the connection
        wireless_diag: W,
    },
    /// General Commissioning
    GenComm {
        /// The initial data version
        dataver: u32,
        /// The commissioning policy
        comm_policy: P,
    },
    /// General Diagnostics
    GenDiag {
        /// The initial data version
        dataver: u32,
        /// What answers for the device
        gen_diag: G,
        /// What answers for the network interfaces
        netif_diag: I,
    },
    /// The network-type diagnostics
    NetwDiag(N),
    /// The handler that receives everything else
    Next(H),
}

impl<P, G, I, T, W, N, H> NetCluster<P, G, I, T, W, N, H> {
    /// The cluster that is handled, where the network has the diagnostics cluster `netw_diag`.
    pub open spec fn cluster(self, netw_diag: SystemCluster) -> Option<SystemCluster> {
        match self {
            NetCluster::NetComm { .. } => Some(SystemCluster::NetComm),
            NetCluster::GenComm { .. } => Some(SystemCluster::GenComm),
            NetCluster::GenDiag { .. } => Some(SystemCluster::GenDiag),
            NetCluster::NetwDiag(_) => Some(netw_diag),
            NetCluster::Next(_) => None,
        }
    }
}

/// A type alias for the handler chain returned by `net_handler()`.
///
/// `H` is the handler the operational network clusters are chained on top of;
/// it receives everything the network clusters do not match.
pub type NetHandler<P, G, I, T, W, N, H> = HandlerChain<NetCluster<P, G, I, T, W, N, H>>;

/// A type alias for the handler chain returned by `eth_net_handler()`.
pub type EthNetHandler<P, G, I, H> = NetHandler<
    P,
    G,
    I,
    EthNetCtl,
    AlwaysConnected,
    EthDiagHandler,
    H,
>;

/// A type alias for the handler chain returned by `wifi_net_handler()`.
pub type WifiNetHandler<'a, P, G, I, T, V, H> = NetHandler<
    P,
    G,
    I,
    T,
    &'a V,
    WifiDiagHandler<'a, V>,
    H,
>;

/// A type alias for the handler chain returned by `thread_net_handler()`.
pub type ThreadNetHandler<'a, P, G, I, T, V, H> = NetHandler<
    P,
    G,
    I,
    T,
    &'a V,
    ThreadDiagHandler<'a, V>,
    H,
>;

/// `chain` serves the stack-owned clusters on the root endpoint of a device whose network has the
/// diagnostics cluster `cluster`, each at its own handler, and leaves everything else to `next`.
pub open spec fn serves_net_clusters<P, G, I, T, W, N, H>(
    chain: NetHandler<P, G, I, T, W, N, H>,
    comm_policy: P,
    gen_diag: G,
    netif_diag: I,
    net_ctl: T,
    wireless_diag: W,
    cluster: SystemCluster,
    netw_diag: N,
    next: H,
    dataver: Seq<u32>,
) -> bool {
    forall|e: EndptId, c: ClusterId| #[trigger]
        chain.routes(e, c) == Some(
            if e != ROOT_ENDPOINT_ID {
                NetCluster::Next(next)
            } else if c == SystemCluster::NetComm.number() {
                NetCluster::NetComm { dataver: dataver[3], net_ctl, wireless_diag }
            } else if c == SystemCluster::GenComm.number() {
                NetCluster::GenComm { dataver: dataver[2], comm_policy }
            } else if c == SystemCluster::GenDiag.number() {
                NetCluster::GenDiag { dataver: dataver[1], gen_diag, netif_diag }
            } else if c == cluster.number() {
                NetCluster::NetwDiag(netw_diag)
            } else {
                NetCluster::Next(next)
            },
        )
}

/// Return the operational network handler for the root endpoint (Endpoint 0),
/// chained on top of `next`.
/// Use this handler for devices that use Ethernet as the Matter Operational Network.
///
/// # Arguments:
/// - `comm_policy`: The commissioning policy.
/// - `gen_diag`: The implementation of the general diagnostics.
/// - `netif_diag`: The implementation of the diagnostics of the network interfaces.
/// - `next`: The handler to chain on top of; receives everything not matched here.
/// - `dataver`: The random initial data versions of the clusters.
pub fn eth_net_handler<P, G, I, H>(
    comm_policy: P,
    gen_diag: G,
    netif_diag: I,
    next: H,
    dataver: &[u32; 4],
) -> (r: EthNetHandler<P, G, I, H>)
    ensures
        serves_net_clusters(
            r,
            comm_policy,
            gen_diag,
            netif_diag,
            EthNetCtl,
            AlwaysConnected,
            SystemCluster::EthDiag,
            EthDiagHandler { dataver: dataver@[0] },
            next,
            dataver@,
        ),
{
    net_handler(
        comm_policy,
        gen_diag,
        netif_diag,
        EthNetCtl,
        AlwaysConnected,
        SystemCluster::EthDiag,
        EthDiagHandler { dataver: dataver[0] },
        next,
        dataver,
    )
}

/// Return the operational network handler for the root endpoint (Endpoint 0),
/// chained on top of `next`.
/// Use this handler for devices that use Wifi as the Matter Operational Network.
///
/// # Arguments:
/// - `comm_policy`: The commissioning policy.
/// - `gen_diag`: The implementation of the general diagnostics.
/// - `netif_diag`: The implementation of the diagnostics of the network interfaces.
/// - `wifi_diag`: The implementation of the Wifi diagnostics.
/// - `net_ctl`: The network controller.
/// - `next`: The handler to chain on top of; receives everything not matched here.
/// - `dataver`: The random initial data versions of the clusters.
pub fn wifi_net_handler<'a, P, G, I, T, V, H>(
    comm_policy: P,
    gen_diag: G,
    netif_diag: I,
    wifi_diag: &'a V,
    net_ctl: T,
    next: H,
    dataver: &[u32; 4],
) -> (r: WifiNetHandler<'a, P, G, I, T, V, H>)
    ensures
        serves_net_clusters(
            r,
            comm_policy,
            gen_diag,
            netif_diag,
            net_ctl,
            wifi_diag,
            SystemCluster::WifiDiag,
            WifiDiagHandler { dataver: dataver@[0], wifi_diag },
            next,
            dataver@,
        ),
{
    net_handler(
        comm_policy,
        gen_diag,
        netif_diag,
        net_ctl,
        wifi_diag,
        SystemCluster::WifiDiag,
        WifiDiagHandler { dataver: dataver[0], wifi_diag },
        next,
        dataver,
    )
}

/// Return the operational network handler for the root endpoint (Endpoint 0),
/// chained on top of `next`.
/// Use this handler for devices that use Thread as the Matter Operational Network.
///
/// # Arguments:
/// - `comm_policy`: The commissioning policy.
/// - `gen_diag`: The implementation of the general diagnostics.
/// - `netif_diag`: The implementation of the diagnostics of the network interfaces.
/// - `thread_diag`: The implementation of the Thread diagnostics.
/// - `net_ctl`: The network controller.
/// - `next`: The handler to chain on top of; receives everything not matched here.
/// - `dataver`: The random initial data versions of the clusters.
pub fn thread_net_handler<'a, P, G, I, T, V, H>(
    comm_policy: P,
    gen_diag: G,
    netif_diag: I,
    thread_diag: &'a V,
    net_ctl: T,
    next: H,
    dataver: &[u32; 4],
) -> (r: ThreadNetHandler<'a, P, G, I, T, V, H>)
    ensures
        serves_net_clusters(
            r,
            comm_policy,
            gen_diag,
            netif_diag,
            net_ctl,
            thread_diag,
            SystemCluster::ThreadDiag,
            ThreadDiagHandler { dataver: dataver@[0], thread_diag },
            next,
            dataver@,
        ),
{
    net_handler(
        comm_policy,
        gen_diag,
        netif_diag,
        net_ctl,
        thread_diag,
        SystemCluster::ThreadDiag,
        ThreadDiagHandler { dataver: dataver[0], thread_diag },
        next,
        dataver,
    )
}

/// A matcher for exactly General Commissioning, General Diagnostics and the network diagnostics
/// cluster on the root endpoint.
fn net_matcher(netw_diag: SystemCluster) -> (r: SystemMatcher)
    ensures
        forall|e: Option<EndptId>, c: Option<ClusterId>| #[trigger]
            r.hits(e, c) <==> (e is Some && c is Some ==> e->0 == ROOT_ENDPOINT_ID && (c->0
                == SystemCluster::GenComm.number() || c->0 == SystemCluster::GenDiag.number() || c->0
                == netw_diag.number())),
{
    let r = SystemMatcher::new(vec![SystemCluster::GenComm, SystemCluster::GenDiag, netw_diag]);
    assert(r@ =~= seq![SystemCluster::GenComm, SystemCluster::GenDiag, netw_diag]);
    assert(r@[0] == SystemCluster::GenComm && r@[1] == SystemCluster::GenDiag && r@[2] == netw_diag);
    r
}

/// Return the operational network handler for the root endpoint (Endpoint 0),
/// chained on top of `next`.
///
/// Use `eth_net_handler()`, `wifi_net_handler()` or `thread_net_handler()` instead to get the
/// appropriate Network Diagnostic handler included in the handler.
///
/// `netw_diag` is the handler of the network diagnostics cluster `cluster`, with its data version;
/// the other data versions are taken from `dataver`, behind its own.
pub fn net_handler<P, G, I, T, W, N, H>(
    comm_policy: P,
    gen_diag: G,
    netif_diag: I,
    net_ctl: T,
    wireless_diag: W,
    cluster: SystemCluster,
    netw_diag: N,
    next: H,
    dataver: &[u32; 4],
) -> (r: NetHandler<P, G, I, T, W, N, H>)
    ensures
        serves_net_clusters(
            r,
            comm_policy,
            gen_diag,
            netif_diag,
            net_ctl,
            wireless_diag,
            cluster,
            netw_diag,
            next,
            dataver@,
        ),
{
    // The network diagnostics link is the bottom of the group: everything the group matcher lets
    // through that the General Commissioning and General Diagnostics links above it did not
    // claim is the network diagnostics cluster, so the group matcher is exact here too.
    let group = HandlerChain::Empty.chain(
        net_matcher(cluster),
        HandlerChain::Handler(NetCluster::NetwDiag(netw_diag)),
    ).chain_cluster(
        SystemCluster::GenDiag,
        NetCluster::GenDiag { dataver: dataver[1], gen_diag, netif_diag },
    ).chain_cluster(
        SystemCluster::GenComm,
        NetCluster::GenComm { dataver: dataver[2], comm_policy },
    );
    HandlerChain::Handler(NetCluster::Next(next)).chain(net_matcher(cluster), group).chain_cluster(
        SystemCluster::NetComm,
        NetCluster::NetComm { dataver: dataver[3], net_ctl, wireless_diag },
    )
}

/// An operation goes down a chain link by link: a link takes it exactly if it is on the root
/// endpoint and on one of the clusters of the link, and otherwise leaves it to the next one. A
/// single handler takes everything, and the end of a chain nothing.
pub proof fn lemma_links_are_tried_in_order<L>(
    matcher: SystemMatcher,
    handler: HandlerChain<L>,
    next: HandlerChain<L>,
    single: L,
    endpt: EndptId,
    cluster: ClusterId,
)
    ensures
        ({
            let chain = HandlerChain::Chained {
                matcher,
                handler: Box::new(handler),
                next: Box::new(next),
            };
            let taken = endpt == 0 && exists|i: int|
                0 <= i < matcher@.len() && (#[trigger] matcher@[i]).number() == cluster;
            &&& taken ==> chain.routes(endpt, cluster) == handler.routes(endpt, cluster)
            &&& !taken ==> chain.routes(endpt, cluster) == next.routes(endpt, cluster)
        }),
        HandlerChain::Handler(single).routes(endpt, cluster) == Some(single),
        HandlerChain::<L>::Empty.routes(endpt, cluster) is None,
{
}

/// Where an operation ends up in the user-owned chain, by the IDs of the clusters: each cluster
/// has its own handler with its own data version, Software Diagnostics answers from `sw_diag`,
/// and nothing else is claimed - no other cluster, and no other endpoint.
pub proof fn lemma_user_owned_chain<S>(
    chain: RootHandler<S>,
    sw_diag: S,
    dataver: Seq<u32>,
    endpt: EndptId,
    cluster: ClusterId,
)
    requires
        serves_user_clusters(chain, sw_diag, dataver),
    ensures
        endpt != 0 ==> chain.routes(endpt, cluster) is None,
        chain.routes(0, 0x38) == Some(RootCluster::<S>::TimeSync { dataver: dataver[0] }),
        chain.routes(0, 0x34) == Some(RootCluster::<S>::SwDiag { dataver: dataver[1], sw_diag }),
        chain.routes(0, 0x3F) == Some(RootCluster::<S>::GrpKeyMgmt { dataver: dataver[2] }),
        chain.routes(0, 0x1F) == Some(RootCluster::<S>::Acl { dataver: dataver[3] }),
        chain.routes(0, 0x3E) == Some(RootCluster::<S>::Noc { dataver: dataver[4] }),
        chain.routes(0, 0x3C) == Some(RootCluster::<S>::AdminComm { dataver: dataver[5] }),
        chain.routes(0, 0x28) == Some(RootCluster::<S>::BasicInfo { dataver: dataver[6] }),
        chain.routes(0, 0x1D) == Some(RootCluster::<S>::Desc { dataver: dataver[7] }),
        cluster != 0x38 && cluster != 0x34 && cluster != 0x3F && cluster != 0x1F && cluster != 0x3E
            && cluster != 0x3C && cluster != 0x28 && cluster != 0x1D ==> chain.routes(
            endpt,
            cluster,
        ) is None,
{
}

/// Where an operation ends up in the stack-owned chain, by the IDs of the clusters: Network
/// Commissioning over the controller and the connection, General Commissioning over the policy,
/// General Diagnostics over the device and its interfaces, the diagnostics of the network at their
/// handler, and everything else - on every endpoint - at `next`.
pub proof fn lemma_stack_owned_chain<P, G, I, T, W, N, H>(
    chain: NetHandler<P, G, I, T, W, N, H>,
    comm_policy: P,
    gen_diag: G,
    netif_diag: I,
    net_ctl: T,
    wireless_diag: W,
    netw_cluster: SystemCluster,
    netw_diag: N,
    next: H,
    dataver: Seq<u32>,
    endpt: EndptId,
    cluster: ClusterId,
)
    requires
        netw_cluster == SystemCluster::EthDiag || netw_cluster == SystemCluster::WifiDiag
            || netw_cluster == SystemCluster::ThreadDiag,
        serves_net_clusters(
            chain,
            comm_policy,
            gen_diag,
            netif_diag,
            net_ctl,
            wireless_diag,
            netw_cluster,
            netw_diag,
            next,
            dataver,
        ),
    ensures
        ({
            let diag: ClusterId = match netw_cluster {
                SystemCluster::EthDiag => 0x37,
                SystemCluster::WifiDiag => 0x36,
                _ => 0x35,
            };
            &&& chain.routes(0, 0x31) == Some(
                NetCluster::<P, G, I, T, W, N, H>::NetComm {
                    dataver: dataver[3],
                    net_ctl,
                    wireless_diag,
                },
            )
            &&& chain.routes(0, 0x30) == Some(
                NetCluster::<P, G, I, T, W, N, H>::GenComm { dataver: dataver[2], comm_policy },
            )
            &&& chain.routes(0, 0x33) == Some(
                NetCluster::<P, G, I, T, W, N, H>::GenDiag {
                    dataver: dataver[1],
                    gen_diag,
                    netif_diag,
                },
            )
            &&& chain.routes(0, diag) == Some(
                NetCluster::<P, G, I, T, W, N, H>::NetwDiag(netw_diag),
            )
            &&& endpt != 0 || (cluster != 0x31 && cluster != 0x30 && cluster != 0x33 && cluster
                != diag) ==> chain.routes(endpt, cluster) == Some(
                NetCluster::<P, G, I, T, W, N, H>::Next(next),
            )
        }),
{
}

/// A global operation - one without an endpoint or without a cluster - is let through by every
/// link of every chain.
pub proof fn lemma_global_operations_pass_every_link<L>(
    chain: HandlerChain<L>,
    endpt: Option<EndptId>,
    cluster: Option<ClusterId>,
)
    requires
        endpt is None || cluster is None,
    ensures
        chain.lets_through(endpt, cluster),
    decreases chain,
{
    if let HandlerChain::Chained { matcher, handler, next } = chain {
        lemma_global_operations_pass_every_link(*handler, endpt, cluster);
        lemma_global_operations_pass_every_link(*next, endpt, cluster);
    }
}

/// The split of the system clusters by ownership has no overlap, and no two clusters have the
/// same ID.
pub proof fn lemma_ownership_is_a_split(a: SystemCluster, b: SystemCluster, netw_diag: SystemCluster)
    requires
        netw_diag.is_netw_diag(),
    ensures
        !(a.user_owned() && a.stack_owned(netw_diag)),
        a.user_owned() || a.stack_owned(netw_diag) || (a.is_netw_diag() && a != netw_diag),
        a.number() == b.number() ==> a == b,
{
}

/// Chaining the stack-owned clusters on top of a user handler that holds the user-owned ones
/// serves every system cluster of the root endpoint, each at its own handler: a stack-owned one
/// above the user handler, and a user-owned one by it. The diagnostics of other networks are not
/// served.
pub proof fn lemma_all_system_clusters_are_served<P, G, I, T, W, N, S>(
    user: RootHandler<S>,
    whole: NetHandler<P, G, I, T, W, N, RootHandler<S>>,
    comm_policy: P,
    gen_diag: G,
    netif_diag: I,
    net_ctl: T,
    wireless_diag: W,
    cluster: SystemCluster,
    netw_diag: N,
    sw_diag: S,
    user_dataver: Seq<u32>,
    net_dataver: Seq<u32>,
    s: SystemCluster,
)
    requires
        cluster.is_netw_diag(),
        serves_user_clusters(user, sw_diag, user_dataver),
        serves_net_clusters(
            whole,
            comm_policy,
            gen_diag,
            netif_diag,
            net_ctl,
            wireless_diag,
            cluster,
            netw_diag,
            user,
            net_dataver,
        ),
    ensures
        ({
            let above = whole.routes(ROOT_ENDPOINT_ID, s.number());
            let below = user.routes(ROOT_ENDPOINT_ID, s.number());
            &&& above is Some
            &&& s.stack_owned(cluster) ==> above->0.cluster(cluster) == Some(s)
            &&& !s.stack_owned(cluster) ==> above->0 == NetCluster::<
                P,
                G,
                I,
                T,
                W,
                N,
                RootHandler<S>,
            >::Next(user)
            &&& s.user_owned() ==> below is Some && below->0.cluster() == s
            &&& !s.user_owned() ==> below is None
        }),
{
}

/// The user can add clusters of their own to the root endpoint: whatever the stack does not own
/// reaches the user handler, on every endpoint.
pub proof fn lemma_user_handler_gets_the_rest<P, G, I, T, W, N, H>(
    whole: NetHandler<P, G, I, T, W, N, H>,
    comm_policy: P,
    gen_diag: G,
    netif_diag: I,
    net_ctl: T,
    wireless_diag: W,
    netw_cluster: SystemCluster,
    netw_diag: N,
    next: H,
    dataver: Seq<u32>,
    endpt: EndptId,
    cluster: ClusterId,
)
    requires
        serves_net_clusters(
            whole,
            comm_policy,
            gen_diag,
            netif_diag,
            net_ctl,
            wireless_diag,
            netw_cluster,
            netw_diag,
            next,
            dataver,
        ),
        endpt != ROOT_ENDPOINT_ID || forall|s: SystemCluster| #[trigger]
            s.stack_owned(netw_cluster) ==> s.number() != cluster,
    ensures
        whole.routes(endpt, cluster) == Some(
            NetCluster::<P, G, I, T, W, N, H>::Next(next),
        ),
{
    assert(SystemCluster::NetComm.stack_owned(netw_cluster));
    assert(SystemCluster::GenComm.stack_owned(netw_cluster));
    assert(SystemCluster::GenDiag.stack_owned(netw_cluster));
    assert(netw_cluster.stack_owned(netw_cluster));
}

} // verus!
