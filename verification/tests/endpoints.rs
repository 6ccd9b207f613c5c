use matter_stack::endpoints::{
    eth_net_handler, net_handler, root_handler, thread_net_handler, wifi_net_handler,
    AlwaysConnected, EthDiagHandler, EthNetCtl, FnMatcher, HandlerChain, NetCluster, NetHandler,
    RootCluster, SystemCluster, SystemMatcher, ThreadDiagHandler, WifiDiagHandler,
    ROOT_ENDPOINT_ID,
};

const VERSIONS: [u32; 8] = [10, 11, 12, 13, 14, 15, 16, 17];

#[test]
fn cluster_ids() {
    assert_eq!(SystemCluster::Desc.id(), 0x1D);
    assert_eq!(SystemCluster::Acl.id(), 0x1F);
    assert_eq!(SystemCluster::BasicInfo.id(), 0x28);
    assert_eq!(SystemCluster::GenComm.id(), 0x30);
    assert_eq!(SystemCluster::NetComm.id(), 0x31);
    assert_eq!(SystemCluster::GenDiag.id(), 0x33);
    assert_eq!(SystemCluster::SwDiag.id(), 0x34);
    assert_eq!(SystemCluster::ThreadDiag.id(), 0x35);
    assert_eq!(SystemCluster::WifiDiag.id(), 0x36);
    assert_eq!(SystemCluster::EthDiag.id(), 0x37);
    assert_eq!(SystemCluster::TimeSync.id(), 0x38);
    assert_eq!(SystemCluster::AdminComm.id(), 0x3C);
    assert_eq!(SystemCluster::Noc.id(), 0x3E);
    assert_eq!(SystemCluster::GrpKeyMgmt.id(), 0x3F);
}

fn user_clusters() -> Vec<(SystemCluster, RootCluster<&'static str>)> {
    vec![
        (SystemCluster::TimeSync, RootCluster::TimeSync { dataver: 10 }),
        (SystemCluster::SwDiag, RootCluster::SwDiag { dataver: 11, sw_diag: "software" }),
        (SystemCluster::GrpKeyMgmt, RootCluster::GrpKeyMgmt { dataver: 12 }),
        (SystemCluster::Acl, RootCluster::Acl { dataver: 13 }),
        (SystemCluster::Noc, RootCluster::Noc { dataver: 14 }),
        (SystemCluster::AdminComm, RootCluster::AdminComm { dataver: 15 }),
        (SystemCluster::BasicInfo, RootCluster::BasicInfo { dataver: 16 }),
        (SystemCluster::Desc, RootCluster::Desc { dataver: 17 }),
    ]
}

#[test]
fn root_handler_serves_the_user_owned_clusters() {
    let chain = root_handler("software", &VERSIONS);
    for (cluster, handler) in user_clusters() {
        assert_eq!(chain.dispatch(ROOT_ENDPOINT_ID, cluster.id()), Some(&handler));
        assert_eq!(chain.dispatch(1, cluster.id()), None);
    }
    for cluster in [
        SystemCluster::NetComm,
        SystemCluster::GenComm,
        SystemCluster::GenDiag,
        SystemCluster::EthDiag,
        SystemCluster::WifiDiag,
        SystemCluster::ThreadDiag,
    ] {
        assert_eq!(chain.dispatch(ROOT_ENDPOINT_ID, cluster.id()), None);
    }
}

type Chain<T, W, N> = NetHandler<bool, &'static str, &'static str, T, W, N, &'static str>;

fn check<T, W, N>(
    chain: &Chain<T, W, N>,
    net_ctl: T,
    wireless_diag: W,
    netw_diag: N,
    diag: SystemCluster,
    others: [SystemCluster; 2],
) where
    T: PartialEq + core::fmt::Debug,
    W: PartialEq + core::fmt::Debug,
    N: PartialEq + core::fmt::Debug,
{
    let at = |cluster: u32| chain.dispatch(0, cluster);
    let net_comm = NetCluster::NetComm { dataver: 4, net_ctl, wireless_diag };
    assert_eq!(at(SystemCluster::NetComm.id()), Some(&net_comm));
    assert_eq!(
        at(SystemCluster::GenComm.id()),
        Some(&NetCluster::GenComm { dataver: 3, comm_policy: true })
    );
    assert_eq!(
        at(SystemCluster::GenDiag.id()),
        Some(&NetCluster::GenDiag { dataver: 2, gen_diag: "device", netif_diag: "interface" })
    );
    assert_eq!(at(diag.id()), Some(&NetCluster::NetwDiag(netw_diag)));
    // Everything else is left to the user, on the root endpoint and on every other one
    for other in others {
        assert_eq!(at(other.id()), Some(&NetCluster::Next("user")));
    }
    assert_eq!(at(SystemCluster::Desc.id()), Some(&NetCluster::Next("user")));
    assert_eq!(at(0x32), Some(&NetCluster::Next("user")));
    for cluster in [SystemCluster::NetComm.id(), diag.id(), 6] {
        assert_eq!(chain.dispatch(1, cluster), Some(&NetCluster::Next("user")));
    }
}

#[test]
fn net_handlers_serve_the_stack_owned_clusters() {
    let (eth, wifi, thread) =
        (SystemCluster::EthDiag, SystemCluster::WifiDiag, SystemCluster::ThreadDiag);
    let versions = [1, 2, 3, 4];
    check(
        &eth_net_handler(true, "device", "interface", "user", &versions),
        EthNetCtl,
        AlwaysConnected,
        EthDiagHandler { dataver: 1 },
        eth,
        [wifi, thread],
    );
    check(
        &wifi_net_handler(true, "device", "interface", &7u8, "controller", "user", &versions),
        "controller",
        &7u8,
        WifiDiagHandler { dataver: 1, wifi_diag: &7u8 },
        wifi,
        [eth, thread],
    );
    check(
        &thread_net_handler(true, "device", "interface", &8u8, "controller", "user", &versions),
        "controller",
        &8u8,
        ThreadDiagHandler { dataver: 1, thread_diag: &8u8 },
        thread,
        [eth, wifi],
    );
    check(
        &net_handler(true, "device", "interface", 1u8, 2u16, wifi, 3u32, "user", &versions),
        1u8,
        2u16,
        3u32,
        wifi,
        [eth, thread],
    );
}

#[test]
fn both_chains_serve_every_system_cluster() {
    let user = root_handler("software", &VERSIONS);
    let chain = wifi_net_handler(false, "device", "interface", &7u8, "controller", &user, &[1, 2, 3, 4]);
    for cluster in [
        SystemCluster::WifiDiag,
        SystemCluster::GenDiag,
        SystemCluster::GenComm,
        SystemCluster::NetComm,
    ] {
        assert!(!matches!(chain.dispatch(0, cluster.id()), Some(NetCluster::Next(_))));
    }
    for (cluster, handler) in user_clusters() {
        match chain.dispatch(0, cluster.id()) {
            Some(NetCluster::Next(next)) => {
                assert_eq!(next.dispatch(0, cluster.id()), Some(&handler));
            }
            _ => panic!("the user handler serves this cluster"),
        }
    }
    for cluster in [SystemCluster::EthDiag, SystemCluster::ThreadDiag] {
        match chain.dispatch(0, cluster.id()) {
            Some(NetCluster::Next(next)) => {
                assert_eq!(next.dispatch(0, cluster.id()), None);
            }
            _ => panic!("the stack does not serve this cluster"),
        }
    }
}

#[test]
fn function_matcher_lets_global_operations_through() {
    let matcher = FnMatcher(|e: u16, c: u32| e == 1 && c == 6);
    assert!(matcher.matches(Some(1), Some(6)));
    assert!(!matcher.matches(Some(1), Some(7)));
    assert!(!matcher.matches(Some(2), Some(6)));
    assert!(matcher.matches(None, Some(7)));
    assert!(matcher.matches(Some(2), None));
    assert!(matcher.matches(None, None));
}

#[test]
fn system_matcher_lets_its_clusters_through() {
    let matcher = SystemMatcher::new(vec![SystemCluster::Acl, SystemCluster::Noc]);
    assert!(matcher.matches(Some(0), Some(0x1F)));
    assert!(matcher.matches(Some(0), Some(0x3E)));
    assert!(!matcher.matches(Some(0), Some(0x30)));
    assert!(!matcher.matches(Some(1), Some(0x1F)));
    assert!(matcher.matches(None, Some(0x30)));
}

#[test]
fn later_links_of_a_chain_come_first() {
    let chain = HandlerChain::Handler("first")
        .chain(SystemMatcher::new(vec![SystemCluster::Acl]), HandlerChain::Handler("second"))
        .chain(
            SystemMatcher::new(vec![SystemCluster::Acl, SystemCluster::Noc]),
            HandlerChain::Handler("third"),
        );
    assert_eq!(chain.dispatch(0, SystemCluster::Acl.id()), Some(&"third"));
    assert_eq!(chain.dispatch(0, SystemCluster::Noc.id()), Some(&"third"));
    assert_eq!(chain.dispatch(0, SystemCluster::Desc.id()), Some(&"first"));
    assert_eq!(HandlerChain::<u8>::Empty.dispatch(0, 1), None);
}
