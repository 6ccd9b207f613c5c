use matter_stack::error::ErrorCode;
use matter_stack::udp::{map_err, Address, IpAddr, Membership, Multicast, SocketAddr, Udp};

const PEER: SocketAddr = SocketAddr::V6 { ip: [1; 16], port: 5540, flowinfo: 0, scope_id: 2 };

#[test]
fn sends_to_udp_peers_only() {
    let udp = Udp("socket");
    assert_eq!(udp.send_to(Address::Udp(PEER)), Ok(PEER));
    assert_eq!(udp.send_to(Address::Tcp(PEER)), Err(ErrorCode::NoNetworkInterface));
    assert_eq!(udp.send_to(Address::Btp([0; 6])), Err(ErrorCode::NoNetworkInterface));
}

#[test]
fn socket_failures_are_network_errors() {
    let udp = Udp("socket");
    assert_eq!(udp.sent(Ok::<(), u8>(())), Ok(()));
    assert_eq!(udp.sent(Err::<(), u8>(1)), Err(ErrorCode::StdIoError));
    assert_eq!(udp.wait_available(Ok::<(), u8>(())), Ok(()));
    assert_eq!(udp.wait_available(Err::<(), u8>(1)), Err(ErrorCode::StdIoError));
    assert_eq!(udp.recv_from(Ok::<(usize, SocketAddr), u8>((12, PEER))), Ok((12, Address::Udp(PEER))));
    assert_eq!(udp.recv_from(Err::<(usize, SocketAddr), u8>(1)), Err(ErrorCode::StdIoError));
    assert_eq!(map_err("any"), ErrorCode::StdIoError);
}

#[test]
fn groups_are_joined_and_left_on_the_interface_of_their_family() {
    let mut udp = Udp(Multicast::new(1u8, [192, 168, 0, 2], 2u16, 3));
    match udp.join(IpAddr::V4([224, 0, 0, 251])) {
        Membership::V4 { via, group, network } => {
            assert_eq!((*via, group, network), (1, [224, 0, 0, 251], [192, 168, 0, 2]));
            *via = 10;
        }
        Membership::V6 { .. } => panic!("wrong family"),
    }
    match udp.leave(IpAddr::V4([224, 0, 0, 251])) {
        Membership::V4 { via, group, network } => {
            assert_eq!((*via, group, network), (10, [224, 0, 0, 251], [192, 168, 0, 2]));
        }
        Membership::V6 { .. } => panic!("wrong family"),
    }
    match udp.join(IpAddr::V6([0xff; 16])) {
        Membership::V6 { via, group, interface } => {
            assert_eq!((*via, group, interface), (2, [0xff; 16], 3));
            *via = 20;
        }
        Membership::V4 { .. } => panic!("wrong family"),
    }
    match udp.leave(IpAddr::V6([0xff; 16])) {
        Membership::V6 { via, group, interface } => {
            assert_eq!((*via, group, interface), (20, [0xff; 16], 3));
        }
        Membership::V4 { .. } => panic!("wrong family"),
    }
    assert_eq!(udp.changed(Ok::<(), u8>(())), Ok(()));
    assert_eq!(udp.changed(Err::<(), u8>(1)), Err(ErrorCode::StdIoError));
}
