//! UDP transport: which socket operation a transport operation stands for.
use vstd::prelude::*;

use crate::error::ErrorCode;

verus! {

/// An IP address.
#[derive(Debug, Clone, Copy, PartialEq, Eq)]
pub enum IpAddr {
    /// An IPv4 address
    V4([u8; 4]),
    /// An IPv6 address
    V6([u8; 16]),
}

/// An IP address and a port.
#[allow(inconsistent_fields)]
#[derive(Debug, Clone, Copy, PartialEq, Eq)]
pub enum SocketAddr {
    /// An IPv4 socket address
    V4 {
        /// The IP address
        ip: [u8; 4],
        /// The port
        port: u16,
    },
    /// An IPv6 socket address
    V6 {
        /// The IP address
        ip: [u8; 16],
        /// The port
        port: u16,
        /// The flow information
        flowinfo: u32,
        /// The scope
        scope_id: u32,
    },
}

/// The address of a peer, with the transport that leads to it.
#[derive(Debug, Clone, Copy, PartialEq, Eq)]
pub enum Address {
    /// A peer over UDP
    Udp(SocketAddr),
    /// A peer over TCP
    Tcp(SocketAddr),
    /// A peer over BLE
    Btp([u8; 6]),
}

/// UDP transport implementation.
#[derive(Debug)]
pub struct Udp<T>(pub T);

impl<T> Udp<T> {
    /// Return the socket address that a datagram for `addr` is sent to.
    pub fn send_to(&self, addr: Address) -> (r: Result<SocketAddr, ErrorCode>)
        ensures
            match addr {
                Address::Udp(remote) => r == Ok::<SocketAddr, ErrorCode>(remote),
                _ => r == Err::<SocketAddr, ErrorCode>(ErrorCode::NoNetworkInterface),
            },
    {
        if let Address::Udp(remote) = addr {
            Ok(remote)
        } else {
            Err(ErrorCode::NoNetworkInterface)
        }
    }

    /// Return the outcome of sending a datagram, given that of the socket operation.
    pub fn sent<E>(&self, result: Result<(), E>) -> (r: Result<(), ErrorCode>)
        ensures
            result is Ok ==> r == Ok::<(), ErrorCode>(()),
            result is Err ==> r == Err::<(), ErrorCode>(ErrorCode::StdIoError),
    {
        match result {
            Ok(()) => Ok(()),
            Err(e) => Err(map_err(e)),
        }
    }

    /// Return the outcome of waiting for a datagram, given that of the socket operation.
    pub fn wait_available<E>(&self, result: Result<(), E>) -> (r: Result<(), ErrorCode>)
        ensures
            result is Ok ==> r == Ok::<(), ErrorCode>(()),
            result is Err ==> r == Err::<(), ErrorCode>(ErrorCode::StdIoError),
    {
        match result {
            Ok(()) => Ok(()),
            Err(e) => Err(map_err(e)),
        }
    }

    /// Return the size and the sender of a datagram, given the outcome of the socket operation.
    pub fn recv_from<E>(&self, result: Result<(usize, SocketAddr), E>) -> (r: Result<
        (usize, Address),
        ErrorCode,
    >)
        ensures
            match result {
                Ok((size, addr)) => r == Ok::<(usize, Address), ErrorCode>(
                    (size, Address::Udp(addr)),
                ),
                Err(_) => r == Err::<(usize, Address), ErrorCode>(ErrorCode::StdIoError),
            },
    {
        match result {
            Ok((size, addr)) => Ok((size, Address::Udp(addr))),
            Err(e) => Err(map_err(e)),
        }
    }
}

/// The means to join and leave multicast groups, for both IP families.
#[derive(Debug)]
pub struct Multicast<M4, M6> {
    m4: M4,
    m4_network: [u8; 4],
    m6: M6,
    m6_interface: u32,
}

impl<M4, M6> Multicast<M4, M6> {
    /// The means for IPv4.
    pub closed spec fn m4(&self) -> M4 {
        self.m4
    }

    /// The IPv4 address of the interface on which groups are joined and left.
    pub closed spec fn m4_network(&self) -> [u8; 4] {
        self.m4_network
    }

    /// The means for IPv6.
    pub closed spec fn m6(&self) -> M6 {
        self.m6
    }

    /// The index of the interface on which IPv6 groups are joined and left.
    pub closed spec fn m6_interface(&self) -> u32 {
        self.m6_interface
    }

    /// Create a new instance.
    pub fn new(m4: M4, m4_network: [u8; 4], m6: M6, m6_interface: u32) -> (r: Self)
        ensures
            r.m4() == m4,
            r.m4_network() == m4_network,
            r.m6() == m6,
            r.m6_interface() == m6_interface,
    {
        Multicast { m4, m4_network, m6, m6_interface }
    }
}

/// A multicast group to join or leave, and the means to do so.
#[allow(inconsistent_fields)]
#[derive(Debug)]
pub enum Membership<'a, M4, M6> {
    /// An IPv4 group
    V4 {
        /// The means
        via: &'a mut M4,
        /// The group
        group: [u8; 4],
        /// The address of the interface
        network: [u8; 4],
    },
    /// An IPv6 group
    V6 {
        /// The means
        via: &'a mut M6,
        /// The group
        group: [u8; 16],
        /// The index of the interface
        interface: u32,
    },
}

impl<M4, M6> Udp<Multicast<M4, M6>> {
    /// Return what is to be joined for the group `addr`.
    pub fn join<'a>(&'a mut self, addr: IpAddr) -> (r: Membership<'a, M4, M6>)
        ensures
            final(self).0.m4_network() == old(self).0.m4_network(),
            final(self).0.m6_interface() == old(self).0.m6_interface(),
            match addr {
                IpAddr::V4(remote) => r matches Membership::V4 { via, group, network } && {
                    &&& group == remote
                    &&& network == old(self).0.m4_network()
                    &&& *via == old(self).0.m4()
                    &&& final(self).0.m4() == *final(via)
                    &&& final(self).0.m6() == old(self).0.m6()
                },
                IpAddr::V6(remote) => r matches Membership::V6 { via, group, interface } && {
                    &&& group == remote
                    &&& interface == old(self).0.m6_interface()
                    &&& *via == old(self).0.m6()
                    &&& final(self).0.m6() == *final(via)
                    &&& final(self).0.m4() == old(self).0.m4()
                },
            },
    {
        match addr {
            IpAddr::V4(group) => Membership::V4 {
                network: self.0.m4_network,
                via: &mut self.0.m4,
                group,
            },
            IpAddr::V6(group) => Membership::V6 {
                interface: self.0.m6_interface,
                via: &mut self.0.m6,
                group,
            },
        }
    }

    /// Return what is to be left for the group `addr`: what was joined for it.
    pub fn leave<'a>(&'a mut self, addr: IpAddr) -> (r: Membership<'a, M4, M6>)
        ensures
            final(self).0.m4_network() == old(self).0.m4_network(),
            final(self).0.m6_interface() == old(self).0.m6_interface(),
            match addr {
                IpAddr::V4(remote) => r matches Membership::V4 { via, group, network } && {
                    &&& group == remote
                    &&& network == old(self).0.m4_network()
                    &&& *via == old(self).0.m4()
                    &&& final(self).0.m4() == *final(via)
                    &&& final(self).0.m6() == old(self).0.m6()
                },
                IpAddr::V6(remote) => r matches Membership::V6 { via, group, interface } && {
                    &&& group == remote
                    &&& interface == old(self).0.m6_interface()
                    &&& *via == old(self).0.m6()
                    &&& final(self).0.m6() == *final(via)
                    &&& final(self).0.m4() == old(self).0.m4()
                },
            },
    {
        self.join(addr)
    }

    /// Return the outcome of joining or leaving a group, given that of the socket operation.
    pub fn changed<E>(&self, result: Result<(), E>) -> (r: Result<(), ErrorCode>)
        ensures
            result is Ok ==> r == Ok::<(), ErrorCode>(()),
            result is Err ==> r == Err::<(), ErrorCode>(ErrorCode::StdIoError),
    {
        match result {
            Ok(()) => Ok(()),
            Err(e) => Err(map_err(e)),
        }
    }
}

/// Every failure of a socket operation is a network error.
pub fn map_err<E>(_e: E) -> (r: ErrorCode)
    ensures
        r == ErrorCode::StdIoError,
{
    ErrorCode::StdIoError
}

} // verus!
