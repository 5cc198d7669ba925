//! Socket addresses as plain values.
use vstd::prelude::*;

verus! {

/// An IPv4 address.
#[derive(Clone, Copy, Debug, PartialEq, Eq, Structural)]
pub struct Ipv4Addr {
    /// The address as a number: its first octet is the most significant one.
    pub bits: u32,
}

impl Ipv4Addr {
    /// The `i`-th of the four octets, in the order in which they are written.
    pub open spec fn octet(self, i: int) -> int
        recommends
            0 <= i < 4,
    {
        let n = self.bits as int;
        if i == 0 {
            n / 0x100_0000
        } else if i == 1 {
            n / 0x1_0000 % 0x100
        } else if i == 2 {
            n / 0x100 % 0x100
        } else {
            n % 0x100
        }
    }

    /// The address `0.0.0.0`.
    pub fn unspecified() -> (res: Ipv4Addr)
        ensures
            res.bits == 0,
    {
        Ipv4Addr { bits: 0 }
    }
}

/// An IPv6 address.
#[derive(Clone, Copy, Debug, PartialEq, Eq, Structural)]
pub struct Ipv6Addr {
    /// The address as a number: its first octet is the most significant one.
    pub bits: u128,
}

/// An IP address of either family.
#[derive(Clone, Copy, Debug, PartialEq, Eq, Structural)]
pub enum IpAddr {
    V4(Ipv4Addr),
    V6(Ipv6Addr),
}

/// An IPv4 address with a port.
#[derive(Clone, Copy, Debug, PartialEq, Eq, Structural)]
pub struct SocketAddrV4 {
    pub ip: Ipv4Addr,
    pub port: u16,
}

/// An IPv6 address with a port, a flow label and a scope.
#[derive(Clone, Copy, Debug, PartialEq, Eq, Structural)]
pub struct SocketAddrV6 {
    pub ip: Ipv6Addr,
    pub port: u16,
    pub flowinfo: u32,
    pub scope_id: u32,
}

/// A socket address of either family.
#[derive(Clone, Copy, Debug, PartialEq, Eq, Structural)]
pub enum SocketAddr {
    V4(SocketAddrV4),
    V6(SocketAddrV6),
}

impl SocketAddr {
    /// The IP address without the port.
    pub open spec fn spec_ip(self) -> IpAddr {
        match self {
            SocketAddr::V4(a) => IpAddr::V4(a.ip),
            SocketAddr::V6(a) => IpAddr::V6(a.ip),
        }
    }

    /// The port.
    pub open spec fn spec_port(self) -> u16 {
        match self {
            SocketAddr::V4(a) => a.port,
            SocketAddr::V6(a) => a.port,
        }
    }

    /// The same address on another port.
    pub open spec fn with_port(self, port: u16) -> SocketAddr {
        match self {
            SocketAddr::V4(a) => SocketAddr::V4(SocketAddrV4 { port, ..a }),
            SocketAddr::V6(a) => SocketAddr::V6(SocketAddrV6 { port, ..a }),
        }
    }

    /// The address of an IP address and a port, without flow label or scope.
    pub open spec fn spec_new(ip: IpAddr, port: u16) -> SocketAddr {
        match ip {
            IpAddr::V4(ip) => SocketAddr::V4(SocketAddrV4 { ip, port }),
            IpAddr::V6(ip) => SocketAddr::V6(
                SocketAddrV6 { ip, port, flowinfo: 0, scope_id: 0 },
            ),
        }
    }

    /// Joins an IP address and a port.
    pub fn new(ip: IpAddr, port: u16) -> (res: SocketAddr)
        ensures
            res == SocketAddr::spec_new(ip, port),
            match ip {
                IpAddr::V4(a) => res == SocketAddr::V4(SocketAddrV4 { ip: a, port }),
                IpAddr::V6(a) => res == SocketAddr::V6(
                    SocketAddrV6 { ip: a, port, flowinfo: 0, scope_id: 0 },
                ),
            },
            res.spec_ip() == ip,
            res.spec_port() == port,
    {
        match ip {
            IpAddr::V4(ip) => SocketAddr::V4(SocketAddrV4 { ip, port }),
            IpAddr::V6(ip) => SocketAddr::V6(
                SocketAddrV6 { ip, port, flowinfo: 0, scope_id: 0 },
            ),
        }
    }

    /// The IP address without the port.
    pub fn ip(&self) -> (res: IpAddr)
        ensures
            match *self {
                SocketAddr::V4(a) => res == IpAddr::V4(a.ip),
                SocketAddr::V6(a) => res == IpAddr::V6(a.ip),
            },
            res == self.spec_ip(),
    {
        match *self {
            SocketAddr::V4(a) => IpAddr::V4(a.ip),
            SocketAddr::V6(a) => IpAddr::V6(a.ip),
        }
    }

    /// The port.
    pub fn port(&self) -> (res: u16)
        ensures
            match *self {
                SocketAddr::V4(a) => res == a.port,
                SocketAddr::V6(a) => res == a.port,
            },
            res == self.spec_port(),
    {
        match *self {
            SocketAddr::V4(a) => a.port,
            SocketAddr::V6(a) => a.port,
        }
    }

    /// Moves the address to another port and leaves the rest of it alone.
    pub fn set_port(&mut self, port: u16)
        ensures
            *final(self) == old(self).with_port(port),
            match *old(self) {
                SocketAddr::V4(a) => *final(self) == SocketAddr::V4(
                    SocketAddrV4 { ip: a.ip, port },
                ),
                SocketAddr::V6(a) => *final(self) == SocketAddr::V6(
                    SocketAddrV6 { ip: a.ip, port, flowinfo: a.flowinfo, scope_id: a.scope_id },
                ),
            },
            final(self).spec_port() == port,
            final(self).spec_ip() == old(self).spec_ip(),
    {
        *self = match *self {
            SocketAddr::V4(a) => SocketAddr::V4(SocketAddrV4 { port, ..a }),
            SocketAddr::V6(a) => SocketAddr::V6(SocketAddrV6 { port, ..a }),
        };
    }
}

} // verus!
