//! TPU updates, as the bundle tile reports them.
use crate::net::{IpAddr, Ipv4Addr, SocketAddr, SocketAddrV4};
use vstd::prelude::*;

verus! {

/// The status that reports the bundle TPU as disconnected.
pub const TPU_STATUS_DISCONNECTED: i32 = 0;

/// The status that reports the bundle TPU as connected.
pub const TPU_STATUS_CONNECTED: i32 = 1;

/// A report on the connection to the bundle TPU.
#[derive(Clone, Copy, Debug, PartialEq, Eq, Structural)]
pub struct TpuUpdate {
    pub is_connected: bool,
    pub tpu_udp_addr: SocketAddr,
    pub tpu_forwards_udp_addr: SocketAddr,
}

impl TpuUpdate {
    /// Whether the reported TPU address can be advertised: it has a port, and an
    /// address that is not `0.0.0.0`.
    pub open spec fn addrs_valid(self) -> bool {
        &&& self.tpu_udp_addr.spec_port() != 0
        &&& self.tpu_udp_addr.spec_ip() != IpAddr::V4(Ipv4Addr { bits: 0 })
    }

    /// Whether this update can wait for the service to start.
    pub open spec fn can_wait(self) -> bool {
        self.is_connected && self.addrs_valid()
    }
}

/// What a status and two IPv4 socket addresses report: nothing, where the status
/// is neither of the two known ones.
pub open spec fn reported(
    status: i32,
    tpu_ip: Ipv4Addr,
    tpu_port: u16,
    tpu_fwd_ip: Ipv4Addr,
    tpu_fwd_port: u16,
) -> Option<TpuUpdate> {
    if status == TPU_STATUS_CONNECTED || status == TPU_STATUS_DISCONNECTED {
        Some(
            TpuUpdate {
                is_connected: status == TPU_STATUS_CONNECTED,
                tpu_udp_addr: SocketAddr::spec_new(IpAddr::V4(tpu_ip), tpu_port),
                tpu_forwards_udp_addr: SocketAddr::spec_new(IpAddr::V4(tpu_fwd_ip), tpu_fwd_port),
            },
        )
    } else {
        None
    }
}

/// The IPv4 address whose octets lie in memory in the order in which they are
/// written, read as one integer.
pub open spec fn ipv4_in_memory(ip4_addr: u32) -> Ipv4Addr {
    Ipv4Addr { bits: crate::byte_order::host_order(ip4_addr) }
}

/// Builds the update that a status and two IPv4 socket addresses report.
pub fn build_tpu_update(
    status: i32,
    tpu_ip: Ipv4Addr,
    tpu_port: u16,
    tpu_fwd_ip: Ipv4Addr,
    tpu_fwd_port: u16,
) -> (res: Option<TpuUpdate>)
    ensures
        res == reported(status, tpu_ip, tpu_port, tpu_fwd_ip, tpu_fwd_port),
        res is Some <==> status == 0 || status == 1,
        res matches Some(update) ==> {
            &&& update.is_connected == (status == 1)
            &&& update.tpu_udp_addr == SocketAddr::V4(SocketAddrV4 { ip: tpu_ip, port: tpu_port })
            &&& update.tpu_forwards_udp_addr == SocketAddr::V4(
                SocketAddrV4 { ip: tpu_fwd_ip, port: tpu_fwd_port },
            )
        },
{
    let is_connected = if status == TPU_STATUS_CONNECTED {
        true
    } else if status == TPU_STATUS_DISCONNECTED {
        false
    } else {
        return None;
    };
    Some(
        TpuUpdate {
            is_connected,
            tpu_udp_addr: SocketAddr::new(IpAddr::V4(tpu_ip), tpu_port),
            tpu_forwards_udp_addr: SocketAddr::new(IpAddr::V4(tpu_fwd_ip), tpu_fwd_port),
        },
    )
}

/// Reads a report as it comes from the bundle tile: IPv4 addresses in network byte
/// order, ports in the byte order of the machine.
pub fn parse_tpu_update(
    status: i32,
    tpu_ip4_addr: u32,
    tpu_port: u16,
    tpu_fwd_ip4_addr: u32,
    tpu_fwd_port: u16,
) -> (res: Option<TpuUpdate>)
    ensures
        res == reported(
            status,
            ipv4_in_memory(tpu_ip4_addr),
            tpu_port,
            ipv4_in_memory(tpu_fwd_ip4_addr),
            tpu_fwd_port,
        ),
        res is Some <==> status == 0 || status == 1,
        res matches Some(update) ==> {
            &&& update.is_connected == (status == 1)
            &&& update.tpu_udp_addr == SocketAddr::V4(SocketAddrV4 { ip: ipv4_in_memory(tpu_ip4_addr), port: tpu_port })
            &&& update.tpu_forwards_udp_addr == SocketAddr::V4(
                SocketAddrV4 { ip: ipv4_in_memory(tpu_fwd_ip4_addr), port: tpu_fwd_port },
            )
        },
{
    let tpu_ip = Ipv4Addr { bits: u32::from_be(tpu_ip4_addr) };
    let tpu_fwd_ip = Ipv4Addr { bits: u32::from_be(tpu_fwd_ip4_addr) };
    build_tpu_update(status, tpu_ip, tpu_port, tpu_fwd_ip, tpu_fwd_port)
}

/// Whether the TPU address of a report can be advertised.
pub fn connected_addrs_valid(update: &TpuUpdate) -> (res: bool)
    ensures
        res == update.addrs_valid(),
        match update.tpu_udp_addr {
            SocketAddr::V4(a) => res == (a.port != 0 && a.ip.bits != 0),
            SocketAddr::V6(a) => res == (a.port != 0),
        },
{
    update.tpu_udp_addr.port() != 0 && update.tpu_udp_addr.ip() != IpAddr::V4(
        Ipv4Addr::unspecified(),
    )
}

} // verus!
