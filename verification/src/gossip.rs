//! What goes out to gossip: four addresses, one setter call each.
use crate::net::{SocketAddr, SocketAddrV4, SocketAddrV6};
use std::sync::Arc;
use vstd::prelude::*;

verus! {

/// How far above the UDP port of a TPU its QUIC port lies.
pub const TPU_QUIC_PORT_OFFSET: u16 = 6;

/// The QUIC address that belongs to a UDP address: the same address, on the port
/// that lies `TPU_QUIC_PORT_OFFSET` above, counted modulo the number of ports.
pub open spec fn quic_addr(udp_addr: SocketAddr) -> SocketAddr {
    udp_addr.with_port(((udp_addr.spec_port() + TPU_QUIC_PORT_OFFSET) % 0x1_0000) as u16)
}

/// Derives the QUIC address that belongs to a UDP address.
pub fn quic_addr_for(udp_addr: SocketAddr) -> (quic: SocketAddr)
    ensures
        quic == quic_addr(udp_addr),
        match udp_addr {
            SocketAddr::V4(a) => quic == SocketAddr::V4(
                SocketAddrV4 { ip: a.ip, port: ((a.port + 6) % 0x1_0000) as u16 },
            ),
            SocketAddr::V6(a) => quic == SocketAddr::V6(
                SocketAddrV6 {
                    ip: a.ip,
                    port: ((a.port + 6) % 0x1_0000) as u16,
                    flowinfo: a.flowinfo,
                    scope_id: a.scope_id,
                },
            ),
        },
        quic.spec_ip() == udp_addr.spec_ip(),
        quic.spec_port() == (udp_addr.spec_port() + TPU_QUIC_PORT_OFFSET) % 0x1_0000,
{
    let mut quic = udp_addr;
    quic.set_port(udp_addr.port().wrapping_add(TPU_QUIC_PORT_OFFSET));
    quic
}

/// A call of one setter of the node's gossip contact info.
#[derive(Clone, Copy, Debug, PartialEq, Eq, Structural)]
pub enum GossipCall {
    SetTpuUdp(SocketAddr),
    SetTpuQuic(SocketAddr),
    SetTpuForwardsUdp(SocketAddr),
    SetTpuForwardsQuic(SocketAddr),
}

/// Which setter is up next.
#[derive(Clone, Copy, Debug, PartialEq, Eq, Structural)]
pub enum GossipStep {
    TpuUdp,
    TpuQuic,
    TpuForwardsUdp,
    TpuForwardsQuic,
    Finished,
}

/// A walk through the setter calls that advertise one pair of UDP addresses.
#[derive(Clone, Copy, Debug, PartialEq, Eq, Structural)]
pub struct GossipRun {
    pub tpu_udp_addr: SocketAddr,
    pub tpu_forwards_udp_addr: SocketAddr,
    pub step: GossipStep,
}

impl GossipRun {
    /// The run that advertises the given addresses and has called nothing yet.
    pub open spec fn start(tpu_udp_addr: SocketAddr, tpu_forwards_udp_addr: SocketAddr) -> Self {
        GossipRun { tpu_udp_addr, tpu_forwards_udp_addr, step: GossipStep::TpuUdp }
    }

    /// All calls of the run, in their order.
    pub open spec fn calls(self) -> Seq<GossipCall> {
        seq![
            GossipCall::SetTpuUdp(self.tpu_udp_addr),
            GossipCall::SetTpuQuic(quic_addr(self.tpu_udp_addr)),
            GossipCall::SetTpuForwardsUdp(self.tpu_forwards_udp_addr),
            GossipCall::SetTpuForwardsQuic(quic_addr(self.tpu_forwards_udp_addr)),
        ]
    }

    /// How many of the calls have been made.
    pub open spec fn made(self) -> nat {
        match self.step {
            GossipStep::TpuUdp => 0,
            GossipStep::TpuQuic => 1,
            GossipStep::TpuForwardsUdp => 2,
            GossipStep::TpuForwardsQuic => 3,
            GossipStep::Finished => 4,
        }
    }

    /// The call that is up next.
    pub open spec fn upcoming(self) -> Option<GossipCall> {
        if self.made() < self.calls().len() {
            Some(self.calls()[self.made() as int])
        } else {
            None
        }
    }

    /// What is reported of the call that is up next.
    pub open spec fn failure(self, succeeded: bool) -> Option<GossipCall> {
        if succeeded {
            None
        } else {
            self.upcoming()
        }
    }

    /// The run after one more call.
    pub open spec fn advanced(self) -> GossipRun {
        GossipRun {
            step: match self.step {
                GossipStep::TpuUdp => GossipStep::TpuQuic,
                GossipStep::TpuQuic => GossipStep::TpuForwardsUdp,
                GossipStep::TpuForwardsUdp => GossipStep::TpuForwardsQuic,
                GossipStep::TpuForwardsQuic => GossipStep::Finished,
                GossipStep::Finished => GossipStep::Finished,
            },
            ..self
        }
    }

    /// The setter call to make next, or `None` once all have been made.
    pub fn next_call(&self) -> (res: Option<GossipCall>)
        ensures
            res == self.upcoming(),
            match self.step {
                GossipStep::TpuUdp => res == Some(GossipCall::SetTpuUdp(self.tpu_udp_addr)),
                GossipStep::TpuQuic => res == Some(
                    GossipCall::SetTpuQuic(quic_addr(self.tpu_udp_addr)),
                ),
                GossipStep::TpuForwardsUdp => res == Some(
                    GossipCall::SetTpuForwardsUdp(self.tpu_forwards_udp_addr),
                ),
                GossipStep::TpuForwardsQuic => res == Some(
                    GossipCall::SetTpuForwardsQuic(quic_addr(self.tpu_forwards_udp_addr)),
                ),
                GossipStep::Finished => res is None,
            },
    {
        match self.step {
            GossipStep::TpuUdp => Some(GossipCall::SetTpuUdp(self.tpu_udp_addr)),
            GossipStep::TpuQuic => Some(GossipCall::SetTpuQuic(quic_addr_for(self.tpu_udp_addr))),
            GossipStep::TpuForwardsUdp => Some(
                GossipCall::SetTpuForwardsUdp(self.tpu_forwards_udp_addr),
            ),
            GossipStep::TpuForwardsQuic => Some(
                GossipCall::SetTpuForwardsQuic(quic_addr_for(self.tpu_forwards_udp_addr)),
            ),
            GossipStep::Finished => None,
        }
    }

    /// Takes in whether the call that was up next succeeded, and moves on to the
    /// one after it either way. Returns the call where it failed, to be reported.
    pub fn record(&mut self, succeeded: bool) -> (failed: Option<GossipCall>)
        ensures
            *final(self) == old(self).advanced(),
            final(self).tpu_udp_addr == old(self).tpu_udp_addr,
            final(self).tpu_forwards_udp_addr == old(self).tpu_forwards_udp_addr,
            match old(self).step {
                GossipStep::TpuUdp => final(self).step is TpuQuic,
                GossipStep::TpuQuic => final(self).step is TpuForwardsUdp,
                GossipStep::TpuForwardsUdp => final(self).step is TpuForwardsQuic,
                GossipStep::TpuForwardsQuic => final(self).step is Finished,
                GossipStep::Finished => final(self).step is Finished,
            },
            succeeded ==> failed is None,
            !succeeded ==> failed == old(self).upcoming(),
            failed == old(self).failure(succeeded),
    {
        let call = self.next_call();
        self.step = match self.step {
            GossipStep::TpuUdp => GossipStep::TpuQuic,
            GossipStep::TpuQuic => GossipStep::TpuForwardsUdp,
            GossipStep::TpuForwardsUdp => GossipStep::TpuForwardsQuic,
            GossipStep::TpuForwardsQuic => GossipStep::Finished,
            GossipStep::Finished => GossipStep::Finished,
        };
        if succeeded {
            None
        } else {
            call
        }
    }
}

/// The setter calls to make on one gossip handle.
pub struct GossipUpdate<C> {
    /// The gossip handle.
    pub cluster_info: Arc<C>,
    /// Whether the addresses are those of the remote TPU, not the local ones.
    pub remote: bool,
    /// The calls.
    pub run: GossipRun,
}

/// Advertises TPU and TPU forwards UDP addresses, and the QUIC addresses derived
/// from them: the calls are still to be made. A setter that fails is reported and
/// does not keep the others from being called.
pub fn apply_tpu_addrs(tpu_udp_addr: SocketAddr, tpu_forwards_udp_addr: SocketAddr) -> (run:
    GossipRun)
    ensures
        run == GossipRun::start(tpu_udp_addr, tpu_forwards_udp_addr),
        run.tpu_udp_addr == tpu_udp_addr,
        run.tpu_forwards_udp_addr == tpu_forwards_udp_addr,
        run.step is TpuUdp,
        run.made() == 0,
        run.calls() == seq![
            GossipCall::SetTpuUdp(tpu_udp_addr),
            GossipCall::SetTpuQuic(quic_addr(tpu_udp_addr)),
            GossipCall::SetTpuForwardsUdp(tpu_forwards_udp_addr),
            GossipCall::SetTpuForwardsQuic(quic_addr(tpu_forwards_udp_addr)),
        ],
{
    GossipRun { tpu_udp_addr, tpu_forwards_udp_addr, step: GossipStep::TpuUdp }
}

} // verus!
