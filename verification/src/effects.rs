//! What each operation comes to, field by field.
use crate::gossip::{GossipCall, GossipRun};
use crate::net::{IpAddr, Ipv4Addr, Ipv6Addr, SocketAddr, SocketAddrV4, SocketAddrV6};
use crate::service::HarmonicTpuServiceConfig;
use crate::state::{TpuUpdateGlobal, TpuUpdateState, UpdateOutcome};
use crate::update::TpuUpdate;
use std::sync::Arc;
use vstd::prelude::*;

verus! {

/// An IPv4 socket address is its address and its port, put together and taken
/// apart.
pub proof fn law_v4_socket_addr_is_ip_and_port(ip: Ipv4Addr, port: u16, other: u16)
    ensures
        SocketAddr::spec_new(IpAddr::V4(ip), port) == SocketAddr::V4(SocketAddrV4 { ip, port }),
        SocketAddr::V4(SocketAddrV4 { ip, port }).spec_ip() == IpAddr::V4(ip),
        SocketAddr::V4(SocketAddrV4 { ip, port }).spec_port() == port,
        SocketAddr::V4(SocketAddrV4 { ip, port }).with_port(other) == SocketAddr::V4(
            SocketAddrV4 { ip, port: other },
        ),
{
}

/// An IPv6 socket address is its address and its port, put together without flow
/// label or scope, and taken apart. A change of port keeps the other three.
pub proof fn law_v6_socket_addr_is_ip_and_port(
    ip: Ipv6Addr,
    port: u16,
    flowinfo: u32,
    scope_id: u32,
    other: u16,
)
    ensures
        SocketAddr::spec_new(IpAddr::V6(ip), port) == SocketAddr::V6(
            SocketAddrV6 { ip, port, flowinfo: 0, scope_id: 0 },
        ),
        SocketAddr::V6(SocketAddrV6 { ip, port, flowinfo, scope_id }).spec_ip() == IpAddr::V6(ip),
        SocketAddr::V6(SocketAddrV6 { ip, port, flowinfo, scope_id }).spec_port() == port,
        SocketAddr::V6(SocketAddrV6 { ip, port, flowinfo, scope_id }).with_port(other)
            == SocketAddr::V6(SocketAddrV6 { ip, port: other, flowinfo, scope_id }),
{
}

/// The four octets of an IPv4 address are bytes, and make up the address with the
/// first one in front.
pub proof fn law_octets_make_up_the_address(ip: Ipv4Addr)
    ensures
        forall|i: int| 0 <= i < 4 ==> 0 <= #[trigger] ip.octet(i) < 0x100,
        ip.bits == ip.octet(0) * 0x100_0000 + ip.octet(1) * 0x1_0000 + ip.octet(2) * 0x100
            + ip.octet(3),
{
}

/// The QUIC address of an IPv4 UDP address has the same IP address, and the port
/// six above.
pub proof fn law_v4_quic_port_lies_six_above(a: SocketAddrV4)
    ensures
        crate::gossip::quic_addr(SocketAddr::V4(a)) == SocketAddr::V4(
            SocketAddrV4 { ip: a.ip, port: ((a.port + 6) % 65536) as u16 },
        ),
{
}

/// The QUIC address of an IPv6 UDP address has the same IP address, flow label and
/// scope, and the port six above.
pub proof fn law_v6_quic_port_lies_six_above(a: SocketAddrV6)
    ensures
        crate::gossip::quic_addr(SocketAddr::V6(a)) == SocketAddr::V6(
            SocketAddrV6 {
                ip: a.ip,
                port: ((a.port + 6) % 65536) as u16,
                flowinfo: a.flowinfo,
                scope_id: a.scope_id,
            },
        ),
{
}

/// A run calls the setter of the TPU UDP address, of its QUIC address, of the TPU
/// forwards UDP address and of its QUIC address, one after the other, and then
/// none.
pub proof fn law_run_calls_four_setters(tpu: SocketAddr, forwards: SocketAddr)
    ensures
        ({
            let first = GossipRun::start(tpu, forwards);
            let second = first.advanced();
            let third = second.advanced();
            let fourth = third.advanced();
            let done = fourth.advanced();
            &&& first.upcoming() == Some(GossipCall::SetTpuUdp(tpu))
            &&& second.upcoming() == Some(GossipCall::SetTpuQuic(crate::gossip::quic_addr(tpu)))
            &&& third.upcoming() == Some(GossipCall::SetTpuForwardsUdp(forwards))
            &&& fourth.upcoming() == Some(
                GossipCall::SetTpuForwardsQuic(crate::gossip::quic_addr(forwards)),
            )
            &&& done.upcoming() is None
            &&& done.advanced() == done
            &&& first.tpu_udp_addr == tpu && done.tpu_udp_addr == tpu
            &&& first.tpu_forwards_udp_addr == forwards && done.tpu_forwards_udp_addr == forwards
        }),
{
}

/// A setter call is reported where it failed, and only there, whichever is up.
pub proof fn law_failed_setter_is_reported(run: GossipRun)
    ensures
        run.failure(true) is None,
        run.failure(false) == run.upcoming(),
        run.step is TpuUdp ==> run.failure(false) == Some(GossipCall::SetTpuUdp(run.tpu_udp_addr)),
        run.step is TpuForwardsUdp ==> run.failure(false) == Some(
            GossipCall::SetTpuForwardsUdp(run.tpu_forwards_udp_addr),
        ),
{
}

/// An address can be advertised unless its port is zero or it is the IPv4 address
/// `0.0.0.0`. Neither the forwards address nor the status matters.
pub proof fn law_every_real_address_is_valid(update: TpuUpdate)
    ensures
        match update.tpu_udp_addr {
            SocketAddr::V4(a) => update.addrs_valid() == (1 <= a.port && a.ip.bits != 0),
            SocketAddr::V6(a) => update.addrs_valid() == (1 <= a.port),
        },
        update.can_wait() == (update.is_connected && update.addrs_valid()),
{
}

/// A report is one of the two known statuses with its two addresses, in their
/// order: one is a connection and zero a disconnection, whatever the addresses.
pub proof fn law_report_is_read_as_given(
    status: i32,
    tpu_ip: Ipv4Addr,
    tpu_port: u16,
    tpu_fwd_ip: Ipv4Addr,
    tpu_fwd_port: u16,
)
    ensures
        ({
            let res = crate::update::reported(status, tpu_ip, tpu_port, tpu_fwd_ip, tpu_fwd_port);
            &&& res is Some <==> status == 0 || status == 1
            &&& res matches Some(update) ==> {
                &&& update.is_connected == (status == 1)
                &&& update.tpu_udp_addr == SocketAddr::V4(
                    SocketAddrV4 { ip: tpu_ip, port: tpu_port },
                )
                &&& update.tpu_forwards_udp_addr == SocketAddr::V4(
                    SocketAddrV4 { ip: tpu_fwd_ip, port: tpu_fwd_port },
                )
            }
        }),
{
}

/// A connection that a running, disconnected service hears of makes it advertise
/// the two reported addresses, and the QUIC addresses derived from them, on its
/// own gossip handle. The service keeps its local addresses and counts as
/// connected.
pub proof fn law_connection_advertises_the_reported_addrs<C>(
    global: TpuUpdateGlobal<C>,
    state: TpuUpdateState<C>,
    update: TpuUpdate,
)
    requires
        global.state == Some(state),
        !state.last_status,
        update.is_connected,
    ensures
        global.response(update) matches UpdateOutcome::Advertise(gossip) && {
            &&& gossip.cluster_info == state.cluster_info
            &&& gossip.remote
            &&& gossip.run.made() == 0
            &&& gossip.run.calls() == seq![
                GossipCall::SetTpuUdp(update.tpu_udp_addr),
                GossipCall::SetTpuQuic(crate::gossip::quic_addr(update.tpu_udp_addr)),
                GossipCall::SetTpuForwardsUdp(update.tpu_forwards_udp_addr),
                GossipCall::SetTpuForwardsQuic(
                    crate::gossip::quic_addr(update.tpu_forwards_udp_addr),
                ),
            ]
        },
        global.received(update).state == Some(
            TpuUpdateState {
                cluster_info: state.cluster_info,
                local_tpu_udp_addr: state.local_tpu_udp_addr,
                local_tpu_forwards_udp_addr: state.local_tpu_forwards_udp_addr,
                last_status: true,
            },
        ),
        global.received(update).pending == global.pending,
{
}

/// A disconnection that a running, connected service hears of makes it advertise
/// its local addresses, and the QUIC addresses derived from them, whatever
/// addresses were reported. The service counts as disconnected.
pub proof fn law_disconnection_advertises_the_local_addrs<C>(
    global: TpuUpdateGlobal<C>,
    state: TpuUpdateState<C>,
    update: TpuUpdate,
)
    requires
        global.state == Some(state),
        state.last_status,
        !update.is_connected,
    ensures
        global.response(update) matches UpdateOutcome::Advertise(gossip) && {
            &&& gossip.cluster_info == state.cluster_info
            &&& !gossip.remote
            &&& gossip.run.made() == 0
            &&& gossip.run.calls() == seq![
                GossipCall::SetTpuUdp(state.local_tpu_udp_addr),
                GossipCall::SetTpuQuic(crate::gossip::quic_addr(state.local_tpu_udp_addr)),
                GossipCall::SetTpuForwardsUdp(state.local_tpu_forwards_udp_addr),
                GossipCall::SetTpuForwardsQuic(
                    crate::gossip::quic_addr(state.local_tpu_forwards_udp_addr),
                ),
            ]
        },
        global.received(update).state == Some(
            TpuUpdateState {
                cluster_info: state.cluster_info,
                local_tpu_udp_addr: state.local_tpu_udp_addr,
                local_tpu_forwards_udp_addr: state.local_tpu_forwards_udp_addr,
                last_status: false,
            },
        ),
        global.received(update).pending == global.pending,
{
}

/// A report of the status that a running service already acted upon changes
/// nothing and sends out nothing, whatever addresses it carries.
pub proof fn law_known_status_changes_nothing<C>(
    global: TpuUpdateGlobal<C>,
    state: TpuUpdateState<C>,
    update: TpuUpdate,
)
    requires
        global.state == Some(state),
        state.last_status == update.is_connected,
    ensures
        global.response(update) is Unchanged,
        global.received(update) == global,
{
}

/// Carrying a report out, whatever the last status was, advertises the reported
/// addresses for a connection and the local ones for a disconnection.
pub proof fn law_report_is_carried_out<C>(state: TpuUpdateState<C>, update: TpuUpdate)
    ensures
        state.gossip_for(update).cluster_info == state.cluster_info,
        state.gossip_for(update).remote == update.is_connected,
        state.gossip_for(update).run.step is TpuUdp,
        state.gossip_for(update).run.tpu_udp_addr == if update.is_connected {
            update.tpu_udp_addr
        } else {
            state.local_tpu_udp_addr
        },
        state.gossip_for(update).run.tpu_forwards_udp_addr == if update.is_connected {
            update.tpu_forwards_udp_addr
        } else {
            state.local_tpu_forwards_udp_addr
        },
{
}

/// Without a service, a connection to an address on any port but zero, and not
/// `0.0.0.0`, waits as it was reported, in place of what waited before. One to any
/// other address is dropped, and a disconnection clears what waits. Nothing is
/// sent out.
pub proof fn law_report_waits_for_a_service<C>(global: TpuUpdateGlobal<C>, update: TpuUpdate)
    requires
        global.state is None,
    ensures
        global.response(update) is NotRunning,
        global.received(update).state is None,
        !update.is_connected ==> global.received(update).pending is None,
        update.is_connected ==> global.received(update).pending == match update.tpu_udp_addr {
            SocketAddr::V4(a) => if 1 <= a.port && a.ip.bits != 0 {
                Some(update)
            } else {
                global.pending
            },
            SocketAddr::V6(a) => if 1 <= a.port {
                Some(update)
            } else {
                global.pending
            },
        },
{
}

/// Handing over what waits acts upon it as upon a report that comes in: the running
/// service takes on its status, nothing waits any more, and gossip is told where
/// the status is news.
pub proof fn law_waiting_report_is_handed_over<C>(
    global: TpuUpdateGlobal<C>,
    state: TpuUpdateState<C>,
    update: TpuUpdate,
)
    requires
        global.state == Some(state),
        global.pending == Some(update),
    ensures
        global.caught_up().state == Some(
            TpuUpdateState {
                cluster_info: state.cluster_info,
                local_tpu_udp_addr: state.local_tpu_udp_addr,
                local_tpu_forwards_udp_addr: state.local_tpu_forwards_udp_addr,
                last_status: update.is_connected,
            },
        ),
        global.caught_up().pending is None,
        global.catch_up_gossip() is Some <==> state.last_status != update.is_connected,
        global.catch_up_gossip() matches Some(gossip) ==> {
            &&& gossip.cluster_info == state.cluster_info
            &&& gossip.remote == update.is_connected
            &&& gossip.run.made() == 0
            &&& gossip.run.tpu_udp_addr == if update.is_connected {
                update.tpu_udp_addr
            } else {
                state.local_tpu_udp_addr
            }
            &&& gossip.run.tpu_forwards_udp_addr == if update.is_connected {
                update.tpu_forwards_udp_addr
            } else {
                state.local_tpu_forwards_udp_addr
            }
        },
{
}

/// With no service, or with nothing waiting, there is nothing to hand over.
pub proof fn law_nothing_to_hand_over<C>(global: TpuUpdateGlobal<C>)
    requires
        global.state is None || global.pending is None,
    ensures
        global.caught_up() == global,
        global.catch_up_gossip() is None,
{
}

/// A service starts with the gossip handle and the two local addresses that it was
/// given, in place of any earlier service, and disconnected unless a connection
/// waits. Nothing waits any more. What waited as a connection is advertised.
pub proof fn law_service_starts_as_configured<C>(
    global: TpuUpdateGlobal<C>,
    config: HarmonicTpuServiceConfig,
    cluster_info: Arc<C>,
)
    ensures
        ({
            let installed = config.installed(cluster_info, global);
            let connected = global.pending matches Some(update) && update.is_connected;
            &&& installed.caught_up().state == Some(
                TpuUpdateState {
                    cluster_info,
                    local_tpu_udp_addr: config.local_tpu_udp_addr,
                    local_tpu_forwards_udp_addr: config.local_tpu_forwards_udp_addr,
                    last_status: connected,
                },
            )
            &&& installed.caught_up().pending is None
            &&& !connected ==> installed.catch_up_gossip() is None
            &&& connected ==> {
                let update = global.pending->0;
                &&& installed.catch_up_gossip() matches Some(gossip)
                &&& gossip.cluster_info == cluster_info
                &&& gossip.remote
                &&& gossip.run.made() == 0
                &&& gossip.run.calls() == seq![
                    GossipCall::SetTpuUdp(update.tpu_udp_addr),
                    GossipCall::SetTpuQuic(crate::gossip::quic_addr(update.tpu_udp_addr)),
                    GossipCall::SetTpuForwardsUdp(update.tpu_forwards_udp_addr),
                    GossipCall::SetTpuForwardsQuic(
                        crate::gossip::quic_addr(update.tpu_forwards_udp_addr),
                    ),
                ]
            }
        }),
{
}

/// A service that was started, then connected, then disconnected advertises the
/// addresses that it was configured with.
pub proof fn law_configured_addrs_come_back<C>(
    global: TpuUpdateGlobal<C>,
    config: HarmonicTpuServiceConfig,
    cluster_info: Arc<C>,
    connect: TpuUpdate,
    disconnect: TpuUpdate,
)
    requires
        connect.is_connected,
        !disconnect.is_connected,
    ensures
        ({
            let started = config.installed(cluster_info, global).caught_up();
            started.received(connect).response(disconnect) matches UpdateOutcome::Advertise(gossip)
                && {
                &&& gossip.cluster_info == cluster_info
                &&& !gossip.remote
                &&& gossip.run.calls() == seq![
                    GossipCall::SetTpuUdp(config.local_tpu_udp_addr),
                    GossipCall::SetTpuQuic(crate::gossip::quic_addr(config.local_tpu_udp_addr)),
                    GossipCall::SetTpuForwardsUdp(config.local_tpu_forwards_udp_addr),
                    GossipCall::SetTpuForwardsQuic(
                        crate::gossip::quic_addr(config.local_tpu_forwards_udp_addr),
                    ),
                ]
            }
        }),
{
}

/// The bundle tile's numbers reach gossip as they are: on a connection that is
/// news, both addresses and both ports go out, and both ports plus six.
pub proof fn law_raw_report_reaches_gossip<C>(
    global: TpuUpdateGlobal<C>,
    state: TpuUpdateState<C>,
    tpu_ip: Ipv4Addr,
    tpu_port: u16,
    tpu_fwd_ip: Ipv4Addr,
    tpu_fwd_port: u16,
)
    requires
        global.state == Some(state),
        !state.last_status,
    ensures
        crate::update::reported(1, tpu_ip, tpu_port, tpu_fwd_ip, tpu_fwd_port) matches Some(update)
            && global.response(update) matches UpdateOutcome::Advertise(gossip)
            && gossip.run.calls() == seq![
            GossipCall::SetTpuUdp(SocketAddr::V4(SocketAddrV4 { ip: tpu_ip, port: tpu_port })),
            GossipCall::SetTpuQuic(
                SocketAddr::V4(
                    SocketAddrV4 { ip: tpu_ip, port: ((tpu_port + 6) % 65536) as u16 },
                ),
            ),
            GossipCall::SetTpuForwardsUdp(
                SocketAddr::V4(SocketAddrV4 { ip: tpu_fwd_ip, port: tpu_fwd_port }),
            ),
            GossipCall::SetTpuForwardsQuic(
                SocketAddr::V4(
                    SocketAddrV4 { ip: tpu_fwd_ip, port: ((tpu_fwd_port + 6) % 65536) as u16 },
                ),
            ),
        ],
{
}

/// A connection that the bundle tile reports before the service starts, to any
/// IPv4 address but `0.0.0.0` and any port but zero, is advertised when it starts.
pub proof fn law_raw_early_report_reaches_gossip<C>(
    global: TpuUpdateGlobal<C>,
    config: HarmonicTpuServiceConfig,
    cluster_info: Arc<C>,
    tpu_ip: Ipv4Addr,
    tpu_port: u16,
    tpu_fwd_ip: Ipv4Addr,
    tpu_fwd_port: u16,
)
    requires
        global.state is None,
        tpu_ip.bits != 0,
        tpu_port != 0,
    ensures
        crate::update::reported(1, tpu_ip, tpu_port, tpu_fwd_ip, tpu_fwd_port) matches Some(update)
            && config.installed(cluster_info, global.received(update)).catch_up_gossip() matches
            Some(gossip) && gossip.cluster_info == cluster_info && gossip.run.calls() == seq![
            GossipCall::SetTpuUdp(SocketAddr::V4(SocketAddrV4 { ip: tpu_ip, port: tpu_port })),
            GossipCall::SetTpuQuic(
                SocketAddr::V4(
                    SocketAddrV4 { ip: tpu_ip, port: ((tpu_port + 6) % 65536) as u16 },
                ),
            ),
            GossipCall::SetTpuForwardsUdp(
                SocketAddr::V4(SocketAddrV4 { ip: tpu_fwd_ip, port: tpu_fwd_port }),
            ),
            GossipCall::SetTpuForwardsQuic(
                SocketAddr::V4(
                    SocketAddrV4 { ip: tpu_fwd_ip, port: ((tpu_fwd_port + 6) % 65536) as u16 },
                ),
            ),
        ],
{
}

/// The state is sound exactly when nothing waits, or a connection to an address
/// that can be advertised waits and no service runs. It is empty exactly when
/// there is neither a service nor a waiting report.
pub proof fn law_sound_and_empty_states<C>(global: TpuUpdateGlobal<C>)
    ensures
        global.is_empty() <==> global.state is None && global.pending is None,
        global.wf() <==> match global.pending {
            None => true,
            Some(update) => {
                &&& global.state is None
                &&& update.is_connected
                &&& match update.tpu_udp_addr {
                    SocketAddr::V4(a) => a.port != 0 && a.ip.bits != 0,
                    SocketAddr::V6(a) => a.port != 0,
                }
            },
        },
{
}

} // verus!
