//! What holds of the library as a whole.
use crate::gossip::{GossipCall, GossipRun, GossipUpdate, TPU_QUIC_PORT_OFFSET};
use crate::net::{Ipv4Addr, SocketAddr};
use crate::service::HarmonicTpuServiceConfig;
use crate::state::{TpuUpdateGlobal, TpuUpdateState, UpdateOutcome};
use crate::update::TpuUpdate;
use std::sync::Arc;
use vstd::prelude::*;

verus! {

/// The state after a series of reports, taken in one after the other.
pub open spec fn received_all<C>(
    global: TpuUpdateGlobal<C>,
    updates: Seq<TpuUpdate>,
) -> TpuUpdateGlobal<C>
    decreases updates.len(),
{
    if updates.len() == 0 {
        global
    } else {
        received_all(global, updates.drop_last()).received(updates.last())
    }
}

/// The last gossip update that a series of reports sent out.
pub open spec fn last_gossip<C>(
    global: TpuUpdateGlobal<C>,
    updates: Seq<TpuUpdate>,
) -> Option<GossipUpdate<C>>
    decreases updates.len(),
{
    if updates.len() == 0 {
        None
    } else {
        match received_all(global, updates.drop_last()).response(updates.last()) {
            UpdateOutcome::Advertise(gossip) => Some(gossip),
            _ => last_gossip(global, updates.drop_last()),
        }
    }
}

/// The connection status that a service in `state` knew when `updates[k]` came in,
/// after the reports before it.
pub open spec fn status_before<C>(
    state: TpuUpdateState<C>,
    updates: Seq<TpuUpdate>,
    k: int,
) -> bool {
    if k == 0 {
        state.last_status
    } else {
        updates[k - 1].is_connected
    }
}

/// A run after a series of setter calls, each of which succeeded or not.
pub open spec fn recorded_all(run: GossipRun, outcomes: Seq<bool>) -> GossipRun
    decreases outcomes.len(),
{
    if outcomes.len() == 0 {
        run
    } else {
        recorded_all(run, outcomes.drop_last()).advanced()
    }
}

/// The QUIC port is the UDP port plus the offset wherever that is a port, the rest
/// of the address is kept, and the two addresses are never the same.
pub proof fn law_quic_port_is_udp_port_plus_offset(udp_addr: SocketAddr)
    ensures
        udp_addr.spec_port() + TPU_QUIC_PORT_OFFSET <= u16::MAX ==> crate::gossip::quic_addr(
            udp_addr,
        ).spec_port() == udp_addr.spec_port() + TPU_QUIC_PORT_OFFSET,
        crate::gossip::quic_addr(udp_addr).with_port(udp_addr.spec_port()) == udp_addr,
        crate::gossip::quic_addr(udp_addr) != udp_addr,
{
}

/// Different UDP addresses have different QUIC addresses.
pub proof fn law_quic_addrs_are_distinct(a: SocketAddr, b: SocketAddr)
    requires
        a != b,
    ensures
        crate::gossip::quic_addr(a) != crate::gossip::quic_addr(b),
{
    if crate::gossip::quic_addr(a) == crate::gossip::quic_addr(b) {
        assert(crate::gossip::quic_addr(a).spec_port() == crate::gossip::quic_addr(b).spec_port());
        assert(a.spec_port() == b.spec_port());
        law_quic_port_is_udp_port_plus_offset(a);
        law_quic_port_is_udp_port_plus_offset(b);
    }
}

/// Whatever the setters report, all four calls are made, in their order, and none
/// after them: a failure keeps no later setter from being called. Those that fail
/// are reported, and no others.
pub proof fn law_every_setter_is_called(
    tpu_udp_addr: SocketAddr,
    tpu_forwards_udp_addr: SocketAddr,
    outcomes: Seq<bool>,
    succeeded: bool,
)
    ensures
        ({
            let start = GossipRun::start(tpu_udp_addr, tpu_forwards_udp_addr);
            let run = recorded_all(start, outcomes);
            let call = if outcomes.len() < 4 {
                Some(start.calls()[outcomes.len() as int])
            } else {
                None::<GossipCall>
            };
            &&& run.upcoming() == call
            &&& run.failure(succeeded) == if succeeded {
                None
            } else {
                call
            }
        }),
{
    lemma_recorded_all(GossipRun::start(tpu_udp_addr, tpu_forwards_udp_addr), outcomes);
}

proof fn lemma_recorded_all(run: GossipRun, outcomes: Seq<bool>)
    requires
        run.made() == 0,
    ensures
        recorded_all(run, outcomes).tpu_udp_addr == run.tpu_udp_addr,
        recorded_all(run, outcomes).tpu_forwards_udp_addr == run.tpu_forwards_udp_addr,
        recorded_all(run, outcomes).made() == if outcomes.len() < 4 {
            outcomes.len()
        } else {
            4
        },
    decreases outcomes.len(),
{
    if outcomes.len() > 0 {
        lemma_recorded_all(run, outcomes.drop_last());
    }
}

/// While a service runs, reports change nothing of it but the connection status,
/// which becomes that of the last report, and nothing of what waits.
pub proof fn law_status_follows_the_last_report<C>(
    global: TpuUpdateGlobal<C>,
    state: TpuUpdateState<C>,
    updates: Seq<TpuUpdate>,
)
    requires
        global.state == Some(state),
    ensures
        received_all(global, updates) == (TpuUpdateGlobal {
            state: Some(state.with_status(status_before(state, updates, updates.len() as int))),
            pending: global.pending,
        }),
    decreases updates.len(),
{
    if updates.len() > 0 {
        law_status_follows_the_last_report(global, state, updates.drop_last());
    }
}

/// Gossip holds what the report sent out that last changed the connection status:
/// later reports of the same status, whatever addresses they carry, send out
/// nothing. So while connected, gossip holds the addresses that the connection
/// began with, and while disconnected again, the local ones.
pub proof fn law_gossip_holds_the_last_change<C>(
    global: TpuUpdateGlobal<C>,
    state: TpuUpdateState<C>,
    updates: Seq<TpuUpdate>,
    k: int,
)
    requires
        global.state == Some(state),
        0 <= k < updates.len(),
        updates[k].is_connected != status_before(state, updates, k),
        forall|i: int|
            k <= i < updates.len() ==> (#[trigger] updates[i]).is_connected
                == updates[k].is_connected,
    ensures
        last_gossip(global, updates) == Some(state.gossip_for(updates[k])),
    decreases updates.len(),
{
    let init = updates.drop_last();
    law_status_follows_the_last_report(global, state, init);
    if k < updates.len() - 1 {
        assert(init[k] == updates[k]);
        assert(k > 0 ==> init[k - 1] == updates[k - 1]);
        assert(init.last() == updates[updates.len() - 2]);
        assert(status_before(state, init, init.len() as int) == updates[k].is_connected);
        law_gossip_holds_the_last_change(global, state, init, k);
    } else {
        assert(status_before(state, init, init.len() as int) == status_before(state, updates, k));
    }
}

/// Reports of the status that the service already knows send out nothing.
pub proof fn law_no_gossip_without_change<C>(
    global: TpuUpdateGlobal<C>,
    state: TpuUpdateState<C>,
    updates: Seq<TpuUpdate>,
)
    requires
        global.state == Some(state),
        forall|i: int|
            0 <= i < updates.len() ==> (#[trigger] updates[i]).is_connected == state.last_status,
    ensures
        last_gossip(global, updates) is None,
        received_all(global, updates) == global,
    decreases updates.len(),
{
    law_status_follows_the_last_report(global, state, updates);
    if updates.len() > 0 {
        let init = updates.drop_last();
        assert forall|i: int| 0 <= i < init.len() implies (#[trigger] init[i]).is_connected
            == state.last_status by {
            assert(init[i] == updates[i]);
        }
        law_no_gossip_without_change(global, state, init);
    }
}

/// A disconnection undoes a connection: the state is as it was, and the local
/// addresses are advertised.
pub proof fn law_disconnect_undoes_connect<C>(
    global: TpuUpdateGlobal<C>,
    state: TpuUpdateState<C>,
    connect: TpuUpdate,
    disconnect: TpuUpdate,
)
    requires
        global.state == Some(state),
        !state.last_status,
        connect.is_connected,
        !disconnect.is_connected,
    ensures
        global.received(connect).received(disconnect) == global,
        global.received(connect).response(disconnect) == UpdateOutcome::Advertise(
            GossipUpdate {
                cluster_info: state.cluster_info,
                remote: false,
                run: GossipRun::start(state.local_tpu_udp_addr, state.local_tpu_forwards_udp_addr),
            },
        ),
{
}

/// While no service runs, what waits is decided by the last report that is not a
/// connection without an address to advertise: it is that report where it is a
/// connection, and nothing where it is a disconnection.
pub proof fn law_last_usable_report_waits<C>(
    global: TpuUpdateGlobal<C>,
    updates: Seq<TpuUpdate>,
    k: int,
)
    requires
        global.state is None,
        0 <= k < updates.len(),
        updates[k].is_connected ==> updates[k].addrs_valid(),
        forall|i: int|
            k < i < updates.len() ==> (#[trigger] updates[i]).is_connected
                && !updates[i].addrs_valid(),
    ensures
        received_all(global, updates) == (TpuUpdateGlobal {
            state: None::<TpuUpdateState<C>>,
            pending: if updates[k].is_connected {
                Some(updates[k])
            } else {
                None
            },
        }),
        last_gossip(global, updates) is None,
    decreases updates.len(),
{
    let init = updates.drop_last();
    lemma_nothing_runs(global, updates);
    lemma_nothing_runs(global, init);
    if k < updates.len() - 1 {
        assert(init[k] == updates[k]);
        assert forall|i: int| k < i < init.len() implies (#[trigger] init[i]).is_connected
            && !init[i].addrs_valid() by {
            assert(init[i] == updates[i]);
        }
        law_last_usable_report_waits(global, init, k);
    }
}

/// While no service runs, connections without an address to advertise change
/// nothing.
pub proof fn law_unusable_reports_are_dropped<C>(
    global: TpuUpdateGlobal<C>,
    updates: Seq<TpuUpdate>,
)
    requires
        global.state is None,
        forall|i: int|
            0 <= i < updates.len() ==> (#[trigger] updates[i]).is_connected
                && !updates[i].addrs_valid(),
    ensures
        received_all(global, updates) == global,
        last_gossip(global, updates) is None,
    decreases updates.len(),
{
    lemma_nothing_runs(global, updates);
    if updates.len() > 0 {
        let init = updates.drop_last();
        assert forall|i: int| 0 <= i < init.len() implies (#[trigger] init[i]).is_connected
            && !init[i].addrs_valid() by {
            assert(init[i] == updates[i]);
        }
        law_unusable_reports_are_dropped(global, init);
    }
}

proof fn lemma_nothing_runs<C>(global: TpuUpdateGlobal<C>, updates: Seq<TpuUpdate>)
    requires
        global.state is None,
    ensures
        received_all(global, updates).state is None,
        last_gossip(global, updates) is None,
    decreases updates.len(),
{
    if updates.len() > 0 {
        lemma_nothing_runs(global, updates.drop_last());
    }
}

/// A report that came in before the service started is applied when it starts, as
/// if it had come in right after. This leaves out a connection without an address
/// to advertise, which is dropped before and carried out after.
pub proof fn law_early_report_is_applied_on_start<C>(
    global: TpuUpdateGlobal<C>,
    config: HarmonicTpuServiceConfig,
    cluster_info: Arc<C>,
    update: TpuUpdate,
)
    requires
        global.is_empty(),
        update.is_connected ==> update.addrs_valid(),
    ensures
        ({
            let early = config.installed(cluster_info, global.received(update));
            let late = config.installed(cluster_info, global).caught_up();
            &&& early.caught_up() == late.received(update)
            &&& early.catch_up_gossip() == match late.response(update) {
                UpdateOutcome::Advertise(gossip) => Some(gossip),
                _ => None::<GossipUpdate<C>>,
            }
        }),
{
}

/// A service that starts after a series of reports acts upon the last of them that
/// is not a connection without an address to advertise: where that is a
/// connection, its addresses are advertised, and otherwise nothing is.
pub proof fn law_start_applies_the_last_usable_report<C>(
    global: TpuUpdateGlobal<C>,
    updates: Seq<TpuUpdate>,
    k: int,
    config: HarmonicTpuServiceConfig,
    cluster_info: Arc<C>,
)
    requires
        global.state is None,
        0 <= k < updates.len(),
        updates[k].is_connected ==> updates[k].addrs_valid(),
        forall|i: int|
            k < i < updates.len() ==> (#[trigger] updates[i]).is_connected
                && !updates[i].addrs_valid(),
    ensures
        ({
            let installed = config.installed(cluster_info, received_all(global, updates));
            let state = config.initial_state(cluster_info);
            &&& installed.caught_up() == (TpuUpdateGlobal {
                state: Some(state.with_status(updates[k].is_connected)),
                pending: None,
            })
            &&& installed.catch_up_gossip() == if updates[k].is_connected {
                Some(state.gossip_for(updates[k]))
            } else {
                None
            }
        }),
{
    law_last_usable_report_waits(global, updates, k);
}

/// A service that starts with nothing waiting sends out nothing and counts as
/// disconnected.
pub proof fn law_start_alone_is_silent<C>(
    global: TpuUpdateGlobal<C>,
    config: HarmonicTpuServiceConfig,
    cluster_info: Arc<C>,
)
    requires
        global.pending is None,
    ensures
        config.installed(cluster_info, global).catch_up_gossip() is None,
        config.installed(cluster_info, global).caught_up().state == Some(
            config.initial_state(cluster_info),
        ),
{
}

/// The bytes of a reported IPv4 address, in the order in which they lie in memory,
/// are its octets in the order in which they are written.
pub proof fn law_octets_keep_their_order(ip4_addr: u32)
    ensures
        ({
            let ip = crate::update::ipv4_in_memory(ip4_addr);
            let low_first = vstd::endian::endianness() is Little;
            let as_number = Ipv4Addr { bits: ip4_addr };
            forall|i: int|
                0 <= i < 4 ==> #[trigger] ip.octet(i) == as_number.octet(
                    if low_first {
                        3 - i
                    } else {
                        i
                    },
                )
        }),
{
    lemma_reversed_bytes(ip4_addr);
}

proof fn lemma_reversed_bytes(x: u32)
    by (bit_vector)
    ensures
        crate::byte_order::reversed(x) / 0x100_0000 == x % 0x100,
        crate::byte_order::reversed(x) / 0x1_0000 % 0x100 == x / 0x100 % 0x100,
        crate::byte_order::reversed(x) / 0x100 % 0x100 == x / 0x1_0000 % 0x100,
        crate::byte_order::reversed(x) % 0x100 == x / 0x100_0000,
{
}

} // verus!
