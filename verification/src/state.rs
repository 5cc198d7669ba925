//! The state that the callback and the service share, and what a report changes
//! in it.
use crate::gossip::{apply_tpu_addrs, GossipRun, GossipUpdate};
use crate::net::{SocketAddr, SocketAddrV4};
use crate::update::{connected_addrs_valid, parse_tpu_update, TpuUpdate};
use std::sync::Arc;
use vstd::prelude::*;

verus! {

/// What a running service works with. All addresses are UDP addresses; the
/// matching QUIC addresses are derived from them.
pub struct TpuUpdateState<C> {
    /// The gossip handle.
    pub cluster_info: Arc<C>,
    /// The local TPU address to go back to.
    pub local_tpu_udp_addr: SocketAddr,
    /// The local TPU forwards address to go back to.
    pub local_tpu_forwards_udp_addr: SocketAddr,
    /// Whether the bundle TPU was connected by the last report acted upon.
    pub last_status: bool,
}

impl<C> TpuUpdateState<C> {
    /// The gossip update that carries a report out: the reported addresses where
    /// it reports a connection, the local ones where it does not.
    pub open spec fn gossip_for(self, update: TpuUpdate) -> GossipUpdate<C> {
        GossipUpdate {
            cluster_info: self.cluster_info,
            remote: update.is_connected,
            run: if update.is_connected {
                GossipRun::start(update.tpu_udp_addr, update.tpu_forwards_udp_addr)
            } else {
                GossipRun::start(self.local_tpu_udp_addr, self.local_tpu_forwards_udp_addr)
            },
        }
    }

    /// The state once a connection status has been acted upon.
    pub open spec fn with_status(self, is_connected: bool) -> Self {
        TpuUpdateState { last_status: is_connected, ..self }
    }
}

/// The state behind the lock: that of the service, while one is running, and what
/// was reported while none was.
pub struct TpuUpdateGlobal<C> {
    pub state: Option<TpuUpdateState<C>>,
    /// The report to act upon when a service starts.
    pub pending: Option<TpuUpdate>,
}

impl<C> TpuUpdateGlobal<C> {
    /// Neither a service nor a report.
    pub open spec fn is_empty(self) -> bool {
        &&& self.state is None
        &&& self.pending is None
    }

    /// A report waits only while no service runs, and only a connection to an
    /// address that can be advertised.
    pub open spec fn wf(self) -> bool {
        self.pending matches Some(update) ==> self.state is None && update.can_wait()
    }

    /// Whether a report says something that the running service does not know yet.
    pub open spec fn is_news(self, update: TpuUpdate) -> bool {
        self.state matches Some(state) && state.last_status != update.is_connected
    }

    /// What waits after a report came in and no service was running: a connection
    /// that can wait replaces what waited, a disconnection clears it, and a
    /// connection that cannot wait changes nothing.
    pub open spec fn pending_after(self, update: TpuUpdate) -> Option<TpuUpdate> {
        if update.can_wait() {
            Some(update)
        } else if update.is_connected {
            self.pending
        } else {
            None
        }
    }

    /// The state after a report.
    pub open spec fn received(self, update: TpuUpdate) -> Self {
        match self.state {
            None => TpuUpdateGlobal { pending: self.pending_after(update), ..self },
            Some(state) => TpuUpdateGlobal {
                state: Some(state.with_status(update.is_connected)),
                ..self
            },
        }
    }

    /// What a report sends out.
    pub open spec fn response(self, update: TpuUpdate) -> UpdateOutcome<C> {
        match self.state {
            None => UpdateOutcome::NotRunning,
            Some(state) => if self.is_news(update) {
                UpdateOutcome::Advertise(state.gossip_for(update))
            } else {
                UpdateOutcome::Unchanged
            },
        }
    }

    /// The state after the waiting report, if there is one, was handed to the
    /// running service, if there is one.
    pub open spec fn caught_up(self) -> Self {
        match (self.state, self.pending) {
            (Some(_), Some(update)) => TpuUpdateGlobal {
                pending: None,
                ..self.received(update)
            },
            _ => self,
        }
    }

    /// What handing over the waiting report sends out.
    pub open spec fn catch_up_gossip(self) -> Option<GossipUpdate<C>> {
        match (self.state, self.pending) {
            (Some(state), Some(update)) => if self.is_news(update) {
                Some(state.gossip_for(update))
            } else {
                None
            },
            _ => None,
        }
    }

    /// The state before anything was reported or started.
    pub fn empty() -> (res: Self)
        ensures
            res.is_empty(),
            res.state is None,
            res.pending is None,
            res.wf(),
    {
        TpuUpdateGlobal { state: None, pending: None }
    }
}

/// How an attempt to take the lock around the state went.
#[derive(Clone, Copy, Debug, PartialEq, Eq, Structural)]
pub enum LockStatus {
    /// The lock is held.
    Held,
    /// The lock is poisoned, and the state behind it is not to be used.
    Poisoned,
}

/// What came of a call from the bundle tile.
pub enum UpdateOutcome<C> {
    /// The status is not a known one.
    UnknownStatus,
    /// The lock was not to be had.
    LockFailed,
    /// No service is running: the report waits, or was dropped.
    NotRunning,
    /// The connection status is the one already acted upon.
    Unchanged,
    /// The connection status changed, and gossip is to be told.
    Advertise(GossipUpdate<C>),
}

/// Carries a report out, whatever the last status was.
pub fn apply_tpu_update<C>(state: &TpuUpdateState<C>, update: &TpuUpdate) -> (res: GossipUpdate<C>)
    ensures
        res == state.gossip_for(*update),
        res.cluster_info == state.cluster_info,
        res.remote == update.is_connected,
        res.run.step is TpuUdp,
        update.is_connected ==> res.run.tpu_udp_addr == update.tpu_udp_addr
            && res.run.tpu_forwards_udp_addr == update.tpu_forwards_udp_addr,
        !update.is_connected ==> res.run.tpu_udp_addr == state.local_tpu_udp_addr
            && res.run.tpu_forwards_udp_addr == state.local_tpu_forwards_udp_addr,
{
    let run = if update.is_connected {
        apply_tpu_addrs(update.tpu_udp_addr, update.tpu_forwards_udp_addr)
    } else {
        apply_tpu_addrs(state.local_tpu_udp_addr, state.local_tpu_forwards_udp_addr)
    };
    GossipUpdate { cluster_info: state.cluster_info.clone(), remote: update.is_connected, run }
}

/// Carries a report out where it changes the connection status.
fn switch_status<C>(state: &mut TpuUpdateState<C>, update: &TpuUpdate) -> (res: Option<
    GossipUpdate<C>,
>)
    ensures
        *final(state) == old(state).with_status(update.is_connected),
        res == (if old(state).last_status != update.is_connected {
            Some(old(state).gossip_for(*update))
        } else {
            None
        }),
{
    if update.is_connected == state.last_status {
        return None;
    }
    state.last_status = update.is_connected;
    Some(apply_tpu_update(state, update))
}

/// Takes in a report that no service is there to act upon.
pub fn store_pending_update<C>(global: &mut TpuUpdateGlobal<C>, update: TpuUpdate)
    ensures
        final(global).pending == old(global).pending_after(update),
        final(global).state == old(global).state,
        !update.is_connected ==> final(global).pending is None,
        update.is_connected ==> final(global).pending == match update.tpu_udp_addr {
            SocketAddr::V4(a) => if a.port != 0 && a.ip.bits != 0 {
                Some(update)
            } else {
                old(global).pending
            },
            SocketAddr::V6(a) => if a.port != 0 {
                Some(update)
            } else {
                old(global).pending
            },
        },
        old(global).state is None && old(global).wf() ==> final(global).wf(),
{
    if update.is_connected {
        if connected_addrs_valid(&update) {
            global.pending = Some(update);
        }
    } else {
        global.pending = None;
    }
}

/// Hands the waiting report to the running service. Without a service the report
/// goes on waiting.
pub fn apply_pending_update<C>(global: &mut TpuUpdateGlobal<C>) -> (res: Option<GossipUpdate<C>>)
    ensures
        *final(global) == old(global).caught_up(),
        res == old(global).catch_up_gossip(),
        old(global).state is None ==> *final(global) == *old(global) && res is None,
        old(global).pending is None ==> *final(global) == *old(global) && res is None,
        old(global).state is Some ==> final(global).pending is None,
        res matches Some(gossip) ==> {
            &&& old(global).state matches Some(state)
            &&& old(global).pending matches Some(update)
            &&& state.last_status != update.is_connected
            &&& gossip.cluster_info == state.cluster_info
            &&& gossip.remote == update.is_connected
            &&& gossip.run.step is TpuUdp
            &&& update.is_connected ==> gossip.run.tpu_udp_addr == update.tpu_udp_addr
            &&& update.is_connected ==> gossip.run.tpu_forwards_udp_addr
                == update.tpu_forwards_udp_addr
            &&& !update.is_connected ==> gossip.run.tpu_udp_addr == state.local_tpu_udp_addr
            &&& !update.is_connected ==> gossip.run.tpu_forwards_udp_addr
                == state.local_tpu_forwards_udp_addr
        },
        final(global).state is Some ==> final(global).wf(),
        old(global).wf() ==> final(global).wf(),
{
    let pending = match global.pending.take() {
        Some(pending) => pending,
        None => {
            return None;
        },
    };
    match &mut global.state {
        Some(state) => switch_status(state, &pending),
        None => {
            global.pending = Some(pending);
            None
        },
    }
}

/// Takes in a report: acts upon it where a service runs and the status is news to
/// it, and otherwise lets it wait or drops it.
pub fn receive_tpu_update<C>(global: &mut TpuUpdateGlobal<C>, update: TpuUpdate) -> (res:
    UpdateOutcome<C>)
    ensures
        *final(global) == old(global).received(update),
        res == old(global).response(update),
        match old(global).state {
            None => final(global).state is None && res is NotRunning,
            Some(state) => {
                &&& final(global).pending == old(global).pending
                &&& final(global).state == Some(
                    TpuUpdateState {
                        cluster_info: state.cluster_info,
                        local_tpu_udp_addr: state.local_tpu_udp_addr,
                        local_tpu_forwards_udp_addr: state.local_tpu_forwards_udp_addr,
                        last_status: update.is_connected,
                    },
                )
                &&& state.last_status == update.is_connected ==> res is Unchanged
                &&& state.last_status != update.is_connected ==> res is Advertise
            },
        },
        res matches UpdateOutcome::Advertise(gossip) ==> {
            &&& old(global).state matches Some(state)
            &&& gossip.cluster_info == state.cluster_info
            &&& gossip.remote == update.is_connected
            &&& gossip.run.step is TpuUdp
            &&& update.is_connected ==> gossip.run.tpu_udp_addr == update.tpu_udp_addr
            &&& update.is_connected ==> gossip.run.tpu_forwards_udp_addr
                == update.tpu_forwards_udp_addr
            &&& !update.is_connected ==> gossip.run.tpu_udp_addr == state.local_tpu_udp_addr
            &&& !update.is_connected ==> gossip.run.tpu_forwards_udp_addr
                == state.local_tpu_forwards_udp_addr
        },
        old(global).wf() ==> final(global).wf(),
{
    match &mut global.state {
        Some(state) => match switch_status(state, &update) {
            Some(gossip) => UpdateOutcome::Advertise(gossip),
            None => UpdateOutcome::Unchanged,
        },
        None => {
            store_pending_update(global, update);
            UpdateOutcome::NotRunning
        },
    }
}

/// The callback of the bundle tile. `tpu_port` and `tpu_fwd_port` are UDP ports,
/// and the two addresses are in network byte order. A status that is not a known
/// one, or a poisoned lock, leaves the state alone.
pub fn fd_ext_tpu_update<C>(
    global: &mut TpuUpdateGlobal<C>,
    lock: LockStatus,
    status: i32,
    tpu_ip4_addr: u32,
    tpu_port: u16,
    tpu_fwd_ip4_addr: u32,
    tpu_fwd_port: u16,
) -> (res: UpdateOutcome<C>)
    ensures
        match crate::update::reported(
            status,
            crate::update::ipv4_in_memory(tpu_ip4_addr),
            tpu_port,
            crate::update::ipv4_in_memory(tpu_fwd_ip4_addr),
            tpu_fwd_port,
        ) {
            None => *final(global) == *old(global) && res is UnknownStatus,
            Some(update) => match lock {
                LockStatus::Poisoned => *final(global) == *old(global) && res is LockFailed,
                LockStatus::Held => *final(global) == old(global).received(update) && res == old(
                    global,
                ).response(update),
            },
        },
        status != 0 && status != 1 ==> res is UnknownStatus && *final(global) == *old(global),
        (status == 0 || status == 1) && lock is Poisoned ==> res is LockFailed && *final(global)
            == *old(global),
        (status == 0 || status == 1) && lock is Held ==> match old(global).state {
            None => res is NotRunning && final(global).state is None,
            Some(state) => {
                &&& final(global).pending == old(global).pending
                &&& final(global).state == Some(
                    TpuUpdateState {
                        cluster_info: state.cluster_info,
                        local_tpu_udp_addr: state.local_tpu_udp_addr,
                        local_tpu_forwards_udp_addr: state.local_tpu_forwards_udp_addr,
                        last_status: status == 1,
                    },
                )
                &&& state.last_status == (status == 1) ==> res is Unchanged
                &&& state.last_status != (status == 1) ==> res is Advertise
            },
        },
        res matches UpdateOutcome::Advertise(gossip) ==> {
            &&& old(global).state matches Some(state)
            &&& gossip.cluster_info == state.cluster_info
            &&& gossip.remote == (status == 1)
            &&& gossip.run.step is TpuUdp
            &&& status == 1 ==> gossip.run.tpu_udp_addr == SocketAddr::V4(
                SocketAddrV4 { ip: crate::update::ipv4_in_memory(tpu_ip4_addr), port: tpu_port },
            )
            &&& status == 1 ==> gossip.run.tpu_forwards_udp_addr == SocketAddr::V4(
                SocketAddrV4 {
                    ip: crate::update::ipv4_in_memory(tpu_fwd_ip4_addr),
                    port: tpu_fwd_port,
                },
            )
            &&& status == 0 ==> gossip.run.tpu_udp_addr == state.local_tpu_udp_addr
            &&& status == 0 ==> gossip.run.tpu_forwards_udp_addr
                == state.local_tpu_forwards_udp_addr
        },
        res is NotRunning && status == 0 ==> final(global).pending is None,
        res is NotRunning && status == 1 ==> final(global).pending == if tpu_port != 0
            && crate::update::ipv4_in_memory(tpu_ip4_addr).bits != 0 {
            Some(
                TpuUpdate {
                    is_connected: true,
                    tpu_udp_addr: SocketAddr::V4(
                        SocketAddrV4 {
                            ip: crate::update::ipv4_in_memory(tpu_ip4_addr),
                            port: tpu_port,
                        },
                    ),
                    tpu_forwards_udp_addr: SocketAddr::V4(
                        SocketAddrV4 {
                            ip: crate::update::ipv4_in_memory(tpu_fwd_ip4_addr),
                            port: tpu_fwd_port,
                        },
                    ),
                },
            )
        } else {
            old(global).pending
        },
        old(global).wf() ==> final(global).wf(),
{
    match parse_tpu_update(status, tpu_ip4_addr, tpu_port, tpu_fwd_ip4_addr, tpu_fwd_port) {
        None => UpdateOutcome::UnknownStatus,
        Some(update) => match lock {
            LockStatus::Poisoned => UpdateOutcome::LockFailed,
            LockStatus::Held => receive_tpu_update(global, update),
        },
    }
}

} // verus!
