//! The service that keeps the node's TPU addresses in gossip.
use crate::gossip::GossipUpdate;
use crate::net::SocketAddr;
use crate::state::{apply_pending_update, LockStatus, TpuUpdateGlobal, TpuUpdateState};
use std::sync::Arc;
use vstd::prelude::*;

verus! {

/// Configuration of the service.
///
/// Both addresses are UDP TPU addresses; the matching QUIC addresses are derived
/// from them and advertised beside them on every gossip update.
pub struct HarmonicTpuServiceConfig {
    /// The local TPU UDP address to revert to when disconnected.
    pub local_tpu_udp_addr: SocketAddr,
    /// The local TPU forwards UDP address to revert to when disconnected.
    pub local_tpu_forwards_udp_addr: SocketAddr,
}

impl HarmonicTpuServiceConfig {
    /// The state of a service that has just started: not connected.
    pub open spec fn initial_state<C>(self, cluster_info: Arc<C>) -> TpuUpdateState<C> {
        TpuUpdateState {
            cluster_info,
            local_tpu_udp_addr: self.local_tpu_udp_addr,
            local_tpu_forwards_udp_addr: self.local_tpu_forwards_udp_addr,
            last_status: false,
        }
    }

    /// The state behind the lock with the service put in, in place of any earlier
    /// one, before the waiting report is handed over.
    pub open spec fn installed<C>(self, cluster_info: Arc<C>, global: TpuUpdateGlobal<C>) ->
        TpuUpdateGlobal<C> {
        TpuUpdateGlobal { state: Some(self.initial_state(cluster_info)), ..global }
    }
}

/// The service. It has no thread of its own: reports come in by the callback.
pub struct HarmonicTpuService {}

impl HarmonicTpuService {
    /// Starts the service and acts upon the report that waits for it. Where the
    /// lock is poisoned, the service is handed out all the same and nothing else
    /// happens.
    pub fn new<C>(
        config: HarmonicTpuServiceConfig,
        cluster_info: Arc<C>,
        global: &mut TpuUpdateGlobal<C>,
        lock: LockStatus,
    ) -> (res: (Self, Option<GossipUpdate<C>>))
        ensures
            match lock {
                LockStatus::Held => {
                    &&& final(global).state matches Some(state)
                    &&& state.cluster_info == cluster_info
                    &&& state.local_tpu_udp_addr == config.local_tpu_udp_addr
                    &&& state.local_tpu_forwards_udp_addr == config.local_tpu_forwards_udp_addr
                    &&& state.last_status == (old(global).pending matches Some(update)
                        && update.is_connected)
                    &&& final(global).pending is None
                    &&& res.1 is Some <==> state.last_status
                    &&& res.1 matches Some(gossip) ==> {
                        &&& old(global).pending matches Some(update)
                        &&& gossip.cluster_info == cluster_info
                        &&& gossip.remote
                        &&& gossip.run.step is TpuUdp
                        &&& gossip.run.tpu_udp_addr == update.tpu_udp_addr
                        &&& gossip.run.tpu_forwards_udp_addr == update.tpu_forwards_udp_addr
                    }
                },
                LockStatus::Poisoned => *final(global) == *old(global) && res.1 is None,
            },
            match lock {
                LockStatus::Held => {
                    let installed = config.installed(cluster_info, *old(global));
                    &&& *final(global) == installed.caught_up()
                    &&& res.1 == installed.catch_up_gossip()
                    &&& final(global).wf()
                },
                LockStatus::Poisoned => *final(global) == *old(global) && res.1 is None,
            },
    {
        let gossip = match lock {
            LockStatus::Held => {
                global.state = Some(
                    TpuUpdateState {
                        cluster_info,
                        local_tpu_udp_addr: config.local_tpu_udp_addr,
                        local_tpu_forwards_udp_addr: config.local_tpu_forwards_udp_addr,
                        last_status: false,
                    },
                );
                apply_pending_update(global)
            },
            LockStatus::Poisoned => None,
        };
        (HarmonicTpuService {  }, gossip)
    }

    /// Stops the service: nothing is left of it behind the lock, and nothing is
    /// sent to gossip. A poisoned lock leaves the state alone.
    pub fn join<C>(self, global: &mut TpuUpdateGlobal<C>, lock: LockStatus)
        ensures
            lock is Held ==> final(global).is_empty() && final(global).wf(),
            lock is Held ==> final(global).state is None && final(global).pending is None,
            lock is Poisoned ==> *final(global) == *old(global),
    {
        match lock {
            LockStatus::Held => {
                global.state = None;
                global.pending = None;
            },
            LockStatus::Poisoned => {},
        }
    }
}

} // verus!
