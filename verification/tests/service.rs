use harmonic_tpu::gossip::{GossipCall, GossipUpdate};
use harmonic_tpu::net::{IpAddr, Ipv4Addr, SocketAddr};
use harmonic_tpu::service::{HarmonicTpuService, HarmonicTpuServiceConfig};
use harmonic_tpu::state::{
    apply_pending_update, apply_tpu_update, fd_ext_tpu_update, receive_tpu_update,
    store_pending_update, LockStatus, TpuUpdateGlobal, TpuUpdateState, UpdateOutcome,
};
use harmonic_tpu::update::TpuUpdate;
use std::sync::Arc;

type Global = TpuUpdateGlobal<&'static str>;

fn v4(bits: u32, port: u16) -> SocketAddr {
    SocketAddr::new(IpAddr::V4(Ipv4Addr { bits }), port)
}

fn report(is_connected: bool, bits: u32, port: u16) -> TpuUpdate {
    TpuUpdate {
        is_connected,
        tpu_udp_addr: v4(bits, port),
        tpu_forwards_udp_addr: v4(bits, port + 1),
    }
}

fn config() -> HarmonicTpuServiceConfig {
    HarmonicTpuServiceConfig {
        local_tpu_udp_addr: v4(100, 1000),
        local_tpu_forwards_udp_addr: v4(100, 1001),
    }
}

fn start(global: &mut Global) -> (HarmonicTpuService, Option<GossipUpdate<&'static str>>) {
    HarmonicTpuService::new(config(), Arc::new("gossip"), global, LockStatus::Held)
}

fn running() -> Global {
    let mut global = Global::empty();
    let (_, gossip) = start(&mut global);
    assert!(gossip.is_none());
    global
}

fn callback(global: &mut Global, status: i32, ip: [u8; 4], port: u16) -> UpdateOutcome<&'static str> {
    let ip = u32::from_ne_bytes(ip);
    fd_ext_tpu_update(global, LockStatus::Held, status, ip, port, ip, port + 1)
}

fn calls(gossip: &GossipUpdate<&'static str>) -> Vec<GossipCall> {
    let mut run = gossip.run;
    let mut calls = Vec::new();
    while let Some(call) = run.next_call() {
        calls.push(call);
        run.record(true);
    }
    calls
}

fn calls_for(bits: u32, port: u16) -> Vec<GossipCall> {
    vec![
        GossipCall::SetTpuUdp(v4(bits, port)),
        GossipCall::SetTpuQuic(v4(bits, port + 6)),
        GossipCall::SetTpuForwardsUdp(v4(bits, port + 1)),
        GossipCall::SetTpuForwardsQuic(v4(bits, port + 7)),
    ]
}

fn advertised(outcome: UpdateOutcome<&'static str>) -> GossipUpdate<&'static str> {
    match outcome {
        UpdateOutcome::Advertise(gossip) => gossip,
        _ => panic!("nothing is advertised"),
    }
}

fn last_status(global: &Global) -> bool {
    global.state.as_ref().unwrap().last_status
}

#[test]
fn connection_advertises_the_remote_tpu() {
    let mut global = running();
    let gossip = advertised(callback(&mut global, 1, [0, 0, 0, 5], 50));
    assert_eq!(*gossip.cluster_info, "gossip");
    assert!(gossip.remote);
    assert_eq!(calls(&gossip), calls_for(5, 50));
    assert!(last_status(&global));
}

#[test]
fn disconnection_reverts_to_the_local_tpu() {
    let mut global = running();
    advertised(callback(&mut global, 1, [0, 0, 0, 5], 50));
    let gossip = advertised(callback(&mut global, 0, [0, 0, 0, 6], 60));
    assert!(!gossip.remote);
    assert_eq!(calls(&gossip), calls_for(100, 1000));
    assert!(!last_status(&global));
}

#[test]
fn repeated_connection_changes_nothing() {
    let mut global = running();
    advertised(callback(&mut global, 1, [0, 0, 0, 5], 50));
    let again = callback(&mut global, 1, [0, 0, 0, 6], 60);
    assert!(matches!(again, UpdateOutcome::Unchanged));
    assert!(last_status(&global));
}

#[test]
fn disconnection_at_the_start_changes_nothing() {
    let mut global = running();
    let outcome = callback(&mut global, 0, [0, 0, 0, 5], 50);
    assert!(matches!(outcome, UpdateOutcome::Unchanged));
    assert!(!last_status(&global));
}

#[test]
fn running_service_takes_any_address() {
    let mut global = running();
    let gossip = advertised(callback(&mut global, 1, [0, 0, 0, 0], 0));
    assert_eq!(calls(&gossip), calls_for(0, 0));
}

#[test]
fn unknown_status_leaves_the_state_alone() {
    let mut global = running();
    let outcome = callback(&mut global, 2, [0, 0, 0, 5], 50);
    assert!(matches!(outcome, UpdateOutcome::UnknownStatus));
    assert!(!last_status(&global));
    assert_eq!(global.pending, None);
}

#[test]
fn poisoned_lock_leaves_the_state_alone() {
    let mut global = running();
    let outcome = fd_ext_tpu_update(&mut global, LockStatus::Poisoned, 1, 1, 1, 1, 1);
    assert!(matches!(outcome, UpdateOutcome::LockFailed));
    let outcome = fd_ext_tpu_update(&mut global, LockStatus::Poisoned, 9, 1, 1, 1, 1);
    assert!(matches!(outcome, UpdateOutcome::UnknownStatus));
    assert!(!last_status(&global));

    let (service, gossip) =
        HarmonicTpuService::new(config(), Arc::new("other"), &mut global, LockStatus::Poisoned);
    assert!(gossip.is_none());
    assert_eq!(*global.state.as_ref().unwrap().cluster_info, "gossip");
    service.join(&mut global, LockStatus::Poisoned);
    assert!(global.state.is_some());
}

#[test]
fn early_connection_is_applied_on_start() {
    let mut global = Global::empty();
    let outcome = callback(&mut global, 1, [0, 0, 0, 5], 50);
    assert!(matches!(outcome, UpdateOutcome::NotRunning));
    assert_eq!(global.pending, Some(report(true, 5, 50)));
    let (_, gossip) = start(&mut global);
    let gossip = gossip.unwrap();
    assert!(gossip.remote);
    assert_eq!(calls(&gossip), calls_for(5, 50));
    assert_eq!(global.pending, None);
    assert!(last_status(&global));
}

#[test]
fn later_early_connection_replaces_the_earlier() {
    let mut global = Global::empty();
    callback(&mut global, 1, [0, 0, 0, 5], 50);
    callback(&mut global, 1, [0, 0, 0, 6], 60);
    callback(&mut global, 1, [0, 0, 0, 7], 0);
    callback(&mut global, 1, [0, 0, 0, 0], 80);
    assert_eq!(global.pending, Some(report(true, 6, 60)));
}

#[test]
fn early_disconnection_clears_what_waits() {
    let mut global = Global::empty();
    callback(&mut global, 1, [0, 0, 0, 5], 50);
    callback(&mut global, 0, [0, 0, 0, 5], 50);
    assert_eq!(global.pending, None);
    let (_, gossip) = start(&mut global);
    assert!(gossip.is_none());
    assert!(!last_status(&global));
}

#[test]
fn early_connection_without_address_is_dropped() {
    let mut global = Global::empty();
    store_pending_update(&mut global, report(true, 5, 0));
    assert_eq!(global.pending, None);
    store_pending_update(&mut global, report(true, 5, 1));
    assert_eq!(global.pending, Some(report(true, 5, 1)));
    store_pending_update(&mut global, report(false, 5, 1));
    assert_eq!(global.pending, None);
}

#[test]
fn pending_report_waits_for_a_service() {
    let mut global = Global::empty();
    store_pending_update(&mut global, report(true, 5, 50));
    assert!(apply_pending_update(&mut global).is_none());
    assert_eq!(global.pending, Some(report(true, 5, 50)));
}

#[test]
fn pending_report_without_news_is_used_up() {
    let mut global = running();
    global.pending = Some(report(false, 5, 50));
    assert!(apply_pending_update(&mut global).is_none());
    assert_eq!(global.pending, None);
    assert!(!last_status(&global));
}

#[test]
fn gossip_keeps_the_first_addresses_of_a_connection() {
    let mut global = running();
    let mut last = None;
    for update in [
        report(false, 1, 10),
        report(true, 2, 20),
        report(false, 3, 30),
        report(true, 4, 40),
        report(true, 5, 50),
    ] {
        if let UpdateOutcome::Advertise(gossip) = receive_tpu_update(&mut global, update) {
            last = Some(calls(&gossip));
        }
    }
    assert_eq!(last, Some(calls_for(4, 40)));
}

#[test]
fn early_and_late_report_come_to_the_same() {
    let mut early = Global::empty();
    receive_tpu_update(&mut early, report(true, 5, 50));
    let (_, gossip) = start(&mut early);

    let mut late = running();
    let other = advertised(receive_tpu_update(&mut late, report(true, 5, 50)));

    assert_eq!(calls(&gossip.unwrap()), calls(&other));
    assert_eq!(last_status(&early), last_status(&late));
    assert_eq!(early.pending, late.pending);
}

#[test]
fn join_leaves_nothing_behind() {
    let mut global = Global::empty();
    let (service, _) = start(&mut global);
    callback(&mut global, 1, [0, 0, 0, 5], 50);
    service.join(&mut global, LockStatus::Held);
    assert!(global.state.is_none());
    assert_eq!(global.pending, None);
    let (_, gossip) = start(&mut global);
    assert!(gossip.is_none());
    assert!(!last_status(&global));
}

#[test]
fn second_service_takes_over() {
    let mut global = running();
    callback(&mut global, 1, [0, 0, 0, 5], 50);
    let (_, gossip) =
        HarmonicTpuService::new(config(), Arc::new("other"), &mut global, LockStatus::Held);
    assert!(gossip.is_none());
    assert!(!last_status(&global));
    let gossip = advertised(callback(&mut global, 1, [0, 0, 0, 6], 60));
    assert_eq!(*gossip.cluster_info, "other");
    assert_eq!(calls(&gossip), calls_for(6, 60));
}

#[test]
fn update_is_applied_whatever_the_last_status() {
    let state = TpuUpdateState {
        cluster_info: Arc::new("gossip"),
        local_tpu_udp_addr: v4(100, 1000),
        local_tpu_forwards_udp_addr: v4(100, 1001),
        last_status: true,
    };
    assert_eq!(calls(&apply_tpu_update(&state, &report(true, 7, 70))), calls_for(7, 70));
    assert_eq!(calls(&apply_tpu_update(&state, &report(false, 7, 70))), calls_for(100, 1000));
}
