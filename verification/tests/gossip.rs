use harmonic_tpu::gossip::{
    apply_tpu_addrs, quic_addr_for, GossipCall, GossipStep, TPU_QUIC_PORT_OFFSET,
};
use harmonic_tpu::net::{IpAddr, Ipv4Addr, Ipv6Addr, SocketAddr, SocketAddrV6};

fn v4(bits: u32, port: u16) -> SocketAddr {
    SocketAddr::new(IpAddr::V4(Ipv4Addr { bits }), port)
}

#[test]
fn quic_port_lies_six_above() {
    assert_eq!(TPU_QUIC_PORT_OFFSET, 6);
    assert_eq!(quic_addr_for(v4(0x0a00_0001, 8003)), v4(0x0a00_0001, 8009));
    assert_eq!(quic_addr_for(v4(0, 0)), v4(0, 6));
    assert_eq!(quic_addr_for(v4(7, 65529)), v4(7, 65535));
}

#[test]
fn quic_port_wraps_around() {
    assert_eq!(quic_addr_for(v4(7, 65530)), v4(7, 0));
    assert_eq!(quic_addr_for(v4(7, 65535)), v4(7, 5));
}

#[test]
fn quic_address_keeps_flow_label_and_scope() {
    let a = SocketAddrV6 { ip: Ipv6Addr { bits: 1 }, port: 100, flowinfo: 3, scope_id: 4 };
    assert_eq!(
        quic_addr_for(SocketAddr::V6(a)),
        SocketAddr::V6(SocketAddrV6 { port: 106, ..a })
    );
}

#[test]
fn quic_addresses_are_distinct() {
    assert_ne!(quic_addr_for(v4(7, 65530)), quic_addr_for(v4(7, 65531)));
    assert_ne!(quic_addr_for(v4(7, 10)), quic_addr_for(v4(8, 10)));
}

#[test]
fn socket_address_parts() {
    let ip = IpAddr::V6(Ipv6Addr { bits: 9 });
    let mut a = SocketAddr::new(ip, 80);
    assert_eq!(
        a,
        SocketAddr::V6(SocketAddrV6 { ip: Ipv6Addr { bits: 9 }, port: 80, flowinfo: 0, scope_id: 0 })
    );
    assert_eq!((a.ip(), a.port()), (ip, 80));
    a.set_port(81);
    assert_eq!((a.ip(), a.port()), (ip, 81));
    assert_eq!(Ipv4Addr::unspecified(), Ipv4Addr { bits: 0 });
}

fn four_calls() -> Vec<GossipCall> {
    vec![
        GossipCall::SetTpuUdp(v4(1, 10)),
        GossipCall::SetTpuQuic(v4(1, 16)),
        GossipCall::SetTpuForwardsUdp(v4(2, 20)),
        GossipCall::SetTpuForwardsQuic(v4(2, 26)),
    ]
}

#[test]
fn setters_are_called_in_order() {
    let mut run = apply_tpu_addrs(v4(1, 10), v4(2, 20));
    let mut calls = Vec::new();
    while let Some(call) = run.next_call() {
        calls.push(call);
        assert_eq!(run.record(true), None);
    }
    assert_eq!(calls, four_calls());
}

#[test]
fn failed_setters_are_reported_and_passed_over() {
    let mut run = apply_tpu_addrs(v4(1, 10), v4(2, 20));
    let mut calls = Vec::new();
    let mut failed = Vec::new();
    while let Some(call) = run.next_call() {
        calls.push(call);
        if let Some(call) = run.record(calls.len() % 2 == 0) {
            failed.push(call);
        }
    }
    assert_eq!(calls, four_calls());
    assert_eq!(failed, vec![four_calls()[0], four_calls()[2]]);
}

#[test]
fn finished_run_stays_finished() {
    let mut run = apply_tpu_addrs(v4(1, 10), v4(2, 20));
    for _ in 0..4 {
        assert!(run.record(false).is_some());
    }
    assert_eq!(run.step, GossipStep::Finished);
    assert_eq!(run.record(false), None);
    assert_eq!(run.next_call(), None);
    assert_eq!(run.step, GossipStep::Finished);
}
