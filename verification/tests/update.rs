use harmonic_tpu::net::{IpAddr, Ipv4Addr, Ipv6Addr, SocketAddr};
use harmonic_tpu::update::{
    build_tpu_update, connected_addrs_valid, parse_tpu_update, TpuUpdate, TPU_STATUS_CONNECTED,
    TPU_STATUS_DISCONNECTED,
};

fn v4(bits: u32, port: u16) -> SocketAddr {
    SocketAddr::new(IpAddr::V4(Ipv4Addr { bits }), port)
}

#[test]
fn status_values() {
    assert_eq!((TPU_STATUS_DISCONNECTED, TPU_STATUS_CONNECTED), (0, 1));
}

#[test]
fn addresses_are_read_in_network_byte_order() {
    let tpu = u32::from_ne_bytes([10, 20, 30, 40]);
    let fwd = u32::from_ne_bytes([192, 168, 0, 1]);
    assert_eq!(
        parse_tpu_update(1, tpu, 8003, fwd, 8004),
        Some(TpuUpdate {
            is_connected: true,
            tpu_udp_addr: v4(0x0a14_1e28, 8003),
            tpu_forwards_udp_addr: v4(0xc0a8_0001, 8004),
        })
    );
}

#[test]
fn disconnection_carries_its_addresses() {
    assert_eq!(
        parse_tpu_update(0, 0, 1, u32::from_ne_bytes([0, 0, 0, 9]), 2),
        Some(TpuUpdate {
            is_connected: false,
            tpu_udp_addr: v4(0, 1),
            tpu_forwards_udp_addr: v4(9, 2),
        })
    );
}

#[test]
fn unknown_status_is_no_update() {
    for status in [-1, 2, i32::MIN, i32::MAX] {
        assert_eq!(parse_tpu_update(status, 1, 1, 1, 1), None);
    }
}

#[test]
fn built_update_keeps_addresses_as_they_are() {
    assert_eq!(
        build_tpu_update(1, Ipv4Addr { bits: 0x0102_0304 }, 5, Ipv4Addr { bits: 6 }, 7),
        Some(TpuUpdate {
            is_connected: true,
            tpu_udp_addr: v4(0x0102_0304, 5),
            tpu_forwards_udp_addr: v4(6, 7),
        })
    );
    assert_eq!(build_tpu_update(3, Ipv4Addr { bits: 1 }, 5, Ipv4Addr { bits: 6 }, 7), None);
}

fn with_tpu(tpu_udp_addr: SocketAddr, tpu_forwards_udp_addr: SocketAddr) -> TpuUpdate {
    TpuUpdate { is_connected: true, tpu_udp_addr, tpu_forwards_udp_addr }
}

#[test]
fn only_the_tpu_address_decides_validity() {
    assert!(connected_addrs_valid(&with_tpu(v4(1, 1), v4(0, 0))));
    assert!(!connected_addrs_valid(&with_tpu(v4(1, 0), v4(1, 1))));
    assert!(!connected_addrs_valid(&with_tpu(v4(0, 1), v4(1, 1))));
    assert!(!connected_addrs_valid(&with_tpu(v4(0, 0), v4(1, 1))));
}

#[test]
fn unspecified_v6_address_counts_as_valid() {
    let a = SocketAddr::new(IpAddr::V6(Ipv6Addr { bits: 0 }), 1);
    assert!(connected_addrs_valid(&with_tpu(a, v4(1, 1))));
}
