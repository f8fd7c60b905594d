use quic_h3_emscripten::address::{bind_address_for, select_peer, SocketAddress};

fn v4(a: u8, b: u8, c: u8, d: u8, port: u16) -> SocketAddress {
    SocketAddress::V4 { ip4: u32::from_be_bytes([a, b, c, d]), port }
}

fn v6(last: u128, port: u16) -> SocketAddress {
    SocketAddress::V6 { ip6: 0x2606_4700_0000_0000_0000_0000_0000_0000 | last, port, flowinfo: 0, scope_id: 0 }
}

#[test]
fn select_peer_prefers_first_ipv4() {
    let addrs = vec![v6(1, 443), v4(104, 18, 26, 14, 443), v4(104, 18, 27, 14, 443)];
    assert_eq!(select_peer(&addrs), Some(v4(104, 18, 26, 14, 443)));
}

#[test]
fn select_peer_falls_back_to_first_address() {
    let addrs = vec![v6(7, 443), v6(8, 443)];
    assert_eq!(select_peer(&addrs), Some(v6(7, 443)));
}

#[test]
fn select_peer_of_nothing_is_none() {
    assert_eq!(select_peer(&[]), None);
}

#[test]
fn select_peer_single_ipv4() {
    let addrs = vec![v4(127, 0, 0, 1, 8443)];
    assert_eq!(select_peer(&addrs), Some(v4(127, 0, 0, 1, 8443)));
}

#[test]
fn bind_address_matches_peer_family() {
    assert_eq!(bind_address_for(&v4(1, 2, 3, 4, 443)), "0.0.0.0:0");
    assert_eq!(bind_address_for(&v6(1, 443)), "[::]:0");
}

#[test]
fn selected_peer_and_bind_address_share_a_family() {
    let addrs = vec![v6(1, 443), v4(10, 0, 0, 1, 443)];
    let peer = select_peer(&addrs).unwrap();
    assert!(peer.is_ipv4());
    assert_eq!(bind_address_for(&peer), "0.0.0.0:0");
    assert_eq!(peer.port(), 443);
}
