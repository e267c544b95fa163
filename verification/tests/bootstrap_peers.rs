use saorsa_quic_test::bootstrap_peers::{
    bootstrap_addrs_all, bootstrap_addrs_v4, bootstrap_peers, coordinator_nodes, get_peer_by_name, is_vps_addr,
    is_vps_ip, relay_node, IpAddress, SocketAddress,
};

#[test]
fn test_bootstrap_peers_count() {
    assert_eq!(bootstrap_peers().len(), 9, "Should have 9 VPS bootstrap peers");
}

#[test]
fn test_relay_node() {
    let relay = relay_node();
    assert_eq!(relay.name, "saorsa-1");
    assert!(relay.is_relay);
}

#[test]
fn test_vps_ip_detection() {
    let saorsa1_ip = IpAddress::V4([77, 42, 75, 115]);
    assert!(is_vps_ip(&saorsa1_ip));

    let random_ip = IpAddress::V4([1, 2, 3, 4]);
    assert!(!is_vps_ip(&random_ip));
}

#[test]
fn test_bootstrap_addrs_v4() {
    let addrs = bootstrap_addrs_v4();
    assert_eq!(addrs.len(), 9);
    assert!(addrs.iter().all(|a| matches!(a, SocketAddress::V4(_, 9000))));
}

#[test]
fn test_coordinator_nodes() {
    let coordinators = coordinator_nodes();
    assert_eq!(coordinators.len(), 9);
}

#[test]
fn test_peer_by_name() {
    let peer = get_peer_by_name("saorsa-5");
    assert!(peer.is_some());
    assert_eq!(peer.unwrap().ipv4, [144, 126, 230, 161]);
}

#[test]
fn ipv6_addresses() {
    let all = bootstrap_addrs_all();
    assert_eq!(all.len(), 11);
    let v6 = IpAddress::V6([0x2604, 0xa880, 0x0004, 0x01d0, 0, 0x0001, 0x6ba1, 0xf000]);
    assert!(is_vps_ip(&v6));
    assert!(!is_vps_ip(&IpAddress::V6([0; 8])));
    assert!(is_vps_addr(&SocketAddress::V4([45, 77, 176, 184], 1)));
    assert!(get_peer_by_name("saorsa-10").is_none());
    let p3 = get_peer_by_name("saorsa-3").unwrap();
    assert_eq!(p3.all_addrs().len(), 2);
    assert!(p3.socket_addr_v6().is_some());
    assert!(relay_node().socket_addr_v6().is_none());
}
