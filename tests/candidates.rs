use tenebra::candidates::{
    is_bad_ip, is_symmetric, plan_candidates, Candidate, CandidateKind, IpAddress, Protocol,
    Reachability, SocketAddress,
};

fn v4(a: u8, b: u8, c: u8, d: u8) -> IpAddress {
    IpAddress::V4(u32::from_be_bytes([a, b, c, d]))
}

/// An IPv6 address from its first 16-bit group and its last one.
fn v6(first: u16, last: u16) -> IpAddress {
    IpAddress::V6(((first as u128) << 112) | last as u128)
}

#[test]
fn unusable_addresses() {
    assert!(is_bad_ip(v4(127, 0, 0, 1)));
    assert!(is_bad_ip(v4(169, 254, 3, 4)));
    assert!(!is_bad_ip(v4(192, 168, 1, 2)));
    assert!(!is_bad_ip(v4(10, 0, 0, 1)));
    assert!(is_bad_ip(v6(0, 1)));
    assert!(is_bad_ip(v6(0, 0)));
    assert!(is_bad_ip(v6(0xfd12, 1)));
    assert!(is_bad_ip(v6(0xfc00, 1)));
    assert!(is_bad_ip(v6(0xfe80, 1)));
    assert!(!is_bad_ip(v6(0x2001, 1)));
}

#[test]
fn candidates_include_udp_host_reflexive_and_tcp_host() {
    let interfaces = vec![v4(127, 0, 0, 1), v4(192, 168, 1, 2), v6(0xfe80, 1), v6(0x2001, 5)];
    let mapped = SocketAddress { ip: v4(203, 0, 113, 9), port: 40000 };
    let reach = Reachability {
        udp_port: 5000,
        tcp_port: 6000,
        base_ip: v4(192, 168, 1, 2),
        udp_mapped: Some(mapped),
        tcp_upnp: false,
        tcp_mapping: None,
    };
    let c = plan_candidates(&interfaces, reach);
    let udp_base = SocketAddress { ip: v4(192, 168, 1, 2), port: 5000 };
    let tcp_base = SocketAddress { ip: v4(192, 168, 1, 2), port: 6000 };
    let host = |ip, port, protocol| Candidate {
        addr: SocketAddress { ip, port },
        protocol,
        kind: CandidateKind::Host,
    };
    assert_eq!(
        c,
        vec![
            host(v4(192, 168, 1, 2), 5000, Protocol::Udp),
            host(v6(0x2001, 5), 5000, Protocol::Udp),
            Candidate { addr: mapped, protocol: Protocol::Udp, kind: CandidateKind::ServerReflexive { base: udp_base } },
            host(v4(192, 168, 1, 2), 6000, Protocol::Tcp),
            host(v6(0x2001, 5), 6000, Protocol::Tcp),
            Candidate {
                addr: SocketAddress { ip: v4(203, 0, 113, 9), port: 6000 },
                protocol: Protocol::Tcp,
                kind: CandidateKind::ServerReflexive { base: tcp_base },
            },
        ]
    );
}

#[test]
fn upnp_decides_the_tcp_reflexive_candidate() {
    let interfaces = vec![v4(10, 0, 0, 2)];
    let mut reach = Reachability {
        udp_port: 1,
        tcp_port: 2,
        base_ip: v4(10, 0, 0, 2),
        udp_mapped: Some(SocketAddress { ip: v4(198, 51, 100, 1), port: 3 }),
        tcp_upnp: true,
        tcp_mapping: None,
    };
    let c = plan_candidates(&interfaces, reach);
    assert_eq!(c.len(), 3);
    assert!(c.iter().all(|x| !(x.protocol == Protocol::Tcp && x.kind != CandidateKind::Host)));
    let global = SocketAddress { ip: v4(198, 51, 100, 1), port: 4444 };
    reach.tcp_mapping = Some(global);
    let c = plan_candidates(&interfaces, reach);
    assert_eq!(c.len(), 4);
    assert_eq!(c[3].addr, global);
    assert_eq!(c[3].protocol, Protocol::Tcp);
}

#[test]
fn no_stun_answer_means_no_udp_reflexive_candidate() {
    let reach = Reachability {
        udp_port: 1,
        tcp_port: 2,
        base_ip: v4(10, 0, 0, 2),
        udp_mapped: None,
        tcp_upnp: false,
        tcp_mapping: None,
    };
    let c = plan_candidates(&vec![v4(10, 0, 0, 2)], reach);
    assert_eq!(c.len(), 2);
    assert!(c.iter().all(|x| x.kind == CandidateKind::Host));
}

#[test]
fn symmetric_nat_is_two_different_mappings() {
    let a = SocketAddress { ip: v4(1, 2, 3, 4), port: 5 };
    let b = SocketAddress { ip: v4(1, 2, 3, 4), port: 6 };
    assert!(!is_symmetric(a, a));
    assert!(is_symmetric(a, b));
}
