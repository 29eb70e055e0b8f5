//! ICE candidate assembly: which local addresses a session offers to the
//! peer, over which protocol and of which kind.
use vstd::prelude::*;

verus! {

/// An IP address as its bits: IPv4 in a `u32`, IPv6 in a `u128`, most
/// significant byte first.
#[derive(Debug, Clone, Copy, PartialEq, Eq, Structural)]
pub enum IpAddress {
    V4(u32),
    V6(u128),
}

#[derive(Debug, Clone, Copy, PartialEq, Eq, Structural)]
pub struct SocketAddress {
    pub ip: IpAddress,
    pub port: u16,
}

#[derive(Debug, Clone, Copy, PartialEq, Eq, Structural)]
pub enum Protocol {
    Udp,
    Tcp,
}

#[derive(Debug, Clone, Copy, PartialEq, Eq, Structural)]
pub enum CandidateKind {
    Host,
    /// An address as seen from outside, reached through `base`.
    ServerReflexive { base: SocketAddress },
}

#[derive(Debug, Clone, Copy, PartialEq, Eq, Structural)]
pub struct Candidate {
    pub addr: SocketAddress,
    pub protocol: Protocol,
    pub kind: CandidateKind,
}

/// Addresses not offered as host candidates: loopback and link-local
/// addresses, the unspecified IPv6 address, and IPv6 unique-local ones.
pub open spec fn is_unusable(ip: IpAddress) -> bool {
    match ip {
        IpAddress::V4(a) => a >> 24u32 == 127 || a >> 16u32 == 0xa9fe,
        IpAddress::V6(a) => a == 0 || a == 1 || a >> 121u128 == 0x7e || a >> 118u128 == 0x3fa,
    }
}

/// Whether `ip` is left out of the host candidates.
pub fn is_bad_ip(ip: IpAddress) -> (r: bool)
    ensures
        r == is_unusable(ip),
{
    match ip {
        IpAddress::V4(a) => a >> 24u32 == 127 || a >> 16u32 == 0xa9fe,
        IpAddress::V6(a) => a == 0 || a == 1 || a >> 121u128 == 0x7e || a >> 118u128 == 0x3fa,
    }
}

/// The interface addresses that are offered.
pub open spec fn usable(ips: Seq<IpAddress>) -> Seq<IpAddress>
    decreases ips.len(),
{
    if ips.len() == 0 {
        Seq::empty()
    } else if is_unusable(ips.last()) {
        usable(ips.drop_last())
    } else {
        usable(ips.drop_last()).push(ips.last())
    }
}

pub open spec fn hosts(ips: Seq<IpAddress>, port: u16, protocol: Protocol) -> Seq<Candidate> {
    ips.map_values(
        |ip: IpAddress|
            Candidate { addr: SocketAddress { ip, port }, protocol, kind: CandidateKind::Host },
    )
}

pub open spec fn reflexive(addr: SocketAddress, base: SocketAddress, protocol: Protocol) -> Candidate {
    Candidate { addr, protocol, kind: CandidateKind::ServerReflexive { base } }
}

/// Where a session is reachable, as found out before it starts.
#[derive(Debug, Clone, Copy, PartialEq, Eq, Structural)]
pub struct Reachability {
    /// Port of the session's UDP socket.
    pub udp_port: u16,
    /// Port of the session's TCP listener.
    pub tcp_port: u16,
    /// The local address of the preferred outbound route.
    pub base_ip: IpAddress,
    /// The UDP socket's address as a STUN server saw it, if it answered.
    pub udp_mapped: Option<SocketAddress>,
    /// Whether the TCP port is to be opened on the gateway by UPnP.
    pub tcp_upnp: bool,
    /// The gateway's mapping of the TCP port, if UPnP gave one.
    pub tcp_mapping: Option<SocketAddress>,
}

/// The reflexive TCP candidate: the gateway's mapping when UPnP is used,
/// else the UDP reflexive address with the local TCP port, taken as open.
pub open spec fn tcp_reflexive(r: Reachability) -> Seq<Candidate> {
    let base = SocketAddress { ip: r.base_ip, port: r.tcp_port };
    if r.tcp_upnp {
        match r.tcp_mapping {
            Some(m) => seq![reflexive(m, base, Protocol::Tcp)],
            None => Seq::empty(),
        }
    } else {
        match r.udp_mapped {
            Some(m) => seq![
                reflexive(SocketAddress { ip: m.ip, port: r.tcp_port }, base, Protocol::Tcp),
            ],
            None => Seq::empty(),
        }
    }
}

/// All candidates, in order: a UDP host candidate per usable interface
/// address, the UDP reflexive one, a TCP host candidate per usable
/// address, the TCP reflexive one.
pub open spec fn planned(ips: Seq<IpAddress>, r: Reachability) -> Seq<Candidate> {
    let good = usable(ips);
    let udp_reflexive = match r.udp_mapped {
        Some(m) => seq![
            reflexive(m, SocketAddress { ip: r.base_ip, port: r.udp_port }, Protocol::Udp),
        ],
        None => Seq::empty(),
    };
    hosts(good, r.udp_port, Protocol::Udp) + udp_reflexive + hosts(good, r.tcp_port, Protocol::Tcp)
        + tcp_reflexive(r)
}

/// The candidate set's invariant: with a usable interface address there is
/// a host candidate for each protocol; the UDP reflexive candidate is there
/// only when STUN answered; and a TCP reflexive one only when UPnP mapped
/// the port or, without UPnP, when STUN answered.
pub proof fn lemma_candidate_set(ips: Seq<IpAddress>, r: Reachability)
    ensures
        usable(ips).len() > 0 ==> (exists|i: int|
            0 <= i < planned(ips, r).len() && #[trigger] planned(ips, r)[i].kind == CandidateKind::Host
                && planned(ips, r)[i].protocol == Protocol::Udp),
        usable(ips).len() > 0 ==> (exists|i: int|
            0 <= i < planned(ips, r).len() && #[trigger] planned(ips, r)[i].kind == CandidateKind::Host
                && planned(ips, r)[i].protocol == Protocol::Tcp),
        forall|i: int|
            0 <= i < planned(ips, r).len() && #[trigger] planned(ips, r)[i].kind
                != CandidateKind::Host && planned(ips, r)[i].protocol == Protocol::Udp
                ==> r.udp_mapped is Some,
        forall|i: int|
            0 <= i < planned(ips, r).len() && #[trigger] planned(ips, r)[i].kind
                != CandidateKind::Host && planned(ips, r)[i].protocol == Protocol::Tcp
                ==> (if r.tcp_upnp {
                r.tcp_mapping is Some
            } else {
                r.udp_mapped is Some
            }),
{
    let good = usable(ips);
    let u = hosts(good, r.udp_port, Protocol::Udp);
    let refl = match r.udp_mapped {
        Some(m) => seq![
            reflexive(m, SocketAddress { ip: r.base_ip, port: r.udp_port }, Protocol::Udp),
        ],
        None => Seq::empty(),
    };
    let t = hosts(good, r.tcp_port, Protocol::Tcp);
    let tr = tcp_reflexive(r);
    let p = planned(ips, r);
    assert(p == u + refl + t + tr);
    if good.len() > 0 {
        assert(p[0] == u[0]);
        assert(planned(ips, r)[0].kind == CandidateKind::Host && planned(ips, r)[0].protocol
            == Protocol::Udp);
        let k = u.len() + refl.len() as int;
        assert(p[k] == t[0]);
        assert(planned(ips, r)[k].kind == CandidateKind::Host && planned(ips, r)[k].protocol
            == Protocol::Tcp);
    }
    assert forall|i: int|
        0 <= i < p.len() && #[trigger] p[i].kind != CandidateKind::Host && p[i].protocol
            == Protocol::Udp implies r.udp_mapped is Some by {
        if i < u.len() {
            assert(p[i] == u[i]);
        } else if i < u.len() + refl.len() {
        } else if i < u.len() + refl.len() + t.len() {
            assert(p[i] == t[i - u.len() - refl.len()]);
        } else {
            assert(p[i] == tr[i - u.len() - refl.len() - t.len()]);
        }
    }
    assert forall|i: int|
        0 <= i < p.len() && #[trigger] p[i].kind != CandidateKind::Host && p[i].protocol
            == Protocol::Tcp implies (if r.tcp_upnp {
        r.tcp_mapping is Some
    } else {
        r.udp_mapped is Some
    }) by {
        if i < u.len() {
            assert(p[i] == u[i]);
        } else if i < u.len() + refl.len() {
            assert(p[i] == refl[i - u.len()]);
        } else if i < u.len() + refl.len() + t.len() {
            assert(p[i] == t[i - u.len() - refl.len()]);
        } else {
            assert(p[i] == tr[i - u.len() - refl.len() - t.len()]);
        }
    }
}

fn usable_addresses(ips: &Vec<IpAddress>) -> (r: Vec<IpAddress>)
    ensures
        r@ == usable(ips@),
{
    let mut out: Vec<IpAddress> = Vec::new();
    let mut i: usize = 0;
    while i < ips.len()
        invariant
            0 <= i <= ips@.len(),
            out@ == usable(ips@.subrange(0, i as int)),
        decreases ips@.len() - i,
    {
        assert(ips@.subrange(0, i + 1 as int).drop_last() == ips@.subrange(0, i as int));
        if !is_bad_ip(ips[i]) {
            out.push(ips[i]);
        }
        i += 1;
    }
    assert(ips@.subrange(0, ips@.len() as int) == ips@);
    out
}

fn push_hosts(out: &mut Vec<Candidate>, ips: &Vec<IpAddress>, port: u16, protocol: Protocol)
    ensures
        final(out)@ == old(out)@ + hosts(ips@, port, protocol),
{
    let mut i: usize = 0;
    while i < ips.len()
        invariant
            0 <= i <= ips@.len(),
            out@ == old(out)@ + hosts(ips@.subrange(0, i as int), port, protocol),
        decreases ips@.len() - i,
    {
        out.push(
            Candidate {
                addr: SocketAddress { ip: ips[i], port },
                protocol,
                kind: CandidateKind::Host,
            },
        );
        i += 1;
        assert(hosts(ips@.subrange(0, i as int), port, protocol) =~= hosts(
            ips@.subrange(0, i - 1 as int),
            port,
            protocol,
        ).push(
            Candidate {
                addr: SocketAddress { ip: ips@[i - 1], port },
                protocol,
                kind: CandidateKind::Host,
            },
        ));
        assert(out@ =~= old(out)@ + hosts(ips@.subrange(0, i as int), port, protocol));
    }
    assert(ips@.subrange(0, ips@.len() as int) == ips@);
}

/// The candidates a session offers, given its interface addresses and how
/// it can be reached.
pub fn plan_candidates(interfaces: &Vec<IpAddress>, reach: Reachability) -> (r: Vec<Candidate>)
    ensures
        r@ == planned(interfaces@, reach),
{
    let good = usable_addresses(interfaces);
    let mut out: Vec<Candidate> = Vec::new();
    push_hosts(&mut out, &good, reach.udp_port, Protocol::Udp);
    let ghost a = out@;
    if let Some(m) = reach.udp_mapped {
        out.push(
            Candidate {
                addr: m,
                protocol: Protocol::Udp,
                kind: CandidateKind::ServerReflexive {
                    base: SocketAddress { ip: reach.base_ip, port: reach.udp_port },
                },
            },
        );
    }
    let ghost b = out@;
    push_hosts(&mut out, &good, reach.tcp_port, Protocol::Tcp);
    let ghost c = out@;
    let tcp_base = SocketAddress { ip: reach.base_ip, port: reach.tcp_port };
    if reach.tcp_upnp {
        if let Some(m) = reach.tcp_mapping {
            out.push(
                Candidate {
                    addr: m,
                    protocol: Protocol::Tcp,
                    kind: CandidateKind::ServerReflexive { base: tcp_base },
                },
            );
        }
    } else if let Some(m) = reach.udp_mapped {
        out.push(
            Candidate {
                addr: SocketAddress { ip: m.ip, port: reach.tcp_port },
                protocol: Protocol::Tcp,
                kind: CandidateKind::ServerReflexive { base: tcp_base },
            },
        );
    }
    proof {
        let udp_reflexive = match reach.udp_mapped {
            Some(m) => seq![
                reflexive(m, SocketAddress { ip: reach.base_ip, port: reach.udp_port }, Protocol::Udp),
            ],
            None => Seq::empty(),
        };
        assert(b =~= a + udp_reflexive);
        assert(out@ =~= c + tcp_reflexive(reach));
        assert(out@ =~= planned(interfaces@, reach));
    }
    out
}

/// Whether the NAT is symmetric: two STUN servers, asked from the same
/// socket, saw it at different addresses.
pub fn is_symmetric(first: SocketAddress, second: SocketAddress) -> (r: bool)
    ensures
        r == (first != second),
{
    first != second
}

} // verus!
