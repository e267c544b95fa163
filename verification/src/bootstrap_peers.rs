//! The VPS nodes that bootstrap gossip-first peer discovery.
//!
//! saorsa-1 is the relay and NAT traversal coordinator; saorsa-2 to saorsa-9
//! are bootstrap peers and the backbone of the gossip network. Addresses are
//! held as plain octets and segments; [`SocketAddress`] and [`IpAddress`]
//! mirror `std::net::SocketAddr` and `std::net::IpAddr`.

use vstd::prelude::*;
use crate::text::str_eq;

verus! {

/// An IP address: four octets or eight 16-bit segments.
#[derive(Debug, Clone, Copy)]
pub enum IpAddress {
    /// IPv4.
    V4([u8; 4]),
    /// IPv6.
    V6([u16; 8]),
}

/// An IP address with a port.
#[derive(Debug, Clone, Copy)]
pub enum SocketAddress {
    /// IPv4 address and port.
    V4([u8; 4], u16),
    /// IPv6 address and port.
    V6([u16; 8], u16),
}

/// A bootstrap peer with its addresses and capabilities.
#[derive(Debug, Clone, Copy)]
pub struct BootstrapPeer {
    /// Name, such as `saorsa-2`.
    pub name: &'static str,
    /// IPv4 address.
    pub ipv4: [u8; 4],
    /// IPv6 address, if it has one.
    pub ipv6: Option<[u16; 8]>,
    /// QUIC port.
    pub port: u16,
    /// Whether it relays.
    pub is_relay: bool,
    /// Whether it coordinates NAT traversal.
    pub is_coordinator: bool,
}

/// Mathematical value of a [`BootstrapPeer`].
pub struct BootstrapPeerView {
    pub name: Seq<char>,
    pub ipv4: Seq<u8>,
    pub ipv6: Option<Seq<u16>>,
    pub port: u16,
    pub is_relay: bool,
    pub is_coordinator: bool,
}

impl View for BootstrapPeer {
    type V = BootstrapPeerView;

    open spec fn view(&self) -> BootstrapPeerView {
        BootstrapPeerView {
            name: self.name@,
            ipv4: self.ipv4@,
            ipv6: match self.ipv6 {
                Some(a) => Some(a@),
                None => None,
            },
            port: self.port,
            is_relay: self.is_relay,
            is_coordinator: self.is_coordinator,
        }
    }
}

/// Views of a sequence of peers.
pub open spec fn peer_views(s: Seq<BootstrapPeer>) -> Seq<BootstrapPeerView> {
    s.map_values(|p: BootstrapPeer| p@)
}

/// The VPS bootstrap peers, saorsa-1 to saorsa-9.
pub open spec fn bootstrap_table() -> Seq<BootstrapPeerView> {
    seq![
        BootstrapPeerView { name: "saorsa-1"@, ipv4: seq![77u8, 42u8, 75u8, 115u8], ipv6: None, port: 9000, is_relay: true, is_coordinator: true },
        BootstrapPeerView { name: "saorsa-2"@, ipv4: seq![142u8, 93u8, 199u8, 50u8], ipv6: None, port: 9000, is_relay: false, is_coordinator: true },
        BootstrapPeerView { name: "saorsa-3"@, ipv4: seq![147u8, 182u8, 234u8, 192u8], ipv6: Some(seq![0x2604u16, 0xa880u16, 0x0004u16, 0x01d0u16, 0x0000u16, 0x0001u16, 0x6ba1u16, 0xf000u16]), port: 9000, is_relay: false, is_coordinator: true },
        BootstrapPeerView { name: "saorsa-4"@, ipv4: seq![206u8, 189u8, 7u8, 117u8], ipv6: Some(seq![0x2a03u16, 0xb0c0u16, 0x0002u16, 0x00f0u16, 0x0000u16, 0x0001u16, 0x26a1u16, 0x8001u16]), port: 9000, is_relay: false, is_coordinator: true },
        BootstrapPeerView { name: "saorsa-5"@, ipv4: seq![144u8, 126u8, 230u8, 161u8], ipv6: None, port: 9000, is_relay: false, is_coordinator: true },
        BootstrapPeerView { name: "saorsa-6"@, ipv4: seq![65u8, 21u8, 157u8, 229u8], ipv6: None, port: 9000, is_relay: false, is_coordinator: true },
        BootstrapPeerView { name: "saorsa-7"@, ipv4: seq![116u8, 203u8, 101u8, 172u8], ipv6: None, port: 9000, is_relay: false, is_coordinator: true },
        BootstrapPeerView { name: "saorsa-8"@, ipv4: seq![149u8, 28u8, 156u8, 231u8], ipv6: None, port: 9000, is_relay: false, is_coordinator: true },
        BootstrapPeerView { name: "saorsa-9"@, ipv4: seq![45u8, 77u8, 176u8, 184u8], ipv6: None, port: 9000, is_relay: false, is_coordinator: true },
    ]
}

/// The IPv4 socket address of a peer.
pub open spec fn v4_address(p: BootstrapPeerView) -> (Seq<u8>, u16) {
    (p.ipv4, p.port)
}

/// The socket addresses of a peer: IPv4, then IPv6 where it has one.
pub open spec fn peer_addresses(p: BootstrapPeerView) -> Seq<SocketAddressView> {
    match p.ipv6 {
        Some(a) => seq![SocketAddressView::V4(p.ipv4, p.port), SocketAddressView::V6(a, p.port)],
        None => seq![SocketAddressView::V4(p.ipv4, p.port)],
    }
}

/// Mathematical value of a [`SocketAddress`].
pub enum SocketAddressView {
    V4(Seq<u8>, u16),
    V6(Seq<u16>, u16),
}

impl View for SocketAddress {
    type V = SocketAddressView;

    open spec fn view(&self) -> SocketAddressView {
        match self {
            SocketAddress::V4(a, p) => SocketAddressView::V4(a@, *p),
            SocketAddress::V6(a, p) => SocketAddressView::V6(a@, *p),
        }
    }
}

/// Views of a sequence of socket addresses.
pub open spec fn address_views(s: Seq<SocketAddress>) -> Seq<SocketAddressView> {
    s.map_values(|a: SocketAddress| a@)
}

/// Whether `ip` is an address of a peer of `table`.
pub open spec fn known_ip(table: Seq<BootstrapPeerView>, ip: IpAddress) -> bool {
    exists|i: int| 0 <= i < table.len() && match ip {
        IpAddress::V4(a) => (#[trigger] table[i]).ipv4 == a@,
        IpAddress::V6(a) => table[i].ipv6 == Some(a@),
    }
}

impl BootstrapPeer {
    /// The IPv4 socket address.
    pub fn socket_addr_v4(&self) -> (a: SocketAddress)
        ensures
            a@ == SocketAddressView::V4(self.ipv4@, self.port),
    {
        SocketAddress::V4(self.ipv4, self.port)
    }

    /// The IPv6 socket address, if the peer has one.
    pub fn socket_addr_v6(&self) -> (a: Option<SocketAddress>)
        ensures
            match self.ipv6 {
                Some(ip) => a matches Some(x) && x@ == SocketAddressView::V6(ip@, self.port),
                None => a is None,
            },
    {
        match self.ipv6 {
            Some(ip) => Some(SocketAddress::V6(ip, self.port)),
            None => None,
        }
    }

    /// All socket addresses: IPv4, then IPv6 where there is one.
    pub fn all_addrs(&self) -> (r: Vec<SocketAddress>)
        ensures
            address_views(r@) == peer_addresses(self@),
    {
        let mut r: Vec<SocketAddress> = Vec::new();
        r.push(self.socket_addr_v4());
        if let Some(v6) = self.socket_addr_v6() {
            r.push(v6);
        }
        assert(address_views(r@) =~= peer_addresses(self@));
        r
    }
}

/// The VPS bootstrap peers, in order.
pub fn bootstrap_peers() -> (r: Vec<BootstrapPeer>)
    ensures
        peer_views(r@) == bootstrap_table(),
        r@.len() == 9,
{
    let r = vec![
        BootstrapPeer { name: "saorsa-1", ipv4: [77, 42, 75, 115], ipv6: None, port: 9000, is_relay: true, is_coordinator: true },
        BootstrapPeer { name: "saorsa-2", ipv4: [142, 93, 199, 50], ipv6: None, port: 9000, is_relay: false, is_coordinator: true },
        BootstrapPeer { name: "saorsa-3", ipv4: [147, 182, 234, 192], ipv6: Some([0x2604, 0xa880, 0x0004, 0x01d0, 0x0000, 0x0001, 0x6ba1, 0xf000]), port: 9000, is_relay: false, is_coordinator: true },
        BootstrapPeer { name: "saorsa-4", ipv4: [206, 189, 7, 117], ipv6: Some([0x2a03, 0xb0c0, 0x0002, 0x00f0, 0x0000, 0x0001, 0x26a1, 0x8001]), port: 9000, is_relay: false, is_coordinator: true },
        BootstrapPeer { name: "saorsa-5", ipv4: [144, 126, 230, 161], ipv6: None, port: 9000, is_relay: false, is_coordinator: true },
        BootstrapPeer { name: "saorsa-6", ipv4: [65, 21, 157, 229], ipv6: None, port: 9000, is_relay: false, is_coordinator: true },
        BootstrapPeer { name: "saorsa-7", ipv4: [116, 203, 101, 172], ipv6: None, port: 9000, is_relay: false, is_coordinator: true },
        BootstrapPeer { name: "saorsa-8", ipv4: [149, 28, 156, 231], ipv6: None, port: 9000, is_relay: false, is_coordinator: true },
        BootstrapPeer { name: "saorsa-9", ipv4: [45, 77, 176, 184], ipv6: None, port: 9000, is_relay: false, is_coordinator: true },
    ];
    proof {
        reveal_strlit("saorsa-1");
        reveal_strlit("saorsa-2");
        reveal_strlit("saorsa-3");
        reveal_strlit("saorsa-4");
        reveal_strlit("saorsa-5");
        reveal_strlit("saorsa-6");
        reveal_strlit("saorsa-7");
        reveal_strlit("saorsa-8");
        reveal_strlit("saorsa-9");
    }
    assert(peer_views(r@) =~= bootstrap_table());
    r
}

/// Whether two IPv4 addresses are equal.
fn same_v4(a: &[u8; 4], b: &[u8; 4]) -> (r: bool)
    ensures
        r == (a@ == b@),
{
    let r = a[0] == b[0] && a[1] == b[1] && a[2] == b[2] && a[3] == b[3];
    if r {
        assert(a@ =~= b@);
    }
    r
}

/// Whether two IPv6 addresses are equal.
fn same_v6(a: &[u16; 8], b: &[u16; 8]) -> (r: bool)
    ensures
        r == (a@ == b@),
{
    let r = a[0] == b[0] && a[1] == b[1] && a[2] == b[2] && a[3] == b[3]
        && a[4] == b[4] && a[5] == b[5] && a[6] == b[6] && a[7] == b[7];
    if r {
        assert(a@ =~= b@);
    }
    r
}

/// The IPv4 socket addresses of the bootstrap peers, in order.
pub fn bootstrap_addrs_v4() -> (r: Vec<SocketAddress>)
    ensures
        address_views(r@) == bootstrap_table().map_values(|p: BootstrapPeerView| SocketAddressView::V4(p.ipv4, p.port)),
{
    let peers = bootstrap_peers();
    let ghost t = bootstrap_table();
    let mut r: Vec<SocketAddress> = Vec::new();
    let mut i: usize = 0;
    while i < peers.len()
        invariant
            peer_views(peers@) == t,
            t == bootstrap_table(),
            0 <= i <= peers@.len(),
            address_views(r@) == t.take(i as int).map_values(|p: BootstrapPeerView| SocketAddressView::V4(p.ipv4, p.port)),
        decreases peers@.len() - i,
    {
        let ghost before = r@;
        assert(peers@[i as int]@ == t[i as int]);
        r.push(peers[i].socket_addr_v4());
        assert(address_views(r@) =~= address_views(before).push(SocketAddressView::V4(t[i as int].ipv4, t[i as int].port)));
        assert(t.take(i + 1) =~= t.take(i as int).push(t[i as int]));
        i = i + 1;
    }
    assert(t.take(peers@.len() as int) =~= t);
    r
}

/// The addresses of `table`, peer by peer.
pub open spec fn table_addresses(table: Seq<BootstrapPeerView>) -> Seq<SocketAddressView>
    decreases table.len(),
{
    if table.len() == 0 {
        Seq::empty()
    } else {
        table_addresses(table.drop_last()) + peer_addresses(table.last())
    }
}

/// All addresses of the bootstrap peers: each peer's IPv4 address, then
/// its IPv6 address where it has one.
pub fn bootstrap_addrs_all() -> (r: Vec<SocketAddress>)
    ensures
        address_views(r@) == table_addresses(bootstrap_table()),
{
    let peers = bootstrap_peers();
    let ghost t = bootstrap_table();
    let mut r: Vec<SocketAddress> = Vec::new();
    let mut i: usize = 0;
    assert(t.take(0) =~= Seq::<BootstrapPeerView>::empty());
    assert(address_views(r@) =~= Seq::<SocketAddressView>::empty());
    while i < peers.len()
        invariant
            peer_views(peers@) == t,
            0 <= i <= peers@.len(),
            address_views(r@) == table_addresses(t.take(i as int)),
        decreases peers@.len() - i,
    {
        let ghost before = address_views(r@);
        assert(peers@[i as int]@ == t[i as int]);
        let mut more = peers[i].all_addrs();
        let ghost added = address_views(more@);
        r.append(&mut more);
        assert(address_views(r@) =~= before + added);
        assert(t.take(i + 1).drop_last() =~= t.take(i as int));
        assert(t.take(i + 1).last() == t[i as int]);
        i = i + 1;
    }
    assert(t.take(peers@.len() as int) =~= t);
    r
}

/// The primary relay, saorsa-1.
pub fn relay_node() -> (p: BootstrapPeer)
    ensures
        p@ == bootstrap_table()[0],
{
    let peers = bootstrap_peers();
    assert(peers@[0]@ == bootstrap_table()[0]);
    peers[0]
}

/// The predicate "coordinates NAT traversal".
pub open spec fn coordinates() -> spec_fn(BootstrapPeerView) -> bool {
    |p: BootstrapPeerView| p.is_coordinator
}

/// The bootstrap peers that coordinate NAT traversal, in order.
pub fn coordinator_nodes() -> (r: Vec<BootstrapPeer>)
    ensures
        peer_views(r@) == bootstrap_table().filter(coordinates()),
{
    let peers = bootstrap_peers();
    let ghost t = bootstrap_table();
    let mut r: Vec<BootstrapPeer> = Vec::new();
    let mut i: usize = 0;
    assert(t.take(0) =~= Seq::<BootstrapPeerView>::empty());
    while i < peers.len()
        invariant
            peer_views(peers@) == t,
            0 <= i <= peers@.len(),
            peer_views(r@) == t.take(i as int).filter(coordinates()),
        decreases peers@.len() - i,
    {
        let ghost before = r@;
        assert(peers@[i as int]@ == t[i as int]);
        assert(t.take(i + 1) =~= t.take(i as int).push(t[i as int]));
        proof { t.take(i as int).lemma_filter_push(t[i as int], coordinates()); }
        if peers[i].is_coordinator {
            r.push(peers[i]);
            assert(peer_views(r@) =~= peer_views(before).push(t[i as int]));
        }
        i = i + 1;
    }
    assert(t.take(peers@.len() as int) =~= t);
    r
}

/// Whether `addr` is the address of a bootstrap peer.
pub fn is_vps_ip(addr: &IpAddress) -> (r: bool)
    ensures
        r == known_ip(bootstrap_table(), *addr),
{
    let peers = bootstrap_peers();
    let ghost t = bootstrap_table();
    let mut i: usize = 0;
    while i < peers.len()
        invariant
            peer_views(peers@) == t,
            t == bootstrap_table(),
            0 <= i <= peers@.len(),
            forall|j: int| 0 <= j < i ==> !(match *addr {
                IpAddress::V4(a) => (#[trigger] t[j]).ipv4 == a@,
                IpAddress::V6(a) => t[j].ipv6 == Some(a@),
            }),
        decreases peers@.len() - i,
    {
        assert(peers@[i as int]@ == t[i as int]);
        let p = &peers[i];
        let hit = match addr {
            IpAddress::V4(a) => same_v4(&p.ipv4, a),
            IpAddress::V6(a) => match &p.ipv6 {
                Some(b) => same_v6(b, a),
                None => false,
            },
        };
        if hit {
            assert(match *addr {
                IpAddress::V4(a) => t[i as int].ipv4 == a@,
                IpAddress::V6(a) => t[i as int].ipv6 == Some(a@),
            });
            return true;
        }
        i = i + 1;
    }
    false
}

/// The IP address of a socket address.
pub open spec fn ip_of(addr: SocketAddress) -> IpAddress {
    match addr {
        SocketAddress::V4(a, _) => IpAddress::V4(a),
        SocketAddress::V6(a, _) => IpAddress::V6(a),
    }
}

/// Whether `addr` has the IP address of a bootstrap peer (any port).
pub fn is_vps_addr(addr: &SocketAddress) -> (r: bool)
    ensures
        r == known_ip(bootstrap_table(), ip_of(*addr)),
{
    let ip = match addr {
        SocketAddress::V4(a, _) => IpAddress::V4(*a),
        SocketAddress::V6(a, _) => IpAddress::V6(*a),
    };
    is_vps_ip(&ip)
}

/// The bootstrap peer named `name`, if there is one.
pub fn get_peer_by_name(name: &str) -> (r: Option<BootstrapPeer>)
    ensures
        match r {
            Some(p) => exists|i: int| 0 <= i < bootstrap_table().len() && bootstrap_table()[i] == p@
                && p@.name == name@ && forall|j: int| 0 <= j < i ==> (#[trigger] bootstrap_table()[j]).name != name@,
            None => forall|j: int| 0 <= j < bootstrap_table().len() ==> (#[trigger] bootstrap_table()[j]).name != name@,
        },
{
    let peers = bootstrap_peers();
    let ghost t = bootstrap_table();
    let mut i: usize = 0;
    while i < peers.len()
        invariant
            peer_views(peers@) == t,
            t == bootstrap_table(),
            0 <= i <= peers@.len(),
            forall|j: int| 0 <= j < i ==> (#[trigger] t[j]).name != name@,
        decreases peers@.len() - i,
    {
        assert(peers@[i as int]@ == t[i as int]);
        if str_eq(peers[i].name, name) {
            return Some(peers[i]);
        }
        i = i + 1;
    }
    None
}

/// Every bootstrap peer listens on port 9000 and coordinates NAT
/// traversal, and saorsa-1, the first, is the only relay; so the
/// coordinators are all the peers.
pub proof fn lemma_bootstrap_roles()
    ensures
        forall|i: int| 0 <= i < bootstrap_table().len() ==> (#[trigger] bootstrap_table()[i]).port == 9000
            && bootstrap_table()[i].is_coordinator
            && (bootstrap_table()[i].is_relay <==> i == 0),
        bootstrap_table().filter(coordinates()) == bootstrap_table(),
        bootstrap_table()[0].name == "saorsa-1"@,
{
    let t = bootstrap_table();
    lemma_filter_keeps_all(t);
}

/// Filtering peers that all coordinate keeps them all.
proof fn lemma_filter_keeps_all(t: Seq<BootstrapPeerView>)
    requires
        forall|i: int| 0 <= i < t.len() ==> (#[trigger] t[i]).is_coordinator,
    ensures
        t.filter(coordinates()) == t,
    decreases t.len(),
{
    if t.len() > 0 {
        let init = t.drop_last();
        lemma_filter_keeps_all(init);
        init.lemma_filter_push(t.last(), coordinates());
        assert(init.push(t.last()) =~= t);
    } else {
        reveal(Seq::filter);
        assert(t.filter(coordinates()) =~= t);
    }
}

} // verus!
