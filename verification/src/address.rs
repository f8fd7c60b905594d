//! Socket addresses and the choice of which resolved peer to dial.

use vstd::prelude::*;

verus! {

/// A socket address, as the resolver hands it over: an IPv4 address (its four
/// octets, most significant first, as one number) and port, or an IPv6 address
/// (its sixteen octets as one number), port, flow information and scope id.
#[derive(Clone, Copy, Debug, PartialEq, Eq, Structural)]
pub enum SocketAddress {
    V4 { ip4: u32, port: u16 },
    V6 { ip6: u128, port: u16, flowinfo: u32, scope_id: u32 },
}

impl SocketAddress {
    /// Whether this is an IPv4 address.
    pub fn is_ipv4(&self) -> (r: bool)
        ensures
            r == (*self is V4),
    {
        match self {
            SocketAddress::V4 { .. } => true,
            SocketAddress::V6 { .. } => false,
        }
    }

    /// The port of the address.
    pub fn port(&self) -> (r: u16)
        ensures
            r == self.spec_port(),
    {
        match self {
            SocketAddress::V4 { port, .. } => *port,
            SocketAddress::V6 { port, .. } => *port,
        }
    }

    pub open spec fn spec_port(&self) -> u16 {
        match self {
            SocketAddress::V4 { port, .. } => *port,
            SocketAddress::V6 { port, .. } => *port,
        }
    }
}

/// `i` is the position of the first IPv4 address in `addrs`.
pub open spec fn is_first_ipv4(addrs: Seq<SocketAddress>, i: int) -> bool {
    &&& 0 <= i < addrs.len()
    &&& addrs[i] is V4
    &&& forall|j: int| 0 <= j < i ==> !(#[trigger] addrs[j] is V4)
}

/// Whether `addrs` holds an IPv4 address.
pub open spec fn has_ipv4(addrs: Seq<SocketAddress>) -> bool {
    exists|i: int| 0 <= i < addrs.len() && #[trigger] addrs[i] is V4
}

/// The peer to dial among the resolved addresses: the first IPv4 address if
/// there is one, else the first address, else none.
pub open spec fn spec_select_peer(addrs: Seq<SocketAddress>) -> Option<SocketAddress> {
    if has_ipv4(addrs) {
        Some(addrs[choose|i: int| is_first_ipv4(addrs, i)])
    } else if addrs.len() > 0 {
        Some(addrs[0])
    } else {
        None
    }
}

/// Proves that the first IPv4 position is unique, and exists when an IPv4
/// address does.
pub proof fn lemma_first_ipv4(addrs: Seq<SocketAddress>)
    ensures
        has_ipv4(addrs) ==> exists|i: int| is_first_ipv4(addrs, i),
        forall|i: int, k: int| is_first_ipv4(addrs, i) && is_first_ipv4(addrs, k) ==> i == k,
    decreases addrs.len(),
{
    if addrs.len() > 0 {
        let rest = addrs.drop_first();
        lemma_first_ipv4(rest);
        if has_ipv4(addrs) {
            if addrs[0] is V4 {
                assert(is_first_ipv4(addrs, 0));
            } else {
                let w = choose|i: int| 0 <= i < addrs.len() && #[trigger] addrs[i] is V4;
                assert(rest[w - 1] is V4);
                assert(has_ipv4(rest));
                let k = choose|k: int| is_first_ipv4(rest, k);
                assert forall|j: int| 0 <= j < k + 1 implies !(#[trigger] addrs[j] is V4) by {
                    if j > 0 {
                        assert(addrs[j] == rest[j - 1]);
                    }
                }
                assert(is_first_ipv4(addrs, k + 1));
            }
        }
    }
}

/// Picks the peer to dial: the first IPv4 address of `addrs` if any, otherwise
/// the first address; `None` when `addrs` is empty.
pub fn select_peer(addrs: &[SocketAddress]) -> (r: Option<SocketAddress>)
    ensures
        r == spec_select_peer(addrs@),
        r is None <==> addrs@.len() == 0,
        r matches Some(a) ==> addrs@.contains(a),
        r matches Some(a) ==> (a is V4 <==> has_ipv4(addrs@)),
{
    proof {
        lemma_first_ipv4(addrs@);
    }
    let n = addrs.len();
    let mut i: usize = 0;
    while i < n
        invariant
            n == addrs@.len(),
            i <= n,
            forall|j: int| 0 <= j < i ==> !(#[trigger] addrs@[j] is V4),
        decreases n - i,
    {
        if addrs[i].is_ipv4() {
            assert(is_first_ipv4(addrs@, i as int));
            return Some(addrs[i]);
        }
        i = i + 1;
    }
    if n > 0 {
        assert(addrs@.contains(addrs@[0]));
        Some(addrs[0])
    } else {
        None
    }
}

/// The local address to bind the UDP socket to: the unspecified address of
/// the peer's family, with an ephemeral port.
pub fn bind_address_for(peer: &SocketAddress) -> (r: &'static str)
    ensures
        peer is V4 ==> r@ == "0.0.0.0:0"@,
        peer is V6 ==> r@ == "[::]:0"@,
{
    if peer.is_ipv4() {
        "0.0.0.0:0"
    } else {
        "[::]:0"
    }
}

} // verus!
