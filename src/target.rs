use vstd::prelude::*;

verus! {

/// 2 to the power `n`.
pub open spec fn block_size(n: nat) -> nat
    decreases n,
{
    if n == 0 {
        1
    } else {
        2 * block_size((n - 1) as nat)
    }
}

/// An address network as the address parser reads it: its family, its
/// network (lowest) address, its broadcast (highest) address and its prefix
/// length.
pub struct Cidr {
    pub v4: bool,
    pub network: u128,
    pub broadcast: u128,
    pub prefix_len: u8,
}

/// The number of bits of an address of the family.
pub open spec fn addr_bits(v4: bool) -> nat {
    if v4 {
        32
    } else {
        128
    }
}

impl Cidr {
    pub open spec fn wf(&self) -> bool {
        &&& self.prefix_len <= addr_bits(self.v4)
        &&& self.network <= self.broadcast
        &&& self.broadcast - self.network + 1 == block_size(
            (addr_bits(self.v4) - self.prefix_len) as nat,
        )
        &&& self.v4 ==> self.broadcast < 0x1_0000_0000
    }
}

/// What the CIDR parser gives for a text: `None` when it is no network in
/// CIDR notation, else (IPv4?, network address, broadcast address, prefix length).
pub uninterp spec fn cidr_of(s: Seq<char>) -> Option<(bool, u128, u128, u8)>;

pub open spec fn cidr_view(c: Option<Cidr>) -> Option<(bool, u128, u128, u8)> {
    match c {
        Some(c) => Some((c.v4, c.network, c.broadcast, c.prefix_len)),
        None => None,
    }
}

/// Relies on `<ipnet::IpNet as FromStr>::from_str` to read a network in CIDR
/// notation, and on `network`, `broadcast` and `prefix_len`, which give the
/// address with the host bits cleared, the address with the host bits set,
/// and the prefix length (at most 32 for IPv4, 128 for IPv6).
#[verifier::external_body]
fn parse_cidr(s: &str) -> (r: Option<Cidr>)
    ensures
        cidr_view(r) == cidr_of(s@),
        r is Some ==> r->0.wf(),
{
    match s.parse::<ipnet::IpNet>() {
        Ok(ipnet::IpNet::V4(n)) => Some(Cidr {
            v4: true,
            network: u32::from(n.network()) as u128,
            broadcast: u32::from(n.broadcast()) as u128,
            prefix_len: n.prefix_len(),
        }),
        Ok(ipnet::IpNet::V6(n)) => Some(Cidr {
            v4: false,
            network: u128::from(n.network()),
            broadcast: u128::from(n.broadcast()),
            prefix_len: n.prefix_len(),
        }),
        Err(_) => None,
    }
}

/// Whether the network and broadcast addresses are left out of the hosts of
/// a network: for IPv4 networks with a prefix shorter than 31.
pub open spec fn excludes_ends(v4: bool, prefix_len: u8) -> bool {
    v4 && prefix_len < 31
}

/// The first and the last host address of a parsed network.
pub open spec fn host_bounds(c: (bool, u128, u128, u8)) -> (int, int) {
    if excludes_ends(c.0, c.3) {
        (c.1 + 1, c.2 - 1)
    } else {
        (c.1 as int, c.2 as int)
    }
}

/// The host addresses of a parsed network, in increasing order.
pub open spec fn hosts_of(c: (bool, u128, u128, u8)) -> Seq<int> {
    let (first, last) = host_bounds(c);
    Seq::new((last - first + 1) as nat, |i: int| first + i)
}

/// An address of either family, as an integer.
#[derive(Clone, Copy, Debug, PartialEq, Eq, Structural)]
pub enum HostAddress {
    V4(u32),
    V6(u128),
}

impl HostAddress {
    pub open spec fn value(&self) -> int {
        match self {
            HostAddress::V4(a) => *a as int,
            HostAddress::V6(a) => *a as int,
        }
    }

    pub open spec fn is_v4(&self) -> bool {
        self is V4
    }
}

/// A cursor over the host addresses of a network, lowest first.
pub struct HostRange {
    v4: bool,
    next: u128,
    last: u128,
    done: bool,
}

impl HostRange {
    /// Whether the addresses are IPv4 ones.
    pub closed spec fn family_v4(&self) -> bool {
        self.v4
    }

    /// The addresses not handed out yet.
    pub closed spec fn remaining(&self) -> Seq<int> {
        if self.done {
            Seq::empty()
        } else {
            Seq::new((self.last - self.next + 1) as nat, |i: int| self.next + i)
        }
    }

    pub closed spec fn wf(&self) -> bool {
        &&& self.next <= self.last
        &&& self.v4 ==> self.last < 0x1_0000_0000
    }

    /// Hands out the next host address, if any is left.
    pub fn next_host(&mut self) -> (r: Option<HostAddress>)
        requires
            old(self).wf(),
        ensures
            final(self).wf(),
            final(self).family_v4() == old(self).family_v4(),
            old(self).remaining().len() == 0 ==> r is None && final(self).remaining().len() == 0,
            old(self).remaining().len() > 0 ==> {
                &&& r is Some
                &&& r->0.value() == old(self).remaining()[0]
                &&& r->0.is_v4() == old(self).family_v4()
                &&& final(self).remaining() == old(self).remaining().drop_first()
            },
    {
        if self.done {
            return None;
        }
        let a = self.next;
        let r = if self.v4 {
            HostAddress::V4(a as u32)
        } else {
            HostAddress::V6(a)
        };
        if self.next == self.last {
            self.done = true;
            assert(old(self).remaining().drop_first() =~= Seq::<int>::empty());
        } else {
            self.next = self.next + 1;
            assert(final(self).remaining() =~= old(self).remaining().drop_first());
        }
        Some(r)
    }
}

/// A normalized target after expansion: the hosts of a network, or a literal
/// host name or address to be resolved later.
pub enum Expansion {
    Range(HostRange),
    Literal(String),
}

proof fn lemma_block_size_at_least(n: nat)
    ensures
        block_size(n) >= 1,
        n >= 2 ==> block_size(n) >= 4,
    decreases n,
{
    if n > 0 {
        lemma_block_size_at_least((n - 1) as nat);
        if n >= 2 {
            lemma_block_size_at_least((n - 2) as nat);
        }
    }
}

/// The cursor over the host addresses of a parsed network.
pub fn network_hosts(c: &Cidr) -> (r: HostRange)
    requires
        c.wf(),
    ensures
        r.wf(),
        r.remaining() == hosts_of((c.v4, c.network, c.broadcast, c.prefix_len)),
        r.family_v4() == c.v4,
{
    proof {
        lemma_block_size_at_least((addr_bits(c.v4) - c.prefix_len) as nat);
    }
    let (first, last) = if c.v4 && c.prefix_len < 31 {
        (c.network + 1, c.broadcast - 1)
    } else {
        (c.network, c.broadcast)
    };
    let range = HostRange { v4: c.v4, next: first, last, done: false };
    assert(range.remaining() =~= hosts_of((c.v4, c.network, c.broadcast, c.prefix_len)));
    range
}

/// Expands one target: the host addresses of a network in CIDR notation, or
/// the target itself.
pub fn expand_target(target: String) -> (r: Expansion)
    ensures
        match cidr_of(target@) {
            Some(c) => r is Range && r->Range_0.wf() && r->Range_0.remaining() == hosts_of(c)
                && r->Range_0.family_v4() == c.0,
            None => r is Literal && r->Literal_0@ == target@,
        },
{
    match parse_cidr(target.as_str()) {
        Some(c) => Expansion::Range(network_hosts(&c)),
        None => Expansion::Literal(target),
    }
}

/// An IPv4 network with a prefix shorter than 31 has exactly 2^(32 - prefix)
/// - 2 hosts, none of them its network or its broadcast address.
pub proof fn lemma_hosts_skip_network_and_broadcast(s: Seq<char>, c: (bool, u128, u128, u8))
    requires
        cidr_of(s) == Some(c),
        excludes_ends(c.0, c.3),
        (Cidr { v4: c.0, network: c.1, broadcast: c.2, prefix_len: c.3 }).wf(),
    ensures
        hosts_of(c).len() == block_size((32 - c.3) as nat) - 2,
        forall|i: int|
            0 <= i < hosts_of(c).len() ==> {
                &&& #[trigger] hosts_of(c)[i] != c.1
                &&& hosts_of(c)[i] != c.2
            },
{
    lemma_block_size_at_least((32 - c.3) as nat);
}

} // verus!
